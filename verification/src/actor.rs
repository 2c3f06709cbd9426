//! Actors in the overworld and their creation
use vstd::prelude::*;

use crate::cir::{spec_is_equipment, ActorName, ItemMatchSpec, ItemNameSpec};
use crate::iv;
use crate::util::{
    modifier_meta_matches, name_spec_matches, spec_modifier_matches, spec_name_spec_matches,
    spec_type_is_weapon, WeaponModifierInfo,
};

verus! {

/// Simulates an actor in the game
#[derive(Debug, Clone)]
pub struct Actor {
    /// Name of the actor
    pub name: ActorName,
    /// Value for weapons (1 for materials)
    pub value: i32,
    /// Weapon modifier if any, None if not weapon
    pub modifier: Option<WeaponModifierInfo>,
}

/// The view of a modifier: 0, 0 without modifier
pub open spec fn spec_modifier_iv(modifier: Option<WeaponModifierInfo>) -> iv::WeaponModifier {
    match modifier {
        Some(m) => iv::WeaponModifier { flag: m.flags as i32, value: m.value },
        None => iv::WeaponModifier { flag: 0, value: 0 },
    }
}

/// An actor equal to `a`
pub fn copy_name(a: &ActorName) -> (r: ActorName)
    ensures
        r == *a,
{
    ActorName {
        name: a.name.clone(),
        pouch_type: a.pouch_type,
        can_stack: a.can_stack,
        can_use: a.can_use,
        can_sell: a.can_sell,
    }
}

/// Whether the actor is matched by the selector (name, value and weapon modifier meta)
pub open spec fn spec_actor_matches(actor: Actor, matcher: ItemMatchSpec) -> bool {
    &&& spec_name_spec_matches(matcher.name, actor.name)
    &&& matcher.meta matches Some(meta) ==> {
        &&& meta.value matches Some(v) ==> v == actor.value
        &&& meta.life_recover matches Some(v) ==> (actor.modifier matches Some(m) && m.value == v)
        &&& meta.sell_price matches Some(flags) ==> (actor.modifier matches Some(m)
            && spec_modifier_matches(
            match matcher.name {
                ItemNameSpec::Actor(a) => spec_type_is_weapon(a.pouch_type),
                ItemNameSpec::Category(c) => spec_is_equipment(c),
            },
            flags,
            m.flags as i32,
        ))
    }
}

impl Actor {
    /// An actor equal to this one
    pub fn copy(&self) -> (r: Actor)
        ensures
            r == *self,
    {
        Actor { name: copy_name(&self.name), value: self.value, modifier: self.modifier }
    }

    fn modifier_iv(&self) -> (r: iv::WeaponModifier)
        ensures
            r == spec_modifier_iv(self.modifier),
    {
        match self.modifier {
            Some(x) => iv::WeaponModifier { flag: x.flags as i32, value: x.value },
            None => iv::WeaponModifier { flag: 0, value: 0 },
        }
    }

    /// View of the actor equipped on the player
    pub fn to_equipped_iv(&self) -> (r: iv::OverworldItem)
        ensures
            r == (iv::OverworldItem::Equipped {
                actor: self.name.name,
                value: self.value,
                modifier: spec_modifier_iv(self.modifier),
            }),
    {
        iv::OverworldItem::Equipped {
            actor: self.name.name.clone(),
            value: self.value,
            modifier: self.modifier_iv(),
        }
    }

    /// View of the actor as an equipment on the ground
    pub fn to_ground_weapon_iv(&self) -> (r: iv::OverworldItem)
        ensures
            r == (iv::OverworldItem::GroundEquipment {
                actor: self.name.name,
                value: self.value,
                modifier: spec_modifier_iv(self.modifier),
            }),
    {
        iv::OverworldItem::GroundEquipment {
            actor: self.name.name.clone(),
            value: self.value,
            modifier: self.modifier_iv(),
        }
    }

    /// View of the actor held by the player
    pub fn to_held_iv(&self) -> (r: iv::OverworldItem)
        ensures
            r == (iv::OverworldItem::Held { actor: self.name.name }),
    {
        iv::OverworldItem::Held { actor: self.name.name.clone() }
    }

    /// View of the actor as an item on the ground
    pub fn to_ground_item_iv(&self, is_despawning: bool) -> (r: iv::OverworldItem)
        ensures
            r == (iv::OverworldItem::GroundItem {
                actor: self.name.name,
                despawning: is_despawning,
            }),
    {
        iv::OverworldItem::GroundItem { actor: self.name.name.clone(), despawning: is_despawning }
    }

    /// Returns if the overworld actor matches the item selector
    pub fn matches(&self, matcher: &ItemMatchSpec) -> (r: bool)
        ensures
            r == spec_actor_matches(*self, *matcher),
    {
        if !name_spec_matches(&matcher.name, &self.name) {
            return false;
        }
        let meta = match &matcher.meta {
            None => return true,
            Some(m) => m,
        };
        if let Some(wanted_value) = meta.value {
            if wanted_value != self.value {
                return false;
            }
        }
        if let Some(wanted_mod_value) = meta.life_recover {
            match self.modifier {
                None => return false,
                Some(m) => {
                    if m.value != wanted_mod_value {
                        return false;
                    }
                },
            }
        }
        if let Some(wanted_flags) = meta.sell_price {
            match self.modifier {
                None => return false,
                Some(m) => {
                    if !modifier_meta_matches(&matcher.name, wanted_flags, m.flags as i32) {
                        return false;
                    }
                },
            }
        }
        true
    }
}

/// Same as [`Actor`], with the invariant
/// that this represents the actor was successfully spawned.
#[derive(Debug, Clone)]
pub struct SpawnedActor(pub Actor);

impl SpawnedActor {
    /// The spawned actor
    pub fn as_ref(&self) -> (r: &Actor)
        ensures
            *r == self.0,
    {
        &self.0
    }

    /// Take out the actor
    pub fn into_actor(self) -> (r: Actor)
        ensures
            r == self.0,
    {
        self.0
    }
}

/// Simulate creating actors
#[derive(Debug, Clone)]
pub struct ActorCreator {
    /// If actor can be spawned successfully.
    ///
    /// This is used to implement menu overloading.
    pub is_actor_creation_allowed: bool,
}

impl ActorCreator {
    /// Actor creation is allowed by default
    pub fn new() -> (r: ActorCreator)
        ensures
            r.is_actor_creation_allowed,
    {
        ActorCreator { is_actor_creation_allowed: true }
    }

    /// Try spawning the actor, if actor creation is allowed
    pub fn try_spawn(&self, actor: Actor) -> (r: Result<SpawnedActor, Actor>)
        ensures
            self.is_actor_creation_allowed ==> r == Ok::<SpawnedActor, Actor>(SpawnedActor(actor)),
            !self.is_actor_creation_allowed ==> r == Err::<SpawnedActor, Actor>(actor),
    {
        if !self.is_actor_creation_allowed {
            Err(actor)
        } else {
            Ok(SpawnedActor(actor))
        }
    }

    /// Try spawning the actor with a value of 1
    pub fn try_spawn_value_1(&self, name: ActorName) -> (r: Result<SpawnedActor, Actor>)
        ensures
            self.is_actor_creation_allowed ==> r == Ok::<SpawnedActor, Actor>(
                SpawnedActor(Actor { name, value: 1, modifier: None }),
            ),
            !self.is_actor_creation_allowed ==> r == Err::<SpawnedActor, Actor>(
                Actor { name, value: 1, modifier: None },
            ),
    {
        self.try_spawn(Actor { name, value: 1, modifier: None })
    }

    /// Force spawn an actor, for actors already spawned before, or shot arrows
    pub fn force_spawn(&self, actor: Actor) -> (r: SpawnedActor)
        ensures
            r == SpawnedActor(actor),
    {
        SpawnedActor(actor)
    }
}

impl Default for ActorCreator {
    fn default() -> (r: ActorCreator)
        ensures
            r.is_actor_creation_allowed,
    {
        ActorCreator { is_actor_creation_allowed: true }
    }
}

} // verus!
