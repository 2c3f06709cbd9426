//! Simulation of the overworld: equipment on the player, items held by the player,
//! and items on the ground
use std::collections::VecDeque;
use vstd::prelude::*;

use crate::actor::{spec_actor_matches, spec_modifier_iv, Actor, ActorCreator, SpawnedActor};
use crate::cir::{ActorName, Category, ItemMatchSpec, ItemNameSpec, ItemPosition, Span};
use crate::error::{spec_error, spec_warning, ErrorReport, RuntimeError};
use crate::iv;
use crate::memory::{Memory, MemoryError, PouchItemMemory};
use crate::util::{str_eq, WeaponModifierInfo};

verus! {

/// Number of items dropped by the player that can stay on the ground
pub const DROPPED_MATERIAL_LIMIT: usize = 10;

#[derive(Debug, Clone)]
pub struct OverworldSystem {
    /// Creation of actors (fails when the menu is overloaded)
    pub actor_creator: ActorCreator,
    pub weapon: Option<SpawnedActor>,
    pub bow: Option<SpawnedActor>,
    pub shield: Option<SpawnedActor>,
    /// Ground weapons that are scheduled to spawn
    pub spawning_ground_weapons: Vec<Actor>,
    /// Weapons already on the ground
    pub ground_weapons: Vec<SpawnedActor>,
    /// Materials on the ground that aren't dropped by the player
    /// i.e. not subject to despawning
    pub ground_materials: Vec<SpawnedActor>,
    /// Materials on the ground dropped by the player, subject
    /// to despawning from the front of the list if over 10
    pub dropped_materials: VecDeque<SpawnedActor>,
    /// Items held by player in the overworld
    pub holding: Vec<SpawnedActor>,
    /// If currently in the "hold attached" state used for arrowless offset
    pub is_hold_arrowless_smuggle: bool,
}

#[derive(Debug, Clone, Copy, PartialEq, Eq, Structural)]
pub enum OverworldPreDropResult {
    /// No extra clean up needed
    Ready,
    /// Is holding normally, so pre-action-auto-drop is not possible
    Holding,
    /// Is holding attached, so items in the overworld are dropped now,
    /// and items in the inventory must be dropped after the action
    AutoDrop,
}

/// An item on the ground: which list, and the index in that list
#[derive(Debug, Clone, Copy)]
pub enum GroundItemHandle<TSys> {
    Weapon(TSys, usize),
    Material(TSys, usize),
    DroppedMaterial(TSys, usize),
}

impl GroundItemHandle<()> {
    /// Attach the handle to a system
    pub fn bind<TSys>(self, sys: TSys) -> (r: GroundItemHandle<TSys>)
        ensures
            r == match self {
                GroundItemHandle::Weapon(_, i) => GroundItemHandle::Weapon(sys, i),
                GroundItemHandle::Material(_, i) => GroundItemHandle::Material(sys, i),
                GroundItemHandle::DroppedMaterial(_, i) => GroundItemHandle::DroppedMaterial(
                    sys,
                    i,
                ),
            },
    {
        match self {
            GroundItemHandle::Weapon(_, i) => GroundItemHandle::Weapon(sys, i),
            GroundItemHandle::Material(_, i) => GroundItemHandle::Material(sys, i),
            GroundItemHandle::DroppedMaterial(_, i) => GroundItemHandle::DroppedMaterial(sys, i),
        }
    }
}

/// An item equipped in the overworld
#[derive(Debug, Clone, Copy)]
pub enum EquippedItemHandle<TSys> {
    Weapon(TSys),
    Bow(TSys),
    Shield(TSys),
}

impl EquippedItemHandle<()> {
    /// Attach the handle to a system
    pub fn bind<TSys>(self, sys: TSys) -> (r: EquippedItemHandle<TSys>)
        ensures
            r == match self {
                EquippedItemHandle::Weapon(_) => EquippedItemHandle::Weapon(sys),
                EquippedItemHandle::Bow(_) => EquippedItemHandle::Bow(sys),
                EquippedItemHandle::Shield(_) => EquippedItemHandle::Shield(sys),
            },
    {
        match self {
            EquippedItemHandle::Weapon(_) => EquippedItemHandle::Weapon(sys),
            EquippedItemHandle::Bow(_) => EquippedItemHandle::Bow(sys),
            EquippedItemHandle::Shield(_) => EquippedItemHandle::Shield(sys),
        }
    }
}

/// What is left to do in the game after damaging an equipment
#[derive(Debug, Clone, PartialEq, Eq)]
pub enum BreakAction {
    /// Break the Master Sword in the inventory
    BreakMasterSword,
    /// Remove the equipped weapon with this name from the inventory
    RemoveWeapon(String),
}

/// Outcome of damaging an equipment
#[derive(Debug, Clone)]
pub struct EquipmentDamage {
    /// The slot no longer has equipment after use
    pub is_empty: bool,
    /// New value of the equipment to write to the inventory
    pub new_value: Option<i32>,
    /// Inventory update when the equipment broke
    pub break_action: Option<BreakAction>,
}

/// Actors of spawned actors
pub open spec fn spec_actors(s: Seq<SpawnedActor>) -> Seq<Actor> {
    s.map_values(|x: SpawnedActor| x.0)
}

/// Spawned versions of actors
pub open spec fn spec_spawned(s: Seq<Actor>) -> Seq<SpawnedActor> {
    s.map_values(|x: Actor| SpawnedActor(x))
}

pub open spec fn spec_equipped_iv(a: Actor) -> iv::OverworldItem {
    iv::OverworldItem::Equipped { actor: a.name.name, value: a.value, modifier: spec_modifier_iv(a.modifier) }
}

pub open spec fn spec_ground_weapon_iv(a: Actor) -> iv::OverworldItem {
    iv::OverworldItem::GroundEquipment {
        actor: a.name.name,
        value: a.value,
        modifier: spec_modifier_iv(a.modifier),
    }
}

pub open spec fn spec_held_iv(a: Actor) -> iv::OverworldItem {
    iv::OverworldItem::Held { actor: a.name.name }
}

pub open spec fn spec_ground_item_iv(a: Actor, despawning: bool) -> iv::OverworldItem {
    iv::OverworldItem::GroundItem { actor: a.name.name, despawning }
}

/// View of an optional equipment
pub open spec fn spec_opt_equipped_iv(a: Option<SpawnedActor>) -> Seq<iv::OverworldItem> {
    match a {
        Some(x) => seq![spec_equipped_iv(x.0)],
        None => Seq::empty(),
    }
}

/// The dropped materials newest first; all but the newest 10 are despawning
pub open spec fn spec_dropped_ivs(d: Seq<SpawnedActor>) -> Seq<iv::OverworldItem> {
    Seq::new(
        d.len(),
        |i: int| spec_ground_item_iv(d[d.len() - 1 - i].0, i >= DROPPED_MATERIAL_LIMIT),
    )
}

/// Slot of the equipment for a pouch item type (Sword, Bow, Shield)
pub open spec fn spec_is_equipment_type(item_type: i32) -> bool {
    item_type == 0 || item_type == 1 || item_type == 3
}

/// Truncating division by 5
pub open spec fn spec_div5(x: i32) -> i32 {
    if x >= 0 {
        (x / 5) as i32
    } else {
        (-((-x) / 5)) as i32
    }
}

/// `i` is the position of the `nth` (0-indexed) actor in `items` that the selector matches
pub open spec fn spec_is_nth_match(items: Seq<Actor>, m: ItemMatchSpec, nth: nat, i: int) -> bool {
    &&& 0 <= i < items.len()
    &&& spec_actor_matches(items[i], m)
    &&& spec_count_matches(items.take(i), m) == nth
}

/// Number of actors in `items` that the selector matches
pub open spec fn spec_count_matches(items: Seq<Actor>, m: ItemMatchSpec) -> nat
    decreases items.len(),
{
    if items.len() == 0 {
        0
    } else {
        spec_count_matches(items.drop_last(), m) + if spec_actor_matches(items.last(), m) {
            1nat
        } else {
            0nat
        }
    }
}

/// Counting over one more item
pub proof fn lemma_count_matches_step(items: Seq<Actor>, m: ItemMatchSpec, i: int)
    requires
        0 <= i < items.len(),
    ensures
        spec_count_matches(items.take(i + 1), m) == spec_count_matches(items.take(i), m) + if spec_actor_matches(items[i], m) {
            1nat
        } else {
            0nat
        },
{
    assert(items.take(i + 1).drop_last() =~= items.take(i));
}

/// The count of matches grows with the prefix
pub proof fn lemma_count_matches_monotone(items: Seq<Actor>, m: ItemMatchSpec, i: int, j: int)
    requires
        0 <= i <= j <= items.len(),
    ensures
        spec_count_matches(items.take(i), m) <= spec_count_matches(items.take(j), m),
    decreases j - i,
{
    if i < j {
        lemma_count_matches_step(items, m, j - 1);
        lemma_count_matches_monotone(items, m, i, j - 1);
    }
}

/// Meta properties that mean nothing for items on the ground
pub open spec fn spec_has_useless_ground_props(m: ItemMatchSpec) -> bool {
    m.meta matches Some(meta) && (meta.equip is Some || meta.effect_duration is Some
        || meta.effect_id is Some || meta.effect_level is Some || meta.ingredients.len() != 0
        || meta.held is Some)
}

/// Which match to take for a ground selector: `None` when the position is not allowed
pub open spec fn spec_ground_nth(m: ItemMatchSpec) -> Option<nat> {
    match m.meta {
        None => Some(0),
        Some(meta) => match meta.position {
            None => Some(0),
            Some(ItemPosition::FromSlot(n)) => Some(if n == 0 { 0 } else { (n - 1) as nat }),
            Some(_) => None,
        },
    }
}

/// Which match to start counting from for a ground amount
pub open spec fn spec_ground_amount_nth(m: ItemMatchSpec) -> nat {
    match m.meta {
        None => 0,
        Some(meta) => match meta.position {
            Some(ItemPosition::FromSlot(n)) => if n == 0 { 0 } else { (n - 1) as nat },
            _ => 0,
        },
    }
}

/// The actor spawned on the player for an equipment in memory: its name and value, with
/// the modifier of the item (none if the modifier flags are 0)
pub open spec fn spec_equipment_actor(data: PouchItemMemory) -> Actor {
    Actor {
        name: data.name,
        value: data.value,
        modifier: if data.sell_price == 0 {
            None
        } else {
            Some(WeaponModifierInfo { flags: data.sell_price as u32, value: data.health_recover })
        },
    }
}

/// Changing the player equipment to the pouch item at `item`: whether the equipment
/// changed and the new system, or the error reading the item
pub open spec fn spec_change_player_equipment(
    s: OverworldSystem,
    item: u64,
    memory: Memory,
) -> Result<(bool, OverworldSystem), MemoryError> {
    if item == 0 {
        Ok((false, s))
    } else {
        match memory.spec_read(item) {
            None => Err(MemoryError { addr: item }),
            Some(data) => if spec_is_equipment_type(data.item_type)
                && s.actor_creator.is_actor_creation_allowed {
                Ok(
                    (
                        true,
                        s.spec_with_equipped(
                            data.item_type,
                            Some(SpawnedActor(spec_equipment_actor(data))),
                        ),
                    ),
                )
            } else {
                Ok((false, s))
            },
        }
    }
}

impl OverworldSystem {
    /// An empty overworld where actors can be created
    pub fn new() -> (r: OverworldSystem)
        ensures
            r.actor_creator.is_actor_creation_allowed,
            r.weapon is None,
            r.bow is None,
            r.shield is None,
            r.spawning_ground_weapons@.len() == 0,
            r.ground_weapons@.len() == 0,
            r.ground_materials@.len() == 0,
            r.dropped_materials@.len() == 0,
            r.holding@.len() == 0,
            !r.is_hold_arrowless_smuggle,
    {
        OverworldSystem {
            actor_creator: ActorCreator::new(),
            weapon: None,
            bow: None,
            shield: None,
            spawning_ground_weapons: Vec::new(),
            ground_weapons: Vec::new(),
            ground_materials: Vec::new(),
            dropped_materials: VecDeque::new(),
            holding: Vec::new(),
            is_hold_arrowless_smuggle: false,
        }
    }

    /// Everything on the ground, in selection order: dropped materials, other materials,
    /// then weapons
    pub open spec fn spec_ground_actors(&self) -> Seq<Actor> {
        spec_actors(self.dropped_materials@) + spec_actors(self.ground_materials@) + spec_actors(
            self.ground_weapons@,
        )
    }

    /// Handle of the `g`-th item on the ground in selection order
    pub open spec fn spec_ground_handle(&self, g: int) -> GroundItemHandle<()> {
        let d = self.dropped_materials@.len() as int;
        let m = self.ground_materials@.len() as int;
        if g < d {
            GroundItemHandle::DroppedMaterial((), g as usize)
        } else if g < d + m {
            GroundItemHandle::Material((), (g - d) as usize)
        } else {
            GroundItemHandle::Weapon((), (g - d - m) as usize)
        }
    }

    /// The actor a handle refers to, if the handle is valid
    pub open spec fn spec_ground_actor(&self, h: GroundItemHandle<()>) -> Option<Actor> {
        match h {
            GroundItemHandle::Weapon(_, i) => if i < self.ground_weapons@.len() {
                Some(self.ground_weapons@[i as int].0)
            } else {
                None
            },
            GroundItemHandle::Material(_, i) => if i < self.ground_materials@.len() {
                Some(self.ground_materials@[i as int].0)
            } else {
                None
            },
            GroundItemHandle::DroppedMaterial(_, i) => if i < self.dropped_materials@.len() {
                Some(self.dropped_materials@[i as int].0)
            } else {
                None
            },
        }
    }

    /// Equipment in the slot of the pouch item type
    pub open spec fn spec_equipped(&self, item_type: i32) -> Option<SpawnedActor> {
        if item_type == 0 {
            self.weapon
        } else if item_type == 1 {
            self.bow
        } else if item_type == 3 {
            self.shield
        } else {
            None
        }
    }

    /// The system with the slot of the pouch item type set
    pub open spec fn spec_with_equipped(&self, item_type: i32, v: Option<SpawnedActor>) -> Self {
        if item_type == 0 {
            OverworldSystem { weapon: v, ..*self }
        } else if item_type == 1 {
            OverworldSystem { bow: v, ..*self }
        } else if item_type == 3 {
            OverworldSystem { shield: v, ..*self }
        } else {
            *self
        }
    }

    /// What the overworld view shows
    pub open spec fn spec_to_iv(&self) -> Seq<iv::OverworldItem> {
        spec_opt_equipped_iv(self.weapon) + spec_opt_equipped_iv(self.bow) + spec_opt_equipped_iv(
            self.shield,
        ) + spec_actors(self.holding@).map_values(|a: Actor| spec_held_iv(a)) + spec_actors(
            self.ground_weapons@,
        ).map_values(|a: Actor| spec_ground_weapon_iv(a)) + spec_actors(
            self.ground_materials@,
        ).map_values(|a: Actor| spec_ground_item_iv(a, false)) + spec_dropped_ivs(
            self.dropped_materials@,
        )
    }

    fn set_equipped(&mut self, item_type: i32, v: Option<SpawnedActor>)
        ensures
            *final(self) == old(self).spec_with_equipped(item_type, v),
    {
        if item_type == 0 {
            self.weapon = v;
        } else if item_type == 1 {
            self.bow = v;
        } else if item_type == 3 {
            self.shield = v;
        }
    }

    fn take_equipped(&mut self, item_type: i32) -> (r: Option<SpawnedActor>)
        ensures
            r == old(self).spec_equipped(item_type),
            *final(self) == old(self).spec_with_equipped(item_type, None),
    {
        if item_type == 0 {
            self.weapon.take()
        } else if item_type == 1 {
            self.bow.take()
        } else if item_type == 3 {
            self.shield.take()
        } else {
            None
        }
    }

    /// Set if menu overload is active
    pub fn set_menu_overload(&mut self, overloaded: bool)
        ensures
            *final(self) == (OverworldSystem {
                actor_creator: ActorCreator { is_actor_creation_allowed: !overloaded },
                ..*old(self)
            }),
    {
        self.actor_creator.is_actor_creation_allowed = !overloaded;
    }

    /// Check if menu is overloaded
    pub fn menu_overloaded(&self) -> (r: bool)
        ensures
            r == !self.actor_creator.is_actor_creation_allowed,
    {
        !self.actor_creator.is_actor_creation_allowed
    }

    /// Destroy all actors in the overworld. Also stops menu overloading
    pub fn destroy_all(&mut self)
        ensures
            final(self).actor_creator.is_actor_creation_allowed,
            final(self).weapon is None,
            final(self).bow is None,
            final(self).shield is None,
            final(self).ground_weapons@.len() == 0,
            final(self).dropped_materials@.len() == 0,
            final(self).ground_materials@.len() == 0,
            final(self).holding@.len() == 0,
            !final(self).is_hold_arrowless_smuggle,
            final(self).spawning_ground_weapons == old(self).spawning_ground_weapons,
    {
        self.destroy_weapons();
        self.destroy_ground();
        self.actor_creator.is_actor_creation_allowed = true;
    }

    /// Destroy everything equipped by the player
    pub fn destroy_weapons(&mut self)
        ensures
            *final(self) == (OverworldSystem { weapon: None, bow: None, shield: None, ..*old(self) }),
    {
        self.weapon = None;
        self.bow = None;
        self.shield = None;
    }

    /// Destroy everything on the ground, and held items
    pub fn destroy_ground(&mut self)
        ensures
            final(self).ground_weapons@.len() == 0,
            final(self).dropped_materials@.len() == 0,
            final(self).ground_materials@.len() == 0,
            final(self).holding@.len() == 0,
            !final(self).is_hold_arrowless_smuggle,
            final(self).actor_creator == old(self).actor_creator,
            final(self).weapon == old(self).weapon,
            final(self).bow == old(self).bow,
            final(self).shield == old(self).shield,
            final(self).spawning_ground_weapons == old(self).spawning_ground_weapons,
    {
        self.ground_weapons.clear();
        self.dropped_materials.clear();
        self.ground_materials.clear();
        self.holding.clear();
        self.is_hold_arrowless_smuggle = false;
    }

    /// View of everything in the overworld: equipment, held items, ground weapons,
    /// ground materials, then dropped materials newest first (beyond the newest 10,
    /// shown as despawning)
    pub fn to_iv(&self) -> (r: iv::Overworld)
        ensures
            r.items@ == self.spec_to_iv(),
    {
        let mut items: Vec<iv::OverworldItem> = Vec::new();
        if let Some(weapon) = &self.weapon {
            items.push(weapon.as_ref().to_equipped_iv());
        }
        if let Some(bow) = &self.bow {
            items.push(bow.as_ref().to_equipped_iv());
        }
        if let Some(shield) = &self.shield {
            items.push(shield.as_ref().to_equipped_iv());
        }
        let ghost p0 = items@;
        assert(p0 =~= spec_opt_equipped_iv(self.weapon) + spec_opt_equipped_iv(self.bow)
            + spec_opt_equipped_iv(self.shield));
        let mut i: usize = 0;
        while i < self.holding.len()
            invariant
                i <= self.holding@.len(),
                items@ =~= p0 + spec_actors(self.holding@).map_values(
                    |a: Actor| spec_held_iv(a),
                ).take(i as int),
            decreases self.holding.len() - i,
        {
            items.push(self.holding[i].as_ref().to_held_iv());
            i += 1;
        }
        let ghost p1 = items@;
        let mut i: usize = 0;
        while i < self.ground_weapons.len()
            invariant
                i <= self.ground_weapons@.len(),
                items@ =~= p1 + spec_actors(self.ground_weapons@).map_values(
                    |a: Actor| spec_ground_weapon_iv(a),
                ).take(i as int),
            decreases self.ground_weapons.len() - i,
        {
            items.push(self.ground_weapons[i].as_ref().to_ground_weapon_iv());
            i += 1;
        }
        let ghost p2 = items@;
        let mut i: usize = 0;
        while i < self.ground_materials.len()
            invariant
                i <= self.ground_materials@.len(),
                items@ =~= p2 + spec_actors(self.ground_materials@).map_values(
                    |a: Actor| spec_ground_item_iv(a, false),
                ).take(i as int),
            decreases self.ground_materials.len() - i,
        {
            items.push(self.ground_materials[i].as_ref().to_ground_item_iv(false));
            i += 1;
        }
        let ghost p3 = items@;
        let n = self.dropped_materials.len();
        let mut i: usize = 0;
        while i < n
            invariant
                n == self.dropped_materials@.len(),
                i <= n,
                items@ =~= p3 + spec_dropped_ivs(self.dropped_materials@).take(i as int),
            decreases n - i,
        {
            let despawning = i >= DROPPED_MATERIAL_LIMIT;
            items.push(self.dropped_materials[n - 1 - i].as_ref().to_ground_item_iv(despawning));
            i += 1;
        }
        assert(spec_actors(self.holding@).map_values(|a: Actor| spec_held_iv(a)).take(
            self.holding@.len() as int,
        ) =~= spec_actors(self.holding@).map_values(|a: Actor| spec_held_iv(a)));
        assert(spec_actors(self.ground_weapons@).map_values(|a: Actor| spec_ground_weapon_iv(a)).take(
            self.ground_weapons@.len() as int,
        ) =~= spec_actors(self.ground_weapons@).map_values(|a: Actor| spec_ground_weapon_iv(a)));
        assert(spec_actors(self.ground_materials@).map_values(
            |a: Actor| spec_ground_item_iv(a, false),
        ).take(self.ground_materials@.len() as int) =~= spec_actors(
            self.ground_materials@,
        ).map_values(|a: Actor| spec_ground_item_iv(a, false)));
        assert(spec_dropped_ivs(self.dropped_materials@).take(n as int) =~= spec_dropped_ivs(
            self.dropped_materials@,
        ));
        iv::Overworld { items }
    }

    /// Spawn additional items held by the player (does not replace existing ones).
    /// Nothing is spawned while actor creation is not allowed
    pub fn spawn_held_items(&mut self, items: Vec<ActorName>)
        ensures
            old(self).actor_creator.is_actor_creation_allowed ==> final(self).holding@
                =~= old(self).holding@ + items@.map_values(
                |n: ActorName| SpawnedActor(Actor { name: n, value: 1, modifier: None }),
            ),
            !old(self).actor_creator.is_actor_creation_allowed ==> final(self).holding@
                == old(self).holding@,
            *final(self) == (OverworldSystem { holding: final(self).holding, ..*old(self) }),
    {
        let ghost old_holding = self.holding@;
        let mut items = items;
        let ghost all = items@;
        let ghost mut k: int = 0;
        while items.len() > 0
            invariant
                k + items@.len() == all.len(),
                0 <= k,
                items@ =~= all.skip(k),
                self.actor_creator == old(self).actor_creator,
                self.actor_creator.is_actor_creation_allowed ==> self.holding@ =~= old_holding
                    + all.take(k).map_values(
                    |n: ActorName| SpawnedActor(Actor { name: n, value: 1, modifier: None }),
                ),
                !self.actor_creator.is_actor_creation_allowed ==> self.holding@ == old_holding,
                *self == (OverworldSystem { holding: self.holding, ..*old(self) }),
            decreases items.len(),
        {
            let item = items.remove(0);
            if let Ok(spawned) = self.actor_creator.try_spawn_value_1(item) {
                self.holding.push(spawned);
            }
            proof {
                assert(all.take(k + 1) =~= all.take(k).push(all[k]));
            }
            proof {
                k = k + 1;
            }
        }
        assert(all.take(k) =~= all);
    }

    /// Try to spawn a weapon on the ground
    pub fn spawn_weapon(&mut self, actor: Actor)
        ensures
            old(self).actor_creator.is_actor_creation_allowed ==> *final(self) == (OverworldSystem {
                ground_weapons: final(self).ground_weapons,
                ..*old(self)
            }) && final(self).ground_weapons@ == old(self).ground_weapons@.push(SpawnedActor(actor)),
            !old(self).actor_creator.is_actor_creation_allowed ==> *final(self) == *old(self),
    {
        if let Ok(spawned) = self.actor_creator.try_spawn(actor) {
            self.add_ground_weapon(spawned);
        }
    }

    /// Force a weapon to spawn on the ground
    pub fn force_spawn_weapon(&mut self, actor: Actor)
        ensures
            final(self).ground_weapons@ == old(self).ground_weapons@.push(SpawnedActor(actor)),
            *final(self) == (OverworldSystem {
                ground_weapons: final(self).ground_weapons,
                ..*old(self)
            }),
    {
        let spawned = self.actor_creator.force_spawn(actor);
        self.ground_weapons.push(spawned);
    }

    /// Force a material to spawn on the ground
    pub fn force_spawn_material(&mut self, actor: Actor)
        ensures
            final(self).ground_materials@ == old(self).ground_materials@.push(SpawnedActor(actor)),
            *final(self) == (OverworldSystem {
                ground_materials: final(self).ground_materials,
                ..*old(self)
            }),
    {
        let spawned = self.actor_creator.force_spawn(actor);
        self.ground_materials.push(spawned);
    }

    /// Add a weapon to the ground (the item is already spawned)
    pub fn add_ground_weapon(&mut self, actor: SpawnedActor)
        ensures
            final(self).ground_weapons@ == old(self).ground_weapons@.push(actor),
            *final(self) == (OverworldSystem {
                ground_weapons: final(self).ground_weapons,
                ..*old(self)
            }),
    {
        self.ground_weapons.push(actor);
    }

    /// Add an actor to the queue to spawn when the inventory is closed
    pub fn spawn_weapon_later(&mut self, actor: Actor)
        ensures
            final(self).spawning_ground_weapons@ == old(self).spawning_ground_weapons@.push(actor),
            *final(self) == (OverworldSystem {
                spawning_ground_weapons: final(self).spawning_ground_weapons,
                ..*old(self)
            }),
    {
        self.spawning_ground_weapons.push(actor);
    }

    /// Spawn the weapons scheduled to spawn on the ground
    pub fn spawn_ground_weapons(&mut self)
        ensures
            final(self).ground_weapons@ == old(self).ground_weapons@ + spec_spawned(
                old(self).spawning_ground_weapons@,
            ),
            final(self).spawning_ground_weapons@.len() == 0,
            *final(self) == (OverworldSystem {
                ground_weapons: final(self).ground_weapons,
                spawning_ground_weapons: final(self).spawning_ground_weapons,
                ..*old(self)
            }),
    {
        let mut pending: Vec<Actor> = Vec::new();
        std::mem::swap(&mut pending, &mut self.spawning_ground_weapons);
        let ghost all = pending@;
        let ghost old_ground = self.ground_weapons@;
        let ghost mut k: int = 0;
        while pending.len() > 0
            invariant
                k + pending@.len() == all.len(),
                0 <= k,
                pending@ =~= all.skip(k),
                self.ground_weapons@ =~= old_ground + spec_spawned(all.take(k)),
                self.spawning_ground_weapons@.len() == 0,
                *self == (OverworldSystem {
                    ground_weapons: self.ground_weapons,
                    spawning_ground_weapons: self.spawning_ground_weapons,
                    ..*old(self)
                }),
            decreases pending.len(),
        {
            let actor = pending.remove(0);
            self.ground_weapons.push(SpawnedActor(actor));
            proof {
                assert(all.take(k + 1) =~= all.take(k).push(all[k]));
            }
            proof {
                k = k + 1;
            }
        }
        assert(all.take(k) =~= all);
    }

    /// Remove the weapons scheduled to spawn
    pub fn clear_spawning_weapons(&mut self)
        ensures
            final(self).spawning_ground_weapons@.len() == 0,
            *final(self) == (OverworldSystem {
                spawning_ground_weapons: final(self).spawning_ground_weapons,
                ..*old(self)
            }),
    {
        self.spawning_ground_weapons.clear();
    }

    /// Set the overworld holding state, only possible if there are held items
    pub fn set_arrowless_smuggle(&mut self, attached: bool)
        ensures
            *final(self) == (OverworldSystem {
                is_hold_arrowless_smuggle: attached && old(self).holding@.len() > 0,
                ..*old(self)
            }),
    {
        self.is_hold_arrowless_smuggle = attached && !self.holding.is_empty();
    }

    /// Check if the player is either currently not holding or the items can be auto-dropped
    /// (i.e. is in attached state)
    pub fn predrop_for_action(&mut self, span: Span, errors: &mut Vec<ErrorReport>) -> (r:
        OverworldPreDropResult)
        ensures
            *final(self) == *old(self),
            old(self).holding@.len() == 0 ==> r == OverworldPreDropResult::Ready && final(errors)@
                == old(errors)@,
            old(self).holding@.len() > 0 && !old(self).is_hold_arrowless_smuggle ==> r
                == OverworldPreDropResult::Holding && final(errors)@ == old(errors)@.push(
                spec_error(span, RuntimeError::CannotDoWhileHoldingInOverworld),
            ),
            old(self).holding@.len() > 0 && old(self).is_hold_arrowless_smuggle ==> r
                == OverworldPreDropResult::AutoDrop && final(errors)@ == old(errors)@,
    {
        if self.holding.is_empty() {
            return OverworldPreDropResult::Ready;
        }
        if !self.is_hold_arrowless_smuggle {
            errors.push(ErrorReport::error(span, RuntimeError::CannotDoWhileHoldingInOverworld));
            return OverworldPreDropResult::Holding;
        }
        OverworldPreDropResult::AutoDrop
    }

    /// Delete the actors currently being held
    pub fn delete_held_items(&mut self)
        ensures
            final(self).holding@.len() == 0,
            *final(self) == (OverworldSystem {
                holding: final(self).holding,
                is_hold_arrowless_smuggle: false,
                ..*old(self)
            }),
    {
        self.is_hold_arrowless_smuggle = false;
        self.holding.clear();
    }

    /// Drop items held by the player to the ground
    pub fn drop_held_items(&mut self)
        ensures
            final(self).dropped_materials@ == old(self).dropped_materials@ + old(self).holding@,
            final(self).holding@.len() == 0,
            *final(self) == (OverworldSystem {
                holding: final(self).holding,
                dropped_materials: final(self).dropped_materials,
                is_hold_arrowless_smuggle: false,
                ..*old(self)
            }),
    {
        self.is_hold_arrowless_smuggle = false;
        let mut held: Vec<SpawnedActor> = Vec::new();
        std::mem::swap(&mut held, &mut self.holding);
        let ghost all = held@;
        let ghost old_dropped = self.dropped_materials@;
        let ghost mut k: int = 0;
        while held.len() > 0
            invariant
                k + held@.len() == all.len(),
                0 <= k,
                held@ =~= all.skip(k),
                self.dropped_materials@ =~= old_dropped + all.take(k),
                self.holding@.len() == 0,
                *self == (OverworldSystem {
                    holding: self.holding,
                    dropped_materials: self.dropped_materials,
                    is_hold_arrowless_smuggle: false,
                    ..*old(self)
                }),
            decreases held.len(),
        {
            let item = held.remove(0);
            self.dropped_materials.push_back(item);
            proof {
                assert(all.take(k + 1) =~= all.take(k).push(all[k]));
            }
            proof {
                k = k + 1;
            }
        }
        assert(all.take(k) =~= all);
    }

    /// If the player is holding items in the overworld
    pub fn is_holding(&self) -> (r: bool)
        ensures
            r == (self.holding@.len() > 0),
    {
        !self.holding.is_empty()
    }

    /// If the player is holding items in the attached state
    pub fn is_holding_arrowless_smuggled(&self) -> (r: bool)
        ensures
            r == (self.holding@.len() > 0 && self.is_hold_arrowless_smuggle),
    {
        self.is_holding() && self.is_hold_arrowless_smuggle
    }

    /// Despawn dropped materials that are over the limit: only the 10 most recently
    /// dropped ones stay
    pub fn despawn_items(&mut self)
        ensures
            old(self).dropped_materials@.len() <= DROPPED_MATERIAL_LIMIT ==> final(self).dropped_materials@
                == old(self).dropped_materials@,
            old(self).dropped_materials@.len() > DROPPED_MATERIAL_LIMIT ==> final(self).dropped_materials@
                == old(self).dropped_materials@.skip(
                old(self).dropped_materials@.len() - DROPPED_MATERIAL_LIMIT,
            ),
            *final(self) == (OverworldSystem {
                dropped_materials: final(self).dropped_materials,
                ..*old(self)
            }),
    {
        let ghost d = self.dropped_materials@;
        let ghost mut k: int = 0;
        while self.dropped_materials.len() > DROPPED_MATERIAL_LIMIT
            invariant
                0 <= k <= d.len(),
                self.dropped_materials@ =~= d.skip(k),
                d.len() > DROPPED_MATERIAL_LIMIT ==> k <= d.len() - DROPPED_MATERIAL_LIMIT,
                d.len() <= DROPPED_MATERIAL_LIMIT ==> k == 0,
                *self == (OverworldSystem {
                    dropped_materials: self.dropped_materials,
                    ..*old(self)
                }),
            decreases self.dropped_materials@.len(),
        {
            let _ = self.dropped_materials.pop_front();
            proof {
                k = k + 1;
            }
        }
    }

    /// Change the player equipment in the overworld to the pouch item at the address,
    /// if the address is not null and the item is a Sword, Bow or Shield. The actor is
    /// spawned with the name, value and modifier of the item (no modifier if the
    /// modifier flags are 0).
    ///
    /// Return if the equipment is updated
    pub fn change_player_equipment(&mut self, item: u64, memory: &Memory) -> (r: Result<
        bool,
        MemoryError,
    >)
        ensures
            match spec_change_player_equipment(*old(self), item, *memory) {
                Ok((b, s)) => r == Ok::<bool, MemoryError>(b) && *final(self) == s,
                Err(e) => r == Err::<bool, MemoryError>(e) && *final(self) == *old(self),
            },
    {
        if item == 0 {
            return Ok(false);
        }
        let data = match memory.read_item(item) {
            Ok(d) => d,
            Err(e) => return Err(e),
        };
        let item_type = data.item_type;
        if !(item_type == 0 || item_type == 1 || item_type == 3) {
            return Ok(false);
        }
        let modifier = if data.sell_price == 0 {
            None
        } else {
            Some(WeaponModifierInfo { flags: data.sell_price as u32, value: data.health_recover })
        };
        let actor = Actor {
            name: crate::actor::copy_name(&data.name),
            value: data.value,
            modifier,
        };
        match self.actor_creator.try_spawn(actor) {
            Err(_) => Ok(false),
            Ok(spawned) => {
                self.set_equipped(item_type, Some(spawned));
                Ok(true)
            },
        }
    }

    /// Try auto equip an actor on the player as it's picked up or obtained
    ///
    /// If the item is an `Actor`, then it will try to be spawned.
    ///
    /// Return if the inventory item should be equipped.
    pub fn try_auto_equip(&mut self, item: Result<Actor, SpawnedActor>) -> (r: bool)
        ensures
            ({
                let actor = match item {
                    Ok(a) => a,
                    Err(s) => s.0,
                };
                let t = actor.name.pouch_type;
                if !spec_is_equipment_type(t) || old(self).spec_equipped(t) is Some {
                    !r && *final(self) == *old(self)
                } else if item is Ok && !old(self).actor_creator.is_actor_creation_allowed {
                    r && *final(self) == *old(self)
                } else {
                    r && *final(self) == old(self).spec_with_equipped(t, Some(SpawnedActor(actor)))
                }
            }),
    {
        let item_type = match &item {
            Ok(actor) => actor.name.pouch_type,
            Err(actor) => actor.0.name.pouch_type,
        };
        if !(item_type == 0 || item_type == 1 || item_type == 3) {
            return false;
        }
        if self.get_equiped_item(item_type).is_some() {
            return false;
        }
        let spawned = match item {
            Ok(actor) => {
                match self.actor_creator.try_spawn(actor) {
                    Ok(s) => s,
                    Err(_) => return true,
                }
            },
            Err(spawned) => spawned,
        };
        self.set_equipped(item_type, Some(spawned));
        true
    }

    /// Reset the equipments on reload: each slot gets the given actor if it spawns
    /// (nothing if none is given).
    ///
    /// Returns the (value, pouch item type) of each spawned equipment, in order, whose
    /// value is to be written to the inventory
    pub fn reload_equipments(
        &mut self,
        weapon: Option<Actor>,
        bow: Option<Actor>,
        shield: Option<Actor>,
    ) -> (r: Vec<(i32, i32)>)
        ensures
            ({
                let allowed = old(self).actor_creator.is_actor_creation_allowed;
                let new_slot = |old_slot: Option<SpawnedActor>, a: Option<Actor>| match a {
                    None => None,
                    Some(a) => if allowed {
                        Some(SpawnedActor(a))
                    } else {
                        old_slot
                    },
                };
                let call = |a: Option<Actor>, t: i32| match a {
                    Some(a) => if allowed {
                        seq![(a.value, t)]
                    } else {
                        Seq::empty()
                    },
                    None => Seq::empty(),
                };
                &&& *final(self) == (OverworldSystem {
                    weapon: new_slot(old(self).weapon, weapon),
                    bow: new_slot(old(self).bow, bow),
                    shield: new_slot(old(self).shield, shield),
                    ..*old(self)
                })
                &&& r@ == call(weapon, 0) + call(bow, 1) + call(shield, 3)
            }),
    {
        let mut calls: Vec<(i32, i32)> = Vec::new();
        match weapon {
            None => self.weapon = None,
            Some(actor) => {
                if let Ok(spawned) = self.actor_creator.try_spawn(actor) {
                    let value = spawned.0.value;
                    self.weapon = Some(spawned);
                    calls.push((value, 0));
                }
            },
        }
        match bow {
            None => self.bow = None,
            Some(actor) => {
                if let Ok(spawned) = self.actor_creator.try_spawn(actor) {
                    let value = spawned.0.value;
                    self.bow = Some(spawned);
                    calls.push((value, 1));
                }
            },
        }
        match shield {
            None => self.shield = None,
            Some(actor) => {
                if let Ok(spawned) = self.actor_creator.try_spawn(actor) {
                    let value = spawned.0.value;
                    self.shield = Some(spawned);
                    calls.push((value, 3));
                }
            },
        }
        calls
    }

    /// Damage equipped item by amount. The True Form Master Sword (`ms_true_form`, when its
    /// value is over 300) takes a fifth of the damage. The value does not go below 0.
    ///
    /// Returns if the slot no longer has equipment after use, the new value to write to
    /// the inventory, and what to remove from the inventory if the equipment broke
    pub fn damage_equipment(&mut self, item_type: i32, amount: i32, ms_true_form: bool) -> (r:
        EquipmentDamage)
        requires
            old(self).spec_equipped(item_type) matches Some(a) ==> i32::MIN <= a.0.value - amount
                <= i32::MAX && i32::MIN <= a.0.value - spec_div5(amount) <= i32::MAX,
        ensures
            match old(self).spec_equipped(item_type) {
                None => r.is_empty && r.new_value is None && r.break_action is None && *final(self)
                    == *old(self),
                Some(a) => {
                    let is_ms = item_type == 0 && a.0.name.name@ == "Weapon_Sword_070"@;
                    let dmg = if is_ms && a.0.value > 300 && ms_true_form {
                        spec_div5(amount)
                    } else {
                        amount
                    };
                    let v = if a.0.value - dmg < 0 {
                        0
                    } else {
                        a.0.value - dmg
                    };
                    &&& r.new_value == Some(v as i32)
                    &&& r.is_empty == (v <= 0)
                    &&& v <= 0 ==> *final(self) == old(self).spec_with_equipped(item_type, None)
                        && r.break_action == Some(
                        if is_ms {
                            BreakAction::BreakMasterSword
                        } else {
                            BreakAction::RemoveWeapon(a.0.name.name)
                        },
                    )
                    &&& v > 0 ==> *final(self) == old(self).spec_with_equipped(
                        item_type,
                        Some(SpawnedActor(Actor { value: v as i32, ..a.0 })),
                    ) && r.break_action is None
                },
            },
    {
        let mut actor = match self.take_equipped(item_type) {
            None => {
                return EquipmentDamage { is_empty: true, new_value: None, break_action: None };
            },
            Some(a) => a,
        };
        let is_master_sword = item_type == 0 && str_eq(
            actor.0.name.name.as_str(),
            "Weapon_Sword_070",
        );
        let mut amount = amount;
        if is_master_sword && actor.0.value > 300 && ms_true_form {
            let reduced = amount / 5;
            assert(reduced == spec_div5(amount));
            amount = reduced;
        }
        actor.0.value = actor.0.value - amount;
        if actor.0.value < 0 {
            actor.0.value = 0;
        }
        let value = actor.0.value;
        if value <= 0 {
            let name = actor.0.name.name.clone();
            return EquipmentDamage {
                is_empty: true,
                new_value: Some(value),
                break_action: Some(
                    if is_master_sword {
                        BreakAction::BreakMasterSword
                    } else {
                        BreakAction::RemoveWeapon(name)
                    },
                ),
            };
        }
        self.set_equipped(item_type, Some(actor));
        EquipmentDamage { is_empty: false, new_value: Some(value), break_action: None }
    }

    /// Check if the item equipped in the overworld matches the spec
    pub fn equipped_item_matches(&self, item_type: i32, spec: &ItemNameSpec) -> (r: bool)
        ensures
            r == (spec_is_equipment_type(item_type) && match self.spec_equipped(item_type) {
                None => false,
                Some(a) => match *spec {
                    ItemNameSpec::Actor(n) => n.name@ == a.0.name.name@,
                    ItemNameSpec::Category(c) => c == if item_type == 0 {
                        Category::Weapon
                    } else if item_type == 1 {
                        Category::Bow
                    } else {
                        Category::Shield
                    },
                },
            }),
    {
        let equipped = match self.get_equiped_item(item_type) {
            None => return false,
            Some(a) => a,
        };
        match spec {
            ItemNameSpec::Actor(name) => name.name == equipped.name.name,
            ItemNameSpec::Category(category) => {
                let c = if item_type == 0 {
                    Category::Weapon
                } else if item_type == 1 {
                    Category::Bow
                } else {
                    Category::Shield
                };
                *category == c
            },
        }
    }

    /// Value of the equipment in the slot, which the overworld actor writes to the
    /// inventory as it updates (`None` if nothing is equipped there)
    pub fn update_equipment_value_to_pmdm(&self, item_type: i32) -> (r: Option<i32>)
        ensures
            r == match self.spec_equipped(item_type) {
                Some(a) => Some(a.0.value),
                None => None,
            },
    {
        match self.get_equiped_item(item_type) {
            Some(a) => Some(a.value),
            None => None,
        }
    }

    /// The equipment in the slot of the pouch item type
    pub fn get_equiped_item(&self, item_type: i32) -> (r: Option<&Actor>)
        ensures
            r == match self.spec_equipped(item_type) {
                Some(a) => Some(&a.0),
                None => None,
            },
    {
        if item_type == 0 {
            match &self.weapon {
                Some(a) => Some(a.as_ref()),
                None => None,
            }
        } else if item_type == 1 {
            match &self.bow {
                Some(a) => Some(a.as_ref()),
                None => None,
            }
        } else if item_type == 3 {
            match &self.shield {
                Some(a) => Some(a.as_ref()),
                None => None,
            }
        } else {
            None
        }
    }

    /// Drop the currently equipped weapon on the player to the ground
    pub fn drop_player_equipment(&mut self, item_type: i32)
        ensures
            match old(self).spec_equipped(item_type) {
                None => *final(self) == *old(self),
                Some(a) => {
                    let s = old(self).spec_with_equipped(item_type, None);
                    *final(self) == (OverworldSystem {
                        ground_weapons: final(self).ground_weapons,
                        ..s
                    }) && final(self).ground_weapons@ == old(self).ground_weapons@.push(a)
                },
            },
    {
        if let Some(actor) = self.delete_player_equipment_internal(item_type) {
            self.ground_weapons.push(actor);
        }
    }

    /// Delete the currently equipped weapon on the player, and return its data
    pub fn delete_player_equipment(&mut self, item_type: i32) -> (r: Option<Actor>)
        ensures
            r == match old(self).spec_equipped(item_type) {
                Some(a) => Some(a.0),
                None => None,
            },
            *final(self) == old(self).spec_with_equipped(item_type, None),
    {
        match self.delete_player_equipment_internal(item_type) {
            Some(a) => Some(a.into_actor()),
            None => None,
        }
    }

    fn delete_player_equipment_internal(&mut self, item_type: i32) -> (r: Option<SpawnedActor>)
        ensures
            r == old(self).spec_equipped(item_type),
            *final(self) == old(self).spec_with_equipped(item_type, None),
    {
        self.take_equipped(item_type)
    }

    /// Start of a list in the selection order (dropped, materials, weapons, end)
    pub open spec fn spec_seg_offset(&self, seg: int) -> int {
        let d = self.dropped_materials@.len() as int;
        let m = self.ground_materials@.len() as int;
        let w = self.ground_weapons@.len() as int;
        if seg == 0 {
            0
        } else if seg == 1 {
            d
        } else if seg == 2 {
            d + m
        } else {
            d + m + w
        }
    }

    /// Length of a list in the selection order (dropped, materials, weapons)
    pub open spec fn spec_seg_len(&self, seg: int) -> int {
        if seg == 0 {
            self.dropped_materials@.len() as int
        } else if seg == 1 {
            self.ground_materials@.len() as int
        } else if seg == 2 {
            self.ground_weapons@.len() as int
        } else {
            0
        }
    }

    fn seg_len(&self, seg: usize) -> (r: usize)
        requires
            seg < 3,
        ensures
            r == self.spec_seg_len(seg as int),
    {
        if seg == 0 {
            self.dropped_materials.len()
        } else if seg == 1 {
            self.ground_materials.len()
        } else {
            self.ground_weapons.len()
        }
    }

    /// Handle and actor of the `i`-th item of a list on the ground
    fn ground_item_at(&self, seg: usize, i: usize) -> (r: (GroundItemHandle<()>, &Actor))
        requires
            seg < 3,
            i < self.spec_seg_len(seg as int),
        ensures
            r.0 == self.spec_ground_handle(self.spec_seg_offset(seg as int) + i),
            *r.1 == self.spec_ground_actors()[self.spec_seg_offset(seg as int) + i],
            self.spec_ground_actor(r.0) == Some(*r.1),
    {
        if seg == 0 {
            (GroundItemHandle::DroppedMaterial((), i), self.dropped_materials[i].as_ref())
        } else if seg == 1 {
            (GroundItemHandle::Material((), i), self.ground_materials[i].as_ref())
        } else {
            (GroundItemHandle::Weapon((), i), self.ground_weapons[i].as_ref())
        }
    }

    /// The actor of a handle from a ground selection
    pub fn ground_actor(&self, handle: GroundItemHandle<()>) -> (r: &Actor)
        requires
            self.spec_ground_actor(handle) is Some,
        ensures
            self.spec_ground_actor(handle) == Some(*r),
    {
        match handle {
            GroundItemHandle::Weapon(_, i) => self.ground_weapons[i].as_ref(),
            GroundItemHandle::Material(_, i) => self.ground_materials[i].as_ref(),
            GroundItemHandle::DroppedMaterial(_, i) => self.dropped_materials[i].as_ref(),
        }
    }

    /// Remove an item from the ground
    pub fn remove_ground_item(&mut self, handle: GroundItemHandle<()>) -> (r: SpawnedActor)
        requires
            old(self).spec_ground_actor(handle) is Some,
        ensures
            old(self).spec_ground_actor(handle) == Some(r.0),
            match handle {
                GroundItemHandle::Weapon(_, i) => *final(self) == (OverworldSystem {
                    ground_weapons: final(self).ground_weapons,
                    ..*old(self)
                }) && final(self).ground_weapons@ == old(self).ground_weapons@.remove(i as int),
                GroundItemHandle::Material(_, i) => *final(self) == (OverworldSystem {
                    ground_materials: final(self).ground_materials,
                    ..*old(self)
                }) && final(self).ground_materials@ == old(self).ground_materials@.remove(i as int),
                GroundItemHandle::DroppedMaterial(_, i) => *final(self) == (OverworldSystem {
                    dropped_materials: final(self).dropped_materials,
                    ..*old(self)
                }) && final(self).dropped_materials@ == old(self).dropped_materials@.remove(
                    i as int,
                ),
            },
    {
        match handle {
            GroundItemHandle::Weapon(_, i) => self.ground_weapons.remove(i),
            GroundItemHandle::Material(_, i) => self.ground_materials.remove(i),
            GroundItemHandle::DroppedMaterial(_, i) => {
                match self.dropped_materials.remove(i) {
                    Some(x) => x,
                    None => vstd::pervasive::unreached(),
                }
            },
        }
    }

    /// Select an item from the ground: the n-th match given by the position meta
    /// (`FromSlot`, 1-indexed), or the first match. Other positions are not allowed on
    /// the ground.
    pub fn ground_select(&self, item: &ItemMatchSpec, errors: &mut Vec<ErrorReport>) -> (r: Option<
        GroundItemHandle<()>,
    >)
        ensures
            match spec_ground_nth(*item) {
                None => r is None && final(errors)@ == old(errors)@.push(
                    spec_error(item.span, RuntimeError::PositionSpecNotAllowed),
                ),
                Some(nth) => {
                    &&& final(errors)@ == old(errors)@ + if spec_has_useless_ground_props(*item) {
                        seq![spec_warning(item.span, RuntimeError::UselessItemMatchProp)]
                    } else {
                        Seq::empty()
                    }
                    &&& self.spec_ground_select_result(*item, nth, r)
                },
            },
    {
        self.do_ground_select(item, errors)
    }

    /// `r` is the handle of the `nth` match on the ground, or none if there are not that many
    pub open spec fn spec_ground_select_result(
        &self,
        item: ItemMatchSpec,
        nth: nat,
        r: Option<GroundItemHandle<()>>,
    ) -> bool {
        match r {
            Some(h) => exists|g: int|
                spec_is_nth_match(self.spec_ground_actors(), item, nth, g) && h
                    == self.spec_ground_handle(g) && self.spec_ground_actor(h) == Some(
                    self.spec_ground_actors()[g],
                ),
            None => spec_count_matches(self.spec_ground_actors(), item) <= nth,
        }
    }

    fn do_ground_select(&self, matcher: &ItemMatchSpec, errors: &mut Vec<ErrorReport>) -> (r:
        Option<GroundItemHandle<()>>)
        ensures
            match spec_ground_nth(*matcher) {
                None => r is None && final(errors)@ == old(errors)@.push(
                    spec_error(matcher.span, RuntimeError::PositionSpecNotAllowed),
                ),
                Some(nth) => {
                    &&& final(errors)@ == old(errors)@ + if spec_has_useless_ground_props(
                        *matcher,
                    ) {
                        seq![spec_warning(matcher.span, RuntimeError::UselessItemMatchProp)]
                    } else {
                        Seq::empty()
                    }
                    &&& self.spec_ground_select_result(*matcher, nth, r)
                },
            },
    {
        let meta = match &matcher.meta {
            None => return self.do_ground_select_without_position_nth(matcher, 0, errors),
            Some(m) => m,
        };
        let from_slot: usize = match meta.position {
            None => 0,
            Some(ItemPosition::FromSlot(n)) => (n as usize).saturating_sub(1),
            Some(_) => {
                errors.push(ErrorReport::error(matcher.span, RuntimeError::PositionSpecNotAllowed));
                return None;
            },
        };
        self.do_ground_select_without_position_nth(matcher, from_slot, errors)
    }

    fn do_ground_select_without_position_nth(
        &self,
        matcher: &ItemMatchSpec,
        nth: usize,
        errors: &mut Vec<ErrorReport>,
    ) -> (r: Option<GroundItemHandle<()>>)
        ensures
            final(errors)@ == old(errors)@ + if spec_has_useless_ground_props(*matcher) {
                seq![spec_warning(matcher.span, RuntimeError::UselessItemMatchProp)]
            } else {
                Seq::empty()
            },
            self.spec_ground_select_result(*matcher, nth as nat, r),
    {
        if let Some(meta) = &matcher.meta {
            if meta.equip.is_some() || meta.effect_duration.is_some() || meta.effect_id.is_some()
                || meta.effect_level.is_some() || meta.ingredients.len() != 0
                || meta.held.is_some() {
                errors.push(ErrorReport::warning(matcher.span, RuntimeError::UselessItemMatchProp));
            }
        }
        let ghost items = self.spec_ground_actors();
        let mut count = nth;
        let mut seg: usize = 0;
        let mut i: usize = 0;
        while seg < 3
            invariant
                items == self.spec_ground_actors(),
                seg <= 3,
                seg < 3 ==> i <= self.spec_seg_len(seg as int),
                seg == 3 ==> i == 0,
                spec_count_matches(
                    items.take(self.spec_seg_offset(seg as int) + i),
                    *matcher,
                ) + count == nth,
                errors@ == old(errors)@ + if spec_has_useless_ground_props(*matcher) {
                    seq![spec_warning(matcher.span, RuntimeError::UselessItemMatchProp)]
                } else {
                    Seq::empty()
                },
            decreases 3 - seg, self.spec_seg_len(seg as int) - i,
        {
            if i >= self.seg_len(seg) {
                seg += 1;
                i = 0;
                continue;
            }
            let (handle, actor) = self.ground_item_at(seg, i);
            let ghost g = self.spec_seg_offset(seg as int) + i;
            proof {
                lemma_count_matches_step(items, *matcher, g);
            }
            if actor.matches(matcher) {
                if count == 0 {
                    assert(spec_is_nth_match(items, *matcher, nth as nat, g));
                    return Some(handle);
                }
                count -= 1;
            }
            i += 1;
        }
        assert(items.take(items.len() as int) =~= items);
        None
    }

    /// Number of matching items on the ground, not counting the first `n - 1` when the
    /// position meta is `FromSlot(n)`
    pub fn get_ground_amount(&self, matcher: &ItemMatchSpec) -> (r: usize)
        requires
            self.spec_ground_actors().len() <= usize::MAX,
        ensures
            r == if spec_count_matches(self.spec_ground_actors(), *matcher)
                > spec_ground_amount_nth(*matcher) {
                spec_count_matches(self.spec_ground_actors(), *matcher) - spec_ground_amount_nth(
                    *matcher,
                )
            } else {
                0
            },
    {
        let nth: usize = match &matcher.meta {
            None => 0,
            Some(meta) => match meta.position {
                Some(ItemPosition::FromSlot(n)) => (n as usize).saturating_sub(1),
                _ => 0,
            },
        };
        self.get_ground_amount_without_position_nth(matcher, nth)
    }

    /// Number of matching items on the ground after skipping the first `nth` matches,
    /// without considering position meta properties
    pub fn get_ground_amount_without_position_nth(&self, matcher: &ItemMatchSpec, nth: usize) -> (r:
        usize)
        requires
            self.spec_ground_actors().len() <= usize::MAX,
        ensures
            r == if spec_count_matches(self.spec_ground_actors(), *matcher) > nth {
                spec_count_matches(self.spec_ground_actors(), *matcher) - nth
            } else {
                0
            },
    {
        let ghost items = self.spec_ground_actors();
        let mut skip = nth;
        let mut count: usize = 0;
        let mut seg: usize = 0;
        let mut i: usize = 0;
        while seg < 3
            invariant
                items == self.spec_ground_actors(),
                seg <= 3,
                seg < 3 ==> i <= self.spec_seg_len(seg as int),
                seg == 3 ==> i == 0,
                count <= self.spec_seg_offset(seg as int) + i,
                self.spec_ground_actors().len() <= usize::MAX,
                spec_count_matches(items.take(self.spec_seg_offset(seg as int) + i), *matcher)
                    == if skip > 0 {
                    (nth - skip) as nat
                } else {
                    (nth + count) as nat
                },
                skip <= nth,
                skip > 0 ==> count == 0,
            decreases 3 - seg, self.spec_seg_len(seg as int) - i,
        {
            if i >= self.seg_len(seg) {
                seg += 1;
                i = 0;
                continue;
            }
            let (_, actor) = self.ground_item_at(seg, i);
            let ghost g = self.spec_seg_offset(seg as int) + i;
            proof {
                lemma_count_matches_step(items, *matcher, g);
            }
            if actor.matches(matcher) {
                if skip > 0 {
                    skip -= 1;
                } else {
                    count += 1;
                }
            }
            i += 1;
        }
        assert(items.take(items.len() as int) =~= items);
        count
    }

    /// Select an item from equipped items. Meta is ignored, with a warning if present.
    ///
    /// A category selects the equipment of that category, if there is one.
    pub fn equipped_select(&self, matcher: &ItemMatchSpec, errors: &mut Vec<ErrorReport>) -> (r:
        Option<EquippedItemHandle<()>>)
        ensures
            ({
                let warn = if matcher.meta is Some {
                    seq![spec_warning(matcher.span, RuntimeError::UselessMetaForOverworldEquipment)]
                } else {
                    Seq::empty()
                };
                let expected = self.spec_equipped_select(matcher.name);
                &&& r == expected
                &&& final(errors)@ == old(errors)@ + warn + if expected is None {
                    seq![spec_error(matcher.span, RuntimeError::NotEquippedInOverworld)]
                } else {
                    Seq::empty()
                }
            }),
    {
        self.do_equipped_select(matcher, errors)
    }

    /// Which equipment a name selects
    pub open spec fn spec_equipped_select(&self, name: ItemNameSpec) -> Option<EquippedItemHandle<()>> {
        match name {
            ItemNameSpec::Actor(actor) => if self.weapon matches Some(w) && w.0.name.name@
                == actor.name@ {
                Some(EquippedItemHandle::Weapon(()))
            } else if self.bow matches Some(b) && b.0.name.name@ == actor.name@ {
                Some(EquippedItemHandle::Bow(()))
            } else if self.shield matches Some(s) && s.0.name.name@ == actor.name@ {
                Some(EquippedItemHandle::Shield(()))
            } else {
                None
            },
            ItemNameSpec::Category(c) => if c == Category::Weapon && self.weapon is Some {
                Some(EquippedItemHandle::Weapon(()))
            } else if c == Category::Bow && self.bow is Some {
                Some(EquippedItemHandle::Bow(()))
            } else if c == Category::Shield && self.shield is Some {
                Some(EquippedItemHandle::Shield(()))
            } else {
                None
            },
        }
    }

    fn do_equipped_select(&self, matcher: &ItemMatchSpec, errors: &mut Vec<ErrorReport>) -> (r:
        Option<EquippedItemHandle<()>>)
        ensures
            ({
                let warn = if matcher.meta is Some {
                    seq![spec_warning(matcher.span, RuntimeError::UselessMetaForOverworldEquipment)]
                } else {
                    Seq::empty()
                };
                let expected = self.spec_equipped_select(matcher.name);
                &&& r == expected
                &&& final(errors)@ == old(errors)@ + warn + if expected is None {
                    seq![spec_error(matcher.span, RuntimeError::NotEquippedInOverworld)]
                } else {
                    Seq::empty()
                }
            }),
    {
        let span = matcher.span;
        let ghost e0 = errors@;
        if matcher.meta.is_some() {
            errors.push(ErrorReport::warning(span, RuntimeError::UselessMetaForOverworldEquipment));
        }
        let ghost e1 = errors@;
        match &matcher.name {
            ItemNameSpec::Actor(actor) => {
                if let Some(w) = &self.weapon {
                    if w.0.name.name == actor.name {
                        return Some(EquippedItemHandle::Weapon(()));
                    }
                }
                if let Some(b) = &self.bow {
                    if b.0.name.name == actor.name {
                        return Some(EquippedItemHandle::Bow(()));
                    }
                }
                if let Some(s) = &self.shield {
                    if s.0.name.name == actor.name {
                        return Some(EquippedItemHandle::Shield(()));
                    }
                }
            },
            ItemNameSpec::Category(category) => match category {
                Category::Weapon => {
                    if self.weapon.is_some() {
                        return Some(EquippedItemHandle::Weapon(()));
                    }
                },
                Category::Bow => {
                    if self.bow.is_some() {
                        return Some(EquippedItemHandle::Bow(()));
                    }
                },
                Category::Shield => {
                    if self.shield.is_some() {
                        return Some(EquippedItemHandle::Shield(()));
                    }
                },
                _ => {},
            },
        }
        errors.push(ErrorReport::error(span, RuntimeError::NotEquippedInOverworld));
        assert(errors@ =~= e0 + (e1.skip(e0.len() as int)) + seq![
            spec_error(span, RuntimeError::NotEquippedInOverworld),
        ]);
        None
    }

    /// The actor of an equipped handle
    pub fn equipped_actor(&self, handle: EquippedItemHandle<()>) -> (r: Option<&Actor>)
        ensures
            r == match handle {
                EquippedItemHandle::Weapon(_) => match self.weapon {
                    Some(a) => Some(&a.0),
                    None => None,
                },
                EquippedItemHandle::Bow(_) => match self.bow {
                    Some(a) => Some(&a.0),
                    None => None,
                },
                EquippedItemHandle::Shield(_) => match self.shield {
                    Some(a) => Some(&a.0),
                    None => None,
                },
            },
    {
        match handle {
            EquippedItemHandle::Weapon(_) => self.get_equiped_item(0),
            EquippedItemHandle::Bow(_) => self.get_equiped_item(1),
            EquippedItemHandle::Shield(_) => self.get_equiped_item(3),
        }
    }

    /// Remove the equipment of a handle
    pub fn remove_equipped(&mut self, handle: EquippedItemHandle<()>) -> (r: Option<SpawnedActor>)
        ensures
            ({
                let t: i32 = match handle {
                    EquippedItemHandle::Weapon(_) => 0,
                    EquippedItemHandle::Bow(_) => 1,
                    EquippedItemHandle::Shield(_) => 3,
                };
                r == old(self).spec_equipped(t) && *final(self) == old(self).spec_with_equipped(
                    t,
                    None,
                )
            }),
    {
        match handle {
            EquippedItemHandle::Weapon(_) => self.take_equipped(0),
            EquippedItemHandle::Bow(_) => self.take_equipped(1),
            EquippedItemHandle::Shield(_) => self.take_equipped(3),
        }
    }
}

} // verus!
