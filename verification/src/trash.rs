//! What the game reports while it trashes (drops) an item from the pouch, and what the
//! simulation takes from it: the equipment types dropped from the player, and the
//! weapons that spawn on the ground when the inventory closes
use vstd::prelude::*;

use crate::actor::Actor;
use crate::cir::ActorName;
use crate::util::WeaponModifierInfo;

verus! {

/// An event of the game while it trashes an item
#[derive(Debug, Clone)]
pub enum TrashEvent {
    /// A weapon is trashed (a modifier with no flags is no modifier)
    Trash { name: ActorName, value: i32, modifier: WeaponModifierInfo },
    /// The player drops the equipment of the type
    PlayerDrop(i32),
    /// Another event, which the simulation does not use
    Other,
}

/// What the simulation takes from the events
#[derive(Debug, Clone)]
pub struct TrashOutcome {
    /// Types of equipment dropped from the player, in order
    pub drop_types: Vec<i32>,
    /// Weapons to spawn on the ground when the inventory closes, in order
    pub weapons_to_spawn: Vec<Actor>,
}

/// The actor of a trashed weapon
pub open spec fn spec_trashed_actor(name: ActorName, value: i32, modifier: WeaponModifierInfo) -> Actor {
    Actor {
        name,
        value,
        modifier: if modifier.flags == 0 {
            None
        } else {
            Some(modifier)
        },
    }
}

/// The equipment types dropped from the player, in the order of the events
pub open spec fn spec_drop_types(events: Seq<TrashEvent>) -> Seq<i32>
    decreases events.len(),
{
    if events.len() == 0 {
        Seq::empty()
    } else {
        let rest = spec_drop_types(events.drop_last());
        match events.last() {
            TrashEvent::PlayerDrop(t) => rest.push(t),
            _ => rest,
        }
    }
}

/// The trashed weapons, in the order of the events
pub open spec fn spec_trashed_weapons(events: Seq<TrashEvent>) -> Seq<Actor>
    decreases events.len(),
{
    if events.len() == 0 {
        Seq::empty()
    } else {
        let rest = spec_trashed_weapons(events.drop_last());
        match events.last() {
            TrashEvent::Trash { name, value, modifier } => rest.push(
                spec_trashed_actor(name, value, modifier),
            ),
            _ => rest,
        }
    }
}

/// Take the dropped equipment types and the weapons to spawn from the events; no weapon
/// spawns when the menu is overloaded
pub fn collect_trash_events(events: &Vec<TrashEvent>, menu_overload: bool) -> (r: TrashOutcome)
    ensures
        r.drop_types@ == spec_drop_types(events@),
        r.weapons_to_spawn@ == if menu_overload {
            Seq::<Actor>::empty()
        } else {
            spec_trashed_weapons(events@)
        },
{
    let mut drop_types: Vec<i32> = Vec::new();
    let mut weapons_to_spawn: Vec<Actor> = Vec::new();
    let mut i: usize = 0;
    while i < events.len()
        invariant
            i <= events.len(),
            drop_types@ == spec_drop_types(events@.take(i as int)),
            weapons_to_spawn@ == if menu_overload {
                Seq::<Actor>::empty()
            } else {
                spec_trashed_weapons(events@.take(i as int))
            },
        decreases events.len() - i,
    {
        assert(events@.take(i + 1).drop_last() =~= events@.take(i as int));
        match &events[i] {
            TrashEvent::Trash { name, value, modifier } => {
                if !menu_overload {
                    let modifier = if modifier.flags == 0 {
                        None
                    } else {
                        Some(*modifier)
                    };
                    weapons_to_spawn.push(
                        Actor { name: crate::actor::copy_name(name), value: *value, modifier },
                    );
                }
            },
            TrashEvent::PlayerDrop(t) => {
                drop_types.push(*t);
            },
            TrashEvent::Other => {},
        }
        i += 1;
    }
    assert(events@.take(events.len() as int) =~= events@);
    TrashOutcome { drop_types, weapons_to_spawn }
}

} // verus!
