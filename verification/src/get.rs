//! The decisions of getting items (`get`, `buy`), and of activating Prompt Entanglement
use vstd::prelude::*;

use crate::cir::{ActorName, ItemMatchSpec, ItemMeta};
use crate::error::{spec_error, ErrorReport, RuntimeError};
use crate::memory::{Memory, MemoryError};
use crate::pouch_screen::PouchScreen;
use crate::screen_items::spec_select;
use crate::util::{seq_starts_with, spec_type_is_weapon, str_starts_with};

verus! {

/// How an item is got
#[derive(Debug, Clone, Copy, PartialEq, Eq, Structural)]
pub enum GetMode {
    /// A cooked item: got one at a time with the cook data of the meta
    Cook,
    /// A stackable item (not an arrow, no value given, not accurate): all of the amount
    /// in one call, as the value
    Batch,
    /// Got one at a time, with the auto-equip of a weapon
    OneByOne { is_weapon: bool },
}

/// How the item is got: cooked items one by one; stackable items (but arrows, which are
/// auto-equipped) in one call unless a value is given or the simulation is accurate;
/// anything else one by one
pub open spec fn spec_get_mode(name: ActorName, meta: Option<ItemMeta>, accurate: bool) -> GetMode {
    let is_weapon = spec_type_is_weapon(name.pouch_type);
    if seq_starts_with(name.name@, "Item_Cook_"@) {
        GetMode::Cook
    } else if !accurate && !is_weapon && !(meta matches Some(m) && m.value is Some)
        && name.can_stack && name.pouch_type != 2 {
        GetMode::Batch
    } else {
        GetMode::OneByOne { is_weapon }
    }
}

/// How the item is got
pub fn get_mode(name: &ActorName, meta: Option<&ItemMeta>, accurate: bool) -> (r: GetMode)
    ensures
        r == spec_get_mode(
            *name,
            match meta {
                Some(m) => Some(*m),
                None => None,
            },
            accurate,
        ),
{
    proof {
        reveal_strlit("Item_Cook_");
    }
    if str_starts_with(name.name.as_str(), "Item_Cook_") {
        // cooked items cannot be got in one call
        return GetMode::Cook;
    }
    let is_weapon = name.pouch_type == 0 || name.pouch_type == 1 || name.pouch_type == 3;
    let has_value = match meta {
        Some(m) => m.value.is_some(),
        None => false,
    };
    if !accurate && !is_weapon && !has_value && name.can_stack && name.pouch_type != 2 {
        GetMode::Batch
    } else {
        GetMode::OneByOne { is_weapon }
    }
}

/// Activate Prompt Entanglement at the slot of the item; reports an error when the item
/// is not found. The slot may be empty or translucent.
pub fn entangle_item(
    inv: &mut PouchScreen,
    matcher: &ItemMatchSpec,
    memory: &Memory,
    errors: &mut Vec<ErrorReport>,
) -> (r: Result<(), MemoryError>)
    ensures
        exists|sel: Result<Option<(usize, usize)>, MemoryError>, errs: Seq<ErrorReport>|
            #[trigger] spec_select(
                old(inv).items,
                matcher.name,
                matcher.meta,
                None,
                *memory,
                matcher.span,
                old(errors)@,
                errs,
                sel,
            ) && match sel {
                Err(e) => r == Err::<(), MemoryError>(e) && *final(inv) == *old(inv)
                    && final(errors)@ == errs,
                Ok(None) => r == Ok::<(), MemoryError>(()) && *final(inv) == *old(inv)
                    && final(errors)@ == errs.push(spec_error(matcher.span, RuntimeError::CannotFindItem)),
                Ok(Some((tab, slot))) => r == Ok::<(), MemoryError>(()) && final(errors)@ == errs
                    && final(inv).spec_active_pe() == Some((tab % 3, slot))
                    && final(inv).items == old(inv).items
                    && final(inv).weapon_state == old(inv).weapon_state
                    && final(inv).bow_state == old(inv).bow_state
                    && final(inv).shield_state == old(inv).shield_state,
            },
{
    let sel = inv.items.select(&matcher.name, matcher.meta.as_ref(), None, memory, matcher.span, errors);
    let ghost sel_v = sel;
    assert(spec_select(
        inv.items,
        matcher.name,
        matcher.meta,
        None,
        *memory,
        matcher.span,
        old(errors)@,
        errors@,
        sel_v,
    ));
    match sel {
        Err(e) => Err(e),
        Ok(None) => {
            errors.push(ErrorReport::error(matcher.span, RuntimeError::CannotFindItem));
            Ok(())
        },
        Ok(Some((tab, slot))) => {
            // an empty slot can be targeted too
            inv.activate_pe(tab, slot);
            Ok(())
        },
    }
}

} // verus!
