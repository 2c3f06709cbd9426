//! The decisions of dropping items: how an item is dropped, the next weapon a `drop`
//! command targets in the pouch, what the pouch screen records once it was dropped, and
//! how many materials are held at a time
use vstd::prelude::*;

use crate::amount::{change_to_pe_target_if_need, spec_pe_target};
use crate::cir::{ItemMeta, ItemNameSpec, ItemSelectSpec, Span};
use crate::equip::{spec_slot_read_error, spec_slot_updated};
use crate::error::{spec_error, ErrorReport, RuntimeError};
use crate::memory::{Memory, MemoryError};
use crate::pouch_screen::{spec_with_equipment_state, PouchScreen, PouchScreenEquipState};
use crate::screen_items::{spec_corrected_slot, spec_select, spec_slot, ScreenItemState};
use crate::util::{name_spec_can_drop, name_spec_is_weapon, spec_is_undroppable_actor, spec_name_spec_category};
use crate::cir::{spec_is_equipment, Category};

verus! {

/// How an item of a `drop` command is dropped
#[derive(Debug, Clone, Copy, PartialEq, Eq, Structural)]
pub enum DropKind {
    /// The item cannot be dropped
    NotDroppable,
    /// A weapon, bow or shield: by the drop prompt in the pouch, or from the player in
    /// the overworld
    Weapon,
    /// A material: held, then dropped in the overworld
    Material,
}

/// How the named item is dropped
pub open spec fn spec_drop_kind(name: ItemNameSpec) -> DropKind {
    let droppable = match name {
        ItemNameSpec::Actor(actor) => !spec_is_undroppable_actor(actor.name@),
        ItemNameSpec::Category(_) => true,
    } && (spec_name_spec_category(name) matches Some(c) && (spec_is_equipment(c) || c
        == Category::Material));
    if !droppable {
        DropKind::NotDroppable
    } else if spec_name_spec_category(name) matches Some(c) && spec_is_equipment(c) {
        DropKind::Weapon
    } else {
        DropKind::Material
    }
}

/// How the named item is dropped
pub fn drop_kind(name: &ItemNameSpec) -> (r: DropKind)
    ensures
        r == spec_drop_kind(*name),
{
    if !name_spec_can_drop(name) {
        DropKind::NotDroppable
    } else if name_spec_is_weapon(name) {
        DropKind::Weapon
    } else {
        DropKind::Material
    }
}

/// Materials are held (and dropped) at most 5 at a time
pub fn next_hold_batch(amount: usize) -> (r: usize)
    ensures
        r == if amount < 5 {
            amount
        } else {
            5
        },
{
    if amount < 5 {
        amount
    } else {
        5
    }
}

/// What a `drop` command does next with a weapon in the pouch
#[derive(Debug, Clone, Copy, PartialEq, Eq, Structural)]
pub enum DropStep {
    /// There is no target: stop, and check what remains unless an error was reported
    Stop { check_remaining: bool },
    /// Drop at the slot (`corrected_slot` is the slot for the game's functions);
    /// `item`, `equipped` and `item_type` are of the item selected before Prompt
    /// Entanglement applied (an equipped one is unequipped first)
    Act { tab: usize, slot: usize, corrected_slot: i32, item: u64, equipped: bool, item_type: i32 },
}

/// `r` is the next step of dropping a weapon: the next matching item; stop when there is
/// none, or (with an error) when the slot is empty or translucent or the item is not a
/// weapon, bow or shield; then Prompt Entanglement applies
pub open spec fn spec_next_drop(
    inv: PouchScreen,
    name: ItemNameSpec,
    meta: Option<ItemMeta>,
    span: Span,
    pe_target: Option<ItemSelectSpec>,
    memory: Memory,
    before: Seq<ErrorReport>,
    after: Seq<ErrorReport>,
    r: Result<DropStep, MemoryError>,
) -> bool {
    exists|sel: Result<Option<(usize, usize)>, MemoryError>, errs: Seq<ErrorReport>|
        #[trigger] spec_select(inv.items, name, meta, None, memory, span, before, errs, sel)
            && match sel {
            Err(e) => r == Err::<DropStep, MemoryError>(e) && after == errs,
            Ok(None) => r == Ok::<DropStep, MemoryError>(DropStep::Stop { check_remaining: true })
                && after == errs,
            Ok(Some((tab, slot))) => match spec_slot(inv.items.tabs@, tab as int, slot as int) {
                Some(Some(item)) if item.in_inventory => match memory.spec_read(item.ptr) {
                    None => r == Err::<DropStep, MemoryError>(MemoryError { addr: item.ptr })
                        && after == errs,
                    Some(d) => if !(d.item_type == 0 || d.item_type == 1 || d.item_type == 3) {
                        r == Ok::<DropStep, MemoryError>(DropStep::Stop { check_remaining: false })
                            && after == errs.push(spec_error(span, RuntimeError::NotEquipment))
                    } else {
                        exists|pe: Result<Option<(usize, usize)>, MemoryError>, pe_errs: Seq<ErrorReport>|
                            #[trigger] spec_pe_target(pe_target, inv, memory, tab, slot, errs, pe_errs, pe)
                                && after == pe_errs && match pe {
                                Err(e) => r == Err::<DropStep, MemoryError>(e),
                                Ok(None) => r == Ok::<DropStep, MemoryError>(
                                    DropStep::Stop { check_remaining: false },
                                ),
                                Ok(Some((t, s))) => r == Ok::<DropStep, MemoryError>(
                                    DropStep::Act {
                                        tab: t,
                                        slot: s,
                                        corrected_slot: spec_corrected_slot(inv.items.tabs@, t, s),
                                        item: item.ptr,
                                        equipped: d.equipped,
                                        item_type: d.item_type,
                                    },
                                ),
                            }
                    },
                },
                _ => r == Ok::<DropStep, MemoryError>(DropStep::Stop { check_remaining: false })
                    && after == errs.push(spec_error(span, RuntimeError::InvalidItemTarget)),
            },
        }
}

/// The next step of dropping a weapon from the pouch
pub fn next_drop_target(
    inv: &PouchScreen,
    name: &ItemNameSpec,
    meta: Option<&ItemMeta>,
    span: Span,
    pe_target: Option<&ItemSelectSpec>,
    memory: &Memory,
    errors: &mut Vec<ErrorReport>,
) -> (r: Result<DropStep, MemoryError>)
    ensures
        spec_next_drop(
            *inv,
            *name,
            match meta {
                Some(m) => Some(*m),
                None => None,
            },
            span,
            match pe_target {
                Some(t) => Some(*t),
                None => None,
            },
            *memory,
            old(errors)@,
            final(errors)@,
            r,
        ),
{
    let sel = inv.items.select(name, meta, None, memory, span, errors);
    let ghost sel_v = sel;
    let ghost errs = errors@;
    assert(spec_select(
        inv.items,
        *name,
        match meta {
            Some(m) => Some(*m),
            None => None,
        },
        None,
        *memory,
        span,
        old(errors)@,
        errs,
        sel_v,
    ));
    let (tab, slot) = match sel {
        Err(e) => return Err(e),
        Ok(None) => return Ok(DropStep::Stop { check_remaining: true }),
        Ok(Some(p)) => p,
    };
    let ptr = match inv.items.get(tab, slot) {
        ScreenItemState::Normal(p) => p,
        _ => {
            // the item to drop must be non empty and non translucent
            errors.push(ErrorReport::error(span, RuntimeError::InvalidItemTarget));
            return Ok(DropStep::Stop { check_remaining: false });
        },
    };
    let d = match memory.read_item(ptr) {
        Err(e) => return Err(e),
        Ok(d) => d,
    };
    if !(d.item_type == 0 || d.item_type == 1 || d.item_type == 3) {
        // the drop prompt is only for weapons, bows and shields
        errors.push(ErrorReport::error(span, RuntimeError::NotEquipment));
        return Ok(DropStep::Stop { check_remaining: false });
    }
    let equipped = d.equipped;
    let item_type = d.item_type;
    let pe = change_to_pe_target_if_need(pe_target, inv, memory, tab, slot, errors);
    let ghost pe_v = pe;
    assert(spec_pe_target(
        match pe_target {
            Some(t) => Some(*t),
            None => None,
        },
        *inv,
        *memory,
        tab,
        slot,
        errs,
        errors@,
        pe_v,
    ));
    match pe {
        Err(e) => Err(e),
        Ok(None) => Ok(DropStep::Stop { check_remaining: false }),
        Ok(Some((t, s))) => Ok(
            DropStep::Act {
                tab: t,
                slot: s,
                corrected_slot: inv.items.corrected_slot(t, s),
                item: ptr,
                equipped,
                item_type,
            },
        ),
    }
}

/// Record the unequip that comes before dropping an equipped item: the screen deletes
/// the equipment of that type on the player when it closes
pub fn record_drop_unequip(inv: &mut PouchScreen, item_type: i32)
    ensures
        *final(inv) == spec_with_equipment_state(
            *old(inv),
            item_type,
            PouchScreenEquipState { item: 0, to_delete: true },
        ),
{
    inv.equipment_state_mut(item_type).set_unequip();
}

/// Record the dropped slot in the pouch screen, once the game dropped it: the slot is
/// refreshed from memory and shown as unequipped
pub fn finish_drop(inv: &mut PouchScreen, tab: usize, slot: usize, memory: &Memory) -> (r: Result<
    (),
    MemoryError,
>)
    ensures
        match spec_slot_read_error(old(inv).items, tab, slot, *memory) {
            Some(e) => r == Err::<(), MemoryError>(e),
            None => r is Ok,
        },
        match r {
            Err(e) => *final(inv) == *old(inv),
            Ok(()) => spec_slot_updated(old(inv).items, tab, slot, false, *memory, final(inv).items)
                && *final(inv) == (PouchScreen { items: final(inv).items, ..*old(inv) }),
        },
{
    match inv.items.update(tab, slot, Some(false), memory) {
        Err(e) => Err(e),
        Ok(_) => Ok(()),
    }
}

} // verus!
