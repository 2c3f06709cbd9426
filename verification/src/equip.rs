//! The decisions of equipping and unequipping: which items can be equipped, the next item
//! that an `equip`/`unequip` command targets in the pouch or in the dpad quick menu, and
//! what the pouch screen records once the game equipped or unequipped it
use vstd::prelude::*;

use crate::amount::{change_to_pe_target_if_need, spec_pe_target};
use crate::cir::{ItemMatchSpec, ItemMeta, ItemNameSpec, ItemSelectSpec, Span};
use crate::dpad::{
    dpad_get_first_equipped, dpad_select, spec_dpad_select_from, spec_dpad_select_warnings,
    spec_dpad_skip, spec_first_equipped_from,
};
use crate::error::{spec_error, spec_warning, ErrorReport, RuntimeError};
use crate::actor::SpawnedActor;
use crate::memory::{Memory, MemoryError, PouchItemMemory};
use crate::overworld::{spec_equipment_actor, OverworldSystem};
use crate::screen::spec_apply_equip_state;
use crate::pouch_screen::{spec_equipment_state, spec_with_equipment_state, PouchScreen};
use crate::screen_items::{
    spec_corrected_slot, spec_select, spec_slot, ScreenItem, ScreenItemState, ScreenItems,
};
use crate::util::{is_hero_soul, name_spec_to_item_type, spec_is_hero_soul};

verus! {

/// Pouch item type named by a name spec
pub open spec fn spec_name_item_type(name: ItemNameSpec) -> i32 {
    match name {
        ItemNameSpec::Actor(actor) => actor.pouch_type,
        ItemNameSpec::Category(c) => crate::util::spec_category_to_item_type(c),
    }
}

/// The error for an item that cannot be equipped or unequipped from the pouch: only
/// equipment, arrows and key items can, and arrows cannot be unequipped
pub open spec fn spec_pouch_equip_error(name: ItemNameSpec, is_equip: bool) -> Option<RuntimeError> {
    let t = spec_name_item_type(name);
    if t > 6 && t != 9 {
        Some(RuntimeError::NotEquipment)
    } else if t == 2 && !is_equip {
        Some(RuntimeError::CannotUnequipArrow)
    } else {
        None
    }
}

/// The error for an item that cannot be equipped or unequipped from the dpad menu: only
/// weapons, bows, arrows and shields are there, and arrows cannot be unequipped
pub open spec fn spec_dpad_equip_error(name: ItemNameSpec, is_equip: bool) -> Option<RuntimeError> {
    let t = spec_name_item_type(name);
    if t > 3 {
        Some(RuntimeError::InvalidDpadType)
    } else if t == 2 && !is_equip {
        Some(RuntimeError::CannotUnequipArrow)
    } else {
        None
    }
}

/// Check if the named item can be equipped (or unequipped) from the pouch
pub fn pouch_equip_error(name: &ItemNameSpec, is_equip: bool) -> (r: Option<RuntimeError>)
    ensures
        r == spec_pouch_equip_error(*name, is_equip),
{
    let t = name_spec_to_item_type(name);
    if t > 6 && t != 9 {
        Some(RuntimeError::NotEquipment)
    } else if t == 2 && !is_equip {
        // unequipping an arrow has no prompt in the game
        Some(RuntimeError::CannotUnequipArrow)
    } else {
        None
    }
}

/// Check if the named item can be equipped (or unequipped) from the dpad menu
pub fn dpad_equip_error(name: &ItemNameSpec, is_equip: bool) -> (r: Option<RuntimeError>)
    ensures
        r == spec_dpad_equip_error(*name, is_equip),
{
    let t = name_spec_to_item_type(name);
    if t > 3 {
        Some(RuntimeError::InvalidDpadType)
    } else if t == 2 && !is_equip {
        Some(RuntimeError::CannotUnequipArrow)
    } else {
        None
    }
}

/// A copy of the names
pub fn copy_names(v: &Vec<String>) -> (r: Vec<String>)
    ensures
        r@ == v@,
{
    let mut r: Vec<String> = Vec::new();
    let mut i: usize = 0;
    while i < v.len()
        invariant
            i <= v.len(),
            r@ == v@.take(i as int),
        decreases v.len() - i,
    {
        r.push(v[i].clone());
        i += 1;
        assert(r@ =~= v@.take(i as int));
    }
    assert(v@.take(v.len() as int) =~= v@);
    r
}

/// Whether the game is asked to equip (rather than unequip) the targeted slot: an arrow
/// can only be equipped, so unequipping an arrow equips it as well
pub fn calls_equip(is_arrow: bool, is_equip: bool) -> (r: bool)
    ensures
        r == (is_arrow || is_equip),
{
    is_arrow || is_equip
}

/// The meta for selecting the item of an `equip`/`unequip` command: the given meta with
/// the equipped property replaced (any item when equipping, only equipped items when
/// unequipping)
pub fn equip_select_meta(meta: Option<&ItemMeta>, is_equip: bool) -> (r: ItemMeta)
    ensures
        r.equip == (if is_equip {
            None::<bool>
        } else {
            Some(true)
        }),
        match meta {
            None => r.value is None && r.life_recover is None && r.effect_duration is None
                && r.sell_price is None && r.effect_id is None && r.effect_level is None
                && r.ingredients@.len() == 0 && r.position is None && r.held is None,
            Some(m) => r.value == m.value && r.life_recover == m.life_recover
                && r.effect_duration == m.effect_duration && r.sell_price == m.sell_price
                && r.effect_id == m.effect_id && r.effect_level == m.effect_level
                && r.ingredients@ == m.ingredients@ && r.position == m.position && r.held
                == m.held,
        },
{
    let equip = if is_equip {
        None
    } else {
        Some(true)
    };
    match meta {
        None => ItemMeta {
            value: None,
            equip,
            life_recover: None,
            effect_duration: None,
            sell_price: None,
            effect_id: None,
            effect_level: None,
            ingredients: Vec::new(),
            position: None,
            held: None,
        },
        Some(m) => ItemMeta {
            value: m.value,
            equip,
            life_recover: m.life_recover,
            effect_duration: m.effect_duration,
            sell_price: m.sell_price,
            effect_id: m.effect_id,
            effect_level: m.effect_level,
            ingredients: copy_names(&m.ingredients),
            position: m.position,
            held: m.held,
        },
    }
}

/// What an `equip`/`unequip` command does next in the pouch
#[derive(Debug, Clone, Copy, PartialEq, Eq, Structural)]
pub enum EquipStep {
    /// There is no target: stop, and check what remains unless a diagnostic was reported
    Stop { check_remaining: bool },
    /// Equip or unequip at the slot (`corrected_slot` is the slot for the game's
    /// functions); `item`, `item_type`, `is_arrow` and `is_weapon` are of the item selected
    /// before Prompt Entanglement applied
    Act {
        tab: usize,
        slot: usize,
        corrected_slot: i32,
        item: u64,
        item_type: i32,
        is_arrow: bool,
        is_weapon: bool,
    },
}

/// `r` is the next step of an `equip` (or `unequip`) command: the next matching item; stop
/// when there is none, or (with a diagnostic) when the slot is empty or translucent, the
/// item is already equipped (unequipped), or is no equipment; then Prompt Entanglement
/// applies
pub open spec fn spec_next_equip(
    inv: PouchScreen,
    name: ItemNameSpec,
    meta: ItemMeta,
    span: Span,
    is_equip: bool,
    pe_target: Option<ItemSelectSpec>,
    memory: Memory,
    before: Seq<ErrorReport>,
    after: Seq<ErrorReport>,
    r: Result<EquipStep, MemoryError>,
) -> bool {
    exists|sel: Result<Option<(usize, usize)>, MemoryError>, errs: Seq<ErrorReport>|
        #[trigger] spec_select(inv.items, name, Some(meta), None, memory, span, before, errs, sel)
            && match sel {
            Err(e) => r == Err::<EquipStep, MemoryError>(e) && after == errs,
            Ok(None) => r == Ok::<EquipStep, MemoryError>(EquipStep::Stop { check_remaining: true })
                && after == errs,
            Ok(Some((tab, slot))) => match spec_slot(inv.items.tabs@, tab as int, slot as int) {
                Some(Some(item)) if item.in_inventory => match memory.spec_read(item.ptr) {
                    None => r == Err::<EquipStep, MemoryError>(MemoryError { addr: item.ptr })
                        && after == errs,
                    Some(d) => if d.equipped == is_equip {
                        r == Ok::<EquipStep, MemoryError>(
                            EquipStep::Stop { check_remaining: false },
                        ) && after == errs.push(
                            spec_warning(
                                span,
                                if is_equip {
                                    RuntimeError::ItemAlreadyEquipped
                                } else {
                                    RuntimeError::ItemAlreadyUnequipped
                                },
                            ),
                        )
                    } else if d.item_type > 6 && !spec_is_hero_soul(d.name.name@) {
                        r == Ok::<EquipStep, MemoryError>(
                            EquipStep::Stop { check_remaining: true },
                        ) && after == errs.push(spec_error(span, RuntimeError::NotEquipment))
                    } else {
                        exists|pe: Result<Option<(usize, usize)>, MemoryError>, pe_errs: Seq<ErrorReport>|
                            #[trigger] spec_pe_target(pe_target, inv, memory, tab, slot, errs, pe_errs, pe)
                                && after == pe_errs && match pe {
                                Err(e) => r == Err::<EquipStep, MemoryError>(e),
                                Ok(None) => r == Ok::<EquipStep, MemoryError>(
                                    EquipStep::Stop { check_remaining: false },
                                ),
                                Ok(Some((t, s))) => r == Ok::<EquipStep, MemoryError>(
                                    EquipStep::Act {
                                        tab: t,
                                        slot: s,
                                        corrected_slot: spec_corrected_slot(inv.items.tabs@, t, s),
                                        item: item.ptr,
                                        item_type: d.item_type,
                                        is_arrow: d.name.pouch_type == 2,
                                        is_weapon: d.item_type <= 3,
                                    },
                                ),
                            }
                    },
                },
                _ => r == Ok::<EquipStep, MemoryError>(EquipStep::Stop { check_remaining: false })
                    && after == errs.push(spec_error(span, RuntimeError::InvalidItemTarget)),
            },
        }
}

/// The next step of an `equip` (or `unequip`) command in the pouch; `meta` is the meta
/// given by [`equip_select_meta`]
pub fn next_equip_target(
    inv: &PouchScreen,
    name: &ItemNameSpec,
    meta: &ItemMeta,
    span: Span,
    is_equip: bool,
    pe_target: Option<&ItemSelectSpec>,
    memory: &Memory,
    errors: &mut Vec<ErrorReport>,
) -> (r: Result<EquipStep, MemoryError>)
    ensures
        spec_next_equip(
            *inv,
            *name,
            *meta,
            span,
            is_equip,
            match pe_target {
                Some(t) => Some(*t),
                None => None,
            },
            *memory,
            old(errors)@,
            final(errors)@,
            r,
        ),
{
    let sel = inv.items.select(name, Some(meta), None, memory, span, errors);
    let ghost sel_v = sel;
    let ghost errs = errors@;
    assert(spec_select(inv.items, *name, Some(*meta), None, *memory, span, old(errors)@, errs, sel_v));
    let (tab, slot) = match sel {
        Err(e) => return Err(e),
        Ok(None) => return Ok(EquipStep::Stop { check_remaining: true }),
        Ok(Some(p)) => p,
    };
    let ptr = match inv.items.get(tab, slot) {
        ScreenItemState::Normal(p) => p,
        _ => {
            // the item must be non empty and non translucent
            errors.push(ErrorReport::error(span, RuntimeError::InvalidItemTarget));
            return Ok(EquipStep::Stop { check_remaining: false });
        },
    };
    let d = match memory.read_item(ptr) {
        Err(e) => return Err(e),
        Ok(d) => d,
    };
    if d.equipped == is_equip {
        if is_equip {
            errors.push(ErrorReport::warning(span, RuntimeError::ItemAlreadyEquipped));
        } else {
            errors.push(ErrorReport::warning(span, RuntimeError::ItemAlreadyUnequipped));
        }
        return Ok(EquipStep::Stop { check_remaining: false });
    }
    if d.item_type > 6 && !is_hero_soul(d.name.name.as_str()) {
        errors.push(ErrorReport::error(span, RuntimeError::NotEquipment));
        return Ok(EquipStep::Stop { check_remaining: true });
    }
    let item_type = d.item_type;
    let is_arrow = d.name.pouch_type == 2;
    let is_weapon = d.item_type <= 3;
    let pe = change_to_pe_target_if_need(pe_target, inv, memory, tab, slot, errors);
    let ghost pe_v = pe;
    assert(spec_pe_target(
        match pe_target {
            Some(t) => Some(*t),
            None => None,
        },
        *inv,
        *memory,
        tab,
        slot,
        errs,
        errors@,
        pe_v,
    ));
    match pe {
        Err(e) => Err(e),
        Ok(None) => Ok(EquipStep::Stop { check_remaining: false }),
        Ok(Some((t, s))) => Ok(
            EquipStep::Act {
                tab: t,
                slot: s,
                corrected_slot: inv.items.corrected_slot(t, s),
                item: ptr,
                item_type,
                is_arrow,
                is_weapon,
            },
        ),
    }
}

/// The pouch screen after the game equipped (or unequipped) at the slot and the items
/// were refreshed: the slot shows as equipped (an arrow is always equipped), and for a
/// weapon, bow or shield the screen records what to spawn (or delete) on the player when
/// it closes
pub open spec fn spec_after_equip(
    inv: PouchScreen,
    tab: usize,
    slot: usize,
    item: u64,
    item_type: i32,
    is_arrow: bool,
    is_weapon: bool,
    is_equip: bool,
    shown: ScreenItems,
) -> PouchScreen {
    let with_items = PouchScreen { items: shown, ..inv };
    if !is_arrow && is_weapon {
        spec_with_equipment_state(
            with_items,
            item_type,
            crate::pouch_screen::PouchScreenEquipState { item: if is_equip { item } else { 0 }, to_delete: !is_equip },
        )
    } else {
        with_items
    }
}

/// The error of refreshing the slot: the item there cannot be read
pub open spec fn spec_slot_read_error(items: ScreenItems, tab: usize, slot: usize, memory: Memory) -> Option<
    MemoryError,
> {
    match spec_slot(items.tabs@, tab as int, slot as int) {
        Some(Some(x)) => if memory.spec_read(x.ptr) is None {
            Some(MemoryError { addr: x.ptr })
        } else {
            None
        },
        _ => None,
    }
}

/// `new` is `old` with the slot refreshed from memory and shown as `equipped`; a slot
/// without an item stays as it is
pub open spec fn spec_slot_updated(
    old: ScreenItems,
    tab: usize,
    slot: usize,
    equipped: bool,
    memory: Memory,
    new: ScreenItems,
) -> bool {
    match spec_slot(old.tabs@, tab as int, slot as int) {
        Some(Some(x)) => match memory.spec_read(x.ptr) {
            None => false,
            Some(d) => {
                let new_item = ScreenItem { in_inventory: d.in_inventory, equipped, ..x };
                &&& new.tabs@.len() == old.tabs@.len()
                &&& forall|t: int|
                    0 <= t < old.tabs@.len() && t != tab ==> new.tabs@[t] == old.tabs@[t]
                &&& new.tabs@[tab as int].category == old.tabs@[tab as int].category
                &&& new.tabs@[tab as int].items@ == old.tabs@[tab as int].items@.update(
                    slot as int,
                    Some(new_item),
                )
            },
        },
        _ => new == old,
    }
}

/// Record an equip (or unequip) at the slot in the pouch screen, after the game did it and
/// the items were refreshed
pub fn finish_equip(
    inv: &mut PouchScreen,
    tab: usize,
    slot: usize,
    item: u64,
    item_type: i32,
    is_arrow: bool,
    is_weapon: bool,
    is_equip: bool,
    memory: &Memory,
) -> (r: Result<(), MemoryError>)
    ensures
        match spec_slot_read_error(old(inv).items, tab, slot, *memory) {
            Some(e) => r == Err::<(), MemoryError>(e),
            None => r is Ok,
        },
        match r {
            Err(e) => *final(inv) == *old(inv),
            Ok(()) => spec_slot_updated(
                old(inv).items,
                tab,
                slot,
                is_arrow || is_equip,
                *memory,
                final(inv).items,
            ) && *final(inv) == spec_after_equip(
                *old(inv),
                tab,
                slot,
                item,
                item_type,
                is_arrow,
                is_weapon,
                is_equip,
                final(inv).items,
            ),
        },
{
    // an arrow is always equipped by the prompt
    let shown_equipped = is_arrow || is_equip;
    match inv.items.update(tab, slot, Some(shown_equipped), memory) {
        Err(e) => return Err(e),
        Ok(_) => {},
    }
    if !is_arrow && is_weapon {
        let state = inv.equipment_state_mut(item_type);
        if is_equip {
            state.set_equip(item);
        } else {
            state.set_unequip();
        }
    }
    Ok(())
}

/// What equipping or unequipping from the dpad menu does
#[derive(Debug, Clone, Copy, PartialEq, Eq, Structural)]
pub enum DpadStep {
    /// No item matches: stop (an error was reported)
    NotFound,
    /// Equip the item
    Equip { item: u64 },
    /// The item is already the first equipped one: nothing is equipped
    Keep { item: u64 },
    /// Unequip the item
    Unequip { item: u64 },
}

/// The next step of equipping (unequipping) from the dpad menu, and the errors after
pub open spec fn spec_dpad_step(
    menu: Seq<u64>,
    matcher: ItemMatchSpec,
    is_equip: bool,
    memory: Memory,
    before: Seq<ErrorReport>,
) -> (Result<DpadStep, MemoryError>, Seq<ErrorReport>) {
    let warned = spec_dpad_select_warnings(matcher, is_equip, before);
    match spec_dpad_select_from(menu, matcher, is_equip, memory, 0, spec_dpad_skip(matcher.meta, is_equip)) {
        Err(e) => (Err(e), warned),
        Ok(None) => (
            Ok(DpadStep::NotFound),
            warned.push(
                spec_error(
                    matcher.span,
                    if is_equip {
                        RuntimeError::CannotFindItemDpadEquip
                    } else {
                        RuntimeError::CannotFindItemDpadUnequip
                    },
                ),
            ),
        ),
        Ok(Some(item)) => if is_equip {
            match spec_first_equipped_from(menu, memory, 0) {
                Err(e) => (Err(e), warned),
                Ok(first) => (
                    Ok(if item != first {
                        DpadStep::Equip { item }
                    } else {
                        DpadStep::Keep { item }
                    }),
                    warned,
                ),
            }
        } else {
            (Ok(DpadStep::Unequip { item }), warned)
        },
    }
}

/// The next step of equipping (or unequipping) from the dpad menu
pub fn next_dpad_step(
    menu: &Vec<u64>,
    matcher: &ItemMatchSpec,
    is_equip: bool,
    memory: &Memory,
    errors: &mut Vec<ErrorReport>,
) -> (r: Result<DpadStep, MemoryError>)
    ensures
        (r, final(errors)@) == spec_dpad_step(menu@, *matcher, is_equip, *memory, old(errors)@),
{
    let selected = match dpad_select(menu, matcher, is_equip, errors, memory) {
        Err(e) => return Err(e),
        Ok(s) => s,
    };
    let item = match selected {
        None => {
            if is_equip {
                errors.push(ErrorReport::error(matcher.span, RuntimeError::CannotFindItemDpadEquip));
            } else {
                errors.push(
                    ErrorReport::error(matcher.span, RuntimeError::CannotFindItemDpadUnequip),
                );
            }
            return Ok(DpadStep::NotFound);
        },
        Some(item) => item,
    };
    if !is_equip {
        return Ok(DpadStep::Unequip { item });
    }
    let first = match dpad_get_first_equipped(menu, memory) {
        Err(e) => return Err(e),
        Ok(f) => f,
    };
    if item != first {
        Ok(DpadStep::Equip { item })
    } else {
        Ok(DpadStep::Keep { item })
    }
}

/// The type of the equipment unequipped from the dpad menu: of the item, or the type
/// named in the command when the item is the null address
pub fn dpad_unequipped_type(item: u64, named_type: i32, memory: &Memory) -> (r: Result<
    i32,
    MemoryError,
>)
    ensures
        r == if item == 0 {
            Ok::<i32, MemoryError>(named_type)
        } else {
            match memory.spec_read(item) {
                None => Err(MemoryError { addr: item }),
                Some(d) => Ok(d.item_type),
            }
        },
{
    if item == 0 {
        return Ok(named_type);
    }
    match memory.read_item(item) {
        Err(e) => Err(e),
        Ok(d) => Ok(d.item_type),
    }
}

/// A weapon, bow or shield equipped in the pouch becomes the player's equipment of its
/// type when the inventory closes (if actors can be created), and one unequipped leaves
/// the player
pub proof fn lemma_equip_applies_on_close(
    inv: PouchScreen,
    tab: usize,
    slot: usize,
    item: u64,
    data: PouchItemMemory,
    is_equip: bool,
    shown: ScreenItems,
    o: OverworldSystem,
    memory: Memory,
)
    requires
        data.item_type == 0 || data.item_type == 1 || data.item_type == 3,
        is_equip ==> item != 0 && memory.spec_read(item) == Some(data),
    ensures
        ({
            let after = spec_after_equip(inv, tab, slot, item, data.item_type, false, true, is_equip, shown);
            spec_apply_equip_state(o, data.item_type, spec_equipment_state(after, data.item_type), memory)
                == if !is_equip {
                Ok::<OverworldSystem, (OverworldSystem, MemoryError)>(o.spec_with_equipped(data.item_type, None))
            } else if o.actor_creator.is_actor_creation_allowed {
                Ok::<OverworldSystem, (OverworldSystem, MemoryError)>(
                    o.spec_with_equipped(data.item_type, Some(SpawnedActor(spec_equipment_actor(data)))),
                )
            } else {
                Ok::<OverworldSystem, (OverworldSystem, MemoryError)>(o)
            }
        }),
{
}

} // verus!
