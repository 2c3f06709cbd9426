//! Selling items and removing them by force: both find a stack to take from (another
//! stack with a value when the first one found is an empty stack), then take from it
//! by value (stackable items) or by slot
use vstd::prelude::*;

use crate::actor::copy_name;
use crate::amount::{spec_sub, OperationAmount};
use crate::cir::{ActorName, ItemMeta, ItemNameSpec, Span};
use crate::error::{spec_error, ErrorReport, RuntimeError};
use crate::memory::{Memory, MemoryError};
use crate::screen_items::{spec_select, spec_slot, ScreenItemState, ScreenItems};

verus! {

/// The stack an action takes from
#[derive(Debug, Clone)]
pub struct StackTarget {
    pub tab: usize,
    pub slot: usize,
    /// Address of the pouch item
    pub item: u64,
    /// Name of the item, with its game data
    pub name: ActorName,
    /// mType of the item
    pub item_type: i32,
    /// The value to take from (of the first stack found when the item reselected is not
    /// stackable)
    pub value: i32,
}

/// `r` is the stack found when the first one found was an empty stack with value
/// `old_value`: the next one with a value of at least 1, if it is in the inventory
pub open spec fn spec_restack_target(
    items: ScreenItems,
    name: ItemNameSpec,
    meta: Option<ItemMeta>,
    span: Span,
    memory: Memory,
    old_value: i32,
    before: Seq<ErrorReport>,
    after: Seq<ErrorReport>,
    r: Result<Option<StackTarget>, MemoryError>,
) -> bool {
    exists|sel: Result<Option<(usize, usize)>, MemoryError>, errs: Seq<ErrorReport>|
        #[trigger] spec_select(items, name, meta, Some(1), memory, span, before, errs, sel)
            && after == errs && match sel {
            Err(e) => r == Err::<Option<StackTarget>, MemoryError>(e),
            Ok(None) => r == Ok::<Option<StackTarget>, MemoryError>(None),
            Ok(Some((tab, slot))) => match spec_slot(items.tabs@, tab as int, slot as int) {
                Some(Some(x)) if x.in_inventory => match memory.spec_read(x.ptr) {
                    None => r == Err::<Option<StackTarget>, MemoryError>(
                        MemoryError { addr: x.ptr },
                    ),
                    Some(d) => r == Ok::<Option<StackTarget>, MemoryError>(
                        Some(
                            StackTarget {
                                tab,
                                slot,
                                item: x.ptr,
                                name: d.name,
                                item_type: d.item_type,
                                value: if d.name.can_stack {
                                    d.value
                                } else {
                                    old_value
                                },
                            },
                        ),
                    ),
                },
                _ => r == Ok::<Option<StackTarget>, MemoryError>(None),
            },
        }
}

/// `r` is the stack to take from: the first matching item in the inventory, or, when it
/// is a stack without value, the next stack with a value of at least 1; none when the
/// item found is empty or translucent
pub open spec fn spec_stack_target(
    items: ScreenItems,
    name: ItemNameSpec,
    meta: Option<ItemMeta>,
    span: Span,
    memory: Memory,
    before: Seq<ErrorReport>,
    after: Seq<ErrorReport>,
    r: Result<Option<StackTarget>, MemoryError>,
) -> bool {
    exists|sel: Result<Option<(usize, usize)>, MemoryError>, errs: Seq<ErrorReport>|
        #[trigger] spec_select(items, name, meta, None, memory, span, before, errs, sel)
            && match sel {
            Err(e) => r == Err::<Option<StackTarget>, MemoryError>(e) && after == errs,
            Ok(None) => r == Ok::<Option<StackTarget>, MemoryError>(None) && after == errs,
            Ok(Some((tab, slot))) => match spec_slot(items.tabs@, tab as int, slot as int) {
                Some(Some(x)) if x.in_inventory => match memory.spec_read(x.ptr) {
                    None => r == Err::<Option<StackTarget>, MemoryError>(
                        MemoryError { addr: x.ptr },
                    ) && after == errs,
                    Some(d) => if d.name.can_stack && d.value <= 0 {
                        spec_restack_target(items, name, meta, span, memory, d.value, errs, after, r)
                    } else {
                        r == Ok::<Option<StackTarget>, MemoryError>(
                            Some(
                                StackTarget {
                                    tab,
                                    slot,
                                    item: x.ptr,
                                    name: d.name,
                                    item_type: d.item_type,
                                    value: d.value,
                                },
                            ),
                        ) && after == errs
                    },
                },
                _ => r == Ok::<Option<StackTarget>, MemoryError>(None) && after == errs,
            },
        }
}

/// The stack found by reselecting, after an empty stack with value `old_value`
fn restack_target(
    items: &ScreenItems,
    name: &ItemNameSpec,
    meta: Option<&ItemMeta>,
    span: Span,
    memory: &Memory,
    old_value: i32,
    errors: &mut Vec<ErrorReport>,
) -> (r: Result<Option<StackTarget>, MemoryError>)
    ensures
        spec_restack_target(
            *items,
            *name,
            match meta {
                Some(m) => Some(*m),
                None => None,
            },
            span,
            *memory,
            old_value,
            old(errors)@,
            final(errors)@,
            r,
        ),
{
    let sel = items.select(name, meta, Some(1), memory, span, errors);
    let ghost sel_v = sel;
    assert(spec_select(
        *items,
        *name,
        match meta {
            Some(m) => Some(*m),
            None => None,
        },
        Some(1),
        *memory,
        span,
        old(errors)@,
        errors@,
        sel_v,
    ));
    let (tab, slot) = match sel {
        Err(e) => return Err(e),
        Ok(None) => return Ok(None),
        Ok(Some(p)) => p,
    };
    let ptr = match items.get(tab, slot) {
        ScreenItemState::Normal(p) => p,
        _ => return Ok(None),
    };
    let d = match memory.read_item(ptr) {
        Err(e) => return Err(e),
        Ok(d) => d,
    };
    let value = if d.name.can_stack {
        d.value
    } else {
        old_value
    };
    Ok(Some(StackTarget { tab, slot, item: ptr, name: copy_name(&d.name), item_type: d.item_type, value }))
}

/// Find the stack to sell or remove from
pub fn find_stack_target(
    items: &ScreenItems,
    name: &ItemNameSpec,
    meta: Option<&ItemMeta>,
    span: Span,
    memory: &Memory,
    errors: &mut Vec<ErrorReport>,
) -> (r: Result<Option<StackTarget>, MemoryError>)
    ensures
        spec_stack_target(
            *items,
            *name,
            match meta {
                Some(m) => Some(*m),
                None => None,
            },
            span,
            *memory,
            old(errors)@,
            final(errors)@,
            r,
        ),
{
    let sel = items.select(name, meta, None, memory, span, errors);
    let ghost sel_v = sel;
    let ghost errs = errors@;
    assert(spec_select(
        *items,
        *name,
        match meta {
            Some(m) => Some(*m),
            None => None,
        },
        None,
        *memory,
        span,
        old(errors)@,
        errs,
        sel_v,
    ));
    let (tab, slot) = match sel {
        Err(e) => return Err(e),
        Ok(None) => return Ok(None),
        Ok(Some(p)) => p,
    };
    let ptr = match items.get(tab, slot) {
        ScreenItemState::Normal(p) => p,
        // a translucent or empty slot can only be found by its position: selecting
        // again gives the same slot
        _ => return Ok(None),
    };
    let d = match memory.read_item(ptr) {
        Err(e) => return Err(e),
        Ok(d) => d,
    };
    if d.name.can_stack && d.value <= 0 {
        // nothing can be taken from an empty stack: find a stack with a value
        let value = d.value;
        let r = restack_target(items, name, meta, span, memory, value, errors);
        return r;
    }
    Ok(Some(StackTarget { tab, slot, item: ptr, name: copy_name(&d.name), item_type: d.item_type, value: d.value }))
}

/// Amount to take from a stack with value `value`: all of it, or what remains if less
pub open spec fn spec_take_from_value(value: i32, remaining: Option<usize>) -> usize {
    let v: usize = if value <= 0 {
        0
    } else {
        value as usize
    };
    match remaining {
        None => v,
        Some(n) => if n < v {
            n
        } else {
            v
        },
    }
}

/// What selling does to the target: sell the amount (by value for stackable items, else
/// one), or nothing with an error when the item cannot be sold
pub open spec fn spec_sell_amount(target: StackTarget, remaining: OperationAmount) -> Option<usize> {
    if !target.name.can_sell {
        None
    } else if target.name.can_stack {
        Some(spec_take_from_value(target.value, remaining.remaining_amount_or_all))
    } else {
        Some(1)
    }
}

/// The amount of the target to sell; records it as processed, or reports that the item
/// cannot be sold (and nothing is sold)
pub fn sell_amount(
    target: &StackTarget,
    remaining: &mut OperationAmount,
    span: Span,
    errors: &mut Vec<ErrorReport>,
) -> (r: Option<usize>)
    ensures
        r == spec_sell_amount(*target, *old(remaining)),
        match r {
            None => *final(remaining) == *old(remaining) && final(errors)@ == old(errors)@.push(
                spec_error(span, RuntimeError::ItemNotSellable(target.name.name)),
            ),
            Some(n) => *final(remaining) == spec_sub(*old(remaining), n) && final(errors)@
                == old(errors)@,
        },
{
    if !target.name.can_sell {
        errors.push(ErrorReport::error(span, RuntimeError::ItemNotSellable(target.name.name.clone())));
        return None;
    }
    let amount = if target.name.can_stack {
        // a negative value sells nothing
        let value: usize = if target.value <= 0 {
            0
        } else {
            target.value as usize
        };
        match remaining.count() {
            None => value,
            Some(n) => if n < value {
                n
            } else {
                value
            },
        }
    } else {
        1
    };
    remaining.sub(amount);
    Some(amount)
}

/// What removing by force writes to the item: the new value, and whether the item leaves
/// the inventory
#[derive(Debug, Clone, Copy, PartialEq, Eq, Structural)]
pub struct RemoveWrite {
    pub item: u64,
    pub value: i32,
    pub remove_from_inventory: bool,
}

/// Stacks and food (even corrupted) are removed by value
pub open spec fn spec_removes_by_value(target: StackTarget) -> bool {
    target.name.can_stack || target.item_type == 8
}

/// The amount removed from the target
pub open spec fn spec_remove_amount(target: StackTarget, remaining: OperationAmount) -> usize {
    if spec_removes_by_value(target) {
        spec_take_from_value(target.value, remaining.remaining_amount_or_all)
    } else {
        1
    }
}

/// The write that removes from the target: by value (at least one is taken, and an
/// emptied stack leaves the inventory), or the whole slot
pub open spec fn spec_remove_write(target: StackTarget, remaining: OperationAmount) -> RemoveWrite {
    if spec_removes_by_value(target) {
        let v: int = if target.value <= 0 {
            0
        } else {
            target.value as int
        };
        let dec = spec_take_from_value(target.value, remaining.remaining_amount_or_all);
        let taken: int = if dec < 1 {
            1
        } else {
            dec as int
        };
        let new_value: int = if v <= taken {
            0
        } else {
            v - taken
        };
        RemoveWrite { item: target.item, value: new_value as i32, remove_from_inventory: new_value == 0 }
    } else {
        RemoveWrite { item: target.item, value: 0, remove_from_inventory: true }
    }
}

/// The write that removes from the target by force; records the amount removed
pub fn remove_write(target: &StackTarget, remaining: &mut OperationAmount) -> (r: RemoveWrite)
    ensures
        r == spec_remove_write(*target, *old(remaining)),
        *final(remaining) == spec_sub(*old(remaining), spec_remove_amount(*target, *old(remaining))),
{
    let by_value = target.name.can_stack || target.item_type == 8;
    if !by_value {
        // the slot is deleted
        remaining.sub(1);
        return RemoveWrite { item: target.item, value: 0, remove_from_inventory: true };
    }
    let value: usize = if target.value <= 0 {
        0
    } else {
        target.value as usize
    };
    let dec: usize = match remaining.count() {
        Some(n) => if n < value {
            n
        } else {
            value
        },
        None => value,
    };
    remaining.sub(dec);
    // at least one is removed
    let taken: usize = if dec < 1 {
        1
    } else {
        dec
    };
    let new_value: usize = value.saturating_sub(taken);
    RemoveWrite { item: target.item, value: new_value as i32, remove_from_inventory: new_value == 0 }
}

/// A stack is sold or removed by value at most up to its value and to what remains
/// to be processed; a removal by value that empties the stack takes it out of the
/// inventory, and otherwise leaves a lower value
pub proof fn lemma_take_within_stack(target: StackTarget, remaining: OperationAmount)
    ensures
        spec_take_from_value(target.value, remaining.remaining_amount_or_all) <= (if target.value
            <= 0 {
            0
        } else {
            target.value as int
        }),
        remaining.remaining_amount_or_all matches Some(k) ==> spec_take_from_value(
            target.value,
            remaining.remaining_amount_or_all,
        ) <= k,
        spec_removes_by_value(target) ==> {
            let w = spec_remove_write(target, remaining);
            &&& w.remove_from_inventory <==> w.value == 0
            &&& 0 <= w.value
            &&& target.value > 0 ==> w.value < target.value
        },
{
}

} // verus!
