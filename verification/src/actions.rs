//! The decisions of the commands that act on items in the pouch: which slot an action
//! targets next, what it requires of it, and how much it processes
//!
//! The game's part of a command (calling its functions on the target) happens between
//! these steps.
use vstd::prelude::*;

use crate::amount::{change_to_pe_target_if_need, spec_pe_target, MAX_ITERATIONS};
use crate::cir::{ItemMeta, ItemNameSpec, ItemSelectSpec, Span};
use crate::error::{spec_error, ErrorReport, RuntimeError};
use crate::memory::{Memory, MemoryError, PouchItemMemory};
use crate::pouch_screen::PouchScreen;
use crate::screen_items::{spec_corrected_slot, spec_select, spec_slot, ScreenItemState};

verus! {

/// What a command requires of the item it targets
#[derive(Debug, Clone, Copy, PartialEq, Eq, Structural)]
pub enum TargetRule {
    /// Holding takes materials
    Hold,
    /// Eating takes items that can be used
    Eat,
}

/// Iterations a command may take before it stops with too many: eating one at a time
/// through a large stack of food is allowed more
pub const EAT_MAX_ITERATIONS: usize = 50000;

impl TargetRule {
    /// The most iterations of the command
    pub fn max_iterations(&self) -> (r: usize)
        ensures
            r == match self {
                TargetRule::Eat => EAT_MAX_ITERATIONS,
                TargetRule::Hold => MAX_ITERATIONS,
            },
    {
        match self {
            TargetRule::Eat => EAT_MAX_ITERATIONS,
            TargetRule::Hold => MAX_ITERATIONS,
        }
    }
}

/// The error for a target that the rule refuses
pub open spec fn spec_rule_error(rule: TargetRule, data: PouchItemMemory) -> Option<RuntimeError> {
    match rule {
        TargetRule::Hold => if data.item_type != 7 {
            Some(RuntimeError::NotHoldable)
        } else {
            None
        },
        TargetRule::Eat => if !data.name.can_use {
            Some(RuntimeError::NotEatable)
        } else {
            None
        },
    }
}

/// What a command does next in the pouch
#[derive(Debug, Clone, Copy, PartialEq, Eq, Structural)]
pub enum TargetStep {
    /// There is no target: stop, and check what remains unless an error was reported
    Stop { check_remaining: bool },
    /// Act on the slot (`corrected_slot` is the slot for the game's functions); `item` is
    /// the item selected before Prompt Entanglement applied
    Act { tab: usize, slot: usize, corrected_slot: i32, item: u64 },
}

/// `r` is the step once Prompt Entanglement applied to the target (tab, slot) of `item`,
/// with the errors before and after
pub open spec fn spec_step_after_pe(
    pe_target: Option<ItemSelectSpec>,
    inv: PouchScreen,
    memory: Memory,
    tab: usize,
    slot: usize,
    item: u64,
    before: Seq<ErrorReport>,
    after: Seq<ErrorReport>,
    r: Result<TargetStep, MemoryError>,
) -> bool {
    exists|pe: Result<Option<(usize, usize)>, MemoryError>, errs: Seq<ErrorReport>|
        #[trigger] spec_pe_target(pe_target, inv, memory, tab, slot, before, errs, pe) && match pe {
            Err(e) => r == Err::<TargetStep, MemoryError>(e) && after == errs,
            Ok(None) => r == Ok::<TargetStep, MemoryError>(
                TargetStep::Stop { check_remaining: false },
            ) && after == errs,
            Ok(Some((t, s))) => r == Ok::<TargetStep, MemoryError>(
                TargetStep::Act {
                    tab: t,
                    slot: s,
                    corrected_slot: spec_corrected_slot(inv.items.tabs@, t, s),
                    item,
                },
            ) && after == errs,
        }
}

/// `r` is the next step of holding or eating: the next item with a value of at least 1
/// that matches; stop when there is none, or (with an error) when the slot is empty or
/// translucent, or the rule refuses the item; then Prompt Entanglement applies
pub open spec fn spec_next_target(
    inv: PouchScreen,
    name: ItemNameSpec,
    meta: Option<ItemMeta>,
    span: Span,
    rule: TargetRule,
    pe_target: Option<ItemSelectSpec>,
    memory: Memory,
    before: Seq<ErrorReport>,
    after: Seq<ErrorReport>,
    r: Result<TargetStep, MemoryError>,
) -> bool {
    exists|sel: Result<Option<(usize, usize)>, MemoryError>, errs: Seq<ErrorReport>|
        #[trigger] spec_select(inv.items, name, meta, Some(1), memory, span, before, errs, sel)
            && match sel {
            Err(e) => r == Err::<TargetStep, MemoryError>(e) && after == errs,
            Ok(None) => r == Ok::<TargetStep, MemoryError>(
                TargetStep::Stop { check_remaining: true },
            ) && after == errs,
            Ok(Some((tab, slot))) => match spec_slot(inv.items.tabs@, tab as int, slot as int) {
                Some(Some(item)) => if !item.in_inventory {
                    r == Ok::<TargetStep, MemoryError>(TargetStep::Stop { check_remaining: false })
                        && after == errs.push(spec_error(span, RuntimeError::InvalidItemTarget))
                } else {
                    match memory.spec_read(item.ptr) {
                        None => r == Err::<TargetStep, MemoryError>(MemoryError { addr: item.ptr })
                            && after == errs,
                        Some(data) => match spec_rule_error(rule, data) {
                            Some(err) => r == Ok::<TargetStep, MemoryError>(
                                TargetStep::Stop { check_remaining: false },
                            ) && after == errs.push(spec_error(span, err)),
                            None => spec_step_after_pe(
                                pe_target,
                                inv,
                                memory,
                                tab,
                                slot,
                                item.ptr,
                                errs,
                                after,
                                r,
                            ),
                        },
                    }
                },
                _ => r == Ok::<TargetStep, MemoryError>(TargetStep::Stop { check_remaining: false })
                    && after == errs.push(spec_error(span, RuntimeError::InvalidItemTarget)),
            },
        }
}

/// The step once Prompt Entanglement applied
fn step_after_pe(
    pe_target: Option<&ItemSelectSpec>,
    inv: &PouchScreen,
    memory: &Memory,
    tab: usize,
    slot: usize,
    item: u64,
    errors: &mut Vec<ErrorReport>,
) -> (r: Result<TargetStep, MemoryError>)
    ensures
        spec_step_after_pe(
            match pe_target {
                Some(t) => Some(*t),
                None => None,
            },
            *inv,
            *memory,
            tab,
            slot,
            item,
            old(errors)@,
            final(errors)@,
            r,
        ),
{
    let pe = change_to_pe_target_if_need(pe_target, inv, memory, tab, slot, errors);
    let ghost pe_v = pe;
    let ghost errs = errors@;
    let r = match pe {
        Err(e) => Err(e),
        Ok(None) => Ok(TargetStep::Stop { check_remaining: false }),
        Ok(Some((t, s))) => Ok(
            TargetStep::Act { tab: t, slot: s, corrected_slot: inv.items.corrected_slot(t, s), item },
        ),
    };
    assert(spec_pe_target(
        match pe_target {
            Some(t) => Some(*t),
            None => None,
        },
        *inv,
        *memory,
        tab,
        slot,
        old(errors)@,
        errs,
        pe_v,
    ));
    r
}

/// The next step of holding or eating an item in the pouch
pub fn next_pouch_target(
    inv: &PouchScreen,
    name: &ItemNameSpec,
    meta: Option<&ItemMeta>,
    span: Span,
    rule: TargetRule,
    pe_target: Option<&ItemSelectSpec>,
    memory: &Memory,
    errors: &mut Vec<ErrorReport>,
) -> (r: Result<TargetStep, MemoryError>)
    ensures
        spec_next_target(
            *inv,
            *name,
            match meta {
                Some(m) => Some(*m),
                None => None,
            },
            span,
            rule,
            match pe_target {
                Some(t) => Some(*t),
                None => None,
            },
            *memory,
            old(errors)@,
            final(errors)@,
            r,
        ),
{
    // the item must have at least 1 to hold or eat
    let sel = inv.items.select(name, meta, Some(1), memory, span, errors);
    let ghost sel_v = sel;
    let ghost errs = errors@;
    assert(spec_select(
        inv.items,
        *name,
        match meta {
            Some(m) => Some(*m),
            None => None,
        },
        Some(1),
        *memory,
        span,
        old(errors)@,
        errs,
        sel_v,
    ));
    let (tab, slot) = match sel {
        Err(e) => return Err(e),
        Ok(None) => return Ok(TargetStep::Stop { check_remaining: true }),
        Ok(Some(p)) => p,
    };
    let ptr = match inv.items.get(tab, slot) {
        ScreenItemState::Normal(p) => p,
        _ => {
            // the item must be non empty and non translucent
            errors.push(ErrorReport::error(span, RuntimeError::InvalidItemTarget));
            return Ok(TargetStep::Stop { check_remaining: false });
        },
    };
    let data = match memory.read_item(ptr) {
        Err(e) => return Err(e),
        Ok(d) => d,
    };
    let refused = match rule {
        TargetRule::Hold => if data.item_type != 7 {
            Some(RuntimeError::NotHoldable)
        } else {
            None
        },
        TargetRule::Eat => if !data.name.can_use {
            Some(RuntimeError::NotEatable)
        } else {
            None
        },
    };
    if let Some(err) = refused {
        errors.push(ErrorReport::error(span, err));
        return Ok(TargetStep::Stop { check_remaining: false });
    }
    step_after_pe(pe_target, inv, memory, tab, slot, ptr, errors)
}

} // verus!
