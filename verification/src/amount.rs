//! Amounts of items an action works on, and what is reported when not enough items are
//! found
use vstd::prelude::*;

use crate::cir::{AmountSpec, ItemSelectSpec, Span};
use crate::error::{spec_error, spec_warning, ErrorReport, RuntimeError};
use crate::memory::{Memory, MemoryError};
use crate::pouch_screen::{spec_is_pe_activated_slot, PouchScreen};
use crate::screen_items::{spec_select, spec_slot};

verus! {

/// Iterations an operation may take before it is stopped
pub const MAX_ITERATIONS: usize = 3000;

/// Amount of items an operation still has to process
#[derive(Debug, Clone, Copy, PartialEq, Eq, Structural)]
pub struct OperationAmount {
    /// Items left to process; `None` for all of them
    pub remaining_amount_or_all: Option<usize>,
    /// The number of items to leave, for an "all but" amount
    pub all_but: Option<usize>,
    /// If an item was processed
    pub was_found: bool,
    /// Number of times the operation checked if it is done
    pub is_done_check_count: usize,
}

/// Control flow when item is no longer found
#[derive(Debug, Clone, Copy, PartialEq, Eq, Structural)]
pub enum ItemSelectCheck {
    /// No error, just continue
    Done,
    /// Emit error because this item is never found
    NeverFound,
    /// Emit error because we need more of this item
    NeedMore(usize),
}

/// The result of checking an amount, given the count of the items left when the amount
/// is "all but"
pub open spec fn spec_check(a: OperationAmount, count: usize) -> ItemSelectCheck {
    match a.remaining_amount_or_all {
        None => if a.was_found {
            ItemSelectCheck::Done
        } else {
            ItemSelectCheck::NeverFound
        },
        Some(remaining) => match a.all_but {
            Some(_) => ItemSelectCheck::Done,
            None => if remaining == 0 {
                ItemSelectCheck::Done
            } else if a.was_found {
                ItemSelectCheck::NeedMore(remaining)
            } else {
                ItemSelectCheck::NeverFound
            },
        },
    }
}

/// An "all but" amount is inaccurate when items remain to process, or when the count of
/// the items left is not the number to leave
pub open spec fn spec_inaccurate_all_but(a: OperationAmount, count: usize) -> bool {
    a.remaining_amount_or_all matches Some(remaining) && a.all_but matches Some(but) && (
    remaining != 0 || but != count)
}

/// The amount once `amount` more items were processed: the remaining count goes down,
/// not below 0
pub open spec fn spec_sub(a: OperationAmount, amount: usize) -> OperationAmount {
    OperationAmount {
        was_found: true,
        remaining_amount_or_all: match a.remaining_amount_or_all {
            Some(n) => Some(
                if n >= amount {
                    (n - amount) as usize
                } else {
                    0
                },
            ),
            None => None,
        },
        ..a
    }
}

/// Processing at least as many items as remain leaves none to process, and then the
/// check reports nothing missing
pub proof fn lemma_sub_completes(a: OperationAmount, amount: usize, count: usize)
    requires
        a.remaining_amount_or_all matches Some(n) && amount >= n,
    ensures
        spec_sub(a, amount).remaining_amount_or_all == Some(0usize),
        spec_check(spec_sub(a, amount), count) == ItemSelectCheck::Done,
{
}

/// "All" never runs out; once an item was processed, the check reports nothing missing
pub proof fn lemma_all_never_runs_out(a: OperationAmount, amount: usize, count: usize)
    requires
        a.remaining_amount_or_all is None,
    ensures
        spec_sub(a, amount).remaining_amount_or_all is None,
        spec_check(spec_sub(a, amount), count) == ItemSelectCheck::Done,
{
}

impl OperationAmount {
    /// Items left to process; `None` for all of them
    pub fn count(&self) -> (r: Option<usize>)
        ensures
            r == self.remaining_amount_or_all,
    {
        self.remaining_amount_or_all
    }

    /// Exactly `n` items
    pub fn num(n: usize) -> (r: OperationAmount)
        ensures
            r == (OperationAmount {
                remaining_amount_or_all: Some(n),
                all_but: None,
                was_found: false,
                is_done_check_count: 0,
            }),
    {
        OperationAmount {
            remaining_amount_or_all: Some(n),
            all_but: None,
            was_found: false,
            is_done_check_count: 0,
        }
    }

    /// All the items
    pub fn all() -> (r: OperationAmount)
        ensures
            r == (OperationAmount {
                remaining_amount_or_all: None,
                all_but: None,
                was_found: false,
                is_done_check_count: 0,
            }),
    {
        OperationAmount {
            remaining_amount_or_all: None,
            all_but: None,
            was_found: false,
            is_done_check_count: 0,
        }
    }

    /// `remaining` items, which leaves `all_but` items
    pub fn all_but(remaining: usize, all_but: usize) -> (r: OperationAmount)
        ensures
            r == (OperationAmount {
                remaining_amount_or_all: Some(remaining),
                all_but: Some(all_but),
                was_found: false,
                is_done_check_count: 0,
            }),
    {
        OperationAmount {
            remaining_amount_or_all: Some(remaining),
            all_but: Some(all_but),
            was_found: false,
            is_done_check_count: 0,
        }
    }

    /// Check if the operation is done, allowing the default number of iterations
    pub fn is_done(&mut self, span: Span, errors: &mut Vec<ErrorReport>) -> (r: bool)
        requires
            old(self).is_done_check_count < usize::MAX,
        ensures
            final(self).is_done_check_count == old(self).is_done_check_count + 1,
            *final(self) == (OperationAmount {
                is_done_check_count: final(self).is_done_check_count,
                ..*old(self)
            }),
            final(self).is_done_check_count > MAX_ITERATIONS ==> r && final(errors)@ == old(errors)@.push(spec_error(span, RuntimeError::TooManyIterations)),
            final(self).is_done_check_count <= MAX_ITERATIONS ==> r == (
            old(self).remaining_amount_or_all == Some(0usize)) && final(errors)@ == old(errors)@,
    {
        self.is_done_allowing_iterations(span, errors, MAX_ITERATIONS)
    }

    /// Check if the operation is done: no item remains, or it checked more than `max`
    /// times (then an error is reported)
    pub fn is_done_allowing_iterations(
        &mut self,
        span: Span,
        errors: &mut Vec<ErrorReport>,
        max: usize,
    ) -> (r: bool)
        requires
            old(self).is_done_check_count < usize::MAX,
        ensures
            final(self).is_done_check_count == old(self).is_done_check_count + 1,
            *final(self) == (OperationAmount {
                is_done_check_count: final(self).is_done_check_count,
                ..*old(self)
            }),
            final(self).is_done_check_count > max ==> r && final(errors)@ == old(errors)@.push(
                spec_error(span, RuntimeError::TooManyIterations),
            ),
            final(self).is_done_check_count <= max ==> r == (old(self).remaining_amount_or_all
                == Some(0usize)) && final(errors)@ == old(errors)@,
    {
        self.is_done_check_count += 1;
        if self.is_done_check_count > max {
            errors.push(ErrorReport::error(span, RuntimeError::TooManyIterations));
            return true;
        }
        match self.remaining_amount_or_all {
            Some(0) => true,
            _ => false,
        }
    }

    /// Record that `amount` items were processed
    pub fn sub(&mut self, amount: usize)
        ensures
            *final(self) == spec_sub(*old(self), amount),
    {
        self.was_found = true;
        if let Some(n) = self.remaining_amount_or_all {
            self.remaining_amount_or_all = Some(n.saturating_sub(amount));
        }
    }

    /// If checking the amount needs the count of the items left
    pub fn check_needs_count(&self) -> (r: bool)
        ensures
            r == (self.remaining_amount_or_all == Some(0usize) && self.all_but is Some),
    {
        match (self.remaining_amount_or_all, self.all_but) {
            (Some(0), Some(_)) => true,
            _ => false,
        }
    }

    /// Check the remaining amount
    ///
    /// `count` is the count of the items left, used only when `check_needs_count` (an
    /// "all but" amount that reached 0): a warning is reported when an "all but" amount
    /// was inaccurate.
    ///
    /// `Done` means the execution can continue with no additional error. `NeedMore(X)`
    /// means the command is expecting `X` more items, which can no longer be found
    pub fn check(&self, span: Span, errors: &mut Vec<ErrorReport>, count: usize) -> (r:
        ItemSelectCheck)
        ensures
            r == spec_check(*self, count),
            final(errors)@ == if spec_inaccurate_all_but(*self, count) {
                old(errors)@.push(spec_warning(span, RuntimeError::InaccurateAllBut))
            } else {
                old(errors)@
            },
    {
        match self.remaining_amount_or_all {
            None => {
                if self.was_found {
                    ItemSelectCheck::Done
                } else {
                    ItemSelectCheck::NeverFound
                }
            },
            Some(remaining) => match self.all_but {
                Some(but) => {
                    if remaining != 0 || but != count {
                        errors.push(ErrorReport::warning(span, RuntimeError::InaccurateAllBut));
                    }
                    ItemSelectCheck::Done
                },
                None => {
                    if remaining == 0 {
                        ItemSelectCheck::Done
                    } else if self.was_found {
                        ItemSelectCheck::NeedMore(remaining)
                    } else {
                        ItemSelectCheck::NeverFound
                    }
                },
            },
        }
    }
}

/// If converting the amount needs the count of the items
pub fn convert_amount_needs_count(amount: AmountSpec, count_for_all: bool) -> (r: bool)
    ensures
        r == (amount is AllBut || (amount is All && count_for_all)),
{
    match amount {
        AmountSpec::AllBut(_) => true,
        AmountSpec::All => count_for_all,
        AmountSpec::Num(_) => false,
    }
}

/// Convert an amount of the script to the amount to process
///
/// `count` is the count of the items, used only when `convert_amount_needs_count`: "all
/// but n" is the count minus n (an error if there are fewer than n), and "all" is the
/// count if `count_for_all`
pub fn convert_amount(
    amount: AmountSpec,
    span: Span,
    errors: &mut Vec<ErrorReport>,
    count_for_all: bool,
    count: usize,
) -> (r: OperationAmount)
    ensures
        match amount {
            AmountSpec::AllBut(n) => if count < n {
                r == OperationAmount::spec_all_but(0, n) && final(errors)@ == old(errors)@.push(
                    spec_error(span, RuntimeError::NotEnoughForAllBut(n, count)),
                )
            } else {
                r == OperationAmount::spec_all_but((count - n) as usize, n) && final(errors)@
                    == old(errors)@
            },
            AmountSpec::All => final(errors)@ == old(errors)@ && r == if count_for_all {
                OperationAmount::spec_num(count)
            } else {
                OperationAmount::spec_all()
            },
            AmountSpec::Num(n) => r == OperationAmount::spec_num(n) && final(errors)@ == old(errors)@,
        },
{
    match amount {
        AmountSpec::AllBut(n) => {
            if count < n {
                errors.push(ErrorReport::error(span, RuntimeError::NotEnoughForAllBut(n, count)));
                OperationAmount::all_but(0, n)
            } else {
                OperationAmount::all_but(count - n, n)
            }
        },
        AmountSpec::All => {
            if count_for_all {
                OperationAmount::num(count)
            } else {
                OperationAmount::all()
            }
        },
        AmountSpec::Num(n) => OperationAmount::num(n),
    }
}

impl OperationAmount {
    /// The amount made by `num`
    pub open spec fn spec_num(n: usize) -> OperationAmount {
        OperationAmount {
            remaining_amount_or_all: Some(n),
            all_but: None,
            was_found: false,
            is_done_check_count: 0,
        }
    }

    /// The amount made by `all`
    pub open spec fn spec_all() -> OperationAmount {
        OperationAmount {
            remaining_amount_or_all: None,
            all_but: None,
            was_found: false,
            is_done_check_count: 0,
        }
    }

    /// The amount made by `all_but`
    pub open spec fn spec_all_but(remaining: usize, all_but: usize) -> OperationAmount {
        OperationAmount {
            remaining_amount_or_all: Some(remaining),
            all_but: Some(all_but),
            was_found: false,
            is_done_check_count: 0,
        }
    }
}

/// Add a warning if the amount of an overworld equipment is not 1
pub fn check_overworld_amount(item: &ItemSelectSpec, errors: &mut Vec<ErrorReport>)
    ensures
        final(errors)@ == if item.amount == AmountSpec::Num(1) {
            old(errors)@
        } else {
            old(errors)@.push(
                spec_warning(item.matcher.span, RuntimeError::UselessAmountForOverworldEquipment),
            )
        },
{
    let is_one = match item.amount {
        AmountSpec::Num(n) => n == 1,
        _ => false,
    };
    if !is_one {
        errors.push(
            ErrorReport::warning(item.matcher.span, RuntimeError::UselessAmountForOverworldEquipment),
        );
    }
}

/// The error reported for the result of checking an amount, if any
pub open spec fn spec_remaining_error(result: ItemSelectCheck, span: Span, ground: bool) -> Option<
    ErrorReport,
> {
    match result {
        ItemSelectCheck::Done => None,
        ItemSelectCheck::NeverFound => Some(
            spec_error(
                span,
                if ground {
                    RuntimeError::CannotFindGroundItem
                } else {
                    RuntimeError::CannotFindItem
                },
            ),
        ),
        ItemSelectCheck::NeedMore(n) => Some(
            spec_error(
                span,
                if ground {
                    RuntimeError::CannotFindGroundItemNeedMore(n)
                } else {
                    RuntimeError::CannotFindItemNeedMore(n)
                },
            ),
        ),
    }
}

/// Report an error if an item was never found or more of it were needed; `ground` for
/// items on the ground
pub fn check_remaining(result: ItemSelectCheck, errors: &mut Vec<ErrorReport>, span: Span, ground: bool)
    ensures
        final(errors)@ == match spec_remaining_error(result, span, ground) {
            Some(e) => old(errors)@.push(e),
            None => old(errors)@,
        },
{
    match result {
        ItemSelectCheck::NeverFound => {
            if ground {
                errors.push(ErrorReport::error(span, RuntimeError::CannotFindGroundItem));
            } else {
                errors.push(ErrorReport::error(span, RuntimeError::CannotFindItem));
            }
        },
        ItemSelectCheck::NeedMore(n) => {
            if ground {
                errors.push(ErrorReport::error(span, RuntimeError::CannotFindGroundItemNeedMore(n)));
            } else {
                errors.push(ErrorReport::error(span, RuntimeError::CannotFindItemNeedMore(n)));
            }
        },
        ItemSelectCheck::Done => {},
    }
}

/// `r` is where an action on (tab, slot) acts once Prompt Entanglement applies, with the
/// errors before and after: the target of Prompt Entanglement if the slot is activated and
/// a target is given; otherwise the slot itself
pub open spec fn spec_pe_target(
    pe_target: Option<ItemSelectSpec>,
    inventory: PouchScreen,
    memory: Memory,
    tab: usize,
    slot: usize,
    before: Seq<ErrorReport>,
    after: Seq<ErrorReport>,
    r: Result<Option<(usize, usize)>, MemoryError>,
) -> bool {
    &&& (!spec_is_pe_activated_slot(inventory, tab, slot, false) || pe_target is None ==> r
            == Ok::<Option<(usize, usize)>, MemoryError>(Some((tab, slot))) && after
            == before)
    &&& (spec_is_pe_activated_slot(inventory, tab, slot, false) ==> (pe_target matches Some(t)
            ==> exists|sel: Result<Option<(usize, usize)>, MemoryError>, found: Seq<ErrorReport>|
            #[trigger] spec_select(
                inventory.items,
                t.matcher.name,
                t.matcher.meta,
                None,
                memory,
                t.matcher.span,
                Seq::empty(),
                found,
                sel,
            ) && match sel {
                Err(e) => r == Err::<Option<(usize, usize)>, MemoryError>(e) && after
                    == before,
                Ok(None) => r == Ok::<Option<(usize, usize)>, MemoryError>(None) && after == (before + found).push(
                    spec_error(t.matcher.span, RuntimeError::CannotFindPromptTarget),
                ),
                Ok(Some((target_tab, target_slot))) => if spec_is_pe_activated_slot(
                    inventory,
                    target_tab,
                    target_slot,
                    true,
                ) {
                    r == Ok::<Option<(usize, usize)>, MemoryError>(
                        Some((target_tab, spec_pe_target_slot(inventory, target_tab, target_slot))),
                    ) && after == before
                } else {
                    r == Ok::<Option<(usize, usize)>, MemoryError>(None) && after == before.push(spec_error(t.matcher.span, RuntimeError::InvalidPromptTarget))
                },
            }))
}

/// Change the targeted tab and slot to the Prompt Entanglement target, if the slot is
/// activated and a target is given
///
/// Returns `None` if the target cannot be found (with the errors of finding it), or is not
/// in an activated slot. Errors of finding the target are dropped when it is found
pub fn change_to_pe_target_if_need(
    pe_target: Option<&ItemSelectSpec>,
    inventory: &PouchScreen,
    memory: &Memory,
    tab: usize,
    slot: usize,
    errors: &mut Vec<ErrorReport>,
) -> (r: Result<Option<(usize, usize)>, MemoryError>)
    ensures
        spec_pe_target(
            match pe_target {
                Some(t) => Some(*t),
                None => None,
            },
            *inventory,
            *memory,
            tab,
            slot,
            old(errors)@,
            final(errors)@,
            r,
        ),
{
    if !inventory.is_pe_activated_slot(tab, slot, false) {
        // use position as-is if PE is not activated
        return Ok(Some((tab, slot)));
    }
    let target = match pe_target {
        // use position as-is if no PE target is set
        None => return Ok(Some((tab, slot))),
        Some(t) => t,
    };
    // find the target item
    let mut new_errors: Vec<ErrorReport> = Vec::new();
    let target_pos = inventory.items.select(
        &target.matcher.name,
        target.matcher.meta.as_ref(),
        None,
        memory,
        target.matcher.span,
        &mut new_errors,
    );
    let ghost sel = target_pos;
    let ghost found = new_errors@;
    assert(spec_select(
        inventory.items,
        target.matcher.name,
        target.matcher.meta,
        None,
        *memory,
        target.matcher.span,
        Seq::empty(),
        found,
        sel,
    ));
    let target_pos = match target_pos {
        Err(e) => return Err(e),
        Ok(x) => x,
    };
    let (target_tab, target_slot) = match target_pos {
        None => {
            errors.append(&mut new_errors);
            errors.push(ErrorReport::error(target.matcher.span, RuntimeError::CannotFindPromptTarget));
            return Ok(None);
        },
        Some(x) => x,
    };
    // the errors of finding the target are dropped when it is found
    // the target slot must be in a PE activated slot to be able to use PE
    if !inventory.is_pe_activated_slot(target_tab, target_slot, true) {
        errors.push(ErrorReport::error(target.matcher.span, RuntimeError::InvalidPromptTarget));
        return Ok(None);
    }
    // adjust the slot index to target the actual slot if it's translucent or empty
    let target_slot = inventory.get_pe_target_slot(target_tab, target_slot, false);
    Ok(Some((target_tab, target_slot)))
}

/// The slot to act on for a Prompt Entanglement target: the first slot when the target
/// slot is empty or translucent
pub open spec fn spec_pe_target_slot(inventory: PouchScreen, tab: usize, slot: usize) -> usize {
    match spec_slot(inventory.items.tabs@, tab as int, slot as int) {
        Some(Some(item)) => if item.in_inventory {
            slot
        } else {
            0
        },
        _ => 0,
    }
}

} // verus!
