//! The decisions of sorting a pouch category: which categories a shop screen can sort,
//! and how many times the sort button is pressed
use vstd::prelude::*;

use crate::cir::Category;
use crate::error::RuntimeError;
use crate::util::{category_to_pouch_category, spec_category_to_pouch_category, PouchCategory};

verus! {

/// Sorting more than this gives the same order again: at most 4 times for an even number
/// of times and 5 for an odd number
pub open spec fn spec_cap_times(times: usize) -> usize {
    if times % 2 == 0 {
        if times < 4 {
            times
        } else {
            4
        }
    } else {
        if times < 5 {
            times
        } else {
            5
        }
    }
}

/// The number of sorts that gives the same result as sorting `times` times
pub fn cap_times(times: usize) -> (r: usize)
    ensures
        r == spec_cap_times(times),
{
    if times % 2 == 0 {
        if times < 4 {
            times
        } else {
            4
        }
    } else {
        if times < 5 {
            times
        } else {
            5
        }
    }
}

/// A shop screen only sorts armor, materials and food
pub open spec fn spec_sort_error(category: Category, in_shop: bool) -> Option<RuntimeError> {
    let c = spec_category_to_pouch_category(category);
    if in_shop && !(c == PouchCategory::Armor || c == PouchCategory::Material || c
        == PouchCategory::Food) {
        Some(RuntimeError::CannotSortCategory)
    } else {
        None
    }
}

/// Check if the category can be sorted in the current screen
pub fn sort_error(category: Category, in_shop: bool) -> (r: Option<RuntimeError>)
    ensures
        r == spec_sort_error(category, in_shop),
{
    let c = category_to_pouch_category(category);
    let sortable = match c {
        PouchCategory::Armor | PouchCategory::Material | PouchCategory::Food => true,
        _ => false,
    };
    if in_shop && !sortable {
        Some(RuntimeError::CannotSortCategory)
    } else {
        None
    }
}

/// The number of times to sort: as given when accurate, else capped
pub fn sort_times(times: usize, accurate: bool) -> (r: usize)
    ensures
        r == if accurate {
            times
        } else {
            spec_cap_times(times)
        },
{
    if accurate {
        times
    } else {
        cap_times(times)
    }
}

/// Sorting an even number of times is the same as sorting 4 times at most, and an odd
/// number of times the same as 5 at most: the capped count keeps the parity and never
/// grows
pub proof fn lemma_cap_times_keeps_parity(times: usize)
    ensures
        spec_cap_times(times) % 2 == times % 2,
        spec_cap_times(times) <= times,
        spec_cap_times(times) <= 5,
        spec_cap_times(spec_cap_times(times)) == spec_cap_times(times),
{
}

} // verus!
