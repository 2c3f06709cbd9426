//! Supercommands that write the pouch directly: finding the one item they act on, the
//! fields that `!write` gives the item, and the list counts after slots are broken
use vstd::prelude::*;

use crate::cir::{ActorName, ItemMatchSpec, ItemMeta, ItemNameSpec};
use crate::error::ErrorReport;
use crate::memory::{Memory, MemoryError, PouchItemMemory};
use crate::screen_items::{spec_select, spec_slot, ScreenItems};

verus! {

/// `r` is the item a supercommand acts on: the item at the selected slot (translucent
/// too); the diagnostics of selecting are kept only when nothing is selected
pub open spec fn spec_single_item_target(
    items: ScreenItems,
    matcher: ItemMatchSpec,
    memory: Memory,
    before: Seq<ErrorReport>,
    after: Seq<ErrorReport>,
    r: Result<Option<u64>, MemoryError>,
) -> bool {
    exists|sel: Result<Option<(usize, usize)>, MemoryError>, found: Seq<ErrorReport>|
        #[trigger] spec_select(
            items,
            matcher.name,
            matcher.meta,
            None,
            memory,
            matcher.span,
            Seq::empty(),
            found,
            sel,
        ) && match sel {
            Err(e) => r == Err::<Option<u64>, MemoryError>(e) && after == before,
            Ok(None) => r == Ok::<Option<u64>, MemoryError>(None) && after == before + found,
            Ok(Some((tab, slot))) => after == before && r == Ok::<Option<u64>, MemoryError>(
                match spec_slot(items.tabs@, tab as int, slot as int) {
                    Some(Some(x)) => Some(x.ptr),
                    _ => None,
                },
            ),
        }
}

/// Find the one item a supercommand acts on, in a pouch screen that shows every item
pub fn find_single_item_target(
    items: &ScreenItems,
    matcher: &ItemMatchSpec,
    memory: &Memory,
    errors: &mut Vec<ErrorReport>,
) -> (r: Result<Option<u64>, MemoryError>)
    ensures
        spec_single_item_target(*items, *matcher, *memory, old(errors)@, final(errors)@, r),
{
    let mut new_errors: Vec<ErrorReport> = Vec::new();
    let sel = items.select(
        &matcher.name,
        matcher.meta.as_ref(),
        None,
        memory,
        matcher.span,
        &mut new_errors,
    );
    let ghost sel_v = sel;
    let ghost found = new_errors@;
    assert(spec_select(
        *items,
        matcher.name,
        matcher.meta,
        None,
        *memory,
        matcher.span,
        Seq::empty(),
        found,
        sel_v,
    ));
    match sel {
        Err(e) => Err(e),
        Ok(None) => {
            errors.append(&mut new_errors);
            Ok(None)
        },
        Ok(Some((tab, slot))) => {
            // the diagnostics of selecting are dropped when an item is found: the
            // command reports its own
            match items.get(tab, slot).as_ref() {
                Some(p) => Ok(Some(*p)),
                None => Ok(None),
            }
        },
    }
}

/// The name that `!write` also writes: the actor named by the item, if any
pub fn written_name(matcher: &ItemMatchSpec) -> (r: Option<&ActorName>)
    ensures
        r == match matcher.name {
            ItemNameSpec::Actor(a) => Some(&a),
            ItemNameSpec::Category(_) => None,
        },
{
    match &matcher.name {
        ItemNameSpec::Actor(a) => Some(a),
        ItemNameSpec::Category(_) => None,
    }
}

/// The item once `!write` wrote the meta (ingredients and effect level are not
/// written) and, when a name is given, the name with its type and the item use
/// `item_use` of that actor
pub open spec fn spec_written_item(
    old: PouchItemMemory,
    meta: ItemMeta,
    name: Option<ActorName>,
    item_use: i32,
    new: PouchItemMemory,
) -> bool {
    &&& new.value == (match meta.value {
        Some(x) => x,
        None => old.value,
    })
    &&& new.equipped == (match meta.equip {
        Some(x) => x,
        None => old.equipped,
    })
    &&& new.health_recover == (match meta.life_recover {
        Some(x) => x,
        None => old.health_recover,
    })
    &&& new.effect_duration == (match meta.effect_duration {
        Some(x) => x,
        None => old.effect_duration,
    })
    &&& new.sell_price == (match meta.sell_price {
        Some(x) => x,
        None => old.sell_price,
    })
    &&& new.effect_id == (match meta.effect_id {
        Some(x) => x,
        None => old.effect_id,
    })
    &&& new.effect_level == old.effect_level
    &&& new.in_inventory == old.in_inventory
    &&& new.ingredients@ == old.ingredients@
    &&& match name {
        Some(n) => new.name == n && new.item_type == n.pouch_type && new.item_use == item_use,
        None => new.name == old.name && new.item_type == old.item_type && new.item_use
            == old.item_use,
    }
}

/// Write the meta (and the name, if given) to the item
pub fn write_meta_to(
    item: &mut PouchItemMemory,
    meta: &ItemMeta,
    name: Option<&ActorName>,
    item_use: i32,
)
    ensures
        spec_written_item(
            *old(item),
            *meta,
            match name {
                Some(n) => Some(*n),
                None => None,
            },
            item_use,
            *final(item),
        ),
{
    if let Some(x) = meta.value {
        item.value = x;
    }
    if let Some(x) = meta.equip {
        item.equipped = x;
    }
    if let Some(x) = meta.life_recover {
        item.health_recover = x;
    }
    if let Some(x) = meta.effect_duration {
        item.effect_duration = x;
    }
    if let Some(x) = meta.sell_price {
        item.sell_price = x;
    }
    if let Some(x) = meta.effect_id {
        item.effect_id = x;
    }
    // ingredients are not written: an empty list cannot be told from no list
    if let Some(n) = name {
        item.name = crate::actor::copy_name(n);
        item.item_type = n.pouch_type;
        item.item_use = item_use;
    }
}

/// The list counts after breaking `count` slots by force: `count` fewer items in the
/// first list, `count` more free nodes in the second
pub fn broken_slot_counts(list1_count: i32, list2_count: i32, count: i32) -> (r: (i32, i32))
    requires
        i32::MIN <= list1_count - count <= i32::MAX,
        i32::MIN <= list2_count + count <= i32::MAX,
    ensures
        r.0 == list1_count - count,
        r.1 == list2_count + count,
{
    (list1_count - count, list2_count + count)
}

} // verus!
