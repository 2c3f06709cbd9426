//! Items shown in an inventory-like screen (pouch or shop) and the selection of items
//! from it
use vstd::multiset::Multiset;
use vstd::prelude::*;

use crate::cir::{
    spec_coerce_armor, spec_is_equipment, ActorName, Category, CategorySpec, ItemMeta,
    ItemNameSpec, ItemPosition, Span,
};
use crate::error::{spec_warning, ErrorReport, RuntimeError};
use crate::memory::{Memory, MemoryError, PouchItemMemory};
use crate::util::{
    modifier_meta_matches, name_spec_matches, sorted_u64, spec_is_sorted, spec_modifier_matches,
    spec_name_spec_matches, spec_should_use_value, spec_type_is_weapon, CountingMethod,
};

verus! {

/// Simulation of temporary inventory item state
#[derive(Debug, Clone)]
pub struct ScreenItem {
    /// Address of the pouch item in memory
    pub ptr: u64,
    /// If the item is in inventory (not translucent)
    pub in_inventory: bool,
    /// If the item is equipped on screen.
    pub equipped: bool,
    /// Cached item name, used for selection
    pub name: ActorName,
    /// Cached item category, used for selection
    pub category: Option<Category>,
}

#[derive(Debug, Clone)]
pub struct ScreenTab {
    /// Items in the tab (empty slots are `None`)
    pub items: Vec<Option<ScreenItem>>,
    pub category: Option<Category>,
}

/// Items in inventory screen (for pouch and shop)
#[derive(Debug, Clone)]
pub struct ScreenItems {
    /// Tabbed item data
    pub tabs: Vec<ScreenTab>,
}

/// State of a slot on the screen
#[derive(Debug, Clone, Copy)]
pub enum ScreenItemState<T> {
    /// Slot is Empty (no item is there)
    Empty,
    /// Slot has a translucent item (in_inventory = false)
    Translucent(T),
    /// Slot has a normal item (in_inventory = true)
    Normal(T),
}

impl<T> ScreenItemState<T> {
    /// The item of a non-empty slot
    pub fn as_ref(&self) -> (r: Option<&T>)
        ensures
            r == match *self {
                ScreenItemState::Empty => None,
                ScreenItemState::Translucent(x) => Some(&x),
                ScreenItemState::Normal(x) => Some(&x),
            },
    {
        match self {
            ScreenItemState::Empty => None,
            ScreenItemState::Translucent(x) => Some(x),
            ScreenItemState::Normal(x) => Some(x),
        }
    }
}

/// How a position meta selects: the n-th match (0-indexed), or a tab and slot
#[derive(Debug, Clone, Copy, PartialEq, Eq, Structural)]
pub enum Selector {
    FromSlot(usize),
    IdxAndSlot(usize, usize),
}

/// IEEE-754 single precision equality on bit patterns: NaN equals nothing, and the two
/// zeros are equal
pub open spec fn spec_f32_bits_eq(a: u32, b: u32) -> bool {
    let a_nan = (a & 0x7f80_0000u32) == 0x7f80_0000u32 && (a & 0x007f_ffffu32) != 0;
    let b_nan = (b & 0x7f80_0000u32) == 0x7f80_0000u32 && (b & 0x007f_ffffu32) != 0;
    !a_nan && !b_nan && (a == b || ((a & 0x7fff_ffffu32) == 0 && (b & 0x7fff_ffffu32) == 0))
}

/// Compare two `f32` values given as bit patterns
pub fn f32_bits_eq(a: u32, b: u32) -> (r: bool)
    ensures
        r == spec_f32_bits_eq(a, b),
{
    let a_nan = (a & 0x7f80_0000u32) == 0x7f80_0000u32 && (a & 0x007f_ffffu32) != 0;
    let b_nan = (b & 0x7f80_0000u32) == 0x7f80_0000u32 && (b & 0x007f_ffffu32) != 0;
    !a_nan && !b_nan && (a == b || ((a & 0x7fff_ffffu32) == 0 && (b & 0x7fff_ffffu32) == 0))
}

/// Number of leading non-empty names, at most 5
pub open spec fn spec_leading_len(v: Seq<String>, n: int) -> bool {
    &&& 0 <= n <= 5
    &&& n <= v.len()
    &&& forall|k: int| 0 <= k < n ==> v[k]@.len() > 0
    &&& (n < 5 && n < v.len()) ==> v[n]@.len() == 0
}

/// Two lists of names are the same names
pub open spec fn spec_names_eq(a: Seq<String>, b: Seq<String>) -> bool {
    a.len() == b.len() && forall|k: int| 0 <= k < a.len() ==> a[k]@ == b[k]@
}

/// The leading ingredients of an item are the wanted ones
pub open spec fn spec_ingredients_match(wanted: Seq<String>, actual: Seq<String>) -> bool {
    exists|n: int| spec_leading_len(actual, n) && spec_names_eq(wanted, actual.take(n))
}

/// Whether matching an item needs to read it from memory
pub open spec fn spec_read_needed(meta: Option<ItemMeta>, value_at_least: Option<i32>) -> bool {
    value_at_least is Some || (meta matches Some(m) && (m.value is Some || m.equip is Some
        || m.life_recover is Some || m.effect_duration is Some || m.sell_price is Some
        || m.effect_id is Some || m.effect_level is Some || m.ingredients.len() > 0))
}

/// The item data in memory satisfies the value bound and the meta properties
pub open spec fn spec_data_matches(
    name: ItemNameSpec,
    value_at_least: Option<i32>,
    meta: Option<ItemMeta>,
    d: PouchItemMemory,
) -> bool {
    &&& match meta {
        Some(m) if m.value is Some => d.value == m.value->0,
        _ => value_at_least matches Some(v) ==> d.value >= v,
    }
    &&& meta matches Some(m) ==> {
        &&& m.equip matches Some(e) ==> d.equipped == e
        &&& m.life_recover matches Some(x) ==> d.health_recover == x
        &&& m.effect_duration matches Some(x) ==> d.effect_duration == x
        &&& m.sell_price matches Some(x) ==> spec_modifier_matches(
            match name {
                ItemNameSpec::Actor(a) => spec_type_is_weapon(a.pouch_type),
                ItemNameSpec::Category(c) => spec_is_equipment(c),
            },
            x,
            d.sell_price,
        )
        &&& m.effect_id matches Some(x) ==> spec_f32_bits_eq(d.effect_id, x)
        &&& m.effect_level matches Some(x) ==> spec_f32_bits_eq(d.effect_level, x)
        &&& m.ingredients.len() > 0 ==> spec_ingredients_match(m.ingredients@, d.ingredients@)
    }
}

/// Result of matching a screen item against a selector: an error when the item needs to
/// be read and cannot be
pub open spec fn spec_item_match(
    item: ScreenItem,
    name: ItemNameSpec,
    value_at_least: Option<i32>,
    meta: Option<ItemMeta>,
    memory: Memory,
) -> Result<bool, MemoryError> {
    if !spec_name_spec_matches(name, item.name) {
        Ok(false)
    } else if !spec_read_needed(meta, value_at_least) {
        Ok(true)
    } else {
        match memory.spec_read(item.ptr) {
            None => Err(MemoryError { addr: item.ptr }),
            Some(d) => Ok(spec_data_matches(name, value_at_least, meta, d)),
        }
    }
}

/// Amount of a screen item under a counting method: 1 unless counted by value, then the
/// value in memory (0 if not positive)
pub open spec fn spec_item_amount(item: ScreenItem, method: CountingMethod, memory: Memory) -> Result<
    int,
    MemoryError,
> {
    if !spec_should_use_value(method, item.name) {
        Ok(1)
    } else {
        match memory.spec_read(item.ptr) {
            None => Err(MemoryError { addr: item.ptr }),
            Some(d) => Ok(if d.value <= 0 {
                0
            } else {
                d.value as int
            }),
        }
    }
}

/// Items of the first `s` slots of a tab with their positions
pub open spec fn spec_tab_items_upto(items: Seq<Option<ScreenItem>>, t: usize, s: int) -> Seq<
    (usize, usize, ScreenItem),
>
    decreases s,
{
    if s <= 0 {
        Seq::empty()
    } else {
        spec_tab_items_upto(items, t, s - 1) + match items[s - 1] {
            Some(x) => seq![(t, (s - 1) as usize, x)],
            None => Seq::empty(),
        }
    }
}

/// Items of the first `n` tabs with their positions
pub open spec fn spec_items_upto(tabs: Seq<ScreenTab>, n: int) -> Seq<(usize, usize, ScreenItem)>
    decreases n,
{
    if n <= 0 {
        Seq::empty()
    } else {
        spec_items_upto(tabs, n - 1) + spec_tab_items_upto(
            tabs[n - 1].items@,
            (n - 1) as usize,
            tabs[n - 1].items@.len() as int,
        )
    }
}

/// Selected by the search: matches, and is not translucent
pub open spec fn spec_is_hit(r: Result<bool, MemoryError>, item: ScreenItem) -> bool {
    r == Ok::<bool, MemoryError>(true) && item.in_inventory
}

/// Step of the amount count over the items: (matches left to skip, total)
pub open spec fn spec_amount_fold(
    items: Seq<(usize, usize, ScreenItem)>,
    n: int,
    name: ItemNameSpec,
    meta: Option<ItemMeta>,
    method: CountingMethod,
    nth: int,
    memory: Memory,
) -> Result<(int, int), MemoryError>
    decreases n,
{
    if n <= 0 {
        Ok((nth, 0))
    } else {
        match spec_amount_fold(items, n - 1, name, meta, method, nth, memory) {
            Err(e) => Err(e),
            Ok((skip, total)) => {
                let item = items[n - 1].2;
                match spec_item_match(item, name, None, meta, memory) {
                    Err(e) => Err(e),
                    Ok(false) => Ok((skip, total)),
                    Ok(true) => if skip != 0 {
                        Ok((skip - 1, total))
                    } else {
                        match spec_item_amount(item, method, memory) {
                            Err(e) => Err(e),
                            Ok(a) => Ok((skip, total + a)),
                        }
                    },
                }
            },
        }
    }
}

/// An error in the count stays an error
pub proof fn lemma_amount_fold_err(
    items: Seq<(usize, usize, ScreenItem)>,
    i: int,
    n: int,
    name: ItemNameSpec,
    meta: Option<ItemMeta>,
    method: CountingMethod,
    nth: int,
    memory: Memory,
)
    requires
        0 <= i <= n,
        spec_amount_fold(items, i, name, meta, method, nth, memory) is Err,
    ensures
        spec_amount_fold(items, n, name, meta, method, nth, memory) == spec_amount_fold(
            items,
            i,
            name,
            meta,
            method,
            nth,
            memory,
        ),
    decreases n - i,
{
    if i < n {
        lemma_amount_fold_err(items, i, n - 1, name, meta, method, nth, memory);
    }
}

/// Totals of the count only grow
pub proof fn lemma_amount_fold_monotone(
    items: Seq<(usize, usize, ScreenItem)>,
    i: int,
    n: int,
    name: ItemNameSpec,
    meta: Option<ItemMeta>,
    method: CountingMethod,
    nth: int,
    memory: Memory,
)
    requires
        0 <= i <= n,
        spec_amount_fold(items, n, name, meta, method, nth, memory) is Ok,
    ensures
        spec_amount_fold(items, i, name, meta, method, nth, memory) is Ok,
        spec_amount_fold(items, i, name, meta, method, nth, memory)->Ok_0.1 <= spec_amount_fold(
            items,
            n,
            name,
            meta,
            method,
            nth,
            memory,
        )->Ok_0.1,
    decreases n - i,
{
    if i < n {
        lemma_amount_fold_monotone(items, i, n - 1, name, meta, method, nth, memory);
        if spec_amount_fold(items, n - 1, name, meta, method, nth, memory) is Err {
        }
    }
}

/// The running total of the count fits in a `usize` after `k` items
pub open spec fn spec_fold_fits(
    items: Seq<(usize, usize, ScreenItem)>,
    k: int,
    name: ItemNameSpec,
    meta: Option<ItemMeta>,
    method: CountingMethod,
    nth: int,
    memory: Memory,
) -> bool {
    spec_amount_fold(items, k, name, meta, method, nth, memory) matches Ok((_, t)) ==> t
        <= usize::MAX
}

/// Every running total of the count fits in a `usize`
pub open spec fn spec_count_fits(
    items: Seq<(usize, usize, ScreenItem)>,
    name: ItemNameSpec,
    meta: Option<ItemMeta>,
    method: CountingMethod,
    nth: int,
    memory: Memory,
) -> bool {
    forall|k: int|
        0 <= k <= items.len() ==> #[trigger] spec_fold_fits(
            items,
            k,
            name,
            meta,
            method,
            nth,
            memory,
        )
}

/// The total of the count after `k` items is at most `k` times the largest `i32`
pub proof fn lemma_amount_fold_bounded(
    items: Seq<(usize, usize, ScreenItem)>,
    k: int,
    name: ItemNameSpec,
    meta: Option<ItemMeta>,
    method: CountingMethod,
    nth: int,
    memory: Memory,
)
    requires
        0 <= k,
    ensures
        spec_amount_fold(items, k, name, meta, method, nth, memory) matches Ok((_, t)) ==> 0 <= t
            <= k * i32::MAX,
    decreases k,
{
    if k > 0 {
        lemma_amount_fold_bounded(items, k - 1, name, meta, method, nth, memory);
    }
}

/// With few enough items, every running total of the count fits in a `usize`
pub proof fn lemma_count_fits_when_few(
    items: Seq<(usize, usize, ScreenItem)>,
    name: ItemNameSpec,
    meta: Option<ItemMeta>,
    method: CountingMethod,
    nth: int,
    memory: Memory,
)
    requires
        items.len() * i32::MAX <= usize::MAX,
    ensures
        spec_count_fits(items, name, meta, method, nth, memory),
{
    assert forall|k: int| 0 <= k <= items.len() implies #[trigger] spec_fold_fits(
        items,
        k,
        name,
        meta,
        method,
        nth,
        memory,
    ) by {
        lemma_amount_fold_bounded(items, k, name, meta, method, nth, memory);
        assert(k * i32::MAX <= items.len() * i32::MAX) by (nonlinear_arith)
            requires
                0 <= k <= items.len(),
        ;
    }
}

/// Number of hits among the results
pub open spec fn spec_count_hits(
    items: Seq<(usize, usize, ScreenItem)>,
    n: int,
    name: ItemNameSpec,
    value_at_least: Option<i32>,
    meta: Option<ItemMeta>,
    memory: Memory,
) -> nat
    decreases n,
{
    if n <= 0 {
        0
    } else {
        spec_count_hits(items, n - 1, name, value_at_least, meta, memory) + if spec_is_hit(
            spec_match_at(items, n - 1, name, value_at_least, meta, memory),
            items[n - 1].2,
        ) {
            1nat
        } else {
            0nat
        }
    }
}

/// The hit count grows with the prefix
pub proof fn lemma_count_hits_monotone(
    items: Seq<(usize, usize, ScreenItem)>,
    i: int,
    j: int,
    name: ItemNameSpec,
    value_at_least: Option<i32>,
    meta: Option<ItemMeta>,
    memory: Memory,
)
    requires
        0 <= i <= j,
    ensures
        spec_count_hits(items, i, name, value_at_least, meta, memory) <= spec_count_hits(
            items,
            j,
            name,
            value_at_least,
            meta,
            memory,
        ),
    decreases j - i,
{
    if i < j {
        lemma_count_hits_monotone(items, i, j - 1, name, value_at_least, meta, memory);
    }
}

/// Result of matching the `k`-th listed item
pub open spec fn spec_match_at(
    items: Seq<(usize, usize, ScreenItem)>,
    k: int,
    name: ItemNameSpec,
    value_at_least: Option<i32>,
    meta: Option<ItemMeta>,
    memory: Memory,
) -> Result<bool, MemoryError> {
    spec_item_match(items[k].2, name, value_at_least, meta, memory)
}

/// Result of selecting the `nth` hit without position meta: the position of the `nth`
/// hit if no item before it fails to be read; the first read error otherwise; none if
/// there are not that many hits
pub open spec fn spec_select_result(
    items: Seq<(usize, usize, ScreenItem)>,
    name: ItemNameSpec,
    value_at_least: Option<i32>,
    meta: Option<ItemMeta>,
    nth: nat,
    memory: Memory,
    r: Result<Option<(usize, usize)>, MemoryError>,
) -> bool {
    match r {
        Ok(Some(pos)) => exists|j: int|
            0 <= j < items.len() && spec_is_hit(
                #[trigger] spec_match_at(items, j, name, value_at_least, meta, memory),
                items[j].2,
            ) && spec_count_hits(items, j, name, value_at_least, meta, memory) == nth && (forall|
                k: int,
            |
                0 <= k < j ==> #[trigger] spec_match_at(
                    items,
                    k,
                    name,
                    value_at_least,
                    meta,
                    memory,
                ) is Ok) && pos == (items[j].0, items[j].1),
        Ok(None) => (forall|k: int|
            0 <= k < items.len() ==> #[trigger] spec_match_at(
                items,
                k,
                name,
                value_at_least,
                meta,
                memory,
            ) is Ok) && spec_count_hits(
            items,
            items.len() as int,
            name,
            value_at_least,
            meta,
            memory,
        ) <= nth,
        Err(e) => exists|j: int|
            0 <= j < items.len() && #[trigger] spec_match_at(
                items,
                j,
                name,
                value_at_least,
                meta,
                memory,
            ) == Err::<bool, MemoryError>(e) && (forall|k: int|
                0 <= k < j ==> #[trigger] spec_match_at(
                    items,
                    k,
                    name,
                    value_at_least,
                    meta,
                    memory,
                ) is Ok) && spec_count_hits(items, j, name, value_at_least, meta, memory) <= nth,
    }
}

/// The slot passed to the game's functions for a slot of the screen: the slot minus the
/// empty slots before it, as an `i32`
pub open spec fn spec_corrected_slot(tabs: Seq<ScreenTab>, tab: usize, slot: usize) -> i32 {
    if tab >= tabs.len() {
        slot as i32
    } else {
        let items = tabs[tab as int].items@;
        let n = if slot < items.len() {
            slot as int
        } else {
            items.len() as int
        };
        (slot - spec_count_empty(items, n)) as i32
    }
}

/// The slot `slot` of tab `tab`, if there is such a slot
pub open spec fn spec_slot(tabs: Seq<ScreenTab>, tab: int, slot: int) -> Option<Option<ScreenItem>> {
    if 0 <= tab < tabs.len() && 0 <= slot < tabs[tab].items@.len() {
        Some(tabs[tab].items@[slot])
    } else {
        None
    }
}

/// Number of empty slots among the first `n` slots
pub open spec fn spec_count_empty(items: Seq<Option<ScreenItem>>, n: int) -> int
    decreases n,
{
    if n <= 0 {
        0
    } else {
        spec_count_empty(items, n - 1) + if items[n - 1] is None {
            1int
        } else {
            0int
        }
    }
}

/// The tab's category is the category, armor sub-categories taken as armor
pub open spec fn spec_tab_is_category(tabs: Seq<ScreenTab>, t: int, c: Category) -> bool {
    match tabs[t].category {
        Some(tc) => spec_coerce_armor(tc) == spec_coerce_armor(c),
        None => false,
    }
}

/// Number of tabs before `n` whose category is the armor-coerced category of the spec
pub open spec fn spec_count_category_tabs(tabs: Seq<ScreenTab>, c: Category, n: int) -> int
    decreases n,
{
    if n <= 0 {
        0
    } else {
        spec_count_category_tabs(tabs, c, n - 1) + if spec_tab_is_category(tabs, n - 1, c) {
            1int
        } else {
            0int
        }
    }
}

/// Slot index of a category spec: row and column are 1-indexed, 5 slots per row
pub open spec fn spec_category_slot(spec: CategorySpec) -> int {
    let row = if spec.row == 0 {
        0
    } else {
        spec.row - 1
    };
    let col = if spec.col == 0 {
        0
    } else {
        spec.col - 1
    };
    row * 5 + col
}

/// The selector of a position meta
pub open spec fn spec_position_selector(tabs: Seq<ScreenTab>, position: Option<ItemPosition>) -> Option<
    Selector,
> {
    match position {
        None => Some(Selector::FromSlot(0)),
        Some(ItemPosition::FromSlot(n)) => Some(
            Selector::FromSlot(
                if n == 0 {
                    0
                } else {
                    (n - 1) as usize
                },
            ),
        ),
        Some(ItemPosition::TabIdxAndSlot(t, s)) => Some(
            Selector::IdxAndSlot(
                t as usize,
                if s > 19 {
                    19usize
                } else {
                    s as usize
                },
            ),
        ),
        Some(ItemPosition::TabCategoryAndSlot(spec)) => match spec_select_by_category(tabs, spec) {
            Some((t, s)) => Some(Selector::IdxAndSlot(t, s)),
            None => None,
        },
    }
}

/// The tab of the `amount`-th (at least the first) tab of the category, with the slot of
/// the row and column
pub open spec fn spec_select_by_category(tabs: Seq<ScreenTab>, spec: CategorySpec) -> Option<
    (usize, usize),
> {
    let want = if spec.amount == 0 {
        1
    } else {
        spec.amount as int
    };
    if exists|t: int|
        0 <= t < tabs.len() && spec_tab_is_category(tabs, t, spec.category)
            && spec_count_category_tabs(tabs, spec.category, t) == want - 1 {
        let t = choose|t: int|
            0 <= t < tabs.len() && spec_tab_is_category(tabs, t, spec.category)
                && spec_count_category_tabs(tabs, spec.category, t) == want - 1;
        Some((t as usize, spec_category_slot(spec) as usize))
    } else {
        None
    }
}

/// Warning for a positioned item that does not match the name
pub open spec fn spec_mismatch_warning(span: Span, name: ItemNameSpec, in_inv: ScreenItem) -> ErrorReport {
    match name {
        ItemNameSpec::Actor(a) => spec_warning(
            span,
            RuntimeError::ItemMismatch(in_inv.name.name, a.name),
        ),
        ItemNameSpec::Category(c) => spec_warning(
            span,
            RuntimeError::ItemMismatchCategory(in_inv.name.name, c),
        ),
    }
}

/// Result of selecting an item from the screen, with the errors before and after
pub open spec fn spec_select(
    items: ScreenItems,
    item: ItemNameSpec,
    meta: Option<ItemMeta>,
    value_at_least: Option<i32>,
    memory: Memory,
    span: Span,
    before: Seq<ErrorReport>,
    after: Seq<ErrorReport>,
    r: Result<Option<(usize, usize)>, MemoryError>,
) -> bool {
    match meta {
        None => after == before && spec_select_result(
            items.spec_items(),
            item,
            value_at_least,
            None,
            0,
            memory,
            r,
        ),
        Some(m) => match spec_position_selector(items.tabs@, m.position) {
            None => r == Ok::<Option<(usize, usize)>, MemoryError>(None) && after
                == before,
            Some(Selector::FromSlot(n)) => after == before
                && spec_select_result(
                items.spec_items(),
                item,
                value_at_least,
                Some(m),
                n as nat,
                memory,
                r,
            ),
            Some(Selector::IdxAndSlot(t, s)) => r == Ok::<
                Option<(usize, usize)>,
                MemoryError,
            >(Some((t, s))) && match spec_slot(items.tabs@, t as int, s as int) {
                Some(Some(in_inv)) => if spec_name_spec_matches(item, in_inv.name) {
                    after == before
                } else {
                    after == before.push(
                        spec_mismatch_warning(span, item, in_inv),
                    )
                },
                _ => after == before,
            },
        },
    }
}

impl ScreenItem {
    /// Check if the item matches the name, the value bound and the meta properties
    pub fn matches(
        &self,
        item: &ItemNameSpec,
        value_at_least: Option<i32>,
        meta: Option<&ItemMeta>,
        memory: &Memory,
    ) -> (r: Result<bool, MemoryError>)
        ensures
            r == spec_item_match(
                *self,
                *item,
                value_at_least,
                match meta {
                    Some(m) => Some(*m),
                    None => None,
                },
                *memory,
            ),
    {
        if !name_spec_matches(item, &self.name) {
            return Ok(false);
        }
        let needed = value_at_least.is_some() || match meta {
            None => false,
            Some(m) => m.value.is_some() || m.equip.is_some() || m.life_recover.is_some()
                || m.effect_duration.is_some() || m.sell_price.is_some() || m.effect_id.is_some()
                || m.effect_level.is_some() || m.ingredients.len() > 0,
        };
        if !needed {
            return Ok(true);
        }
        let d = match memory.read_item(self.ptr) {
            Ok(d) => d,
            Err(e) => return Err(e),
        };
        match meta {
            Some(m) if m.value.is_some() => {
                if d.value != m.value.unwrap() {
                    return Ok(false);
                }
            },
            _ => {
                if let Some(v) = value_at_least {
                    if d.value < v {
                        return Ok(false);
                    }
                }
            },
        }
        let m = match meta {
            None => return Ok(true),
            Some(m) => m,
        };
        if let Some(e) = m.equip {
            if d.equipped != e {
                return Ok(false);
            }
        }
        if let Some(x) = m.life_recover {
            if d.health_recover != x {
                return Ok(false);
            }
        }
        if let Some(x) = m.effect_duration {
            if d.effect_duration != x {
                return Ok(false);
            }
        }
        if let Some(x) = m.sell_price {
            if !modifier_meta_matches(item, x, d.sell_price) {
                return Ok(false);
            }
        }
        if let Some(x) = m.effect_id {
            if !f32_bits_eq(d.effect_id, x) {
                return Ok(false);
            }
        }
        if let Some(x) = m.effect_level {
            if !f32_bits_eq(d.effect_level, x) {
                return Ok(false);
            }
        }
        if m.ingredients.len() > 0 {
            return Ok(ingredients_match(&m.ingredients, &d.ingredients));
        }
        Ok(true)
    }

    /// Amount of the item for the counting method
    pub fn get_amount(&self, method: CountingMethod, memory: &Memory) -> (r: Result<
        usize,
        MemoryError,
    >)
        ensures
            match spec_item_amount(*self, method, *memory) {
                Ok(a) => r == Ok::<usize, MemoryError>(a as usize) && a <= i32::MAX,
                Err(e) => r == Err::<usize, MemoryError>(e),
            },
    {
        if !method.should_use_value(&self.name) {
            return Ok(1);
        }
        let d = match memory.read_item(self.ptr) {
            Ok(d) => d,
            Err(e) => return Err(e),
        };
        if d.value <= 0 {
            return Ok(0);
        }
        Ok(d.value as usize)
    }
}

/// Check if the leading non-empty ingredients (at most 5) are the wanted ones
pub fn ingredients_match(wanted: &Vec<String>, actual: &Vec<String>) -> (r: bool)
    ensures
        r == spec_ingredients_match(wanted@, actual@),
{
    let mut n: usize = 0;
    while n < 5 && n < actual.len() && actual[n].as_str().unicode_len() > 0
        invariant
            n <= 5,
            n <= actual@.len(),
            forall|k: int| 0 <= k < n ==> actual@[k]@.len() > 0,
        decreases 5 - n,
    {
        n += 1;
    }
    assert(spec_leading_len(actual@, n as int));
    assert forall|m: int| spec_leading_len(actual@, m) implies m == n by {
        if m < n {
            assert(actual@[m]@.len() > 0);
        } else if m > n {
            assert(actual@[n as int]@.len() > 0);
        }
    }
    if wanted.len() != n {
        return false;
    }
    let mut i: usize = 0;
    while i < n
        invariant
            i <= n,
            n == wanted@.len(),
            n <= actual@.len(),
            forall|k: int| 0 <= k < i ==> wanted@[k]@ == actual@[k]@,
        decreases n - i,
    {
        if wanted[i] != actual[i] {
            assert(!spec_names_eq(wanted@, actual@.take(n as int)));
            return false;
        }
        i += 1;
    }
    assert(spec_names_eq(wanted@, actual@.take(n as int)));
    true
}

/// Pointers of the items of a screen with their multiplicities
pub open spec fn spec_screen_ptrs(items: ScreenItems) -> Multiset<u64> {
    items.spec_items().map_values(|e: (usize, usize, ScreenItem)| e.2.ptr).to_multiset()
}

/// Pointers of the items a screen shows as equipped
pub open spec fn spec_screen_equipped_ptrs(items: ScreenItems) -> Multiset<u64> {
    items.spec_items().filter(|e: (usize, usize, ScreenItem)| e.2.in_inventory && e.2.equipped).map_values(
        |e: (usize, usize, ScreenItem)| e.2.ptr,
    ).to_multiset()
}

impl ScreenItems {
    /// Items on the screen with their positions, tab by tab, slot by slot
    pub open spec fn spec_items(&self) -> Seq<(usize, usize, ScreenItem)> {
        spec_items_upto(self.tabs@, self.tabs@.len() as int)
    }

    /// Whether the screen has few enough items that any count of them fits in a `usize`
    pub fn count_fits(&self) -> (r: bool)
        ensures
            r == (self.spec_items().len() * i32::MAX <= usize::MAX),
            r ==> forall|name: ItemNameSpec, meta: Option<ItemMeta>, method: CountingMethod, nth: int, memory: Memory|
                #[trigger] spec_count_fits(self.spec_items(), name, meta, method, nth, memory),
    {
        let n = self.items_with_positions().len();
        let fits = n <= usize::MAX / 0x7fff_ffffusize;
        proof {
            assert(fits == (n * i32::MAX <= usize::MAX)) by (nonlinear_arith)
                requires
                    fits == (n <= usize::MAX / 0x7fff_ffffusize),
            ;
            if fits {
                assert forall|name: ItemNameSpec, meta: Option<ItemMeta>, method: CountingMethod, nth: int, memory: Memory|
                    #[trigger] spec_count_fits(self.spec_items(), name, meta, method, nth, memory) by {
                    lemma_count_fits_when_few(self.spec_items(), name, meta, method, nth, memory);
                }
            }
        }
        fits
    }

    /// All items with their positions, in order
    pub fn items_with_positions(&self) -> (r: Vec<(usize, usize, ScreenItem)>)
        ensures
            r@ == self.spec_items(),
    {
        let mut out: Vec<(usize, usize, ScreenItem)> = Vec::new();
        let mut t: usize = 0;
        while t < self.tabs.len()
            invariant
                t <= self.tabs@.len(),
                out@ == spec_items_upto(self.tabs@, t as int),
            decreases self.tabs.len() - t,
        {
            let tab = &self.tabs[t];
            let mut s: usize = 0;
            while s < tab.items.len()
                invariant
                    t < self.tabs@.len(),
                    *tab == self.tabs@[t as int],
                    s <= tab.items@.len(),
                    out@ == spec_items_upto(self.tabs@, t as int) + spec_tab_items_upto(
                        tab.items@,
                        t,
                        s as int,
                    ),
                decreases tab.items.len() - s,
            {
                let ghost before = out@;
                match &tab.items[s] {
                    Some(x) => {
                        out.push((t, s, copy_screen_item(x)));
                    },
                    None => {},
                }
                assert(out@ =~= spec_items_upto(self.tabs@, t as int) + spec_tab_items_upto(
                    tab.items@,
                    t,
                    s + 1,
                ));
                s += 1;
            }
            t += 1;
        }
        out
    }

    /// Get list of items that are displayed as equipped (and not translucent), sorted
    pub fn equipped_item_ptrs(&self) -> (r: Vec<u64>)
        ensures
            spec_is_sorted(r@),
            r@.to_multiset() =~= spec_screen_equipped_ptrs(*self),
    {
        let items = self.items_with_positions();
        let ghost pred = |e: (usize, usize, ScreenItem)| e.2.in_inventory && e.2.equipped;
        let mut out: Vec<u64> = Vec::new();
        let mut i: usize = 0;
        while i < items.len()
            invariant
                i <= items@.len(),
                pred == (|e: (usize, usize, ScreenItem)| e.2.in_inventory && e.2.equipped),
                out@ == items@.take(i as int).filter(pred).map_values(
                    |e: (usize, usize, ScreenItem)| e.2.ptr,
                ),
            decreases items.len() - i,
        {
            proof {
                assert(items@.take(i + 1) =~= items@.take(i as int).push(items@[i as int]));
                items@.take(i as int).lemma_filter_push(items@[i as int], pred);
            }
            if items[i].2.in_inventory && items[i].2.equipped {
                out.push(items[i].2.ptr);
            }
            assert(out@ =~= items@.take(i + 1).filter(pred).map_values(
                |e: (usize, usize, ScreenItem)| e.2.ptr,
            ));
            i += 1;
        }
        assert(items@.take(items@.len() as int) =~= items@);
        sorted_u64(out)
    }

    /// Get list of items that are displayed in the screen, sorted
    pub fn accessible_item_ptrs(&self) -> (r: Vec<u64>)
        ensures
            spec_is_sorted(r@),
            r@.to_multiset() =~= spec_screen_ptrs(*self),
    {
        let items = self.items_with_positions();
        let mut out: Vec<u64> = Vec::new();
        let mut i: usize = 0;
        while i < items.len()
            invariant
                i <= items@.len(),
                out@ == items@.take(i as int).map_values(|e: (usize, usize, ScreenItem)| e.2.ptr),
            decreases items.len() - i,
        {
            out.push(items[i].2.ptr);
            assert(out@ =~= items@.take(i + 1).map_values(
                |e: (usize, usize, ScreenItem)| e.2.ptr,
            ));
            i += 1;
        }
        assert(items@.take(items@.len() as int) =~= items@);
        sorted_u64(out)
    }

    /// Get list of items that *may* be reachable with the current PE activation: the item
    /// at the active slot of every tab 3 tabs apart from the active tab. Sorted.
    pub fn pe_reachable_item_ptrs(&self, active_tab: usize, active_slot: usize) -> (r: Vec<u64>)
        ensures
            spec_is_sorted(r@),
            r@.to_multiset() =~= Seq::new(self.tabs@.len(), |t: int| t).filter(
                |t: int| t % 3 == active_tab % 3 && spec_slot(self.tabs@, t, active_slot as int) matches Some(Some(_)),
            ).map_values(|t: int| spec_slot(self.tabs@, t, active_slot as int)->Some_0->Some_0.ptr).to_multiset(),
    {
        let ghost idx = Seq::new(self.tabs@.len(), |t: int| t);
        let ghost pred = |t: int| t % 3 == active_tab % 3 && spec_slot(self.tabs@, t, active_slot as int) matches Some(Some(_));
        let ghost f = |t: int| spec_slot(self.tabs@, t, active_slot as int)->Some_0->Some_0.ptr;
        let mut out: Vec<u64> = Vec::new();
        let mut t: usize = 0;
        while t < self.tabs.len()
            invariant
                t <= self.tabs@.len(),
                idx == Seq::new(self.tabs@.len(), |t: int| t),
                pred == (|t: int| t % 3 == active_tab % 3 && spec_slot(self.tabs@, t, active_slot as int) matches Some(Some(_))),
                f == (|t: int| spec_slot(self.tabs@, t, active_slot as int)->Some_0->Some_0.ptr),
                out@ == idx.take(t as int).filter(pred).map_values(f),
            decreases self.tabs.len() - t,
        {
            proof {
                assert(idx.take(t + 1) =~= idx.take(t as int).push(idx[t as int]));
                idx.take(t as int).lemma_filter_push(idx[t as int], pred);
            }
            if t % 3 == active_tab % 3 && active_slot < self.tabs[t].items.len() {
                if let Some(item) = &self.tabs[t].items[active_slot] {
                    out.push(item.ptr);
                }
            }
            assert(out@ =~= idx.take(t + 1).filter(pred).map_values(f));
            t += 1;
        }
        assert(idx.take(self.tabs@.len() as int) =~= idx);
        sorted_u64(out)
    }

    /// Get the "corrected" item position to use in game function calls: the slot minus the
    /// number of empty slots before it
    ///
    /// The slot index passed to the game's functions is the real position (index), while
    /// the screen shows the visual position. These are the same except for the arrow slots,
    /// where the empty bow slots are not counted
    pub fn corrected_slot(&self, tab: usize, slot: usize) -> (r: i32)
        ensures
            r == spec_corrected_slot(self.tabs@, tab, slot),
    {
        if tab >= self.tabs.len() {
            return slot as i32;
        }
        let items = &self.tabs[tab].items;
        let n = if slot < items.len() {
            slot
        } else {
            items.len()
        };
        let mut empty: usize = 0;
        let mut i: usize = 0;
        while i < n
            invariant
                n <= items@.len(),
                n <= slot,
                i <= n,
                empty == spec_count_empty(items@, i as int),
                0 <= spec_count_empty(items@, i as int) <= i,
            decreases n - i,
        {
            if items[i].is_none() {
                empty += 1;
            }
            i += 1;
        }
        (slot - empty) as i32
    }

    /// Get the (visual) slot index of the first item in the tab (might be translucent)
    pub fn first_item(&self, tab: usize) -> (r: Option<usize>)
        ensures
            tab >= self.tabs@.len() ==> r is None,
            tab < self.tabs@.len() ==> match r {
                Some(i) => i < self.tabs@[tab as int].items@.len()
                    && self.tabs@[tab as int].items@[i as int] is Some && forall|k: int|
                    0 <= k < i ==> self.tabs@[tab as int].items@[k] is None,
                None => forall|k: int|
                    0 <= k < self.tabs@[tab as int].items@.len()
                        ==> self.tabs@[tab as int].items@[k] is None,
            },
    {
        if tab >= self.tabs.len() {
            return None;
        }
        let items = &self.tabs[tab].items;
        let mut i: usize = 0;
        while i < items.len()
            invariant
                tab < self.tabs@.len(),
                items@ == self.tabs@[tab as int].items@,
                i <= items@.len(),
                forall|k: int| 0 <= k < i ==> items@[k] is None,
            decreases items.len() - i,
        {
            if items[i].is_some() {
                return Some(i);
            }
            i += 1;
        }
        None
    }

    /// Get the pointer of the item by tab index and slot
    pub fn get(&self, tab: usize, slot: usize) -> (r: ScreenItemState<u64>)
        ensures
            r == match spec_slot(self.tabs@, tab as int, slot as int) {
                Some(Some(item)) => if item.in_inventory {
                    ScreenItemState::Normal(item.ptr)
                } else {
                    ScreenItemState::Translucent(item.ptr)
                },
                _ => ScreenItemState::Empty,
            },
    {
        if tab >= self.tabs.len() || slot >= self.tabs[tab].items.len() {
            return ScreenItemState::Empty;
        }
        match &self.tabs[tab].items[slot] {
            None => ScreenItemState::Empty,
            Some(item) => if item.in_inventory {
                ScreenItemState::Normal(item.ptr)
            } else {
                ScreenItemState::Translucent(item.ptr)
            },
        }
    }

    /// Check if the position is empty (no item is there) or translucent (not in inventory item)
    ///
    /// A position outside the screen counts as neither
    pub fn is_translucent_or_empty(&self, tab: usize, slot: usize) -> (r: bool)
        ensures
            r == (spec_slot(self.tabs@, tab as int, slot as int) matches Some(Some(item))
                && !item.in_inventory),
    {
        match self.is_translucent(tab, slot) {
            Some(b) => b,
            None => false,
        }
    }

    /// Check if the position is translucent. Returns `None` if the position is empty.
    pub fn is_translucent(&self, tab: usize, slot: usize) -> (r: Option<bool>)
        ensures
            r == match spec_slot(self.tabs@, tab as int, slot as int) {
                Some(Some(item)) => Some(!item.in_inventory),
                _ => None,
            },
    {
        if tab >= self.tabs.len() || slot >= self.tabs[tab].items.len() {
            return None;
        }
        match &self.tabs[tab].items[slot] {
            None => None,
            Some(item) => Some(!item.in_inventory),
        }
    }

    /// Select an item from the screen
    ///
    /// If position meta property is specified, the name spec is not used
    /// for matching, but will give a warning if it doesn't match.
    /// The position may also target an empty or translucent slot.
    /// Without position meta, it will not target translucent or empty slots
    ///
    /// Returns the tab index and slot index
    pub fn select(
        &self,
        item: &ItemNameSpec,
        meta: Option<&ItemMeta>,
        value_at_least: Option<i32>,
        memory: &Memory,
        span: Span,
        errors: &mut Vec<ErrorReport>,
    ) -> (r: Result<Option<(usize, usize)>, MemoryError>)
        ensures
            spec_select(
                *self,
                *item,
                match meta {
                    Some(m) => Some(*m),
                    None => None,
                },
                value_at_least,
                *memory,
                span,
                old(errors)@,
                final(errors)@,
                r,
            ),
    {
        let m = match meta {
            None => return self.select_without_position_nth(item, None, value_at_least, 0, memory),
            Some(m) => m,
        };
        let selector = match self.process_position_meta(m.position) {
            None => return Ok(None),
            Some(s) => s,
        };
        match selector {
            Selector::FromSlot(n) => self.select_without_position_nth(
                item,
                Some(m),
                value_at_least,
                n,
                memory,
            ),
            Selector::IdxAndSlot(tab_i, slot) => {
                if tab_i >= self.tabs.len() || slot >= self.tabs[tab_i].items.len() {
                    return Ok(Some((tab_i, slot)));
                }
                let in_inv = match &self.tabs[tab_i].items[slot] {
                    None => return Ok(Some((tab_i, slot))),
                    Some(x) => x,
                };
                if !name_spec_matches(item, &in_inv.name) {
                    match item {
                        ItemNameSpec::Actor(name) => {
                            errors.push(
                                ErrorReport::warning(
                                    span,
                                    RuntimeError::ItemMismatch(
                                        in_inv.name.name.clone(),
                                        name.name.clone(),
                                    ),
                                ),
                            );
                        },
                        ItemNameSpec::Category(category) => {
                            errors.push(
                                ErrorReport::warning(
                                    span,
                                    RuntimeError::ItemMismatchCategory(
                                        in_inv.name.name.clone(),
                                        *category,
                                    ),
                                ),
                            );
                        },
                    }
                }
                Ok(Some((tab_i, slot)))
            },
        }
    }

    /// Select the `nth` (0-indexed) matching item that is not translucent, without
    /// considering position meta
    ///
    /// Returns the tab index and slot index
    pub fn select_without_position_nth(
        &self,
        name: &ItemNameSpec,
        meta: Option<&ItemMeta>,
        value_at_least: Option<i32>,
        nth: usize,
        memory: &Memory,
    ) -> (r: Result<Option<(usize, usize)>, MemoryError>)
        ensures
            spec_select_result(
                self.spec_items(),
                *name,
                value_at_least,
                match meta {
                    Some(m) => Some(*m),
                    None => None,
                },
                nth as nat,
                *memory,
                r,
            ),
    {
        let ghost meta_v = match meta {
            Some(m) => Some(*m),
            None => None,
        };
        let items = self.items_with_positions();
        let mut count = nth;
        let mut i: usize = 0;
        while i < items.len()
            invariant
                items@ == self.spec_items(),
                i <= items@.len(),
                meta_v == match meta {
                    Some(m) => Some(*m),
                    None => None,
                },
                forall|k: int|
                    0 <= k < i ==> #[trigger] spec_match_at(
                        items@,
                        k,
                        *name,
                        value_at_least,
                        meta_v,
                        *memory,
                    ) is Ok,
                spec_count_hits(items@, i as int, *name, value_at_least, meta_v, *memory) + count
                    == nth,
            decreases items.len() - i,
        {
            let matched = match items[i].2.matches(name, value_at_least, meta, memory) {
                Ok(b) => b,
                Err(e) => {
                    assert(spec_match_at(items@, i as int, *name, value_at_least, meta_v, *memory)
                        == Err::<bool, MemoryError>(e));
                    return Err(e);
                },
            };
            assert(spec_match_at(items@, i as int, *name, value_at_least, meta_v, *memory)
                == Ok::<bool, MemoryError>(matched));
            if matched && items[i].2.in_inventory {
                if count == 0 {
                    assert(spec_is_hit(
                        spec_match_at(items@, i as int, *name, value_at_least, meta_v, *memory),
                        items@[i as int].2,
                    ));
                    return Ok(Some((items[i].0, items[i].1)));
                }
                count -= 1;
            }
            i += 1;
        }
        Ok(None)
    }

    /// Get amount of item that match the input name spec and meta
    ///
    /// If position meta property is specified, the name spec is not used
    /// for matching.
    pub fn get_amount(
        &self,
        item: &ItemNameSpec,
        meta: Option<&ItemMeta>,
        method: CountingMethod,
        memory: &Memory,
    ) -> (r: Result<usize, MemoryError>)
        requires
            spec_count_fits(
                self.spec_items(),
                    *item,
                    match meta {
                        Some(m) => Some(*m),
                        None => None,
                    },
                    method,
                    match meta {
                        Some(m) => match spec_position_selector(self.tabs@, m.position) {
                            Some(Selector::FromSlot(n)) => n as int,
                            _ => 0,
                        },
                        None => 0,
                    },
                    *memory,
            ),
        ensures
            ({
                let meta_v = match meta {
                    Some(m) => Some(*m),
                    None => None,
                };
                let counted = |nth: int| match spec_amount_fold(
                    self.spec_items(),
                    self.spec_items().len() as int,
                    *item,
                    meta_v,
                    method,
                    nth,
                    *memory,
                ) {
                    Ok((_, t)) => Ok::<usize, MemoryError>(t as usize),
                    Err(e) => Err::<usize, MemoryError>(e),
                };
                match meta {
                    None => r == counted(0),
                    Some(m) => match spec_position_selector(self.tabs@, m.position) {
                        None => r == Ok::<usize, MemoryError>(0),
                        Some(Selector::FromSlot(n)) => r == counted(n as int),
                        Some(Selector::IdxAndSlot(t, s)) => match spec_slot(
                            self.tabs@,
                            t as int,
                            s as int,
                        ) {
                            Some(Some(x)) => match spec_item_amount(x, method, *memory) {
                                Ok(a) => r == Ok::<usize, MemoryError>(a as usize),
                                Err(e) => r == Err::<usize, MemoryError>(e),
                            },
                            _ => r == Ok::<usize, MemoryError>(0),
                        },
                    },
                }
            }),
    {
        let m = match meta {
            None => return self.get_amount_without_position_nth(item, None, method, 0, memory),
            Some(m) => m,
        };
        let selector = match self.process_position_meta(m.position) {
            None => return Ok(0),
            Some(s) => s,
        };
        match selector {
            Selector::FromSlot(n) => self.get_amount_without_position_nth(
                item,
                Some(m),
                method,
                n,
                memory,
            ),
            Selector::IdxAndSlot(tab_i, slot) => {
                if tab_i >= self.tabs.len() || slot >= self.tabs[tab_i].items.len() {
                    return Ok(0);
                }
                match &self.tabs[tab_i].items[slot] {
                    None => Ok(0),
                    Some(x) => x.get_amount(method, memory),
                }
            },
        }
    }

    /// Get amount of item that match the input that can be operated on,
    /// without considering position meta properties.
    ///
    /// The first `nth` matched slots will be skipped, regardless of the counting method.
    /// Translucent items are counted.
    pub fn get_amount_without_position_nth(
        &self,
        name: &ItemNameSpec,
        meta: Option<&ItemMeta>,
        method: CountingMethod,
        nth: usize,
        memory: &Memory,
    ) -> (r: Result<usize, MemoryError>)
        requires
            spec_count_fits(
                self.spec_items(),
                    *name,
                    match meta {
                        Some(m) => Some(*m),
                        None => None,
                    },
                    method,
                    nth as int,
                    *memory,
            ),
        ensures
            match spec_amount_fold(
                self.spec_items(),
                self.spec_items().len() as int,
                *name,
                match meta {
                    Some(m) => Some(*m),
                    None => None,
                },
                method,
                nth as int,
                *memory,
            ) {
                Ok((_, t)) => r == Ok::<usize, MemoryError>(t as usize),
                Err(e) => r == Err::<usize, MemoryError>(e),
            },
    {
        let ghost meta_v = match meta {
            Some(m) => Some(*m),
            None => None,
        };
        let items = self.items_with_positions();
        let ghost n = items@.len() as int;
        let mut skip = nth;
        let mut count: usize = 0;
        let mut i: usize = 0;
        while i < items.len()
            invariant
                items@ == self.spec_items(),
                n == items@.len(),
                i <= items@.len(),
                meta_v == match meta {
                    Some(m) => Some(*m),
                    None => None,
                },
                spec_count_fits(
                    items@,
                        *name,
                        meta_v,
                        method,
                        nth as int,
                        *memory,
                ),
                spec_amount_fold(items@, i as int, *name, meta_v, method, nth as int, *memory)
                    == Ok::<(int, int), MemoryError>((skip as int, count as int)),
            decreases items.len() - i,
        {
            let matched = match items[i].2.matches(name, None, meta, memory) {
                Ok(b) => b,
                Err(e) => {
                    proof {
                        lemma_amount_fold_err(
                            items@,
                            i + 1,
                            n,
                            *name,
                            meta_v,
                            method,
                            nth as int,
                            *memory,
                        );
                    }
                    return Err(e);
                },
            };
            if matched {
                if skip > 0 {
                    skip -= 1;
                } else {
                    let a = match items[i].2.get_amount(method, memory) {
                        Ok(a) => a,
                        Err(e) => {
                            proof {
                                lemma_amount_fold_err(
                                    items@,
                                    i + 1,
                                    n,
                                    *name,
                                    meta_v,
                                    method,
                                    nth as int,
                                    *memory,
                                );
                            }
                            return Err(e);
                        },
                    };
                    assert(spec_fold_fits(
                        items@,
                        i + 1,
                        *name,
                        meta_v,
                        method,
                        nth as int,
                        *memory,
                    ));
                    count = count + a;
                }
            }
            i += 1;
        }
        Ok(count)
    }

    /// Update one screen slot from memory: whether the item is still in the inventory, and
    /// optionally the equipped state
    ///
    /// Return `Ok(true)` if the slot was changed
    pub fn update(
        &mut self,
        tab: usize,
        slot: usize,
        update_equipped: Option<bool>,
        memory: &Memory,
    ) -> (r: Result<bool, MemoryError>)
        ensures
            match spec_slot(old(self).tabs@, tab as int, slot as int) {
                Some(Some(x)) => match memory.spec_read(x.ptr) {
                    None => r == Err::<bool, MemoryError>(MemoryError { addr: x.ptr })
                        && *final(self) == *old(self),
                    Some(d) => {
                        let new_item = ScreenItem {
                            in_inventory: d.in_inventory,
                            equipped: match update_equipped {
                                Some(e) => e,
                                None => x.equipped,
                            },
                            ..x
                        };
                        &&& r == Ok::<bool, MemoryError>(
                            x.in_inventory != d.in_inventory || update_equipped is Some,
                        )
                        &&& final(self).tabs@.len() == old(self).tabs@.len()
                        &&& forall|t: int|
                            0 <= t < old(self).tabs@.len() && t != tab ==> final(self).tabs@[t]
                                == old(self).tabs@[t]
                        &&& final(self).tabs@[tab as int].category == old(self).tabs@[tab as int].category
                        &&& final(self).tabs@[tab as int].items@ == old(self).tabs@[tab as int].items@.update(slot as int, Some(new_item))
                    },
                },
                _ => r == Ok::<bool, MemoryError>(false) && *final(self) == *old(self),
            },
    {
        if tab >= self.tabs.len() || slot >= self.tabs[tab].items.len() {
            return Ok(false);
        }
        let (ptr, in_inv) = match &self.tabs[tab].items[slot] {
            None => return Ok(false),
            Some(x) => (x.ptr, x.in_inventory),
        };
        let d = match memory.read_item(ptr) {
            Ok(d) => d,
            Err(e) => return Err(e),
        };
        let new_in_inventory = d.in_inventory;
        let mut changed = false;
        if in_inv != new_in_inventory {
            changed = true;
        }
        if update_equipped.is_some() {
            changed = true;
        }
        let mut tab_v = self.tabs.remove(tab);
        let old_item = tab_v.items.remove(slot);
        let mut x = match old_item {
            Some(x) => x,
            None => vstd::pervasive::unreached(),
        };
        x.in_inventory = new_in_inventory;
        if let Some(e) = update_equipped {
            x.equipped = e;
        }
        tab_v.items.insert(slot, Some(x));
        self.tabs.insert(tab, tab_v);
        assert(self.tabs@ =~= old(self).tabs@.update(tab as int, self.tabs@[tab as int]));
        assert(self.tabs@[tab as int].items@ =~= old(self).tabs@[tab as int].items@.update(
            slot as int,
            self.tabs@[tab as int].items@[slot as int],
        ));
        Ok(changed)
    }

    /// The selector of a position meta: the n-th match (`FromSlot`, 1-indexed), a tab and
    /// slot (slot at most 19), or the tab and slot of a category position
    pub fn process_position_meta(&self, position: Option<ItemPosition>) -> (r: Option<Selector>)
        ensures
            r == spec_position_selector(self.tabs@, position),
    {
        match position {
            None => Some(Selector::FromSlot(0)),
            Some(ItemPosition::FromSlot(n)) => Some(Selector::FromSlot((n as usize).saturating_sub(1))),
            Some(ItemPosition::TabIdxAndSlot(tab_i, slot)) => Some(
                Selector::IdxAndSlot(
                    tab_i as usize,
                    if slot > 19 {
                        19
                    } else {
                        slot as usize
                    },
                ),
            ),
            Some(ItemPosition::TabCategoryAndSlot(spec)) => match self.select_by_category_and_slot(
                &spec,
            ) {
                Some((tab, slot)) => Some(Selector::IdxAndSlot(tab, slot)),
                None => None,
            },
        }
    }

    /// Select an item in the inventory by category and slot position
    ///
    /// Returns the tab index and slot index. Returns None if there are not that many tabs
    /// of the category. Does not check if the slot actually has an item
    pub fn select_by_category_and_slot(&self, spec: &CategorySpec) -> (r: Option<(usize, usize)>)
        ensures
            r == spec_select_by_category(self.tabs@, *spec),
    {
        let row: u32 = if spec.row == 0 {
            0
        } else {
            spec.row - 1
        };
        let col: u32 = if spec.col == 0 {
            0
        } else {
            spec.col - 1
        };
        let slot_wide: u64 = row as u64 * 5 + col as u64;
        let slot = slot_wide as usize;
        assert(slot_wide == spec_category_slot(*spec));
        let want: u32 = if spec.amount == 0 {
            1
        } else {
            spec.amount
        };
        let mut count: u32 = want;
        let target = spec.category.coerce_armor();
        let mut t: usize = 0;
        while t < self.tabs.len()
            invariant
                t <= self.tabs@.len(),
                1 <= count <= want,
                want == if spec.amount == 0 {
                    1
                } else {
                    spec.amount
                },
                target == spec_coerce_armor(spec.category),
                slot == spec_category_slot(*spec) as usize,
                spec_count_category_tabs(self.tabs@, spec.category, t as int) == want - count,
            decreases self.tabs.len() - t,
        {
            if let Some(category) = self.tabs[t].category {
                if category.coerce_armor() == target {
                    count -= 1;
                    if count == 0 {
                        proof {
                            assert(spec_tab_is_category(self.tabs@, t as int, spec.category));
                            assert(spec_count_category_tabs(self.tabs@, spec.category, t as int)
                                == want - 1);
                            let w = choose|w: int|
                                0 <= w < self.tabs@.len() && spec_tab_is_category(
                                    self.tabs@,
                                    w,
                                    spec.category,
                                ) && spec_count_category_tabs(self.tabs@, spec.category, w)
                                    == want - 1;
                            lemma_category_tab_unique(self.tabs@, spec.category, w, t as int);
                        }
                        return Some((t, slot));
                    }
                }
            }
            t += 1;
        }
        assert forall|w: int|
            0 <= w < self.tabs@.len() && spec_tab_is_category(
                self.tabs@,
                w,
                spec.category,
            ) implies spec_count_category_tabs(
            self.tabs@,
            spec.category,
            w,
        ) != want - 1 by {
            lemma_count_category_tabs_monotone(self.tabs@, spec.category, w + 1, self.tabs@.len() as int);
        }
        None
    }
}

/// The count of category tabs grows with the prefix
pub proof fn lemma_count_category_tabs_monotone(tabs: Seq<ScreenTab>, c: Category, i: int, j: int)
    requires
        0 <= i <= j,
    ensures
        spec_count_category_tabs(tabs, c, i) <= spec_count_category_tabs(tabs, c, j),
    decreases j - i,
{
    if i < j {
        lemma_count_category_tabs_monotone(tabs, c, i, j - 1);
    }
}

/// A category position selects the `amount`-th tab of the category, counting from 1
/// (an amount of 0 counts as 1): a tab of that category with exactly `amount - 1` tabs of
/// the category before it, at the slot of the row and column (1-indexed, 5 slots per
/// row). There is no selection when the category has fewer tabs than that.
pub proof fn lemma_category_position_is_nth_tab(tabs: Seq<ScreenTab>, spec: CategorySpec)
    requires
        tabs.len() <= usize::MAX,
    ensures
        match spec_select_by_category(tabs, spec) {
            Some((t, s)) => {
                &&& 0 <= t < tabs.len()
                &&& spec_tab_is_category(tabs, t as int, spec.category)
                &&& spec_count_category_tabs(tabs, spec.category, t as int) == if spec.amount
                    == 0 {
                    0
                } else {
                    spec.amount - 1
                }
                &&& (1 <= spec.row <= 4 && 1 <= spec.col <= 5) ==> s == (spec.row - 1) * 5 + (spec.col
                    - 1)
            },
            None => forall|t: int|
                0 <= t < tabs.len() && #[trigger] spec_tab_is_category(tabs, t, spec.category)
                    ==> spec_count_category_tabs(tabs, spec.category, t) != if spec.amount == 0 {
                    0
                } else {
                    spec.amount - 1
                },
        },
{
}

/// Two tabs of the category with the same number of category tabs before them are the
/// same tab
pub proof fn lemma_category_tab_unique(tabs: Seq<ScreenTab>, c: Category, a: int, b: int)
    requires
        0 <= a < tabs.len(),
        0 <= b < tabs.len(),
        spec_tab_is_category(tabs, a, c),
        spec_tab_is_category(tabs, b, c),
        spec_count_category_tabs(tabs, c, a) == spec_count_category_tabs(tabs, c, b),
    ensures
        a == b,
{
    if a < b {
        lemma_count_category_tabs_monotone(tabs, c, a + 1, b);
    } else if b < a {
        lemma_count_category_tabs_monotone(tabs, c, b + 1, a);
    }
}

/// Every item listed among the first `s` slots of a tab is in its slot
pub proof fn lemma_tab_items_in_slots(tabs: Seq<ScreenTab>, t: int, s: int, k: int)
    requires
        0 <= t < tabs.len(),
        t <= usize::MAX,
        0 <= s <= tabs[t].items@.len(),
        tabs[t].items@.len() <= usize::MAX,
        0 <= k < spec_tab_items_upto(tabs[t].items@, t as usize, s).len(),
    ensures
        ({
            let e = spec_tab_items_upto(tabs[t].items@, t as usize, s)[k];
            e.0 == t && spec_slot(tabs, t, e.1 as int) == Some(Some(e.2))
        }),
    decreases s,
{
    let prev = spec_tab_items_upto(tabs[t].items@, t as usize, s - 1);
    if k < prev.len() {
        lemma_tab_items_in_slots(tabs, t, s - 1, k);
    }
}

/// Every item listed among the first `n` tabs is in its slot
pub proof fn lemma_items_in_slots(tabs: Seq<ScreenTab>, n: int, k: int)
    requires
        0 <= n <= tabs.len(),
        tabs.len() <= usize::MAX,
        forall|t: int| 0 <= t < tabs.len() ==> #[trigger] tabs[t].items@.len() <= usize::MAX,
        0 <= k < spec_items_upto(tabs, n).len(),
    ensures
        ({
            let e = spec_items_upto(tabs, n)[k];
            spec_slot(tabs, e.0 as int, e.1 as int) == Some(Some(e.2))
        }),
    decreases n,
{
    let prev = spec_items_upto(tabs, n - 1);
    if k < prev.len() {
        lemma_items_in_slots(tabs, n - 1, k);
    } else {
        let t = n - 1;
        assert(tabs[t].items@.len() <= usize::MAX);
        lemma_tab_items_in_slots(tabs, t, tabs[t].items@.len() as int, k - prev.len());
    }
}

/// Without position meta, a selection only targets a slot that holds an item that is in
/// the inventory (not translucent) and matches the name
pub proof fn lemma_select_targets_normal_item(
    items: ScreenItems,
    name: ItemNameSpec,
    value_at_least: Option<i32>,
    nth: nat,
    memory: Memory,
    tab: usize,
    slot: usize,
)
    requires
        spec_select_result(
            items.spec_items(),
            name,
            value_at_least,
            None,
            nth,
            memory,
            Ok(Some((tab, slot))),
        ),
        items.tabs@.len() <= usize::MAX,
        forall|t: int| 0 <= t < items.tabs@.len() ==> #[trigger] items.tabs@[t].items@.len() <= usize::MAX,
    ensures
        spec_slot(items.tabs@, tab as int, slot as int) matches Some(Some(item)) && item.in_inventory
            && spec_name_spec_matches(name, item.name),
{
    let all = items.spec_items();
    let j = choose|j: int|
        0 <= j < all.len() && spec_is_hit(
            #[trigger] spec_match_at(all, j, name, value_at_least, None, memory),
            all[j].2,
        ) && spec_count_hits(all, j, name, value_at_least, None, memory) == nth && (forall|k: int|
            0 <= k < j ==> #[trigger] spec_match_at(all, k, name, value_at_least, None, memory)
                is Ok) && (tab, slot) == (all[j].0, all[j].1);
    lemma_items_in_slots(items.tabs@, items.tabs@.len() as int, j);
}

/// A screen item equal to `x`
pub fn copy_screen_item(x: &ScreenItem) -> (r: ScreenItem)
    ensures
        r == *x,
{
    ScreenItem {
        ptr: x.ptr,
        in_inventory: x.in_inventory,
        equipped: x.equipped,
        name: crate::actor::copy_name(&x.name),
        category: x.category,
    }
}

} // verus!
