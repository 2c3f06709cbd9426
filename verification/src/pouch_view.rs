//! The list view of the pouch: the items of the first pouch list as the game holds them,
//! with where the screen shows them
use vstd::prelude::*;

use crate::error::ViewError;
use crate::iv::{self, spec_is_next_tab_head, get_next_tab_head};
use crate::pouch_screen::spec_pe_reachable;
use crate::screen::Screen;
use crate::screen_items::{spec_screen_equipped_ptrs, spec_screen_ptrs, ScreenItems};
use crate::state::GameSystems;
use crate::util::{is_animated_icon_actor, sorted_u64, spec_is_animated_icon_actor, spec_is_sorted, str_eq};

verus! {

/// Most tabs the pouch holds
pub const TAB_MAX: usize = 50;

/// Most items shown in a dpad menu
pub const DPAD_MAX: usize = 20;

/// A node of the first pouch list, as read from memory
#[derive(Debug, Clone, Copy, PartialEq, Eq, Structural)]
pub struct ListEntry {
    /// Address of the node
    pub node: u64,
    /// Address of the item of the node (0 if null)
    pub item: u64,
    /// The previous node of the node
    pub prev: u64,
    /// Index of the item in the item buffer, if it is in the buffer
    pub buffer_idx: Option<i32>,
}

/// Fields of a pouch item, as read from memory (`f32` values are bit patterns)
#[derive(Debug, Clone)]
pub struct RawPouchItem {
    pub name: String,
    pub value: i32,
    pub equipped: bool,
    pub item_type: i32,
    pub item_use: i32,
    pub in_inventory: bool,
    pub health_recover: i32,
    pub effect_duration: i32,
    pub sell_price: i32,
    pub effect_id: u32,
    pub effect_level: u32,
    /// Length of the ingredient array
    pub ingredients_num: i32,
    /// The ingredient names, as many as the length of the array when it is not negative
    pub ingredients: Vec<String>,
    /// Previous and next nodes of the item's node
    pub prev: u64,
    pub next: u64,
}

/// What the pouch view reads from memory
#[derive(Debug, Clone)]
pub struct RawPouch {
    /// Count of the first list (mCount)
    pub count: i32,
    /// Address of the start/end node of the first list
    pub list_head: u64,
    /// Nodes of the first list, in order
    pub entries: Vec<ListEntry>,
    /// Items of the nodes, in the same order
    pub items: Vec<RawPouchItem>,
    /// mNumTabs, if it can be read
    pub num_tabs: Option<i32>,
    /// mTabs (50 item addresses), if it can be read
    pub tab_heads: Option<Vec<u64>>,
    /// mTabsType (50 types), if it can be read
    pub tab_types: Option<Vec<i32>>,
    /// Number of bow slots in the game data (0 if there is no flag)
    pub bow_slots: i32,
    /// Items being held (grabbed), 0 for none
    pub grabbed: Vec<u64>,
}

/// The list is coherent: no null item, every item in the item buffer, and every node
/// linked to the one before it
pub open spec fn spec_list_coherent(raw: RawPouch) -> bool {
    forall|i: int|
        0 <= i < raw.entries@.len() ==> {
            let e = #[trigger] raw.entries@[i];
            &&& e.item != 0
            &&& e.buffer_idx is Some
            &&& e.prev == if i == 0 {
                raw.list_head
            } else {
                raw.entries@[i - 1].node
            }
        }
}

/// The `i`-th node breaks coherence
pub open spec fn spec_entry_incoherent(raw: RawPouch, i: int) -> bool {
    let e = raw.entries@[i];
    e.item == 0 || e.buffer_idx is None || e.prev != if i == 0 {
        raw.list_head
    } else {
        raw.entries@[i - 1].node
    }
}

/// Check that the list is coherent
pub fn check_list(raw: &RawPouch) -> (r: Result<(), ViewError>)
    ensures
        spec_list_coherent(*raw) <==> r is Ok,
        r matches Err(e) ==> e is Coherence,
{
    let mut node_before = raw.list_head;
    let mut i: usize = 0;
    while i < raw.entries.len()
        invariant
            i <= raw.entries@.len(),
            node_before == if i == 0 {
                raw.list_head
            } else {
                raw.entries@[i - 1].node
            },
            forall|k: int| 0 <= k < i ==> !spec_entry_incoherent(*raw, k),
        decreases raw.entries.len() - i,
    {
        let e = raw.entries[i];
        if e.item == 0 {
            assert(spec_entry_incoherent(*raw, i as int));
            return Err(ViewError::Coherence("item in list1 is null".to_owned()));
        }
        if e.buffer_idx.is_none() {
            assert(spec_entry_incoherent(*raw, i as int));
            return Err(ViewError::Coherence("item in list1 is not in item buffer".to_owned()));
        }
        if e.prev != node_before {
            assert(spec_entry_incoherent(*raw, i as int));
            return Err(ViewError::Coherence("item in list1 is not linked properly".to_owned()));
        }
        node_before = e.node;
        i += 1;
    }
    assert forall|k: int| 0 <= k < raw.entries@.len() implies ({
        let e = #[trigger] raw.entries@[k];
        &&& e.item != 0
        &&& e.buffer_idx is Some
        &&& e.prev == if k == 0 {
            raw.list_head
        } else {
            raw.entries@[k - 1].node
        }
    }) by {
        assert(!spec_entry_incoherent(*raw, k));
    }
    Ok(())
}

/// The dpad menu skips a Master Sword without durability
pub open spec fn spec_dpad_skips(item: RawPouchItem, pouch_type: i32) -> bool {
    item.item_type != pouch_type || (pouch_type != 2 && item.value <= 0 && item.item_type == 0
        && item.name@ == "Weapon_Sword_070"@)
}

/// Items of the dpad menu of a type, walking the first `n` nodes of the list: the walk
/// stops at a null item, at an item that is not an equipment or arrow, or once 20 items are
/// in the menu
pub open spec fn spec_dpad_menu(raw: RawPouch, pouch_type: i32, n: int) -> (Seq<u64>, bool)
    decreases n,
{
    if n <= 0 {
        (Seq::empty(), false)
    } else {
        let prev = spec_dpad_menu(raw, pouch_type, n - 1);
        let item = raw.items@[n - 1];
        if prev.1 || prev.0.len() >= DPAD_MAX || raw.entries@[n - 1].item == 0 || item.item_type
            > 3 {
            (prev.0, true)
        } else if spec_dpad_skips(item, pouch_type) {
            prev
        } else {
            (prev.0.push(raw.entries@[n - 1].item), false)
        }
    }
}

/// The dpad menu of a type (none while the list count is 0)
pub open spec fn spec_dpad(raw: RawPouch, pouch_type: i32) -> Seq<u64> {
    if raw.count == 0 {
        Seq::empty()
    } else {
        spec_dpad_menu(raw, pouch_type, raw.entries@.len() as int).0
    }
}

/// Items in the dpad menus of swords, bows, arrows and shields
pub open spec fn spec_dpad_items(raw: RawPouch) -> Seq<u64> {
    spec_dpad(raw, 0) + spec_dpad(raw, 1) + spec_dpad(raw, 2) + spec_dpad(raw, 3)
}

/// The dpad menu, once stopped, stays the same
proof fn lemma_dpad_stopped(raw: RawPouch, pouch_type: i32, i: int, n: int)
    requires
        0 <= i <= n,
        spec_dpad_menu(raw, pouch_type, i).1,
    ensures
        spec_dpad_menu(raw, pouch_type, n) == spec_dpad_menu(raw, pouch_type, i),
    decreases n - i,
{
    if i < n {
        lemma_dpad_stopped(raw, pouch_type, i, n - 1);
    }
}

/// The walk of the dpad menu does not stop before `k` when the first `k` nodes hold
/// equipment or arrows; it then has at most `k` items
proof fn lemma_dpad_walk_goes_on(raw: RawPouch, pouch_type: i32, k: int)
    requires
        0 <= k <= raw.entries@.len(),
        raw.items@.len() == raw.entries@.len(),
        k <= DPAD_MAX,
        forall|j: int| 0 <= j < k ==> (#[trigger] raw.entries@[j]).item != 0,
        forall|j: int| 0 <= j < k ==> (#[trigger] raw.items@[j]).item_type <= 3,
    ensures
        !spec_dpad_menu(raw, pouch_type, k).1,
        spec_dpad_menu(raw, pouch_type, k).0.len() <= k,
    decreases k,
{
    if k > 0 {
        lemma_dpad_walk_goes_on(raw, pouch_type, k - 1);
    }
}

/// The menu after `i` nodes is the start of the menu after `n` nodes
proof fn lemma_dpad_menu_prefix(raw: RawPouch, pouch_type: i32, i: int, n: int)
    requires
        0 <= i <= n,
    ensures
        spec_dpad_menu(raw, pouch_type, i).0.len() <= spec_dpad_menu(raw, pouch_type, n).0.len(),
        spec_dpad_menu(raw, pouch_type, n).0.take(spec_dpad_menu(raw, pouch_type, i).0.len() as int)
            == spec_dpad_menu(raw, pouch_type, i).0,
    decreases n - i,
{
    if i < n {
        lemma_dpad_menu_prefix(raw, pouch_type, i, n - 1);
        let a = spec_dpad_menu(raw, pouch_type, i).0;
        let b = spec_dpad_menu(raw, pouch_type, n - 1).0;
        let c = spec_dpad_menu(raw, pouch_type, n).0;
        if c.len() > b.len() {
            assert(c.take(a.len() as int) =~= b.take(a.len() as int));
        }
    }
}

/// An item of the menu's type with durability is in the dpad menu when the walk reaches
/// it: the nodes up to it hold equipment or arrows, and fewer than 20 items come before
/// it. A zero-durability item is in the menu too, unless it is the Master Sword in the
/// sword menu.
pub proof fn lemma_dpad_menu_has_item(raw: RawPouch, pouch_type: i32, k: int)
    requires
        raw.items@.len() == raw.entries@.len(),
        raw.count != 0,
        0 <= k < raw.entries@.len(),
        k < DPAD_MAX,
        forall|j: int| 0 <= j <= k ==> (#[trigger] raw.entries@[j]).item != 0,
        forall|j: int| 0 <= j <= k ==> (#[trigger] raw.items@[j]).item_type <= 3,
        raw.items@[k].item_type == pouch_type,
        raw.items@[k].value > 0 || pouch_type == 2 || raw.items@[k].name@ != "Weapon_Sword_070"@,
    ensures
        spec_dpad(raw, pouch_type).contains(raw.entries@[k].item),
{
    lemma_dpad_walk_goes_on(raw, pouch_type, k);
    let before = spec_dpad_menu(raw, pouch_type, k).0;
    let after = spec_dpad_menu(raw, pouch_type, k + 1).0;
    assert(after == before.push(raw.entries@[k].item));
    lemma_dpad_menu_prefix(raw, pouch_type, k + 1, raw.entries@.len() as int);
    let all = spec_dpad_menu(raw, pouch_type, raw.entries@.len() as int).0;
    assert(all.take(after.len() as int)[before.len() as int] == raw.entries@[k].item);
    assert(all[before.len() as int] == raw.entries@[k].item);
}

/// The node at `k` adds nothing to the dpad menu when its item is of another type, or is
/// the Master Sword without durability in the sword menu
pub proof fn lemma_dpad_menu_skips_item(raw: RawPouch, pouch_type: i32, k: int)
    requires
        raw.items@.len() == raw.entries@.len(),
        0 <= k < raw.entries@.len(),
        raw.items@[k].item_type != pouch_type || (pouch_type == 0 && raw.items@[k].item_type == 0
            && raw.items@[k].value <= 0 && raw.items@[k].name@ == "Weapon_Sword_070"@),
    ensures
        spec_dpad_menu(raw, pouch_type, k + 1).0 == spec_dpad_menu(raw, pouch_type, k).0,
{
}

/// Read the dpad menu of a type, as the game builds it
pub fn extract_dpad_menu(raw: &RawPouch, pouch_type: i32) -> (r: Vec<u64>)
    requires
        raw.items@.len() == raw.entries@.len(),
    ensures
        r@ == spec_dpad(*raw, pouch_type),
{
    let mut out: Vec<u64> = Vec::new();
    if raw.count == 0 {
        return out;
    }
    let n = raw.entries.len();
    let mut i: usize = 0;
    while i < n
        invariant
            n == raw.entries@.len(),
            n == raw.items@.len(),
            i <= n,
            raw.count != 0,
            spec_dpad_menu(*raw, pouch_type, i as int) == (out@, false),
        decreases n - i,
    {
        let item = &raw.items[i];
        if out.len() >= DPAD_MAX || raw.entries[i].item == 0 || item.item_type > 3 {
            proof {
                lemma_dpad_stopped(*raw, pouch_type, i + 1, n as int);
            }
            return out;
        }
        let skip = if item.item_type != pouch_type {
            true
        } else if pouch_type != 2 && item.value <= 0 && item.item_type == 0 {
            str_eq(item.name.as_str(), "Weapon_Sword_070")
        } else {
            false
        };
        if !skip {
            out.push(raw.entries[i].item);
        }
        i += 1;
    }
    out
}

/// Items in the dpad menus of swords, bows, arrows and shields, sorted
pub fn extract_dpad_accessible_items(raw: &RawPouch) -> (r: Vec<u64>)
    requires
        raw.items@.len() == raw.entries@.len(),
    ensures
        spec_is_sorted(r@),
        r@.to_multiset() =~= spec_dpad_items(*raw).to_multiset(),
{
    let mut out = extract_dpad_menu(raw, 0);
    let mut bows = extract_dpad_menu(raw, 1);
    let mut arrows = extract_dpad_menu(raw, 2);
    let mut shields = extract_dpad_menu(raw, 3);
    out.append(&mut bows);
    out.append(&mut arrows);
    out.append(&mut shields);
    sorted_u64(out)
}

/// Index of the first node of the list with the item
pub open spec fn spec_is_first_of(entries: Seq<ListEntry>, item: u64, i: int) -> bool {
    &&& 0 <= i < entries.len()
    &&& entries[i].item == item
    &&& forall|k: int| 0 <= k < i ==> entries[k].item != item
}

/// The tab at index `k` ends the tabs: no item and no type
pub open spec fn spec_tab_ends(heads: Seq<u64>, types: Seq<i32>, k: int) -> bool {
    heads[k] == 0 && types[k] == -1
}

/// The tab at index `k`, if its first item is in the list (or it has no item)
pub open spec fn spec_tab_at(entries: Seq<ListEntry>, heads: Seq<u64>, types: Seq<i32>, k: int) -> Option<
    iv::PouchTab,
> {
    if heads[k] == 0 {
        Some(iv::PouchTab { item_idx: -1i32, tab_type: types[k] })
    } else if exists|i: int| spec_is_first_of(entries, heads[k], i) {
        let i = choose|i: int| spec_is_first_of(entries, heads[k], i);
        Some(iv::PouchTab { item_idx: i as i32, tab_type: types[k] })
    } else {
        None
    }
}

/// The tab at index `j` does not end the tabs and was read as `tabs[j]`
pub open spec fn spec_tab_read_at(
    entries: Seq<ListEntry>,
    heads: Seq<u64>,
    types: Seq<i32>,
    tabs: Seq<iv::PouchTab>,
    j: int,
) -> bool {
    !spec_tab_ends(heads, types, j) && spec_tab_at(entries, heads, types, j) == Some(tabs[j])
}

/// `tabs` are the tabs read before index `k` stops the reading (a tab that ends the tabs,
/// a tab whose first item is not in the list, or the end of the 50 tabs)
pub open spec fn spec_tabs_read(entries: Seq<ListEntry>, heads: Seq<u64>, types: Seq<i32>, tabs: Seq<iv::PouchTab>) -> bool {
    let k = tabs.len() as int;
    &&& k <= TAB_MAX
    &&& forall|j: int| 0 <= j < k ==> #[trigger] spec_tab_read_at(entries, heads, types, tabs, j)
    &&& k < TAB_MAX ==> (spec_tab_ends(heads, types, k) || spec_tab_at(entries, heads, types, k)
        is None)
}

/// The tabs are valid: the tab count is in range, the tab arrays can be read, and every
/// tab before the end has its first item in the list
pub open spec fn spec_tabs_valid(raw: RawPouch, tabs: Seq<iv::PouchTab>) -> bool {
    let k = tabs.len() as int;
    &&& raw.num_tabs matches Some(n)
    &&& 0 <= n <= TAB_MAX
    &&& raw.tab_heads is Some
    &&& raw.tab_types is Some
    &&& (k == TAB_MAX || spec_tab_ends(raw.tab_heads->Some_0@, raw.tab_types->Some_0@, k))
}

/// Read the tabs of the pouch: whether they are valid with the tab count, and the tabs
/// read (tabs read before an invalid tab are kept)
pub fn extract_pouch_tabs(raw: &RawPouch) -> (r: (bool, i32, Vec<iv::PouchTab>))
    requires
        raw.tab_heads matches Some(h) ==> h@.len() == TAB_MAX,
        raw.tab_types matches Some(t) ==> t@.len() == TAB_MAX,
        raw.entries@.len() <= i32::MAX,
    ensures
        (raw.num_tabs matches Some(n) && 0 <= n <= TAB_MAX && raw.tab_heads is Some
            && raw.tab_types is Some) ==> spec_tabs_read(
            raw.entries@,
            raw.tab_heads->Some_0@,
            raw.tab_types->Some_0@,
            r.2@,
        ),
        !(raw.num_tabs matches Some(n) && 0 <= n <= TAB_MAX && raw.tab_heads is Some
            && raw.tab_types is Some) ==> r.2@.len() == 0,
        r.0 == spec_tabs_valid(*raw, r.2@),
        r.1 == if r.0 {
            raw.num_tabs->Some_0
        } else {
            0
        },
{
    let mut out: Vec<iv::PouchTab> = Vec::new();
    let n = match raw.num_tabs {
        None => return (false, 0, out),
        Some(n) => n,
    };
    if n < 0 || n > 50 {
        return (false, 0, out);
    }
    let heads = match &raw.tab_heads {
        None => return (false, 0, out),
        Some(h) => h,
    };
    let types = match &raw.tab_types {
        None => return (false, 0, out),
        Some(t) => t,
    };
    let mut k: usize = 0;
    while k < TAB_MAX
        invariant
            raw.num_tabs == Some(n),
            0 <= n <= TAB_MAX,
            raw.tab_heads == Some(*heads),
            raw.tab_types == Some(*types),
            heads@.len() == TAB_MAX,
            types@.len() == TAB_MAX,
            raw.entries@.len() <= i32::MAX,
            k <= TAB_MAX,
            out@.len() == k,
            forall|j: int|
                0 <= j < k ==> #[trigger] spec_tab_read_at(raw.entries@, heads@, types@, out@, j),
        decreases TAB_MAX - k,
    {
        let head = heads[k];
        let tab_type = types[k];
        if head == 0 && tab_type == -1 {
            return (true, n, out);
        }
        let item_idx: i32 = if head == 0 {
            -1
        } else {
            let mut i: usize = 0;
            let mut found: Option<usize> = None;
            while i < raw.entries.len()
                invariant_except_break
                    found is None,
                invariant
                    i <= raw.entries@.len(),
                    forall|j: int| 0 <= j < i ==> raw.entries@[j].item != head,
                ensures
                    found matches Some(j) ==> j == i && i < raw.entries@.len()
                        && raw.entries@[j as int].item == head,
                    found is None ==> i == raw.entries@.len(),
                decreases raw.entries.len() - i,
            {
                if raw.entries[i].item == head {
                    found = Some(i);
                    break;
                }
                i += 1;
            }
            match found {
                None => {
                    assert forall|j: int| !spec_is_first_of(raw.entries@, head, j) by {}
                    // the tab has an item that isn't in the list
                    return (false, 0, out);
                },
                Some(i) => {
                    assert(spec_is_first_of(raw.entries@, head, i as int));
                    proof {
                        let c = choose|j: int| spec_is_first_of(raw.entries@, head, j);
                        assert(c == i) by {
                            if c < i {
                                assert(raw.entries@[c].item != head);
                            } else if c > i {
                                assert(raw.entries@[i as int].item != head);
                            }
                        }
                    }
                    i as i32
                },
            }
        };
        assert(spec_tab_at(raw.entries@, heads@, types@, k as int) == Some(
            iv::PouchTab { item_idx, tab_type },
        ));
        let ghost before = out@;
        out.push(iv::PouchTab { item_idx, tab_type });
        assert forall|j: int| 0 <= j < k + 1 implies #[trigger] spec_tab_read_at(
            raw.entries@,
            heads@,
            types@,
            out@,
            j,
        ) by {
            if j < k {
                assert(spec_tab_read_at(raw.entries@, heads@, types@, before, j));
                assert(out@[j] == before[j]);
            }
        }
        k += 1;
    }
    (true, n, out)
}

/// The next tab with items from index `from`: its index and first item; (0, -1) if none
pub open spec fn spec_next_tab_head(tabs: Seq<iv::PouchTab>, from: int) -> (usize, i32) {
    if exists|i: int| spec_is_next_tab_head(tabs, from, i) {
        let i = choose|i: int| spec_is_next_tab_head(tabs, from, i);
        (i as usize, tabs[i].item_idx)
    } else {
        (0usize, -1i32)
    }
}

/// The next tab head is unique
pub proof fn lemma_next_tab_head_unique(tabs: Seq<iv::PouchTab>, from: int, a: int, b: int)
    requires
        spec_is_next_tab_head(tabs, from, a),
        spec_is_next_tab_head(tabs, from, b),
    ensures
        a == b,
{
    if a < b {
        assert(tabs[a].item_idx == -1);
    } else if b < a {
        assert(tabs[b].item_idx == -1);
    }
}

/// Get the next tab head as in `spec_next_tab_head`
fn next_tab_head(tabs: &Vec<iv::PouchTab>, from: usize) -> (r: (usize, i32))
    ensures
        r == spec_next_tab_head(tabs@, from as int),
{
    let r = get_next_tab_head(tabs.as_slice(), from);
    proof {
        if exists|i: int| spec_is_next_tab_head(tabs@, from as int, i) {
            let c = choose|i: int| spec_is_next_tab_head(tabs@, from as int, i);
            lemma_next_tab_head_unique(tabs@, from as int, c, r.0 as int);
        }
    }
    r
}

/// Where the walk over the list is before the `n`-th item: the current tab, the next tab
/// with items and its first item, the slot in the current tab, and the bows seen in it
pub open spec fn spec_walk(tabs: Seq<iv::PouchTab>, raw: RawPouch, n: int) -> (usize, usize, i32, i32, i32)
    decreases n,
{
    if n <= 0 {
        let t0 = spec_next_tab_head(tabs, 0).0;
        let nx = spec_next_tab_head(tabs, t0 + 1);
        (t0, nx.0, nx.1, 0, 0)
    } else {
        let s = spec_enter_tab(tabs, spec_walk(tabs, raw, n - 1), n - 1);
        let ty = raw.items@[n - 1].item_type;
        (s.0, s.1, s.2, (s.3 + 1) as i32, if ty == 1 { (s.4 + 1) as i32 } else { s.4 })
    }
}

/// The walk state once the `i`-th item is reached: at the first item of the next tab,
/// the walk enters that tab
pub open spec fn spec_enter_tab(tabs: Seq<iv::PouchTab>, s: (usize, usize, i32, i32, i32), i: int) -> (
    usize,
    usize,
    i32,
    i32,
    i32,
) {
    if i == s.2 {
        let nx = spec_next_tab_head(tabs, s.1 + 1);
        (s.1, nx.0, nx.1, 0, 0)
    } else {
        s
    }
}

/// Tab and slot shown for the `i`-th item: arrows are shifted by the empty bow slots
pub open spec fn spec_item_position(tabs: Seq<iv::PouchTab>, raw: RawPouch, i: int) -> (usize, i32) {
    let s = spec_enter_tab(tabs, spec_walk(tabs, raw, i), i);
    let ty = raw.items@[i].item_type;
    let bows = if ty == 1 {
        (s.4 + 1) as i32
    } else {
        s.4
    };
    (s.0, if ty == 2 { s.3.wrapping_add(raw.bow_slots).wrapping_sub(bows as i32) } else { s.3 })
}

/// The walk never counts more slots or bows than items
proof fn lemma_walk_bounds(tabs: Seq<iv::PouchTab>, raw: RawPouch, n: int)
    requires
        0 <= n <= i32::MAX,
        tabs.len() <= TAB_MAX,
    ensures
        0 <= spec_walk(tabs, raw, n).3 <= n,
        0 <= spec_walk(tabs, raw, n).4 <= n,
        spec_walk(tabs, raw, n).0 <= tabs.len(),
        spec_walk(tabs, raw, n).1 <= tabs.len(),
    decreases n,
{
    lemma_next_tab_head_bound(tabs, 0);
    lemma_next_tab_head_bound(tabs, spec_next_tab_head(tabs, 0).0 + 1);
    if n > 0 {
        lemma_walk_bounds(tabs, raw, n - 1);
        let s = spec_walk(tabs, raw, n - 1);
        lemma_next_tab_head_bound(tabs, s.1 + 1);
    }
}

/// The next tab head is a tab of the list, or 0
proof fn lemma_next_tab_head_bound(tabs: Seq<iv::PouchTab>, from: int)
    requires
        tabs.len() <= TAB_MAX,
        0 <= from,
    ensures
        spec_next_tab_head(tabs, from).0 <= tabs.len(),
{
    if exists|i: int| spec_is_next_tab_head(tabs, from, i) {
        let i = choose|i: int| spec_is_next_tab_head(tabs, from, i);
        assert(i < tabs.len());
        assert((i as usize) as int == i);
    }
}

/// Number of times `p` is in `s`
pub open spec fn spec_count_ptr(s: Seq<u64>, p: u64) -> nat
    decreases s.len(),
{
    if s.len() == 0 {
        0
    } else {
        spec_count_ptr(s.drop_last(), p) + if s.last() == p {
            1nat
        } else {
            0nat
        }
    }
}

/// Index of the last item with the name
pub open spec fn spec_is_last_with_name(items: Seq<RawPouchItem>, name: Seq<char>, j: int) -> bool {
    &&& 0 <= j < items.len()
    &&& items[j].name@ == name
    &&& forall|k: int| j < k < items.len() ==> items[k].name@ != name
}

/// Only the last item of an actor with an animated icon shows the icon
pub open spec fn spec_no_icon(raw: RawPouch, i: int) -> bool {
    let name = raw.items@[i].name@;
    spec_is_animated_icon_actor(name) && {
        let j = choose|j: int| spec_is_last_with_name(raw.items@, name, j);
        raw.entries@[j].node != raw.entries@[i].node
    }
}

/// Sorted lists of items that the screen shows in some state, and the active Prompt
/// Entanglement tab and slot
#[derive(Debug, Clone)]
pub struct ScreenLists {
    /// Items shown as equipped
    pub equipped: Vec<u64>,
    /// Items that are accessible
    pub accessible: Vec<u64>,
    /// Items activated by Prompt Entanglement
    pub entangled: Vec<u64>,
    pub entangled_tab: i32,
    pub entangled_slot: i32,
}

/// Ingredients of the view of an item: the names of the array, then empty names up to 5
pub open spec fn spec_view_ingredients(v: Seq<String>, it: RawPouchItem) -> bool {
    &&& v.len() == 5
    &&& forall|k: int|
        0 <= k < 5 ==> (#[trigger] v[k])@ == if k < it.ingredients_num {
            it.ingredients@[k]@
        } else {
            Seq::<char>::empty()
        }
}

/// `v` is the view of the `i`-th item of the list, shown at the tab and slot
pub open spec fn spec_is_view_item_at(
    v: iv::PouchItem,
    raw: RawPouch,
    lists: ScreenLists,
    dpad: Seq<u64>,
    i: int,
    tab_idx: usize,
    tab_slot: i32,
) -> bool {
    let e = raw.entries@[i];
    let it = raw.items@[i];
    let accessible = lists.accessible@.contains(e.item);
    &&& v.common.actor_name@ == it.name@
    &&& v.common.value == it.value
    &&& v.common.is_equipped == (it.equipped || lists.equipped@.contains(e.item))
    &&& v.item_type == it.item_type
    &&& v.item_use == it.item_use
    &&& v.is_in_inventory == it.in_inventory
    &&& v.is_no_icon == spec_no_icon(raw, i)
    &&& v.data == iv::ItemData {
        effect_value: it.health_recover,
        effect_duration: it.effect_duration,
        sell_price: it.sell_price,
        effect_id: it.effect_id,
        effect_level: it.effect_level,
    }
    &&& spec_view_ingredients(v.ingredients@, it)
    &&& v.holding_count == spec_count_ptr(raw.grabbed@, e.item)
    &&& v.prompt_entangled == lists.entangled@.contains(e.item)
    &&& v.node_addr == iv::Pointer(e.node)
    &&& v.node_valid
    &&& v.node_pos == e.buffer_idx->Some_0 as i128
    &&& v.node_prev == iv::Pointer(it.prev)
    &&& v.node_next == iv::Pointer(it.next)
    &&& v.allocated_idx == i
    &&& v.unallocated_idx == -1
    &&& v.tab_idx == tab_idx as i32
    &&& v.tab_slot == tab_slot
    &&& v.accessible == accessible
    &&& v.dpad_accessible == if it.item_type > 3 {
        accessible
    } else {
        dpad.contains(e.item)
    }
}

/// `v` is the view of the `i`-th item of the list
pub open spec fn spec_is_view_item(
    v: iv::PouchItem,
    raw: RawPouch,
    lists: ScreenLists,
    dpad: Seq<u64>,
    tabs: Seq<iv::PouchTab>,
    i: int,
) -> bool {
    let pos = spec_item_position(tabs, raw, i);
    spec_is_view_item_at(v, raw, lists, dpad, i, pos.0, pos.1)
}

/// The raw data has what the view needs: an item for each node, tab arrays of 50, at
/// most 5 held items, and at most 5 ingredients with their names
pub open spec fn spec_raw_well_formed(raw: RawPouch) -> bool {
    &&& raw.items@.len() == raw.entries@.len()
    &&& raw.entries@.len() <= i32::MAX
    &&& raw.tab_heads matches Some(h) ==> h@.len() == TAB_MAX
    &&& raw.tab_types matches Some(t) ==> t@.len() == TAB_MAX
    &&& raw.grabbed@.len() <= 5
    &&& forall|i: int|
        0 <= i < raw.items@.len() ==> (#[trigger] raw.items@[i]).ingredients_num <= 5 && (
        raw.items@[i].ingredients_num >= 0 ==> raw.items@[i].ingredients@.len()
            == raw.items@[i].ingredients_num)
}

/// `v` is the list view of the pouch
pub open spec fn spec_is_pouch_view(
    v: iv::PouchList,
    raw: RawPouch,
    lists: ScreenLists,
    screen: iv::Screen,
    holding_in_inventory: bool,
    arrowless_smuggle: bool,
) -> bool {
    let dpad = spec_dpad_items(raw);
    &&& v.count == raw.count
    &&& v.items@.len() == raw.entries@.len()
    &&& forall|i: int|
        0 <= i < raw.entries@.len() ==> #[trigger] spec_is_view_item(
            v.items@[i],
            raw,
            lists,
            dpad,
            v.tabs@,
            i,
        )
    &&& (raw.num_tabs matches Some(n) && 0 <= n <= TAB_MAX && raw.tab_heads is Some
        && raw.tab_types is Some) ==> spec_tabs_read(
        raw.entries@,
        raw.tab_heads->Some_0@,
        raw.tab_types->Some_0@,
        v.tabs@,
    )
    &&& !(raw.num_tabs matches Some(n) && 0 <= n <= TAB_MAX && raw.tab_heads is Some
        && raw.tab_types is Some) ==> v.tabs@.len() == 0
    &&& v.are_tabs_valid == spec_tabs_valid(raw, v.tabs@)
    &&& v.num_tabs == if v.are_tabs_valid {
        raw.num_tabs->Some_0
    } else {
        0
    }
    &&& v.entangled_tab == lists.entangled_tab
    &&& v.entangled_slot == lists.entangled_slot
    &&& v.screen == screen
    &&& v.is_holding_in_inventory == holding_in_inventory
    &&& v.is_arrowless_smuggle == arrowless_smuggle
}

/// The view can be built: the list is coherent and no ingredient array has a negative
/// length
pub open spec fn spec_pouch_readable(raw: RawPouch) -> bool {
    &&& spec_list_coherent(raw)
    &&& forall|i: int| 0 <= i < raw.items@.len() ==> (#[trigger] raw.items@[i]).ingredients_num >= 0
}

/// `v` contains `x`
fn contains_u64(v: &Vec<u64>, x: u64) -> (r: bool)
    ensures
        r == v@.contains(x),
{
    let mut i: usize = 0;
    while i < v.len()
        invariant
            i <= v@.len(),
            forall|k: int| 0 <= k < i ==> v@[k] != x,
        decreases v.len() - i,
    {
        if v[i] == x {
            return true;
        }
        i += 1;
    }
    false
}

/// Number of times `p` is held
fn count_ptr(s: &Vec<u64>, p: u64) -> (r: u8)
    requires
        s@.len() <= 5,
    ensures
        r == spec_count_ptr(s@, p),
{
    let mut c: u8 = 0;
    let mut i: usize = 0;
    while i < s.len()
        invariant
            i <= s@.len(),
            s@.len() <= 5,
            c == spec_count_ptr(s@.take(i as int), p),
            c <= i,
        decreases s.len() - i,
    {
        assert(s@.take(i + 1).drop_last() =~= s@.take(i as int));
        if s[i] == p {
            c += 1;
        }
        i += 1;
    }
    assert(s@.take(s@.len() as int) =~= s@);
    c
}

/// If the item shows no icon: an actor with an animated icon, but not the last item of it
fn no_icon(raw: &RawPouch, i: usize) -> (r: bool)
    requires
        i < raw.items@.len(),
        raw.items@.len() == raw.entries@.len(),
    ensures
        r == spec_no_icon(*raw, i as int),
{
    if !is_animated_icon_actor(raw.items[i].name.as_str()) {
        return false;
    }
    let ghost name = raw.items@[i as int].name@;
    let mut j: usize = raw.items.len();
    while j > 0
        invariant
            j <= raw.items@.len(),
            i < raw.items@.len(),
            raw.items@.len() == raw.entries@.len(),
            name == raw.items@[i as int].name@,
            spec_is_animated_icon_actor(name),
            forall|k: int| j <= k < raw.items@.len() ==> raw.items@[k].name@ != name,
            i < j,
        decreases j,
    {
        if str_eq(raw.items[j - 1].name.as_str(), raw.items[i].name.as_str()) {
            proof {
                assert(spec_is_last_with_name(raw.items@, name, j - 1));
                let c = choose|c: int| spec_is_last_with_name(raw.items@, name, c);
                assert(c == j - 1) by {
                    if c < j - 1 {
                        assert(raw.items@[j - 1].name@ != name);
                    }
                }
            }
            let r = raw.entries[j - 1].node != raw.entries[i].node;
            assert(spec_is_animated_icon_actor(name));
            assert(r == spec_no_icon(*raw, i as int));
            return r;
        }
        j -= 1;
    }
    vstd::pervasive::unreached()
}

/// Ingredients of the view of an item
fn view_ingredients(it: &RawPouchItem) -> (r: Vec<String>)
    requires
        0 <= it.ingredients_num <= 5,
        it.ingredients@.len() == it.ingredients_num,
    ensures
        spec_view_ingredients(r@, *it),
{
    let mut out: Vec<String> = Vec::new();
    let mut k: usize = 0;
    while k < 5
        invariant
            k <= 5,
            0 <= it.ingredients_num <= 5,
            it.ingredients@.len() == it.ingredients_num,
            out@.len() == k,
            forall|j: int|
                0 <= j < k ==> (#[trigger] out@[j])@ == if j < it.ingredients_num {
                    it.ingredients@[j]@
                } else {
                    Seq::<char>::empty()
                },
        decreases 5 - k,
    {
        if (k as i32) < it.ingredients_num {
            out.push(it.ingredients[k].clone());
        } else {
            out.push(String::new());
        }
        k += 1;
    }
    out
}

/// The view of the `i`-th item of the list, shown at the tab and slot
fn extract_pouch_item(
    raw: &RawPouch,
    lists: &ScreenLists,
    dpad: &Vec<u64>,
    i: usize,
    tab_idx: usize,
    tab_slot: i32,
) -> (v: iv::PouchItem)
    requires
        spec_raw_well_formed(*raw),
        spec_list_coherent(*raw),
        i < raw.entries@.len(),
        raw.items@[i as int].ingredients_num >= 0,
        r_dpad_ok(dpad@, *raw),
        tab_idx <= TAB_MAX,
    ensures
        spec_is_view_item_at(v, *raw, *lists, spec_dpad_items(*raw), i as int, tab_idx, tab_slot),
{
    let e = raw.entries[i];
    let it = &raw.items[i];
    assert(e.buffer_idx is Some);
    let accessible = contains_u64(&lists.accessible, e.item);
    let dpad_accessible = if it.item_type > 3 {
        accessible
    } else {
        contains_u64(dpad, e.item)
    };
    let buffer_idx = match e.buffer_idx {
        Some(b) => b,
        None => 0,
    };
    iv::PouchItem {
        common: iv::CommonItem {
            actor_name: it.name.clone(),
            value: it.value,
            is_equipped: it.equipped || contains_u64(&lists.equipped, e.item),
        },
        item_type: it.item_type,
        item_use: it.item_use,
        is_in_inventory: it.in_inventory,
        is_no_icon: no_icon(raw, i),
        data: iv::ItemData {
            effect_value: it.health_recover,
            effect_duration: it.effect_duration,
            sell_price: it.sell_price,
            effect_id: it.effect_id,
            effect_level: it.effect_level,
        },
        ingredients: view_ingredients(it),
        holding_count: count_ptr(&raw.grabbed, e.item),
        prompt_entangled: contains_u64(&lists.entangled, e.item),
        node_addr: iv::Pointer(e.node),
        node_valid: true,
        node_pos: buffer_idx as i128,
        node_prev: iv::Pointer(it.prev),
        node_next: iv::Pointer(it.next),
        allocated_idx: i as i32,
        unallocated_idx: -1,
        tab_idx: tab_idx as i32,
        tab_slot,
        accessible,
        dpad_accessible,
    }
}

/// Build the list view of the pouch from what was read from memory and the lists of the
/// screen
///
/// Returns an error if the pouch cannot be read as a normal inventory (i.e. if the list
/// is corrupted in some way). Tab overflow is allowed and is shown by the tabs being
/// invalid
#[verifier::rlimit(50)]
pub fn build_pouch_view(
    raw: &RawPouch,
    lists: &ScreenLists,
    screen: iv::Screen,
    holding_in_inventory: bool,
    arrowless_smuggle: bool,
) -> (r: Result<iv::PouchList, ViewError>)
    requires
        spec_raw_well_formed(*raw),
    ensures
        spec_pouch_readable(*raw) ==> (r matches Ok(v) && spec_is_pouch_view(
            v,
            *raw,
            *lists,
            screen,
            holding_in_inventory,
            arrowless_smuggle,
        )),
        !spec_pouch_readable(*raw) ==> (r matches Err(e) && e is Coherence),
{
    let dpad = extract_dpad_accessible_items(raw);
    proof {
        dpad@.to_multiset_ensures();
        spec_dpad_items(*raw).to_multiset_ensures();
        assert forall|x: u64| dpad@.contains(x) <==> spec_dpad_items(*raw).contains(x) by {
            assert(dpad@.to_multiset().count(x) == spec_dpad_items(*raw).to_multiset().count(x));
        }
    }
    if let Err(e) = check_list(raw) {
        return Err(e);
    }
    let (are_tabs_valid, num_tabs, tabs) = extract_pouch_tabs(raw);
    let t0 = next_tab_head(&tabs, 0).0;
    let nx = next_tab_head(&tabs, t0 + 1);
    let mut tab_idx = t0;
    let mut next_tab_idx = nx.0;
    let mut next_item_idx = nx.1;
    let mut tab_slot: i32 = 0;
    let mut num_bows: i32 = 0;
    let n = raw.entries.len();
    let mut items: Vec<iv::PouchItem> = Vec::new();
    let mut i: usize = 0;
    while i < n
        invariant
            spec_raw_well_formed(*raw),
            spec_list_coherent(*raw),
            n == raw.entries@.len(),
            i <= n,
            items@.len() == i,
            (tab_idx, next_tab_idx, next_item_idx, tab_slot, num_bows) == spec_walk(
                tabs@,
                *raw,
                i as int,
            ),
            forall|k: int|
                0 <= k < i ==> #[trigger] spec_is_view_item(
                    items@[k],
                    *raw,
                    *lists,
                    spec_dpad_items(*raw),
                    tabs@,
                    k,
                ),
            forall|k: int| 0 <= k < i ==> (#[trigger] raw.items@[k]).ingredients_num >= 0,
            r_dpad_ok(dpad@, *raw),
            tabs@.len() <= TAB_MAX,
        decreases n - i,
    {
        proof {
            lemma_walk_bounds(tabs@, *raw, i as int);
        }
        if (i as i32) == next_item_idx {
            tab_idx = next_tab_idx;
            tab_slot = 0;
            let nx = next_tab_head(&tabs, tab_idx + 1);
            next_tab_idx = nx.0;
            next_item_idx = nx.1;
            num_bows = 0;
        }
        if raw.items[i].ingredients_num < 0 {
            proof {
                assert(!spec_pouch_readable(*raw)) by {
                    assert(raw.items@[i as int].ingredients_num < 0);
                }
            }
            return Err(ViewError::Coherence("item ingredients array has negative length".to_owned()));
        }
        if raw.items[i].item_type == 1 {
            num_bows += 1;
        }
        let slot = if raw.items[i].item_type == 2 {
            tab_slot.wrapping_add(raw.bow_slots).wrapping_sub(num_bows)
        } else {
            tab_slot
        };
        let v = extract_pouch_item(raw, lists, &dpad, i, tab_idx, slot);
        assert(spec_is_view_item(v, *raw, *lists, spec_dpad_items(*raw), tabs@, i as int));
        items.push(v);
        tab_slot += 1;
        i += 1;
    }
    Ok(
        iv::PouchList {
            count: raw.count,
            items,
            are_tabs_valid,
            num_tabs,
            tabs,
            entangled_tab: lists.entangled_tab,
            entangled_slot: lists.entangled_slot,
            screen,
            is_holding_in_inventory: holding_in_inventory,
            is_arrowless_smuggle: arrowless_smuggle,
        },
    )
}

/// The sorted dpad items hold the same items as the dpad menus
pub open spec fn r_dpad_ok(dpad: Seq<u64>, raw: RawPouch) -> bool {
    forall|x: u64| dpad.contains(x) <==> spec_dpad_items(raw).contains(x)
}

/// Remainder of the division by 3, with the sign of the dividend (as `%` computes it)
pub open spec fn spec_rem3(x: i32) -> i32 {
    if x >= 0 {
        (x % 3) as i32
    } else {
        (-((-x) % 3)) as i32
    }
}

/// `lists` are the lists of the inventory screen if it is open; otherwise of the screen
/// `temp` that the inventory would show, with nothing equipped or entangled
pub open spec fn spec_is_screen_lists(lists: ScreenLists, sys: GameSystems, temp: ScreenItems) -> bool {
    &&& spec_is_sorted(lists.equipped@)
    &&& spec_is_sorted(lists.accessible@)
    &&& spec_is_sorted(lists.entangled@)
    &&& match sys.screen.screen {
        Screen::Inventory(inv) => {
            &&& lists.equipped@.to_multiset() =~= spec_screen_equipped_ptrs(inv.items)
            &&& lists.accessible@.to_multiset() =~= spec_screen_ptrs(inv.items)
            &&& match inv.spec_active_pe() {
                None => lists.entangled@.len() == 0 && lists.entangled_tab == -1
                    && lists.entangled_slot == -1,
                Some((t, s)) => lists.entangled@.to_multiset() =~= spec_pe_reachable(
                    inv.items,
                    t,
                    s,
                ) && lists.entangled_tab == spec_rem3(t as i32) && lists.entangled_slot == s as i32,
            }
        },
        _ => {
            &&& lists.equipped@.len() == 0
            &&& lists.accessible@.to_multiset() =~= spec_screen_ptrs(temp)
            &&& lists.entangled@.len() == 0
            &&& lists.entangled_tab == -1
            &&& lists.entangled_slot == -1
        },
    }
}

/// The lists of the screen: of the inventory screen if it is open, otherwise of the
/// screen `temp` that the inventory would show
pub fn screen_lists(sys: &GameSystems, temp: &ScreenItems) -> (r: ScreenLists)
    ensures
        spec_is_screen_lists(r, *sys, *temp),
{
    match sys.screen.current_screen().as_inventory() {
        None => ScreenLists {
            equipped: Vec::new(),
            accessible: temp.accessible_item_ptrs(),
            entangled: Vec::new(),
            entangled_tab: -1,
            entangled_slot: -1,
        },
        Some(inv) => {
            let (entangled_tab, entangled_slot) = match inv.active_pe_slot() {
                Some((t, s)) => ((t as i32) % 3, s as i32),
                None => (-1, -1),
            };
            ScreenLists {
                equipped: inv.items.equipped_item_ptrs(),
                accessible: inv.items.accessible_item_ptrs(),
                entangled: inv.pe_activated_items(),
                entangled_tab,
                entangled_slot,
            }
        },
    }
}

/// Read the list view of the pouch from what was read from memory and the state of the
/// simulated systems; `temp` is the screen the inventory would show, used for what is
/// accessible when the inventory is not open
pub fn extract_pouch_view(raw: &RawPouch, sys: &GameSystems, temp: &ScreenItems) -> (r: Result<
    iv::PouchList,
    ViewError,
>)
    requires
        spec_raw_well_formed(*raw),
    ensures
        spec_pouch_readable(*raw) ==> (r matches Ok(v) && exists|lists: ScreenLists|
            #[trigger] spec_is_screen_lists(lists, *sys, *temp) && spec_is_pouch_view(
                v,
                *raw,
                lists,
                spec_screen_iv(sys.screen.screen),
                sys.screen.holding_in_inventory,
                sys.overworld.holding@.len() > 0 && sys.overworld.is_hold_arrowless_smuggle,
            )),
        !spec_pouch_readable(*raw) ==> (r matches Err(e) && e is Coherence),
{
    let lists = screen_lists(sys, temp);
    build_pouch_view(
        raw,
        &lists,
        sys.screen.current_screen().iv_type(),
        sys.screen.holding_in_inventory,
        sys.overworld.is_holding_arrowless_smuggled(),
    )
}

/// Type of a screen, as shown in the views
pub open spec fn spec_screen_iv(s: Screen) -> iv::Screen {
    match s {
        Screen::Overworld => iv::Screen::Overworld,
        Screen::Inventory(_) => iv::Screen::Inventory,
        Screen::Shop(_) => iv::Screen::Shop,
    }
}

} // verus!
