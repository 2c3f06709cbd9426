//! The inventory screen: how the pouch lists are laid out in tabs and slots, Prompt
//! Entanglement, and the equipment changes applied when the screen closes
use vstd::multiset::Multiset;
use vstd::prelude::*;

use crate::actor::Actor;
use crate::cir::ActorName;
use crate::iv::GdtInvInfo;
use crate::screen_items::{spec_slot, ScreenItem, ScreenItemState, ScreenItems, ScreenTab};
use crate::util::{item_type_to_category, spec_is_sorted, spec_item_type_to_category};

verus! {

/// Number of slots shown in a tab
pub const SLOTS_PER_TAB: u64 = 20;

/// Most tabs the pouch shows
pub const MAX_TABS: i32 = 50;

/// A pouch item as found in the list of a tab
#[derive(Debug, Clone)]
pub struct ListedItem {
    /// Address of the item
    pub ptr: u64,
    /// mEquipped
    pub equipped: bool,
    /// mInInventory
    pub in_inventory: bool,
    /// mType
    pub item_type: i32,
    /// mName, with the game data of that actor
    pub name: ActorName,
}

/// A tab of the pouch: the item type of the tab and its items in list order
#[derive(Debug, Clone)]
pub struct ListedTab {
    pub tab_type: i32,
    pub items: Vec<ListedItem>,
}

/// State of equipment actors in the inventory screen
#[derive(Debug, Clone, Copy, PartialEq, Eq, Structural)]
pub struct PouchScreenEquipState {
    /// Item to be spawned in the overworld on the player when inventory is closed.
    /// 0 means don't create anything
    pub item: u64,
    /// If true, delete the item on the player instead of creating or do nothing.
    pub to_delete: bool,
}

impl Default for PouchScreenEquipState {
    fn default() -> (r: PouchScreenEquipState)
        ensures
            r.item == 0 && !r.to_delete,
    {
        PouchScreenEquipState { item: 0, to_delete: false }
    }
}

impl PouchScreenEquipState {
    /// Set the state to be unequip (after an unequip action)
    pub fn set_unequip(&mut self)
        ensures
            final(self).item == 0,
            final(self).to_delete,
    {
        self.item = 0;
        self.to_delete = true;
    }

    /// Set the state to be equipped (after an equip action)
    pub fn set_equip(&mut self, item: u64)
        ensures
            final(self).item == item,
            !final(self).to_delete,
    {
        self.item = item;
        self.to_delete = false;
    }
}

/// State of an equipment actor in the inventory screen
#[derive(Debug, Clone)]
pub struct InventoryScreenActor {
    /// Actor to be spawned in the overworld when inventory is closed. None means nothing
    /// is equipped and to delete the overworld actor
    actor: Option<Actor>,
    changed: bool,
}

impl InventoryScreenActor {
    /// The actor to spawn, if any
    pub closed spec fn spec_actor(&self) -> Option<Actor> {
        self.actor
    }

    /// If the equipment changed
    pub closed spec fn spec_changed(&self) -> bool {
        self.changed
    }
}

impl Default for InventoryScreenActor {
    fn default() -> (r: InventoryScreenActor)
        ensures
            r.spec_actor() is None,
            !r.spec_changed(),
    {
        InventoryScreenActor { actor: None, changed: false }
    }
}

/// Simulation of the inventory screen state
#[derive(Debug, Clone)]
pub struct PouchScreen {
    /// Tabbed item data
    pub items: ScreenItems,
    /// The current active slot for Prompt Entanglement, i.e. this item's prompt will be
    /// used when performing an action on an entangle-reachable slot
    pub active_entangle_slot: Option<(usize, usize)>,
    /// Weapon state to change on inventory close
    pub weapon_state: PouchScreenEquipState,
    /// Bow state to change on inventory close
    pub bow_state: PouchScreenEquipState,
    /// Shield state to change on inventory close
    pub shield_state: PouchScreenEquipState,
}

/// An `i32` read from memory as a `usize` of the 64-bit game
pub open spec fn spec_as_usize64(x: i32) -> u64 {
    x as u64
}

/// If the tab of the item type was discovered
pub open spec fn spec_tab_discovered(info: GdtInvInfo, tab_type: i32) -> bool {
    if tab_type == 0 {
        info.sword_tab_discovered
    } else if tab_type == 1 || tab_type == 2 {
        info.bow_tab_discovered
    } else if tab_type == 3 {
        info.shield_tab_discovered
    } else if 4 <= tab_type <= 6 {
        info.armor_tab_discovered
    } else if tab_type == 7 {
        info.material_tab_discovered
    } else if tab_type == 8 {
        info.food_tab_discovered
    } else if tab_type == 9 {
        info.key_item_tab_discovered
    } else {
        false
    }
}

/// Number of usable slots of a tab: the weapon or shield slots, 20 for the others
pub open spec fn spec_slot_limit(info: GdtInvInfo, tab_type: i32) -> u64 {
    if tab_type == 0 {
        spec_as_usize64(info.num_weapon_slots)
    } else if tab_type == 3 {
        spec_as_usize64(info.num_shield_slots)
    } else {
        20
    }
}

/// Visual slot of the `slot_i`-th item of a tab: arrows are shifted by the empty bow
/// slots, the other items take the next slot
pub open spec fn spec_tab_slot(slot_i: int, info: GdtInvInfo, num_bows: int, item_type: i32) -> u64 {
    if item_type == 2 {
        (slot_i as u64).wrapping_add(spec_as_usize64(info.num_bow_slots)).wrapping_sub(
            num_bows as u64,
        )
    } else {
        slot_i as u64
    }
}

/// `s` padded with empty slots up to length `n`
pub open spec fn spec_pad(s: Seq<Option<ScreenItem>>, n: int) -> Seq<Option<ScreenItem>> {
    if s.len() < n {
        s + Seq::new((n - s.len()) as nat, |_i: int| None::<ScreenItem>)
    } else {
        s
    }
}

/// The screen item shown for a listed item
pub open spec fn spec_listed_screen_item(item: ListedItem) -> ScreenItem {
    ScreenItem {
        ptr: item.ptr,
        in_inventory: item.in_inventory,
        equipped: item.equipped,
        name: item.name,
        category: spec_item_type_to_category(item.item_type),
    }
}

/// Slots of a tab after laying out its first `n` listed items, with the number of bows
/// among them
pub open spec fn spec_layout(
    items: Seq<ListedItem>,
    n: int,
    info: GdtInvInfo,
    tab_type: i32,
    tab_accessible: bool,
    force_accessible: bool,
) -> (int, Seq<Option<ScreenItem>>)
    decreases n,
{
    if n <= 0 {
        (0, Seq::empty())
    } else {
        let prev = spec_layout(items, n - 1, info, tab_type, tab_accessible, force_accessible);
        let item = items[n - 1];
        let num_bows = if item.item_type == 1 {
            prev.0 + 1
        } else {
            prev.0
        };
        let tab_slot = spec_tab_slot(n - 1, info, num_bows, item.item_type);
        let accessible = tab_accessible && (force_accessible || tab_slot < spec_slot_limit(
            info,
            tab_type,
        ));
        if tab_slot < 20 || force_accessible {
            (
                num_bows,
                spec_pad(prev.1, tab_slot as int).push(
                    if accessible {
                        Some(spec_listed_screen_item(item))
                    } else {
                        None
                    },
                ),
            )
        } else {
            (num_bows, prev.1)
        }
    }
}

/// The bows counted by the layout are at most the items laid out
pub proof fn lemma_layout_bows(
    items: Seq<ListedItem>,
    n: int,
    info: GdtInvInfo,
    tab_type: i32,
    tab_accessible: bool,
    force_accessible: bool,
)
    requires
        0 <= n,
    ensures
        0 <= spec_layout(items, n, info, tab_type, tab_accessible, force_accessible).0 <= n,
    decreases n,
{
    if n > 0 {
        lemma_layout_bows(items, n - 1, info, tab_type, tab_accessible, force_accessible);
    }
}

/// A tab is accessible if it was discovered, or if everything is forced accessible
pub open spec fn spec_tab_accessible(info: GdtInvInfo, tab_type: i32, force_accessible: bool) -> bool {
    force_accessible || spec_tab_discovered(info, tab_type)
}

/// `r` is the screen tab of the listed tab
pub open spec fn spec_is_screen_tab(
    r: ScreenTab,
    tab: ListedTab,
    info: GdtInvInfo,
    force_accessible: bool,
) -> bool {
    &&& r.items@ == spec_layout(
        tab.items@,
        tab.items@.len() as int,
        info,
        tab.tab_type,
        spec_tab_accessible(info, tab.tab_type, force_accessible),
        force_accessible,
    ).1
    &&& r.category == spec_item_type_to_category(tab.tab_type)
}

/// `r` is the screen of the listed tabs: no tab at all while the pouch list is empty,
/// unless everything is forced accessible
pub open spec fn spec_is_pouch_screen(
    r: ScreenItems,
    tabs: Seq<ListedTab>,
    info: GdtInvInfo,
    list_count: i32,
    force_accessible: bool,
) -> bool {
    if list_count != 0 || force_accessible {
        &&& r.tabs@.len() == tabs.len()
        &&& forall|t: int|
            0 <= t < tabs.len() ==> #[trigger] spec_is_screen_tab(
                r.tabs@[t],
                tabs[t],
                info,
                force_accessible,
            )
    } else {
        r.tabs@.len() == 0
    }
}

/// If the tab of the item type is discovered
pub fn tab_discovered(info: &GdtInvInfo, tab_type: i32) -> (r: bool)
    ensures
        r == spec_tab_discovered(*info, tab_type),
{
    match tab_type {
        0 => info.sword_tab_discovered,
        1 | 2 => info.bow_tab_discovered,
        3 => info.shield_tab_discovered,
        4 | 5 | 6 => info.armor_tab_discovered,
        7 => info.material_tab_discovered,
        8 => info.food_tab_discovered,
        9 => info.key_item_tab_discovered,
        _ => false,
    }
}

/// Number of tabs the screen shows for the tab count of the pouch
pub fn visible_tab_count(num_tabs: i32) -> (r: usize)
    ensures
        r == if num_tabs < 0 {
            0
        } else if num_tabs > MAX_TABS {
            MAX_TABS as int
        } else {
            num_tabs as int
        },
{
    if num_tabs < 0 {
        0
    } else if num_tabs > MAX_TABS {
        MAX_TABS as usize
    } else {
        num_tabs as usize
    }
}

/// Lay out the items of a tab in its slots
pub fn layout_tab(tab: &ListedTab, info: &GdtInvInfo, force_accessible: bool) -> (r: ScreenTab)
    ensures
        spec_is_screen_tab(r, *tab, *info, force_accessible),
{
    let tab_accessible = force_accessible || tab_discovered(info, tab.tab_type);
    let bow_slots = info.num_bow_slots as u64;
    let limit: u64 = if tab.tab_type == 0 {
        info.num_weapon_slots as u64
    } else if tab.tab_type == 3 {
        info.num_shield_slots as u64
    } else {
        SLOTS_PER_TAB
    };
    let ghost items = tab.items@;
    let mut num_bows: usize = 0;
    let mut out: Vec<Option<ScreenItem>> = Vec::new();
    let mut i: usize = 0;
    while i < tab.items.len()
        invariant
            items == tab.items@,
            i <= items.len(),
            tab_accessible == spec_tab_accessible(*info, tab.tab_type, force_accessible),
            bow_slots == spec_as_usize64(info.num_bow_slots),
            limit == spec_slot_limit(*info, tab.tab_type),
            (num_bows as int, out@) == spec_layout(
                items,
                i as int,
                *info,
                tab.tab_type,
                tab_accessible,
                force_accessible,
            ),
        decreases items.len() - i,
    {
        proof {
            lemma_layout_bows(items, i as int, *info, tab.tab_type, tab_accessible, force_accessible);
        }
        let item = &tab.items[i];
        if item.item_type == 1 {
            num_bows += 1;
        }
        let tab_slot: u64 = if item.item_type == 2 {
            (i as u64).wrapping_add(bow_slots).wrapping_sub(num_bows as u64)
        } else {
            i as u64
        };
        let accessible = tab_accessible && (force_accessible || tab_slot < limit);
        if tab_slot < SLOTS_PER_TAB || force_accessible {
            let ghost before = out@;
            while (out.len() as u64) < tab_slot
                invariant
                    before.len() <= out@.len(),
                    out@.len() <= tab_slot || out@.len() == before.len(),
                    out@ == before + Seq::new(
                        (out@.len() - before.len()) as nat,
                        |_i: int| None::<ScreenItem>,
                    ),
                decreases tab_slot - out@.len(),
            {
                out.push(None);
            }
            assert(out@ =~= spec_pad(before, tab_slot as int));
            if accessible {
                out.push(
                    Some(
                        ScreenItem {
                            ptr: item.ptr,
                            in_inventory: item.in_inventory,
                            equipped: item.equipped,
                            name: crate::actor::copy_name(&item.name),
                            category: item_type_to_category(item.item_type),
                        },
                    ),
                );
            } else {
                out.push(None);
            }
        }
        i += 1;
    }
    ScreenTab { items: out, category: item_type_to_category(tab.tab_type) }
}

/// Read the screen of the inventory from the tabs of the pouch
///
/// If `force_accessible` is true, the inventory will be accessible even when the pouch
/// list is empty, and items in undiscovered tabs or in slots beyond the usable ones are
/// shown too
pub fn do_open(
    tabs: &Vec<ListedTab>,
    info: &GdtInvInfo,
    list_count: i32,
    force_accessible: bool,
) -> (r: ScreenItems)
    ensures
        spec_is_pouch_screen(r, tabs@, *info, list_count, force_accessible),
{
    let mut out: Vec<ScreenTab> = Vec::new();
    // if the list count is 0, the inventory shows up as empty
    if list_count != 0 || force_accessible {
        let mut t: usize = 0;
        while t < tabs.len()
            invariant
                t <= tabs@.len(),
                out@.len() == t,
                forall|k: int|
                    0 <= k < t ==> #[trigger] spec_is_screen_tab(
                        out@[k],
                        tabs@[k],
                        *info,
                        force_accessible,
                    ),
            decreases tabs.len() - t,
        {
            let tab = layout_tab(&tabs[t], info, force_accessible);
            out.push(tab);
            t += 1;
        }
    }
    ScreenItems { tabs: out }
}

/// The result of `equipment_state_mut` and how the screen changes with it
pub open spec fn spec_equipment_state(s: PouchScreen, pouch_item_type: i32) -> PouchScreenEquipState {
    if pouch_item_type == 1 {
        s.bow_state
    } else if pouch_item_type == 3 {
        s.shield_state
    } else {
        s.weapon_state
    }
}

/// `s` with the equipment state of the item type replaced
pub open spec fn spec_with_equipment_state(
    s: PouchScreen,
    pouch_item_type: i32,
    state: PouchScreenEquipState,
) -> PouchScreen {
    if pouch_item_type == 1 {
        PouchScreen { bow_state: state, ..s }
    } else if pouch_item_type == 3 {
        PouchScreen { shield_state: state, ..s }
    } else {
        PouchScreen { weapon_state: state, ..s }
    }
}

/// Pointers of the items in the active slot of every tab 3 tabs apart from the active tab
pub open spec fn spec_pe_reachable(items: ScreenItems, tab: usize, slot: usize) -> Multiset<u64> {
    Seq::new(items.tabs@.len(), |t: int| t).filter(
        |t: int| t % 3 == tab % 3 && spec_slot(items.tabs@, t, slot as int) matches Some(Some(_)),
    ).map_values(|t: int| spec_slot(items.tabs@, t, slot as int)->Some_0->Some_0.ptr).to_multiset()
}

/// If the prompt of the item in (tab, slot) can be used on the Prompt Entanglement target
pub open spec fn spec_is_pe_activated_slot(s: PouchScreen, tab: usize, slot: usize, is_target: bool) -> bool {
    match s.spec_active_pe() {
        None => false,
        Some((active_tab, active_slot)) => {
            let direct = active_tab == tab % 3 && slot == active_slot;
            let default_to_zero = tab == 0 && (active_tab % 3 == 2 || active_tab % 3
                == s.items.tabs@.len() % 3);
            if !direct && !default_to_zero {
                false
            } else if !is_target && (spec_slot(s.items.tabs@, tab as int, slot as int) matches Some(
                Some(item),
            ) && !item.in_inventory) {
                slot == 0
            } else {
                true
            }
        },
    }
}

impl PouchScreen {
    /// The active Prompt Entanglement slot: the tab modulo 3 and the slot
    pub open spec fn spec_active_pe(&self) -> Option<(usize, usize)> {
        self.active_entangle_slot
    }

    /// Create a new pouch screen state from the tabs of the pouch
    pub fn open_no_exec(
        tabs: &Vec<ListedTab>,
        info: &GdtInvInfo,
        list_count: i32,
        force_accessible: bool,
    ) -> (r: PouchScreen)
        ensures
            spec_is_pouch_screen(r.items, tabs@, *info, list_count, force_accessible),
            r.spec_active_pe() is None,
            r.weapon_state == (PouchScreenEquipState { item: 0, to_delete: false }),
            r.bow_state == (PouchScreenEquipState { item: 0, to_delete: false }),
            r.shield_state == (PouchScreenEquipState { item: 0, to_delete: false }),
    {
        PouchScreen {
            items: do_open(tabs, info, list_count, force_accessible),
            active_entangle_slot: None,
            weapon_state: PouchScreenEquipState::default(),
            bow_state: PouchScreenEquipState::default(),
            shield_state: PouchScreenEquipState::default(),
        }
    }

    /// Activate Prompt Entanglement for the tab and slot, and any slots 3 tabs apart
    pub fn activate_pe(&mut self, tab: usize, slot: usize)
        ensures
            final(self).spec_active_pe() == Some((tab % 3, slot)),
            final(self).items == old(self).items,
            final(self).weapon_state == old(self).weapon_state,
            final(self).bow_state == old(self).bow_state,
            final(self).shield_state == old(self).shield_state,
    {
        self.active_entangle_slot = Some((tab % 3, slot));
    }

    /// Deactivate Prompt Entanglement
    pub fn deactivate_pe(&mut self)
        ensures
            final(self).spec_active_pe() is None,
            final(self).items == old(self).items,
            final(self).weapon_state == old(self).weapon_state,
            final(self).bow_state == old(self).bow_state,
            final(self).shield_state == old(self).shield_state,
    {
        self.active_entangle_slot = None;
    }

    /// The active Prompt Entanglement slot
    pub fn active_pe_slot(&self) -> (r: Option<(usize, usize)>)
        ensures
            r == self.spec_active_pe(),
    {
        self.active_entangle_slot
    }

    /// Get list of item pointers that are currently activated by Prompt Entanglement,
    /// sorted
    pub fn pe_activated_items(&self) -> (r: Vec<u64>)
        ensures
            match self.spec_active_pe() {
                None => r@.len() == 0,
                Some((tab, slot)) => spec_is_sorted(r@) && r@.to_multiset()
                    =~= spec_pe_reachable(self.items, tab, slot),
            },
    {
        match self.active_entangle_slot {
            None => Vec::new(),
            Some((tab, slot)) => self.items.pe_reachable_item_ptrs(tab, slot),
        }
    }

    /// Check if the item in (tab, slot) is an activated PE slot, meaning the prompt of
    /// this item can be used on the PE target item
    pub fn is_pe_activated_slot(&self, tab: usize, slot: usize, is_target: bool) -> (r: bool)
        ensures
            r == spec_is_pe_activated_slot(*self, tab, slot, is_target),
    {
        let (active_tab, active_slot) = match self.active_entangle_slot {
            // PE is not activated
            None => return false,
            Some(x) => x,
        };
        if active_tab != tab % 3 || slot != active_slot {
            if tab != 0 {
                return false;
            }
            // the default-to-zero case
            let is_default_to_zero_case = active_tab % 3 == 2 || active_tab % 3
                == self.items.tabs.len() % 3;
            if !is_default_to_zero_case {
                return false;
            }
        }
        if !is_target && self.items.is_translucent_or_empty(tab, slot) {
            // cannot use prompt from a translucent item, since it's usually not
            // interactable, unless it's also the first slot
            return slot == 0;
        }
        true
    }

    /// Get the actual slot to use when performing action on the target slot
    ///
    /// If the target slot is empty, it will return 0 (i.e. targets the first item in the
    /// tab). If the target slot is translucent, it will also return 0 unless
    /// `allow_translucent` is true, in which case it will just use that slot
    pub fn get_pe_target_slot(&self, tab: usize, slot: usize, allow_translucent: bool) -> (r:
        usize)
        ensures
            r == match spec_slot(self.items.tabs@, tab as int, slot as int) {
                Some(Some(item)) => if item.in_inventory || allow_translucent {
                    slot
                } else {
                    0
                },
                _ => 0,
            },
    {
        match self.items.get(tab, slot) {
            ScreenItemState::Empty => 0,
            ScreenItemState::Translucent(_) => {
                if allow_translucent {
                    slot
                } else {
                    0
                }
            },
            ScreenItemState::Normal(_) => slot,
        }
    }

    /// Get the equipment state tracked by pouch screen based on the item type
    pub fn equipment_state_mut(&mut self, pouch_item_type: i32) -> (r: &mut PouchScreenEquipState)
        ensures
            *r == spec_equipment_state(*old(self), pouch_item_type),
            *final(self) == spec_with_equipment_state(*old(self), pouch_item_type, *final(r)),
    {
        match pouch_item_type {
            1 => &mut self.bow_state,
            3 => &mut self.shield_state,
            _ => &mut self.weapon_state,
        }
    }

    /// Refresh the item states in this pouch screen while still maintaining the other
    /// states
    pub fn update_all_items(
        &mut self,
        tabs: &Vec<ListedTab>,
        info: &GdtInvInfo,
        list_count: i32,
        force_accessible: bool,
    )
        ensures
            spec_is_pouch_screen(final(self).items, tabs@, *info, list_count, force_accessible),
            final(self).spec_active_pe() == old(self).spec_active_pe(),
            final(self).weapon_state == old(self).weapon_state,
            final(self).bow_state == old(self).bow_state,
            final(self).shield_state == old(self).shield_state,
    {
        self.items = do_open(tabs, info, list_count, force_accessible);
    }
}

/// Once Prompt Entanglement is activated at a slot, the same slot of that tab and of every
/// tab a multiple of 3 tabs away can be targeted
pub proof fn lemma_activated_slot_is_target(s: PouchScreen, tab: usize, slot: usize, other_tab: usize)
    requires
        s.spec_active_pe() == Some((tab % 3, slot)),
        other_tab % 3 == tab % 3,
    ensures
        spec_is_pe_activated_slot(s, other_tab, slot, true),
{
}

} // verus!
