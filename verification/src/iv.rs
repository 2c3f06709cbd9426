//! Inventory view types: what the simulation shows of the pouch, the game data
//! and the overworld after a step.
//!
//! Floating point values are kept as the bit patterns of the `f32` values.
use vstd::prelude::*;

verus! {

/// Pointer value shown in the views
#[derive(Debug, Default, Clone, Copy, PartialEq, Eq, Structural)]
pub struct Pointer(pub u64);

impl Pointer {
    /// The pointer as an integer
    pub fn as_u64(&self) -> (r: u64)
        ensures
            r == self.0,
    {
        self.0
    }

    /// Make a pointer from an integer
    pub fn from_u64(value: u64) -> (r: Pointer)
        ensures
            r.0 == value,
    {
        Pointer(value)
    }
}

/// Weapon modifier as shown in the views (0, 0 if no modifier)
#[derive(Debug, Default, Clone, Copy, PartialEq, Eq, Structural)]
pub struct WeaponModifier {
    pub flag: i32,
    pub value: i32,
}

/// Item info common to all views
#[derive(Debug, Default, Clone)]
pub struct CommonItem {
    pub actor_name: String,
    pub value: i32,
    pub is_equipped: bool,
}

/// Extra data of an item (effect id and level are `f32` bit patterns)
#[derive(Debug, Default, Clone, Copy, PartialEq, Eq, Structural)]
pub struct ItemData {
    pub effect_value: i32,
    pub effect_duration: i32,
    pub sell_price: i32,
    pub effect_id: u32,
    pub effect_level: u32,
}

/// Item info for something in the overworld
#[derive(Debug, Clone)]
pub enum OverworldItem {
    /// Equipment on the player
    Equipped { actor: String, value: i32, modifier: WeaponModifier },
    /// Holding in the player's hand
    Held { actor: String },
    /// Equipment on the ground
    GroundEquipment { actor: String, value: i32, modifier: WeaponModifier },
    /// Other items on the ground
    GroundItem { actor: String, despawning: bool },
}

/// View of the items in the overworld
#[derive(Debug, Default, Clone)]
pub struct Overworld {
    pub items: Vec<OverworldItem>,
}

/// Type of the screen currently shown
#[derive(Debug, Default, Clone, Copy, PartialEq, Eq, Structural)]
pub enum Screen {
    #[default]
    Overworld,
    Inventory,
    Shop,
}

/// Data of a tab in the pouch (mTabs and mTabsType)
#[derive(Debug, Default, Clone, Copy, PartialEq, Eq, Structural)]
pub struct PouchTab {
    /// Index of the first item of the tab in the list, -1 if the tab is empty
    pub item_idx: i32,
    /// The type of the tab, -1 if invalid
    pub tab_type: i32,
}

/// Info of one item in the pouch
#[derive(Debug, Default, Clone)]
pub struct PouchItem {
    pub common: CommonItem,
    pub item_type: i32,
    pub item_use: i32,
    pub is_in_inventory: bool,
    pub is_no_icon: bool,
    pub data: ItemData,
    pub ingredients: Vec<String>,
    pub holding_count: u8,
    pub prompt_entangled: bool,
    pub node_addr: Pointer,
    pub node_valid: bool,
    pub node_pos: i128,
    pub node_prev: Pointer,
    pub node_next: Pointer,
    pub allocated_idx: i32,
    pub unallocated_idx: i32,
    pub tab_idx: i32,
    pub tab_slot: i32,
    pub accessible: bool,
    pub dpad_accessible: bool,
}

/// List view of the pouch
#[derive(Debug, Clone)]
pub struct PouchList {
    pub count: i32,
    pub items: Vec<PouchItem>,
    pub are_tabs_valid: bool,
    pub num_tabs: i32,
    pub tabs: Vec<PouchTab>,
    pub entangled_tab: i32,
    pub entangled_slot: i32,
    pub screen: Screen,
    pub is_holding_in_inventory: bool,
    pub is_arrowless_smuggle: bool,
}

impl PouchList {
    /// The empty pouch view: no items, valid empty tabs, no entanglement, the overworld
    /// screen and nothing held
    pub open spec fn spec_is_empty(&self) -> bool {
        &&& self.count == 0
        &&& self.items@ == Seq::<PouchItem>::empty()
        &&& self.are_tabs_valid
        &&& self.num_tabs == 0
        &&& self.tabs@ == Seq::<PouchTab>::empty()
        &&& self.entangled_tab == -1
        &&& self.entangled_slot == -1
        &&& self.screen == Screen::Overworld
        &&& !self.is_holding_in_inventory
        &&& !self.is_arrowless_smuggle
    }

    /// The empty pouch view
    pub fn empty() -> (r: PouchList)
        ensures
            r.spec_is_empty(),
    {
        PouchList {
            count: 0,
            items: Vec::new(),
            are_tabs_valid: true,
            num_tabs: 0,
            tabs: Vec::new(),
            entangled_tab: -1,
            entangled_slot: -1,
            screen: Screen::Overworld,
            is_holding_in_inventory: false,
            is_arrowless_smuggle: false,
        }
    }
}

/// Master Sword flags in the game data (recover time is an `f32` bit pattern)
#[derive(Debug, Default, Clone, Copy, PartialEq, Eq, Structural)]
pub struct GdtMasterSword {
    pub is_true_form: bool,
    pub add_power: i32,
    pub add_beam_power: i32,
    pub recover_time: u32,
}

/// Other inventory flags in the game data
#[derive(Debug, Default, Clone, Copy, PartialEq, Eq, Structural)]
pub struct GdtInvInfo {
    pub num_weapon_slots: i32,
    pub num_bow_slots: i32,
    pub num_shield_slots: i32,
    pub sword_tab_discovered: bool,
    pub bow_tab_discovered: bool,
    pub shield_tab_discovered: bool,
    pub armor_tab_discovered: bool,
    pub material_tab_discovered: bool,
    pub food_tab_discovered: bool,
    pub key_item_tab_discovered: bool,
}

/// Extra data of an item in the game data
#[derive(Debug, Default, Clone)]
#[allow(inconsistent_fields)]
pub enum GdtItemData {
    #[default]
    NoData,
    Sword { idx: u32, info: WeaponModifier },
    Bow { idx: u32, info: WeaponModifier },
    Shield { idx: u32, info: WeaponModifier },
    Food { idx: u32, info: ItemData, unused_effect_1y: u32, ingredients: Vec<String> },
}

/// One item in the game data
#[derive(Debug, Default, Clone)]
pub struct GdtItem {
    pub common: CommonItem,
    pub idx: u32,
    pub data: GdtItemData,
}

/// Inventory data stored in the game data
#[derive(Debug, Default, Clone)]
pub struct Gdt {
    pub items: Vec<GdtItem>,
    pub master_sword: GdtMasterSword,
    pub info: GdtInvInfo,
}

impl Overworld {
    /// The view of an empty overworld
    pub fn empty() -> (r: Overworld)
        ensures
            r.items@.len() == 0,
    {
        Overworld { items: Vec::new() }
    }
}

impl Gdt {
    /// The view of empty game data: no item, all flags 0
    pub open spec fn spec_is_empty(&self) -> bool {
        &&& self.items@ == Seq::<GdtItem>::empty()
        &&& self.master_sword == (GdtMasterSword {
                is_true_form: false,
                add_power: 0,
                add_beam_power: 0,
            recover_time: 0,
        })
        &&& self.info == (GdtInvInfo {
                num_weapon_slots: 0,
                num_bow_slots: 0,
                num_shield_slots: 0,
                sword_tab_discovered: false,
                bow_tab_discovered: false,
                shield_tab_discovered: false,
                armor_tab_discovered: false,
                material_tab_discovered: false,
                food_tab_discovered: false,
                key_item_tab_discovered: false,
            })
    }

    /// The view of empty game data
    pub fn empty() -> (r: Gdt)
        ensures
            r.spec_is_empty(),
    {
        Gdt {
            items: Vec::new(),
            master_sword: GdtMasterSword {
                is_true_form: false,
                add_power: 0,
                add_beam_power: 0,
                recover_time: 0,
            },
            info: GdtInvInfo {
                num_weapon_slots: 0,
                num_bow_slots: 0,
                num_shield_slots: 0,
                sword_tab_discovered: false,
                bow_tab_discovered: false,
                shield_tab_discovered: false,
                armor_tab_discovered: false,
                material_tab_discovered: false,
                food_tab_discovered: false,
                key_item_tab_discovered: false,
            },
        }
    }
}

/// Index of the first non-empty tab at or after `from` (`tabs[i].item_idx != -1`)
pub open spec fn spec_is_next_tab_head(tabs: Seq<PouchTab>, from: int, i: int) -> bool {
    &&& from <= i < tabs.len()
    &&& tabs[i].item_idx != -1
    &&& forall|k: int| from <= k < i ==> tabs[k].item_idx == -1
}

/// Get the next tab index and the first item of that tab, skipping
/// empty tabs. Returns (0, -1) if no more items
pub fn get_next_tab_head(tabs: &[PouchTab], next_tab_idx: usize) -> (r: (usize, i32))
    ensures
        (exists|i: int| spec_is_next_tab_head(tabs@, next_tab_idx as int, i)) ==> (
        spec_is_next_tab_head(tabs@, next_tab_idx as int, r.0 as int) && r.1
            == tabs@[r.0 as int].item_idx),
        !(exists|i: int| spec_is_next_tab_head(tabs@, next_tab_idx as int, i)) ==> r == (
        0usize,
        -1i32,
        ),
{
    let mut i = next_tab_idx;
    while i < tabs.len()
        invariant
            next_tab_idx <= i,
            forall|k: int| next_tab_idx <= k < i && k < tabs@.len() ==> tabs@[k].item_idx == -1,
        decreases tabs.len() - i,
    {
        if tabs[i].item_idx != -1 {
            assert(spec_is_next_tab_head(tabs@, next_tab_idx as int, i as int));
            return (i, tabs[i].item_idx);
        }
        i += 1;
    }
    assert forall|j: int| !spec_is_next_tab_head(tabs@, next_tab_idx as int, j) by {
        if next_tab_idx <= j < tabs@.len() {
            assert(tabs@[j].item_idx == -1);
        }
    }
    (0, -1)
}

} // verus!
