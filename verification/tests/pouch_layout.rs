use skybook_runtime::cir::{ActorName, Category};
use skybook_runtime::iv::GdtInvInfo;
use skybook_runtime::pouch_screen::{
    do_open, layout_tab, tab_discovered, visible_tab_count, ListedItem, ListedTab,
};

fn listed(ptr: u64, n: &str, item_type: i32) -> ListedItem {
    ListedItem {
        ptr,
        equipped: false,
        in_inventory: true,
        item_type,
        name: ActorName {
            name: n.to_string(),
            pouch_type: item_type,
            can_stack: item_type == 2,
            can_use: false,
            can_sell: true,
        },
    }
}

fn info() -> GdtInvInfo {
    GdtInvInfo {
        num_weapon_slots: 1,
        num_bow_slots: 5,
        num_shield_slots: 4,
        sword_tab_discovered: true,
        bow_tab_discovered: true,
        shield_tab_discovered: true,
        armor_tab_discovered: false,
        material_tab_discovered: true,
        food_tab_discovered: true,
        key_item_tab_discovered: true,
    }
}

#[test]
fn arrows_come_after_the_bow_slots() {
    let tab = ListedTab {
        tab_type: 1,
        items: vec![
            listed(0x1, "Weapon_Bow_001", 1),
            listed(0x2, "Weapon_Bow_002", 1),
            listed(0x3, "NormalArrow", 2),
        ],
    };
    let t = layout_tab(&tab, &info(), false);
    assert_eq!(t.category, Some(Category::Bow));
    // 2 bows, then 3 empty bow slots, then the arrow
    assert_eq!(t.items.len(), 6);
    assert_eq!(t.items[0].as_ref().unwrap().ptr, 0x1);
    assert_eq!(t.items[1].as_ref().unwrap().ptr, 0x2);
    assert!(t.items[2].is_none() && t.items[3].is_none() && t.items[4].is_none());
    assert_eq!(t.items[5].as_ref().unwrap().ptr, 0x3);
}

#[test]
fn weapons_past_the_slot_limit_are_not_accessible() {
    let tab = ListedTab {
        tab_type: 0,
        items: vec![listed(0x1, "Weapon_Sword_001", 0), listed(0x2, "Weapon_Sword_002", 0)],
    };
    let t = layout_tab(&tab, &info(), false);
    assert_eq!(t.items.len(), 2);
    assert!(t.items[0].is_some());
    assert!(t.items[1].is_none());
    // forced accessible shows everything
    let t = layout_tab(&tab, &info(), true);
    assert!(t.items[1].is_some());
}

#[test]
fn undiscovered_tabs_show_nothing() {
    assert!(!tab_discovered(&info(), 5));
    assert!(tab_discovered(&info(), 2));
    let tab = ListedTab { tab_type: 5, items: vec![listed(0x9, "Armor_001_Upper", 5)] };
    let t = layout_tab(&tab, &info(), false);
    assert_eq!(t.items.len(), 1);
    assert!(t.items[0].is_none());
}

#[test]
fn an_empty_pouch_has_no_tabs() {
    let tabs = vec![ListedTab { tab_type: 7, items: vec![listed(0x5, "Item_Fruit_A", 7)] }];
    assert_eq!(do_open(&tabs, &info(), 0, false).tabs.len(), 0);
    assert_eq!(do_open(&tabs, &info(), 1, false).tabs.len(), 1);
    assert_eq!(do_open(&tabs, &info(), 0, true).tabs.len(), 1);
    assert_eq!(visible_tab_count(-3), 0);
    assert_eq!(visible_tab_count(7), 7);
    assert_eq!(visible_tab_count(80), 50);
}

#[test]
fn an_empty_free_list_stops_adding_slots() {
    let span = skybook_runtime::cir::Span::new(3, 9);
    let mut errors = vec![];
    assert!(skybook_runtime::add_slot::take_new_slot(0x1000, span, &mut errors));
    assert!(errors.is_empty());
    assert!(!skybook_runtime::add_slot::take_new_slot(0, span, &mut errors));
    assert!(matches!(errors[0].error, skybook_runtime::error::RuntimeError::CannotGetMore));
    assert!(!errors[0].is_warning);
}

#[test]
fn eating_allows_more_iterations_and_arrows_are_only_equipped() {
    assert_eq!(skybook_runtime::actions::TargetRule::Eat.max_iterations(), 50000);
    assert_eq!(skybook_runtime::actions::TargetRule::Hold.max_iterations(), 3000);
    assert!(skybook_runtime::equip::calls_equip(true, false));
    assert!(skybook_runtime::equip::calls_equip(false, true));
    assert!(!skybook_runtime::equip::calls_equip(false, false));
}
