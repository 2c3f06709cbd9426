use skybook_runtime::error::ViewError;
use skybook_runtime::iv::Pointer;
use skybook_runtime::pouch_view::{check_list, extract_pouch_view, ListEntry, RawPouch, RawPouchItem};
use skybook_runtime::screen_items::ScreenItems;
use skybook_runtime::state::GameSystems;

fn raw_item(name: &str, value: i32, item_type: i32, prev: u64, next: u64) -> RawPouchItem {
    RawPouchItem {
        name: name.to_string(),
        value,
        equipped: false,
        item_type,
        item_use: 0,
        in_inventory: true,
        health_recover: 0,
        effect_duration: 0,
        sell_price: 0,
        effect_id: 0,
        effect_level: 0,
        ingredients_num: 0,
        ingredients: vec![],
        prev,
        next,
    }
}

/// Two apples in the list, and a material tab that starts at the first one
fn raw() -> RawPouch {
    let mut heads = vec![0u64; 50];
    let mut types = vec![-1i32; 50];
    heads[0] = 0x1000;
    types[0] = 7;
    RawPouch {
        count: 2,
        list_head: 0x10,
        entries: vec![
            ListEntry { node: 0x1008, item: 0x1000, prev: 0x10, buffer_idx: Some(0) },
            ListEntry { node: 0x2008, item: 0x2000, prev: 0x1008, buffer_idx: Some(1) },
        ],
        items: vec![
            raw_item("Item_Fruit_A", 5, 7, 0x10, 0x2008),
            raw_item("Item_Fruit_B", 3, 7, 0x1008, 0x10),
        ],
        num_tabs: Some(1),
        tab_heads: Some(heads),
        tab_types: Some(types),
        bow_slots: 5,
        grabbed: vec![0x2000, 0x2000],
    }
}

#[test]
fn the_list_view_of_the_pouch() {
    let r = raw();
    assert!(check_list(&r).is_ok());
    let sys = GameSystems::new();
    let temp = ScreenItems { tabs: vec![] };
    let v = extract_pouch_view(&r, &sys, &temp).unwrap();
    assert_eq!(v.count, 2);
    assert_eq!(v.items.len(), 2);
    assert_eq!(v.items[0].common.actor_name, "Item_Fruit_A");
    assert_eq!(v.items[1].common.value, 3);
    assert_eq!(v.items[1].node_addr, Pointer(0x2008));
    assert_eq!(v.items[1].node_pos, 1);
    assert_eq!(v.items[1].allocated_idx, 1);
    assert_eq!(v.items[1].holding_count, 2);
    assert_eq!(v.items[0].holding_count, 0);
    assert_eq!(v.items[0].ingredients.len(), 5);
    assert!(!v.is_holding_in_inventory);
}

#[test]
fn a_broken_list_is_incoherent() {
    let mut r = raw();
    r.entries[1].prev = 0x9999;
    assert!(matches!(check_list(&r), Err(ViewError::Coherence(_))));
    let sys = GameSystems::new();
    let temp = ScreenItems { tabs: vec![] };
    assert!(matches!(extract_pouch_view(&r, &sys, &temp), Err(ViewError::Coherence(_))));
    let mut r = raw();
    r.entries[0].item = 0;
    assert!(check_list(&r).is_err());
}
