use skybook_runtime::cir::{ActorName, Category, ItemNameSpec, Span};
use skybook_runtime::error::RuntimeError;
use skybook_runtime::iv::{ItemData, PouchItem};
use skybook_runtime::memory::{Memory, MemoryError, PouchItemMemory};
use skybook_runtime::save::{save_switch, save_unholds, CreateEquipState, SaveSwitch};
use skybook_runtime::screen::Screen;
use skybook_runtime::snapshot::{item_details, NodePosFormat};
use skybook_runtime::trash::{collect_trash_events, TrashEvent};
use skybook_runtime::use_item::{
    arrow_to_shoot, cannot_use_more, is_damagable, shoots_without_arrows, use_kind, UseKind,
};
use skybook_runtime::util::WeaponModifierInfo;

fn span() -> Span {
    Span::new(0, 4)
}

fn name(n: &str, pouch_type: i32) -> ActorName {
    ActorName {
        name: n.to_string(),
        pouch_type,
        can_stack: pouch_type == 2 || pouch_type == 7,
        can_use: false,
        can_sell: true,
    }
}

#[test]
fn use_kinds() {
    let mut errors = vec![];
    let k = use_kind(&ItemNameSpec::Category(Category::Bow), 3, None, span(), &mut errors);
    assert!(matches!(k, UseKind::Equipment { item_type: 1, step_by: 100 }));
    let k = use_kind(&ItemNameSpec::Category(Category::Shield), 3, Some(40), span(), &mut errors);
    assert!(matches!(k, UseKind::Equipment { item_type: 3, step_by: 40 }));
    assert!(errors.is_empty());
    let k = use_kind(&ItemNameSpec::Category(Category::Material), 3, Some(1), span(), &mut errors);
    assert!(matches!(k, UseKind::Nothing));
    assert!(matches!(errors[0].error, RuntimeError::UselessPerUseAmount));
    assert!(matches!(errors[1].error, RuntimeError::CannotUseCategory));
    let mut errors = vec![];
    let k = use_kind(&ItemNameSpec::Actor(name("Obj_Fairy", 7)), 5000, None, span(), &mut errors);
    assert!(matches!(k, UseKind::ByName { times: 3000, .. }));
    assert!(matches!(errors[0].error, RuntimeError::TooManyIterations));
}

#[test]
fn special_equipment() {
    assert!(!is_damagable("Weapon_Sword_502"));
    assert!(is_damagable("Weapon_Sword_001"));
    assert!(shoots_without_arrows("Weapon_Bow_072"));
    assert!(!shoots_without_arrows("Weapon_Bow_001"));
}

fn arrow_memory(value: i32) -> Memory {
    Memory {
        items: vec![(
            0x50,
            PouchItemMemory {
                name: name("FireArrow", 2),
                item_type: 2,
                item_use: 0,
                value,
                equipped: true,
                in_inventory: true,
                health_recover: 0,
                effect_duration: 0,
                sell_price: 0,
                effect_id: 0,
                effect_level: 0,
                ingredients: vec![],
            },
        )],
    }
}

#[test]
fn arrows_to_shoot() {
    let mut errors = vec![];
    let r = arrow_to_shoot(0x50, &arrow_memory(4), span(), &mut errors);
    assert_eq!(r.unwrap().unwrap().name, "FireArrow");
    assert!(errors.is_empty());
    let r = arrow_to_shoot(0x50, &arrow_memory(0), span(), &mut errors);
    assert!(r.unwrap().is_none());
    assert!(matches!(errors[0].error, RuntimeError::NoArrowsToShoot));
    let r = arrow_to_shoot(0, &arrow_memory(4), span(), &mut errors);
    assert!(r.unwrap().is_none());
    assert_eq!(errors.len(), 2);
    let r = arrow_to_shoot(0x60, &arrow_memory(4), span(), &mut errors);
    assert_eq!(r.map(|_| ()), Err(MemoryError { addr: 0x60 }));
}

#[test]
fn uses_left_when_the_equipment_breaks() {
    let mut errors = vec![];
    cannot_use_more(1, 5, span(), &mut errors);
    assert!(matches!(errors[0].error, RuntimeError::CannotUseMore(3)));
    cannot_use_more(4, 5, span(), &mut errors);
    assert_eq!(errors.len(), 1);
}

#[test]
fn trash_events() {
    let events = vec![
        TrashEvent::Other,
        TrashEvent::Trash {
            name: name("Weapon_Sword_001", 0),
            value: 800,
            modifier: WeaponModifierInfo { flags: 0, value: 0 },
        },
        TrashEvent::PlayerDrop(0),
        TrashEvent::Trash {
            name: name("Weapon_Bow_001", 1),
            value: 500,
            modifier: WeaponModifierInfo { flags: 2, value: 5 },
        },
        TrashEvent::PlayerDrop(1),
    ];
    let out = collect_trash_events(&events, false);
    assert_eq!(out.drop_types, vec![0, 1]);
    assert_eq!(out.weapons_to_spawn.len(), 2);
    assert!(out.weapons_to_spawn[0].modifier.is_none());
    assert_eq!(out.weapons_to_spawn[1].modifier, Some(WeaponModifierInfo { flags: 2, value: 5 }));
    let out = collect_trash_events(&events, true);
    assert_eq!(out.drop_types, vec![0, 1]);
    assert!(out.weapons_to_spawn.is_empty());
}

#[test]
fn saving_screens() {
    assert_eq!(save_switch(&Screen::Overworld, true), SaveSwitch::Stay);
    assert_eq!(save_switch(&Screen::Overworld, false), SaveSwitch::ToInventory);
    assert!(!save_unholds(&Screen::Overworld, true));
}

#[test]
fn created_equipment_by_slot() {
    let mut s = CreateEquipState::default();
    s.update(1, name("Weapon_Shield_001", 3), 900, None);
    s.update(2, name("Weapon_Bow_001", 1), 400, None);
    s.update(7, name("Weapon_Sword_001", 0), 100, None);
    assert!(s.weapon.is_none());
    assert_eq!(s.shield.as_ref().unwrap().value, 900);
    assert_eq!(s.bow.as_ref().unwrap().value, 400);
}

#[test]
fn snapshot_details_show_the_uncommon() {
    let mut item = PouchItem::default();
    item.is_in_inventory = true;
    item.accessible = true;
    item.dpad_accessible = true;
    item.allocated_idx = 3;
    item.unallocated_idx = -1;
    item.node_valid = true;
    item.node_pos = 4;
    item.ingredients = vec![String::new(); 5];
    let d = item_details(&item, 3);
    assert_eq!(d.node_pos, NodePosFormat::Decimal);
    assert!(!d.data && !d.not_in_inventory && !d.ingredients && !d.inaccessible);
    assert_eq!(d.allocated_idx, None);
    assert_eq!(d.unallocated_idx, None);
    item.node_pos = -2;
    item.ingredients[2] = "Item_Fruit_A".to_string();
    item.data = ItemData { effect_value: 0, effect_duration: 0, sell_price: 10, effect_id: 0, effect_level: 0 };
    item.holding_count = 2;
    let d = item_details(&item, 1);
    assert_eq!(d.node_pos, NodePosFormat::NegativeHex);
    assert!(d.data && d.ingredients);
    assert_eq!(d.holding, Some(2));
    assert_eq!(d.allocated_idx, Some(3));
    item.node_pos = 9;
    item.node_valid = false;
    assert_eq!(item_details(&item, 3).node_pos, NodePosFormat::Hex);
}

#[test]
fn negative_zero_effect_is_default_data() {
    let mut item = PouchItem::default();
    item.ingredients = vec![String::new(); 5];
    item.data = ItemData {
        effect_value: 0,
        effect_duration: 0,
        sell_price: 0,
        effect_id: (-0.0f32).to_bits(),
        effect_level: (-0.0f32).to_bits(),
    };
    assert!(!item_details(&item, 0).data);
    item.data.effect_level = 1.0f32.to_bits();
    assert!(item_details(&item, 0).data);
    item.data.effect_level = f32::NAN.to_bits();
    assert!(item_details(&item, 0).data);
}
