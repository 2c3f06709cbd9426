use skybook_runtime::cir::{GdtMeta, GdtValueSpec, Span};
use skybook_runtime::error::{RuntimeError, ViewError};
use skybook_runtime::gdt_flags::{flag_kind, set_gdt, value_kind, GdtFlagKind, GdtFlagValue};
use skybook_runtime::gdt_view::{extract_from_trigger_param, TriggerParamFlags};
use skybook_runtime::iv::GdtItemData;

fn span() -> Span {
    Span::new(2, 8)
}

#[test]
fn flag_kinds_of_meta() {
    let m = GdtMeta { value: GdtValueSpec::S32(3), array_idx: Some(1) };
    assert_eq!(flag_kind(&m), Some(GdtFlagKind::S32Array));
    let m = GdtMeta { value: GdtValueSpec::String32("a".to_string()), array_idx: Some(1) };
    assert_eq!(flag_kind(&m), None);
    assert_eq!(value_kind(&GdtFlagValue::Vec2f(0, 0)), GdtFlagKind::Vec2f);
}

#[test]
fn write_a_scalar_flag() {
    let mut errors = vec![];
    let m = GdtMeta { value: GdtValueSpec::Bool(true), array_idx: None };
    let r = set_gdt("IsGet_Item_Fruit_A", &m, Some(GdtFlagValue::Bool(false)), span(), &mut errors);
    assert!(matches!(r, Some(GdtFlagValue::Bool(true))));
    assert!(errors.is_empty());
}

#[test]
fn write_an_array_element() {
    let mut errors = vec![];
    let m = GdtMeta { value: GdtValueSpec::S32(7), array_idx: Some(2) };
    let r = set_gdt("PorchItem_Value1", &m, Some(GdtFlagValue::S32Array(vec![1, 2, 3, 4])), span(), &mut errors);
    match r {
        Some(GdtFlagValue::S32Array(v)) => assert_eq!(v, vec![1, 2, 7, 4]),
        _ => panic!("the array is written"),
    }
    let r = set_gdt("PorchItem_Value1", &m, Some(GdtFlagValue::S32Array(vec![1])), span(), &mut errors);
    assert!(r.is_none());
    assert!(matches!(
        &errors[0].error,
        RuntimeError::InvalidGdtArrayIndex(n, _, 2) if n == "PorchItem_Value1"
    ));
}

#[test]
fn vector_components_not_given_are_kept() {
    let mut errors = vec![];
    let m = GdtMeta { value: GdtValueSpec::Vec2f(Some(5), None), array_idx: None };
    let r = set_gdt("PlayerPos", &m, Some(GdtFlagValue::Vec2f(1, 2)), span(), &mut errors);
    assert!(matches!(r, Some(GdtFlagValue::Vec2f(5, 2))));
}

#[test]
fn a_missing_flag_is_reported() {
    let mut errors = vec![];
    let m = GdtMeta { value: GdtValueSpec::F32(0x3f80_0000), array_idx: None };
    assert!(set_gdt("NoSuchFlag", &m, None, span(), &mut errors).is_none());
    // a flag of another type is not the flag
    assert!(set_gdt("NoSuchFlag", &m, Some(GdtFlagValue::S32(1)), span(), &mut errors).is_none());
    assert_eq!(errors.len(), 2);
    assert!(matches!(&errors[0].error, RuntimeError::CannotFindGdtFlag(n, d) if n == "NoSuchFlag" && d == "f32"));
}

fn flags(names: Vec<&str>) -> TriggerParamFlags {
    TriggerParamFlags {
        porch_item: Some(names.into_iter().map(|s| s.to_string()).collect()),
        porch_item_equip_flag: Some(vec![true, false, false, false]),
        porch_item_value1: Some(vec![900, 5, 3, 0]),
        porch_sword_flag_sp: Some(vec![1]),
        porch_sword_value_sp: Some(vec![10]),
        porch_bow_flag_sp: Some(vec![]),
        porch_bow_value_sp: Some(vec![]),
        porch_shield_flag_sp: Some(vec![]),
        porch_shield_value_sp: Some(vec![]),
        stamina_recover: Some(vec![(0x4000_0000, 0x4040_0000)]),
        cook_effect0: Some(vec![(0x3f80_0000, 0x4000_0000)]),
        cook_effect1: Some(vec![(0x4120_0000, 0)]),
        cook_material0: Some(vec!["Item_Fruit_A".to_string()]),
        cook_material1: Some(vec![String::new()]),
        cook_material2: Some(vec![]),
        cook_material3: Some(vec![]),
        cook_material4: Some(vec![]),
        master_sword_full_power: Some(false),
        master_sword_add_power: Some(0),
        master_sword_add_beam_power: Some(0),
        master_sword_recover_time: Some(0),
        is_open_item_category: Some(vec![true, false, false, false, true, true, false]),
        weapon_stock_num: Some(8),
        bow_stock_num: Some(5),
        shield_stock_num: Some(4),
    }
}

#[test]
fn game_data_view() {
    let f = flags(vec!["Weapon_Sword_001", "Item_Cook_A_01", "Item_Fruit_A", ""]);
    let types = vec![0, 8, 7, -1];
    let g = extract_from_trigger_param(&f, &types).unwrap();
    assert_eq!(g.items.len(), 3);
    assert_eq!(g.items[0].common.actor_name, "Weapon_Sword_001");
    assert!(g.items[0].common.is_equipped);
    assert!(matches!(g.items[0].data, GdtItemData::Sword { idx: 0, info } if info.flag == 1 && info.value == 10));
    match &g.items[1].data {
        GdtItemData::Food { idx, info, unused_effect_1y, ingredients } => {
            assert_eq!(*idx, 0);
            // the stamina recover x and y as integers
            assert_eq!(info.effect_value, 2);
            assert_eq!(info.effect_duration, 3);
            assert_eq!(info.sell_price, 10);
            assert_eq!(info.effect_id, 0x3f80_0000);
            assert_eq!(*unused_effect_1y, 0);
            assert_eq!(ingredients[0], "Item_Fruit_A");
            assert_eq!(ingredients[1], "");
            // out of bounds falls back to the ingredient read before
            assert_eq!(ingredients[2], "");
        }
        _ => panic!("a food has food data"),
    }
    assert!(matches!(g.items[2].data, GdtItemData::NoData));
    assert_eq!(g.info.num_weapon_slots, 8);
    assert!(g.info.sword_tab_discovered && !g.info.bow_tab_discovered && g.info.food_tab_discovered);
}

#[test]
fn game_data_without_a_flag_is_incoherent() {
    let mut f = flags(vec!["Item_Fruit_A", ""]);
    f.weapon_stock_num = None;
    assert!(matches!(extract_from_trigger_param(&f, &vec![7, -1]), Err(ViewError::Coherence(_))));
}

#[test]
fn a_shield_has_shield_data() {
    let mut f = flags(vec!["Weapon_Shield_001", "Weapon_Bow_001", "Weapon_Shield_002", ""]);
    f.porch_shield_flag_sp = Some(vec![4, 8]);
    f.porch_shield_value_sp = Some(vec![30, 60]);
    f.porch_bow_flag_sp = Some(vec![2]);
    f.porch_bow_value_sp = Some(vec![20]);
    let types = vec![3, 1, 3, -1];
    let g = extract_from_trigger_param(&f, &types).unwrap();
    assert!(matches!(g.items[0].data, GdtItemData::Shield { idx: 0, info } if info.flag == 4 && info.value == 30));
    assert!(matches!(g.items[1].data, GdtItemData::Bow { idx: 0, info } if info.flag == 2 && info.value == 20));
    assert!(matches!(g.items[2].data, GdtItemData::Shield { idx: 1, info } if info.flag == 8 && info.value == 60));
}
