use skybook_runtime::add_slot::{is_get_flag_name, open_category_index, plan_add_slot, NO_EFFECT_ID};
use skybook_runtime::amount::OperationAmount;
use skybook_runtime::cir::{
    ActorName, Category, ItemMatchSpec, ItemMeta, ItemNameSpec, ItemPosition, ItemSpec, Span,
};
use skybook_runtime::drop::{drop_kind, next_drop_target, next_hold_batch, DropKind, DropStep};
use skybook_runtime::equip::{
    dpad_equip_error, equip_select_meta, finish_equip, next_dpad_step, next_equip_target,
    pouch_equip_error, DpadStep, EquipStep,
};
use skybook_runtime::dpad::{
    dpad_get_amount, dpad_get_first_equipped, dpad_matches, dpad_select,
};
use skybook_runtime::error::{ErrorReport, RuntimeError};
use skybook_runtime::get::{entangle_item, get_mode, GetMode};
use skybook_runtime::low_level::{
    broken_slot_counts, find_single_item_target, write_meta_to, written_name,
};
use skybook_runtime::memory::{Memory, MemoryError, PouchItemMemory};
use skybook_runtime::pouch_screen::{PouchScreen, PouchScreenEquipState};
use skybook_runtime::screen::OverworldStep;
use skybook_runtime::screen_items::{ScreenItem, ScreenItems, ScreenTab};
use skybook_runtime::state::GameSystems;
use skybook_runtime::sort::{cap_times, sort_error, sort_times};
use skybook_runtime::stack_target::{find_stack_target, remove_write, sell_amount};
use skybook_runtime::actions::{next_pouch_target, TargetRule, TargetStep};
use skybook_runtime::util::CountingMethod;

fn span() -> Span {
    Span::new(3, 9)
}

fn name(n: &str, pouch_type: i32, can_stack: bool) -> ActorName {
    ActorName {
        name: n.to_string(),
        pouch_type,
        can_stack,
        can_use: pouch_type == 7 || pouch_type == 8,
        can_sell: true,
    }
}

fn apple() -> ActorName {
    name("Item_Fruit_A", 7, true)
}

fn sword() -> ActorName {
    name("Weapon_Sword_001", 0, false)
}

fn bow() -> ActorName {
    name("Weapon_Bow_001", 1, false)
}

fn arrow() -> ActorName {
    name("NormalArrow", 2, true)
}

fn shield() -> ActorName {
    name("Weapon_Shield_001", 3, false)
}

fn data(n: ActorName, value: i32, equipped: bool) -> PouchItemMemory {
    PouchItemMemory {
        item_type: n.pouch_type,
        name: n,
        item_use: 0,
        value,
        equipped,
        in_inventory: true,
        health_recover: 0,
        effect_duration: 0,
        sell_price: 0,
        effect_id: 0,
        effect_level: 0,
        ingredients: vec![String::new(); 5],
    }
}

fn slot(ptr: u64, n: ActorName, equipped: bool) -> Option<ScreenItem> {
    Some(ScreenItem { ptr, in_inventory: true, equipped, name: n, category: None })
}

fn no_meta() -> ItemMeta {
    ItemMeta {
        value: None,
        equip: None,
        life_recover: None,
        effect_duration: None,
        sell_price: None,
        effect_id: None,
        effect_level: None,
        ingredients: vec![],
        position: None,
        held: None,
    }
}

/// A pouch with a sword (equipped) and a shield in the weapon tabs, and two apple stacks
/// (the first one empty) in the material tab
fn pouch() -> (PouchScreen, Memory) {
    let memory = Memory {
        items: vec![
            (0x100, data(sword(), 3000, true)),
            (0x200, data(shield(), 1000, false)),
            (0x300, data(apple(), 0, false)),
            (0x400, data(apple(), 7, false)),
        ],
    };
    let tabs = vec![
        ScreenTab { items: vec![slot(0x100, sword(), true), None], category: Some(Category::Weapon) },
        ScreenTab { items: vec![slot(0x200, shield(), false)], category: Some(Category::Shield) },
        ScreenTab {
            items: vec![slot(0x300, apple(), false), slot(0x400, apple(), false)],
            category: Some(Category::Material),
        },
    ];
    let inv = PouchScreen {
        items: ScreenItems { tabs },
        active_entangle_slot: None,
        weapon_state: PouchScreenEquipState::default(),
        bow_state: PouchScreenEquipState::default(),
        shield_state: PouchScreenEquipState::default(),
    };
    (inv, memory)
}

#[test]
fn select_finds_the_first_matching_item() {
    let (inv, memory) = pouch();
    let mut errors = vec![];
    let apple_spec = ItemNameSpec::Actor(apple());
    let r = inv.items.select(&apple_spec, None, None, &memory, span(), &mut errors);
    assert_eq!(r, Ok(Some((2, 0))));
    // at least 1 in the stack skips the empty one
    let r = inv.items.select(&apple_spec, None, Some(1), &memory, span(), &mut errors);
    assert_eq!(r, Ok(Some((2, 1))));
    assert!(errors.is_empty());
}

#[test]
fn amounts_by_slot_and_by_value() {
    let (inv, memory) = pouch();
    let apple_spec = ItemNameSpec::Actor(apple());
    // a handful of items can always be counted
    assert!(inv.items.count_fits());
    assert_eq!(inv.items.get_amount(&apple_spec, None, CountingMethod::Slot, &memory), Ok(2));
    assert_eq!(inv.items.get_amount(&apple_spec, None, CountingMethod::Value, &memory), Ok(7));
}

#[test]
fn hold_takes_the_stack_with_a_value() {
    let (inv, memory) = pouch();
    let mut errors = vec![];
    let apple_spec = ItemNameSpec::Actor(apple());
    let step = next_pouch_target(&inv, &apple_spec, None, span(), TargetRule::Hold, None, &memory, &mut errors);
    assert_eq!(step, Ok(TargetStep::Act { tab: 2, slot: 1, corrected_slot: 1, item: 0x400 }));
    assert!(errors.is_empty());
}

#[test]
fn hold_refuses_a_weapon() {
    let (inv, memory) = pouch();
    let mut errors = vec![];
    let spec = ItemNameSpec::Actor(shield());
    let step = next_pouch_target(&inv, &spec, None, span(), TargetRule::Hold, None, &memory, &mut errors);
    assert_eq!(step, Ok(TargetStep::Stop { check_remaining: false }));
    assert!(matches!(errors[0].error, RuntimeError::NotHoldable));
}

#[test]
fn eat_needs_an_item_that_can_be_used() {
    let (inv, memory) = pouch();
    let mut errors = vec![];
    let apple_spec = ItemNameSpec::Actor(apple());
    let step = next_pouch_target(&inv, &apple_spec, None, span(), TargetRule::Eat, None, &memory, &mut errors);
    assert!(matches!(step, Ok(TargetStep::Act { tab: 2, slot: 1, .. })));
    let spec = ItemNameSpec::Actor(sword());
    let step = next_pouch_target(&inv, &spec, None, span(), TargetRule::Eat, None, &memory, &mut errors);
    assert_eq!(step, Ok(TargetStep::Stop { check_remaining: false }));
    assert!(matches!(errors[0].error, RuntimeError::NotEatable));
}

#[test]
fn missing_item_reads_fail() {
    let (inv, _) = pouch();
    let memory = Memory { items: vec![] };
    let mut errors = vec![];
    let apple_spec = ItemNameSpec::Actor(apple());
    let step = next_pouch_target(&inv, &apple_spec, None, span(), TargetRule::Hold, None, &memory, &mut errors);
    assert_eq!(step, Err(MemoryError { addr: 0x300 }));
}

#[test]
fn equip_type_checks() {
    assert!(pouch_equip_error(&ItemNameSpec::Actor(apple()), true).is_some());
    assert!(matches!(
        pouch_equip_error(&ItemNameSpec::Actor(apple()), true),
        Some(RuntimeError::NotEquipment)
    ));
    assert!(matches!(
        pouch_equip_error(&ItemNameSpec::Actor(arrow()), false),
        Some(RuntimeError::CannotUnequipArrow)
    ));
    assert!(pouch_equip_error(&ItemNameSpec::Actor(arrow()), true).is_none());
    assert!(pouch_equip_error(&ItemNameSpec::Category(Category::KeyItem), true).is_none());
    assert!(matches!(
        dpad_equip_error(&ItemNameSpec::Category(Category::ArmorUpper), true),
        Some(RuntimeError::InvalidDpadType)
    ));
    assert!(dpad_equip_error(&ItemNameSpec::Category(Category::Shield), false).is_none());
}

#[test]
fn equip_selects_and_records_the_weapon() {
    let (mut inv, memory) = pouch();
    let mut errors = vec![];
    let meta = equip_select_meta(None, true);
    assert_eq!(meta.equip, None);
    let spec = ItemNameSpec::Actor(shield());
    let step = next_equip_target(&inv, &spec, &meta, span(), true, None, &memory, &mut errors);
    assert_eq!(
        step,
        Ok(EquipStep::Act {
            tab: 1,
            slot: 0,
            corrected_slot: 0,
            item: 0x200,
            item_type: 3,
            is_arrow: false,
            is_weapon: true,
        })
    );
    assert_eq!(finish_equip(&mut inv, 1, 0, 0x200, 3, false, true, true, &memory), Ok(()));
    assert!(inv.items.tabs[1].items[0].as_ref().unwrap().equipped);
    assert_eq!(inv.shield_state, PouchScreenEquipState { item: 0x200, to_delete: false });
    assert_eq!(inv.weapon_state, PouchScreenEquipState::default());
}

#[test]
fn equipping_an_equipped_item_warns() {
    let (inv, memory) = pouch();
    let mut errors = vec![];
    let meta = equip_select_meta(None, true);
    let spec = ItemNameSpec::Actor(sword());
    let step = next_equip_target(&inv, &spec, &meta, span(), true, None, &memory, &mut errors);
    assert_eq!(step, Ok(EquipStep::Stop { check_remaining: false }));
    assert!(errors[0].is_warning);
    assert!(matches!(errors[0].error, RuntimeError::ItemAlreadyEquipped));
}

#[test]
fn unequip_only_targets_equipped_items() {
    let (mut inv, memory) = pouch();
    let mut errors = vec![];
    let meta = equip_select_meta(None, false);
    assert_eq!(meta.equip, Some(true));
    let spec = ItemNameSpec::Category(Category::Weapon);
    let step = next_equip_target(&inv, &spec, &meta, span(), false, None, &memory, &mut errors);
    assert!(matches!(step, Ok(EquipStep::Act { tab: 0, slot: 0, item: 0x100, .. })));
    assert_eq!(finish_equip(&mut inv, 0, 0, 0x100, 0, false, true, false, &memory), Ok(()));
    assert_eq!(inv.weapon_state, PouchScreenEquipState { item: 0, to_delete: true });
    assert!(!inv.items.tabs[0].items[0].as_ref().unwrap().equipped);
}

fn matcher(n: ItemNameSpec, meta: Option<ItemMeta>) -> ItemMatchSpec {
    ItemMatchSpec { name: n, meta, span: span() }
}

fn dpad() -> (Vec<u64>, Memory) {
    let memory = Memory {
        items: vec![
            (0x10, data(sword(), 100, true)),
            (0x20, data(sword(), 200, false)),
            (0x30, data(sword(), 300, false)),
        ],
    };
    (vec![0x10, 0x20, 0x30], memory)
}

#[test]
fn dpad_menu_selection() {
    let (menu, memory) = dpad();
    let m = matcher(ItemNameSpec::Actor(sword()), None);
    let mut errors = vec![];
    assert_eq!(dpad_get_first_equipped(&menu, &memory), Ok(0x10));
    assert_eq!(dpad_matches(0x10, &m, true, &memory), Ok(false));
    assert_eq!(dpad_matches(0x10, &m, false, &memory), Ok(true));
    assert_eq!(dpad_get_amount(&menu, &m, true, &memory), Ok(2));
    assert_eq!(dpad_select(&menu, &m, true, &mut errors, &memory), Ok(Some(0x20)));
    assert_eq!(dpad_select(&menu, &m, false, &mut errors, &memory), Ok(Some(0x10)));
    // the second unequipped sword
    let mut meta = no_meta();
    meta.position = Some(ItemPosition::FromSlot(2));
    let m2 = matcher(ItemNameSpec::Actor(sword()), Some(meta));
    assert_eq!(dpad_select(&menu, &m2, true, &mut errors, &memory), Ok(Some(0x30)));
    assert_eq!(dpad_get_amount(&menu, &m2, true, &memory), Ok(1));
    assert!(errors.is_empty());
}

#[test]
fn dpad_position_and_useless_meta_warn() {
    let (menu, memory) = dpad();
    let mut errors = vec![];
    let mut meta = no_meta();
    meta.position = Some(ItemPosition::TabIdxAndSlot(0, 1));
    meta.effect_duration = Some(10);
    let m = matcher(ItemNameSpec::Actor(sword()), Some(meta));
    assert_eq!(dpad_select(&menu, &m, true, &mut errors, &memory), Ok(Some(0x20)));
    assert_eq!(errors.len(), 2);
    assert!(matches!(errors[0].error, RuntimeError::PositionSpecNotAllowed));
    assert!(matches!(errors[1].error, RuntimeError::UselessItemMatchProp));
}

#[test]
fn dpad_steps() {
    let (menu, memory) = dpad();
    let mut errors = vec![];
    let m = matcher(ItemNameSpec::Actor(sword()), None);
    assert_eq!(next_dpad_step(&menu, &m, true, &memory, &mut errors), Ok(DpadStep::Equip { item: 0x20 }));
    assert_eq!(next_dpad_step(&menu, &m, false, &memory, &mut errors), Ok(DpadStep::Unequip { item: 0x10 }));
    let b = matcher(ItemNameSpec::Actor(bow()), None);
    assert_eq!(next_dpad_step(&menu, &b, true, &memory, &mut errors), Ok(DpadStep::NotFound));
    assert!(matches!(errors[0].error, RuntimeError::CannotFindItemDpadEquip));
}

#[test]
fn sell_finds_a_stack_with_value() {
    let (inv, memory) = pouch();
    let mut errors = vec![];
    let apple_spec = ItemNameSpec::Actor(apple());
    let target = find_stack_target(&inv.items, &apple_spec, None, span(), &memory, &mut errors)
        .unwrap()
        .unwrap();
    assert_eq!((target.tab, target.slot, target.item, target.value), (2, 1, 0x400, 7));
    let mut remaining = OperationAmount::num(3);
    assert_eq!(sell_amount(&target, &mut remaining, span(), &mut errors), Some(3));
    assert_eq!(remaining.count(), Some(0));
    let mut all = OperationAmount::all();
    assert_eq!(sell_amount(&target, &mut all, span(), &mut errors), Some(7));
    assert!(errors.is_empty());
}

#[test]
fn unsellable_items_are_reported() {
    let (inv, memory) = pouch();
    let mut errors = vec![];
    let mut target = find_stack_target(&inv.items, &ItemNameSpec::Actor(sword()), None, span(), &memory, &mut errors)
        .unwrap()
        .unwrap();
    target.name.can_sell = false;
    let mut remaining = OperationAmount::num(1);
    assert_eq!(sell_amount(&target, &mut remaining, span(), &mut errors), None);
    assert_eq!(remaining.count(), Some(1));
    assert!(matches!(&errors[0].error, RuntimeError::ItemNotSellable(n) if n == "Weapon_Sword_001"));
}

#[test]
fn force_remove_writes() {
    let (inv, memory) = pouch();
    let mut errors = vec![];
    let apple_spec = ItemNameSpec::Actor(apple());
    let target = find_stack_target(&inv.items, &apple_spec, None, span(), &memory, &mut errors)
        .unwrap()
        .unwrap();
    let mut remaining = OperationAmount::num(3);
    let w = remove_write(&target, &mut remaining);
    assert_eq!((w.item, w.value, w.remove_from_inventory), (0x400, 4, false));
    let mut all = OperationAmount::all();
    let w = remove_write(&target, &mut all);
    assert_eq!((w.value, w.remove_from_inventory), (0, true));
    // a weapon is removed by slot
    let t = find_stack_target(&inv.items, &ItemNameSpec::Actor(sword()), None, span(), &memory, &mut errors)
        .unwrap()
        .unwrap();
    let mut two = OperationAmount::num(2);
    let w = remove_write(&t, &mut two);
    assert_eq!((w.item, w.value, w.remove_from_inventory), (0x100, 0, true));
    assert_eq!(two.count(), Some(1));
}

#[test]
fn drop_kinds_and_batches() {
    assert_eq!(drop_kind(&ItemNameSpec::Actor(sword())), DropKind::Weapon);
    assert_eq!(drop_kind(&ItemNameSpec::Actor(apple())), DropKind::Material);
    assert_eq!(drop_kind(&ItemNameSpec::Actor(name("Weapon_Sword_070", 0, false))), DropKind::NotDroppable);
    assert_eq!(drop_kind(&ItemNameSpec::Category(Category::Food)), DropKind::NotDroppable);
    assert_eq!(next_hold_batch(12), 5);
    assert_eq!(next_hold_batch(2), 2);
}

#[test]
fn drop_weapon_target() {
    let (inv, memory) = pouch();
    let mut errors = vec![];
    let step = next_drop_target(&inv, &ItemNameSpec::Actor(sword()), None, span(), None, &memory, &mut errors);
    assert_eq!(
        step,
        Ok(DropStep::Act { tab: 0, slot: 0, corrected_slot: 0, item: 0x100, equipped: true, item_type: 0 })
    );
    let step = next_drop_target(&inv, &ItemNameSpec::Actor(apple()), None, span(), None, &memory, &mut errors);
    assert_eq!(step, Ok(DropStep::Stop { check_remaining: false }));
    assert!(matches!(errors[0].error, RuntimeError::NotEquipment));
}

#[test]
fn add_slot_plans() {
    let apple_spec = ItemSpec { name: apple(), amount: 5, meta: None, span: span() };
    let plan = plan_add_slot(&apple_spec, 2, None);
    assert_eq!(plan.count, 1);
    assert_eq!(plan.fields.value, 5);
    assert_eq!(plan.fields.effect_id, NO_EFFECT_ID);
    let sword_spec = ItemSpec { name: sword(), amount: 2, meta: None, span: span() };
    let plan = plan_add_slot(&sword_spec, 0, Some(30));
    assert_eq!((plan.count, plan.fields.value), (2, 3000));
    let plan = plan_add_slot(&sword_spec, 0, None);
    assert_eq!((plan.count, plan.fields.value), (2, 1));
    let mut meta = no_meta();
    meta.value = Some(9);
    meta.equip = Some(true);
    meta.effect_id = Some(0x4000_0000);
    let spec = ItemSpec { name: apple(), amount: 3, meta: Some(meta), span: span() };
    let plan = plan_add_slot(&spec, 1, None);
    assert_eq!((plan.count, plan.fields.value, plan.fields.equipped), (3, 9, true));
    assert_eq!(plan.fields.effect_id, 0x4000_0000);
    assert_eq!(open_category_index(2), Some(1));
    assert_eq!(open_category_index(5), Some(3));
    assert_eq!(open_category_index(-1), None);
    assert_eq!(is_get_flag_name("Item_Fruit_A"), "IsGet_Item_Fruit_A");
}

#[test]
fn sort_caps() {
    assert_eq!(cap_times(10), 4);
    assert_eq!(cap_times(11), 5);
    assert_eq!(cap_times(3), 3);
    assert_eq!(sort_times(10, true), 10);
    assert_eq!(sort_times(10, false), 4);
    assert!(matches!(sort_error(Category::Weapon, true), Some(RuntimeError::CannotSortCategory)));
    assert!(sort_error(Category::Weapon, false).is_none());
    assert!(sort_error(Category::ArmorHead, true).is_none());
}

#[test]
fn get_modes() {
    assert_eq!(get_mode(&apple(), None, false), GetMode::Batch);
    assert_eq!(get_mode(&apple(), None, true), GetMode::OneByOne { is_weapon: false });
    assert_eq!(get_mode(&arrow(), None, false), GetMode::OneByOne { is_weapon: false });
    assert_eq!(get_mode(&sword(), None, false), GetMode::OneByOne { is_weapon: true });
    assert_eq!(get_mode(&name("Item_Cook_A_01", 8, false), None, false), GetMode::Cook);
}

#[test]
fn entangle_activates_the_slot_tab_group() {
    let (mut inv, memory) = pouch();
    let mut errors: Vec<ErrorReport> = vec![];
    let m = matcher(ItemNameSpec::Actor(apple()), None);
    assert_eq!(entangle_item(&mut inv, &m, &memory, &mut errors), Ok(()));
    assert_eq!(inv.active_pe_slot(), Some((2, 0)));
    assert!(inv.is_pe_activated_slot(2, 0, true));
    assert!(!inv.is_pe_activated_slot(1, 0, true));
    let m = matcher(ItemNameSpec::Actor(bow()), None);
    assert_eq!(entangle_item(&mut inv, &m, &memory, &mut errors), Ok(()));
    assert!(matches!(errors[0].error, RuntimeError::CannotFindItem));
}

#[test]
fn supercommand_targets_and_writes() {
    let (inv, memory) = pouch();
    let mut errors = vec![];
    let m = matcher(ItemNameSpec::Actor(shield()), None);
    assert_eq!(find_single_item_target(&inv.items, &m, &memory, &mut errors), Ok(Some(0x200)));
    let m = matcher(ItemNameSpec::Actor(bow()), None);
    assert_eq!(find_single_item_target(&inv.items, &m, &memory, &mut errors), Ok(None));
    assert_eq!(written_name(&m).map(|n| n.name.clone()), Some("Weapon_Bow_001".to_string()));
    let mut item = data(apple(), 3, false);
    let mut meta = no_meta();
    meta.value = Some(40);
    meta.effect_level = Some(0x3f80_0000);
    write_meta_to(&mut item, &meta, Some(&sword()), 5);
    assert_eq!(item.value, 40);
    assert_eq!(item.effect_level, 0);
    assert_eq!(item.item_type, 0);
    assert_eq!(item.item_use, 5);
    assert_eq!(item.name.name, "Weapon_Sword_001");
    assert_eq!(broken_slot_counts(10, 410, 3), (7, 413));
}

#[test]
fn equipping_in_the_pouch_equips_the_player_on_close() {
    let (mut inv, memory) = pouch();
    let mut errors = vec![];
    let meta = equip_select_meta(None, true);
    let spec = ItemNameSpec::Actor(shield());
    assert!(matches!(
        next_equip_target(&inv, &spec, &meta, span(), true, None, &memory, &mut errors),
        Ok(EquipStep::Act { item: 0x200, .. })
    ));
    finish_equip(&mut inv, 1, 0, 0x200, 3, false, true, true, &memory).unwrap();
    let mut sys = GameSystems::new();
    sys.screen.open_inventory(inv);
    let plan = match sys.screen.to_overworld_step(false, span(), &mut errors) {
        OverworldStep::Close(plan) => plan,
        OverworldStep::Done(_) => panic!("the inventory closes"),
    };
    sys.screen.finish_to_overworld(&mut sys.overworld, &memory, vec![], &plan).unwrap();
    assert!(sys.screen.current_screen().is_overworld());
    let shield_actor = &sys.overworld.shield.as_ref().unwrap().0;
    assert_eq!(shield_actor.name.name, "Weapon_Shield_001");
    assert_eq!(shield_actor.value, 1000);
    assert!(errors.is_empty());
}
