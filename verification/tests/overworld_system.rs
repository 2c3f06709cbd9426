use skybook_runtime::actor::{Actor, SpawnedActor};
use skybook_runtime::cir::{ActorName, Category, ItemMatchSpec, ItemNameSpec, Span};
use skybook_runtime::error::RuntimeError;
use skybook_runtime::memory::{Memory, PouchItemMemory};
use skybook_runtime::overworld::{BreakAction, EquippedItemHandle, OverworldPreDropResult, OverworldSystem};
use skybook_runtime::state::GameSystems;
use skybook_runtime::util::WeaponModifierInfo;

fn name(n: &str, pouch_type: i32) -> ActorName {
    ActorName {
        name: n.to_string(),
        pouch_type,
        can_stack: pouch_type == 7,
        can_use: false,
        can_sell: true,
    }
}

fn weapon(n: &str, value: i32) -> Actor {
    Actor { name: name(n, 0), value, modifier: None }
}

#[test]
fn holding_and_dropping_materials() {
    let mut ow = OverworldSystem::new();
    assert!(!ow.is_holding());
    ow.spawn_held_items(vec![name("Item_Fruit_A", 7), name("Item_Fruit_B", 7)]);
    assert!(ow.is_holding());
    assert_eq!(ow.holding.len(), 2);
    let mut errors = vec![];
    let r = ow.predrop_for_action(Span::new(0, 1), &mut errors);
    assert_eq!(r, OverworldPreDropResult::Holding);
    assert!(matches!(errors[0].error, RuntimeError::CannotDoWhileHoldingInOverworld));
    ow.drop_held_items();
    assert!(!ow.is_holding());
    assert_eq!(ow.dropped_materials.len(), 2);
    assert_eq!(ow.predrop_for_action(Span::new(0, 1), &mut errors), OverworldPreDropResult::Ready);
}

#[test]
fn smuggled_items_are_dropped_automatically() {
    let mut ow = OverworldSystem::new();
    ow.spawn_held_items(vec![name("Item_Fruit_A", 7)]);
    ow.set_arrowless_smuggle(true);
    assert!(ow.is_holding_arrowless_smuggled());
    let mut errors = vec![];
    assert_eq!(ow.predrop_for_action(Span::new(0, 1), &mut errors), OverworldPreDropResult::AutoDrop);
    assert!(errors.is_empty());
}

#[test]
fn overloaded_menu_spawns_nothing() {
    let mut ow = OverworldSystem::new();
    ow.set_menu_overload(true);
    assert!(ow.menu_overloaded());
    ow.spawn_held_items(vec![name("Item_Fruit_A", 7)]);
    assert!(!ow.is_holding());
}

#[test]
fn auto_equip_only_fills_an_empty_slot() {
    let mut ow = OverworldSystem::new();
    assert!(ow.try_auto_equip(Ok(weapon("Weapon_Sword_001", 800))));
    assert_eq!(ow.weapon.as_ref().unwrap().0.value, 800);
    assert!(!ow.try_auto_equip(Ok(weapon("Weapon_Sword_002", 500))));
    assert_eq!(ow.weapon.as_ref().unwrap().0.name.name, "Weapon_Sword_001");
    // materials are never equipped
    let apple = Actor { name: name("Item_Fruit_A", 7), value: 1, modifier: None };
    assert!(!ow.try_auto_equip(Ok(apple)));
}

#[test]
fn damage_and_break() {
    let mut ow = OverworldSystem::new();
    ow.weapon = Some(SpawnedActor(weapon("Weapon_Sword_001", 250)));
    let d = ow.damage_equipment(0, 100, false);
    assert!(!d.is_empty);
    assert_eq!(d.new_value, Some(150));
    assert_eq!(ow.weapon.as_ref().unwrap().0.value, 150);
    let d = ow.damage_equipment(0, 200, false);
    assert!(d.is_empty);
    assert_eq!(d.new_value, Some(0));
    assert!(matches!(d.break_action, Some(BreakAction::RemoveWeapon(ref n)) if n == "Weapon_Sword_001"));
    assert!(ow.weapon.is_none());
    // no equipment: nothing happens
    let d = ow.damage_equipment(3, 10, false);
    assert!(d.is_empty && d.new_value.is_none() && d.break_action.is_none());
}

#[test]
fn true_form_master_sword_takes_a_fifth() {
    let mut ow = OverworldSystem::new();
    ow.weapon = Some(SpawnedActor(weapon("Weapon_Sword_070", 4000)));
    let d = ow.damage_equipment(0, 100, true);
    assert_eq!(d.new_value, Some(3980));
    let d = ow.damage_equipment(0, 5000, false);
    assert!(matches!(d.break_action, Some(BreakAction::BreakMasterSword)));
}

#[test]
fn player_equipment_from_the_pouch() {
    let mut ow = OverworldSystem::new();
    let memory = Memory {
        items: vec![(
            0x80,
            PouchItemMemory {
                name: name("Weapon_Sword_003", 0),
                item_type: 0,
                item_use: 0,
                value: 1200,
                equipped: true,
                in_inventory: true,
                health_recover: 5,
                effect_duration: 0,
                sell_price: 1,
                effect_id: 0,
                effect_level: 0,
                ingredients: vec![],
            },
        )],
    };
    assert_eq!(ow.change_player_equipment(0x80, &memory), Ok(true));
    let a = &ow.weapon.as_ref().unwrap().0;
    assert_eq!(a.value, 1200);
    assert_eq!(a.modifier, Some(WeaponModifierInfo { flags: 1, value: 5 }));
    assert_eq!(ow.change_player_equipment(0, &memory), Ok(false));
    assert!(ow.change_player_equipment(0x90, &memory).is_err());
    ow.drop_player_equipment(0);
    assert!(ow.weapon.is_none());
    assert_eq!(ow.ground_weapons.len(), 1);
}

#[test]
fn weapons_spawn_when_back_in_the_overworld() {
    let mut sys = GameSystems::new();
    sys.overworld.spawn_weapon_later(weapon("Weapon_Sword_001", 100));
    sys.check_weapon_spawn();
    assert!(sys.overworld.spawning_ground_weapons.is_empty());
    assert_eq!(sys.overworld.ground_weapons.len(), 1);
}

#[test]
fn a_category_selects_the_equipment_of_that_category() {
    let mut ow = OverworldSystem::new();
    ow.weapon = Some(SpawnedActor(weapon("Weapon_Sword_001", 800)));
    ow.bow = Some(SpawnedActor(Actor { name: name("Weapon_Bow_001", 1), value: 2000, modifier: None }));
    ow.shield = Some(SpawnedActor(Actor { name: name("Weapon_Shield_001", 3), value: 1000, modifier: None }));
    let select = |c: Category| ItemMatchSpec { name: ItemNameSpec::Category(c), meta: None, span: Span::new(0, 1) };
    let mut errors = vec![];
    assert!(matches!(ow.equipped_select(&select(Category::Weapon), &mut errors), Some(EquippedItemHandle::Weapon(()))));
    assert!(matches!(ow.equipped_select(&select(Category::Bow), &mut errors), Some(EquippedItemHandle::Bow(()))));
    assert!(matches!(ow.equipped_select(&select(Category::Shield), &mut errors), Some(EquippedItemHandle::Shield(()))));
    assert!(errors.is_empty());
    ow.bow = None;
    assert!(ow.equipped_select(&select(Category::Bow), &mut errors).is_none());
    assert!(matches!(errors[0].error, RuntimeError::NotEquippedInOverworld));
}
