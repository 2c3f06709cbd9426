use skybook_runtime::cir::{ActorName, Span};
use skybook_runtime::error::RuntimeError;
use skybook_runtime::memory::Memory;
use skybook_runtime::pouch_screen::{ListedItem, ListedTab, PouchScreen, PouchScreenEquipState};
use skybook_runtime::screen::{OverworldStep, Screen, ScreenSystem, ShopScreen, TransitionStep};
use skybook_runtime::screen_items::ScreenItems;
use skybook_runtime::state::GameSystems;

fn span() -> Span {
    Span::new(4, 7)
}

fn empty_inventory() -> PouchScreen {
    PouchScreen {
        items: ScreenItems { tabs: vec![] },
        active_entangle_slot: None,
        weapon_state: PouchScreenEquipState::default(),
        bow_state: PouchScreenEquipState::default(),
        shield_state: PouchScreenEquipState::default(),
    }
}

fn listed(ptr: u64, item_type: i32, in_inventory: bool) -> ListedItem {
    ListedItem {
        ptr,
        equipped: false,
        in_inventory,
        item_type,
        name: ActorName {
            name: "Item_Fruit_A".to_string(),
            pouch_type: item_type,
            can_stack: true,
            can_use: true,
            can_sell: true,
        },
    }
}

#[test]
fn opening_the_inventory() {
    let mut s = ScreenSystem::default();
    let mut errors = vec![];
    assert_eq!(s.to_inventory_step(true, span(), &mut errors), TransitionStep::Open);
    assert!(s.is_manually_switched);
    s.open_inventory(empty_inventory());
    assert!(s.current_screen().is_inventory());
    // already there: nothing to do, and a manual switch is useless
    assert_eq!(s.to_inventory_step(true, span(), &mut errors), TransitionStep::Done(true));
    assert!(matches!(errors[0].error, RuntimeError::UselessScreenTransition));
}

#[test]
fn a_manual_switch_is_not_undone_automatically() {
    let mut s = ScreenSystem::default();
    let mut errors = vec![];
    s.to_inventory_step(true, span(), &mut errors);
    s.open_inventory(empty_inventory());
    assert!(matches!(s.to_overworld_step(false, span(), &mut errors), OverworldStep::Done(false)));
    assert!(matches!(errors[0].error, RuntimeError::CannotAutoSwitchScreen));
    match s.to_overworld_step(true, span(), &mut errors) {
        OverworldStep::Close(plan) => {
            assert!(plan.closing_inventory);
            assert!(!plan.drop_items);
        }
        OverworldStep::Done(_) => panic!("the inventory closes"),
    }
    assert!(!s.is_manually_switched);
}

#[test]
fn closing_to_the_overworld_spawns_the_held_items() {
    let mut sys = GameSystems::new();
    let mut errors = vec![];
    sys.screen.open_inventory(empty_inventory());
    let plan = match sys.screen.to_overworld_step(false, span(), &mut errors) {
        OverworldStep::Close(plan) => plan,
        OverworldStep::Done(_) => panic!("the inventory closes"),
    };
    let held = vec![listed(1, 7, true).name];
    let memory = Memory { items: vec![] };
    sys.screen.finish_to_overworld(&mut sys.overworld, &memory, held, &plan).unwrap();
    assert!(sys.screen.current_screen().is_overworld());
    assert_eq!(sys.overworld.holding.len(), 1);
}

#[test]
fn the_shop_cannot_be_opened_while_holding() {
    let mut sys = GameSystems::new();
    let mut errors = vec![];
    sys.overworld.spawn_held_items(vec![listed(1, 7, true).name]);
    let r = sys.screen.to_shop_buying_step(&mut sys.overworld, false, span(), &mut errors);
    assert_eq!(r, TransitionStep::Done(false));
    assert!(matches!(errors[0].error, RuntimeError::CannotDoWhileHoldingInOverworld));
    // holding attached: the items are dropped after the dialog
    sys.overworld.set_arrowless_smuggle(true);
    let r = sys.screen.to_shop_buying_step(&mut sys.overworld, false, span(), &mut errors);
    assert_eq!(r, TransitionStep::Done(true));
    assert!(sys.screen.remove_held_item_after_dialog);
    assert!(sys.screen.current_screen().is_shop());
}

#[test]
fn selling_shows_the_items_in_the_inventory() {
    let tabs = vec![
        ListedTab { tab_type: 0, items: vec![listed(1, 0, true)] },
        ListedTab { tab_type: 7, items: vec![listed(2, 7, true), listed(3, 7, false), listed(4, 7, true)] },
    ];
    match ShopScreen::open_sell(&tabs) {
        ShopScreen::Sell(items) => {
            // only the material tab, without the translucent item
            assert_eq!(items.tabs.len(), 1);
            assert_eq!(items.tabs[0].items.len(), 2);
            assert_eq!(items.tabs[0].items[1].as_ref().unwrap().ptr, 4);
        }
        ShopScreen::Buy => panic!("a selling screen"),
    }
    let mut shop = ShopScreen::Buy;
    assert!(!shop.transition_to_buy());
    let mut s = ScreenSystem::default();
    s.open_shop_selling(ScreenItems { tabs: vec![] });
    assert!(matches!(s.current_screen(), Screen::Shop(ShopScreen::Sell(_))));
    shop = ShopScreen::Sell(ScreenItems { tabs: vec![] });
    assert!(shop.transition_to_buy());
}
