use skybook_runtime::amount::{
    check_overworld_amount, check_remaining, convert_amount, convert_amount_needs_count,
    ItemSelectCheck, OperationAmount,
};
use skybook_runtime::cir::{
    ActorName, AmountSpec, Category, ItemMatchSpec, ItemNameSpec, ItemSelectSpec, Span,
};
use skybook_runtime::error::{ErrorReport, MaybeAborted, RuntimeError, RuntimeInitError};
use skybook_runtime::float_bits::f32_bits_to_i32;
use skybook_runtime::iv::{get_next_tab_head, Pointer, PouchTab};
use skybook_runtime::runtime::{
    parse_hex, parse_region_addr, resolve_init_params, RuntimeInitParams,
};
use skybook_runtime::util::{
    is_animated_icon_actor, is_hero_soul, modifier_meta_matches_by_is_weapon,
    should_go_to_next_tab, sorted_u64,
};

fn span() -> Span {
    Span::new(1, 5)
}

fn actor(name: &str) -> ActorName {
    ActorName {
        name: name.to_string(),
        pouch_type: 7,
        can_stack: true,
        can_use: false,
        can_sell: true,
    }
}

#[test]
fn hero_souls_are_animated_icons() {
    assert!(is_hero_soul("Obj_HeroSoul_Zora"));
    assert!(is_hero_soul("Obj_DLC_HeroSoul_Gerudo"));
    assert!(!is_hero_soul("Obj_HeroSoul"));
    assert!(is_animated_icon_actor("Obj_HeroSoul_Rito"));
    assert!(is_animated_icon_actor("Obj_DungeonClearSeal"));
    assert!(is_animated_icon_actor("Obj_WarpDLC"));
    assert!(!is_animated_icon_actor("Item_Fruit_A"));
}

#[test]
fn single_bit_modifier_matches_any_weapon_with_the_bit() {
    // attack up is one bit: matches any modifier flags with that bit
    assert!(modifier_meta_matches_by_is_weapon(true, 1, 0b101));
    assert!(!modifier_meta_matches_by_is_weapon(true, 2, 0b101));
    // several bits must match exactly
    assert!(!modifier_meta_matches_by_is_weapon(true, 3, 0b111));
    assert!(modifier_meta_matches_by_is_weapon(true, 3, 3));
    // not a weapon: exact price
    assert!(!modifier_meta_matches_by_is_weapon(false, 1, 0b101));
    assert!(modifier_meta_matches_by_is_weapon(false, 0, 0));
}

#[test]
fn sorting_pointers() {
    assert_eq!(sorted_u64(vec![5, 1, 4, 1, 3]), vec![1, 1, 3, 4, 5]);
    assert_eq!(sorted_u64(vec![]), Vec::<u64>::new());
}

#[test]
fn next_tab_is_reached_at_the_next_head() {
    let mut heads = [0u64; 50];
    heads[0] = 100;
    heads[1] = 200;
    assert!(!should_go_to_next_tab(100, 0, 2, &heads));
    assert!(should_go_to_next_tab(200, 0, 2, &heads));
    assert!(should_go_to_next_tab(0, 0, 2, &heads));
    // the last tab goes on until the end of the list
    assert!(!should_go_to_next_tab(200, 1, 2, &heads));
}

#[test]
fn next_tab_head_skips_empty_tabs() {
    let tabs = vec![
        PouchTab { item_idx: 0, tab_type: 0 },
        PouchTab { item_idx: -1, tab_type: 1 },
        PouchTab { item_idx: 3, tab_type: 3 },
    ];
    assert_eq!(get_next_tab_head(&tabs, 0), (0, 0));
    assert_eq!(get_next_tab_head(&tabs, 1), (2, 3));
    assert_eq!(get_next_tab_head(&tabs, 3), (0, -1));
}

#[test]
fn pointer_round_trip() {
    assert_eq!(Pointer::from_u64(0x1234).as_u64(), 0x1234);
}

#[test]
fn maybe_aborted_unwrap_gives_the_output() {
    assert_eq!(MaybeAborted::Completed(3).unwrap(), 3);
}

#[test]
fn float_to_int_conversion_matches_as() {
    let values: [f32; 22] = [
        0.0, -0.0, 1.0, -1.0, 1.5, -1.5, 0.999, 123456.78, -98765.4, 2147483520.0, 2147483648.0,
        -2147483648.0, -2147483904.0, 1e20, -1e20, f32::INFINITY, f32::NEG_INFINITY, f32::NAN,
        f32::MIN_POSITIVE, 1e-40, 16777217.0, 8388609.5,
    ];
    for v in values {
        assert_eq!(f32_bits_to_i32(v.to_bits()), v as i32, "value {v}");
    }
    assert_eq!(f32_bits_to_i32(30.7f32.to_bits()), 30);
    assert_eq!(f32_bits_to_i32((-30.7f32).to_bits()), -30);
}

#[test]
fn parse_hex_numbers() {
    assert_eq!(parse_hex("0x10"), Some(16));
    assert_eq!(parse_hex("0xff"), Some(255));
    assert_eq!(parse_hex("0xFF"), Some(255));
    assert_eq!(parse_hex("0x+a"), Some(10));
    assert_eq!(parse_hex("0x"), None);
    assert_eq!(parse_hex("10"), None);
    assert_eq!(parse_hex("0xg"), None);
    assert_eq!(parse_hex("0xffffffffffffffff"), Some(u64::MAX));
    assert_eq!(parse_hex("0x10000000000000000"), None);
}

#[test]
fn region_addresses_have_only_the_region_bits() {
    assert_eq!(parse_region_addr("0x0000001234500000"), Some(0x1234500000));
    assert_eq!(parse_region_addr("0x0000001234500001"), None);
    assert_eq!(parse_region_addr("0x0000011234500000"), None);
    assert_eq!(parse_region_addr("garbage"), None);
}

fn params() -> RuntimeInitParams {
    RuntimeInitParams {
        dlc: 3,
        program_start: String::new(),
        stack_start: String::new(),
        stack_size: 0,
        heap_free_size: 0,
        pmdm_addr: String::new(),
    }
}

#[test]
fn init_params_defaults() {
    let r = resolve_init_params(None, 0x1234500000, true).unwrap();
    assert_eq!(r.dlc, 3);
    assert_eq!(r.stack_start, 0x8888800000);
    assert_eq!(r.pmdm_addr, 0x2222248358);
    assert_eq!(r.heap_free_size, 20480000);
    assert_eq!(r.stack_size, 0x4000);
    let r = resolve_init_params(Some(&params()), 0x1234500000, true).unwrap();
    assert_eq!(r.stack_start, 0x8888800000);
}

#[test]
fn init_params_errors() {
    let mut p = params();
    p.program_start = "0x0000000000500000".to_string();
    match resolve_init_params(Some(&p), 0x1234500000, true) {
        Err(RuntimeInitError::ProgramStartMismatch(a, b)) => {
            assert_eq!(a, "0x0000001234500000");
            assert_eq!(b, "0x0000000000500000");
        }
        _ => panic!("expected a mismatch"),
    }
    let mut p = params();
    p.dlc = 4;
    assert_eq!(resolve_init_params(Some(&p), 0, true), Err(RuntimeInitError::BadDlcVersion(4)));
    assert_eq!(resolve_init_params(None, 0, false), Err(RuntimeInitError::UnsupportedVersion));
    let mut p = params();
    p.stack_start = "0x1".to_string();
    assert_eq!(resolve_init_params(Some(&p), 0, true), Err(RuntimeInitError::InvalidStackStart));
    let mut p = params();
    p.pmdm_addr = "nope".to_string();
    assert_eq!(resolve_init_params(Some(&p), 0, true), Err(RuntimeInitError::InvalidPmdmAddr));
    let mut p = params();
    p.heap_free_size = 40960001;
    assert_eq!(resolve_init_params(Some(&p), 0, true), Err(RuntimeInitError::HeapTooBig));
    // a program start that cannot be parsed is not checked
    let mut p = params();
    p.program_start = "zzz".to_string();
    p.heap_free_size = 100;
    p.stack_size = 7;
    let r = resolve_init_params(Some(&p), 0, true).unwrap();
    assert_eq!((r.heap_free_size, r.stack_size), (100, 7));
}

fn select_spec(amount: AmountSpec) -> ItemSelectSpec {
    ItemSelectSpec {
        matcher: ItemMatchSpec { name: ItemNameSpec::Actor(actor("Item_Fruit_A")), meta: None, span: span() },
        amount,
    }
}

#[test]
fn amount_counting_down() {
    let mut a = OperationAmount::num(3);
    let mut errors: Vec<ErrorReport> = vec![];
    assert!(!a.is_done(span(), &mut errors));
    a.sub(2);
    assert_eq!(a.count(), Some(1));
    assert_eq!(a.check(span(), &mut errors, 0), ItemSelectCheck::NeedMore(1));
    a.sub(5);
    assert_eq!(a.count(), Some(0));
    assert!(a.is_done(span(), &mut errors));
    assert_eq!(a.check(span(), &mut errors, 0), ItemSelectCheck::Done);
    assert!(errors.is_empty());
    let b = OperationAmount::num(2);
    assert_eq!(b.check(span(), &mut errors, 0), ItemSelectCheck::NeverFound);
    let mut c = OperationAmount::all();
    assert_eq!(c.check(span(), &mut errors, 0), ItemSelectCheck::NeverFound);
    c.sub(4);
    assert_eq!(c.count(), None);
    assert_eq!(c.check(span(), &mut errors, 0), ItemSelectCheck::Done);
}

#[test]
fn amount_iteration_limit() {
    let mut a = OperationAmount::all();
    let mut errors: Vec<ErrorReport> = vec![];
    for _ in 0..2 {
        assert!(!a.is_done_allowing_iterations(span(), &mut errors, 2));
    }
    assert!(a.is_done_allowing_iterations(span(), &mut errors, 2));
    assert_eq!(errors.len(), 1);
    assert!(matches!(errors[0].error, RuntimeError::TooManyIterations));
    assert!(!errors[0].is_warning);
}

#[test]
fn all_but_is_converted_with_the_count() {
    let mut errors: Vec<ErrorReport> = vec![];
    assert!(convert_amount_needs_count(AmountSpec::AllBut(1), false));
    assert!(convert_amount_needs_count(AmountSpec::All, true));
    assert!(!convert_amount_needs_count(AmountSpec::All, false));
    assert!(!convert_amount_needs_count(AmountSpec::Num(3), true));
    let a = convert_amount(AmountSpec::AllBut(2), span(), &mut errors, false, 5);
    assert_eq!(a, OperationAmount::all_but(3, 2));
    assert!(errors.is_empty());
    let a = convert_amount(AmountSpec::AllBut(7), span(), &mut errors, false, 5);
    assert_eq!(a, OperationAmount::all_but(0, 7));
    assert!(matches!(errors[0].error, RuntimeError::NotEnoughForAllBut(7, 5)));
    assert_eq!(convert_amount(AmountSpec::All, span(), &mut errors, true, 4), OperationAmount::num(4));
    assert_eq!(convert_amount(AmountSpec::All, span(), &mut errors, false, 4), OperationAmount::all());
    assert_eq!(convert_amount(AmountSpec::Num(9), span(), &mut errors, false, 4), OperationAmount::num(9));
}

#[test]
fn inaccurate_all_but_warns() {
    let mut errors: Vec<ErrorReport> = vec![];
    let mut a = OperationAmount::all_but(2, 1);
    a.sub(2);
    assert!(a.check_needs_count());
    // one item was supposed to be left
    assert_eq!(a.check(span(), &mut errors, 1), ItemSelectCheck::Done);
    assert!(errors.is_empty());
    assert_eq!(a.check(span(), &mut errors, 3), ItemSelectCheck::Done);
    assert!(matches!(errors[0].error, RuntimeError::InaccurateAllBut));
    assert!(errors[0].is_warning);
}

#[test]
fn overworld_amount_must_be_one() {
    let mut errors: Vec<ErrorReport> = vec![];
    check_overworld_amount(&select_spec(AmountSpec::Num(1)), &mut errors);
    assert!(errors.is_empty());
    check_overworld_amount(&select_spec(AmountSpec::All), &mut errors);
    assert!(matches!(errors[0].error, RuntimeError::UselessAmountForOverworldEquipment));
}

#[test]
fn remaining_errors() {
    let mut errors: Vec<ErrorReport> = vec![];
    check_remaining(ItemSelectCheck::Done, &mut errors, span(), false);
    assert!(errors.is_empty());
    check_remaining(ItemSelectCheck::NeverFound, &mut errors, span(), false);
    check_remaining(ItemSelectCheck::NeedMore(2), &mut errors, span(), true);
    assert!(matches!(errors[0].error, RuntimeError::CannotFindItem));
    assert!(matches!(errors[1].error, RuntimeError::CannotFindGroundItemNeedMore(2)));
    let _ = Category::Food;
}

#[test]
fn program_start_is_shown_in_lowercase_hex() {
    let mut p = params();
    p.program_start = "0x000000ABCDE00000".to_string();
    match resolve_init_params(Some(&p), 0xfedcb00000, true) {
        Err(RuntimeInitError::ProgramStartMismatch(a, b)) => {
            assert_eq!(a, "0x000000fedcb00000");
            assert_eq!(b, "0x000000abcde00000");
        }
        _ => panic!("expected a mismatch"),
    }
}
