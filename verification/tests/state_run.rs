use std::sync::Arc;

use skybook_runtime::cir::Span;
use skybook_runtime::error::{ErrorReport, RuntimeError, RuntimeViewError};
use skybook_runtime::output::RunOutput;
use skybook_runtime::run::{Run, RunHandle};
use skybook_runtime::state::{ArgCommand, ExecuteStart, Game, GameState, ReloadSave, State, StateArgs};

type TestState = State<u32, String, String>;

fn span() -> Span {
    Span::new(10, 20)
}

#[test]
fn save_read_after_write() {
    let mut s: TestState = State::new(7);
    assert!(s.save_by_name(None).is_none());
    s.set_save_by_name(Some("a"), Arc::new("first".to_string()));
    s.set_save_by_name(Some("b"), Arc::new("second".to_string()));
    s.set_save_by_name(None, Arc::new("manual".to_string()));
    assert_eq!(*s.save_by_name(Some("a")).unwrap(), "first");
    assert_eq!(*s.save_by_name(Some("b")).unwrap(), "second");
    assert_eq!(*s.save_by_name(None).unwrap(), "manual");
    assert!(s.save_by_name(Some("c")).is_none());
    // overwriting keeps the order of the names
    s.set_save_by_name(Some("a"), Arc::new("third".to_string()));
    assert_eq!(*s.save_by_name(Some("a")).unwrap(), "third");
    assert_eq!(s.save_names(), vec!["a".to_string(), "b".to_string()]);
}

#[test]
fn args_accumulate_until_the_next_command() {
    let mut s: TestState = State::new(1);
    s.set_arg(None, ArgCommand::PauseDuring, span());
    let args = s.args.clone().unwrap();
    assert!(args.pause_during);
    assert!(!args.dpad);
    s.set_arg(Some(args), ArgCommand::Smug, span());
    let args = s.args.clone().unwrap();
    assert!(args.pause_during);
    assert_eq!(args.smug, Some(span()));
    s.set_arg(Some(Box::new(StateArgs::default())), ArgCommand::PerUse(30), span());
    assert_eq!(s.args.as_ref().unwrap().per_use, Some(30));
    assert!(!s.args.as_ref().unwrap().pause_during);
}

#[test]
fn executing_takes_the_running_game() {
    let mut s: TestState = State::new(5);
    let mut errors: Vec<ErrorReport> = vec![];
    match s.prepare_execute(false, span(), &mut errors) {
        ExecuteStart::Run(g) => assert_eq!(g.process, 5),
        _ => panic!("the game is running"),
    }
    assert!(s.game.is_uninit());
    assert!(matches!(s.prepare_execute(false, span(), &mut errors), ExecuteStart::Start));
    assert!(errors.is_empty());
}

#[test]
fn a_crashed_game_warns_once() {
    let mut s: TestState = State::new(5);
    s.game = Game::Crashed("boom".to_string());
    let mut errors: Vec<ErrorReport> = vec![];
    assert!(matches!(s.prepare_execute(false, span(), &mut errors), ExecuteStart::Skip));
    assert!(matches!(s.game, Game::PreviousCrash));
    assert!(matches!(errors[0].error, RuntimeError::PreviousCrash));
    assert!(errors[0].is_warning);
    assert!(matches!(s.prepare_execute(false, span(), &mut errors), ExecuteStart::Skip));
    assert_eq!(errors.len(), 1);
    assert!(matches!(s.prepare_execute(true, span(), &mut errors), ExecuteStart::Start));
}

#[test]
fn a_closed_game_for_commands_without_execution() {
    let mut s: TestState = State::new(5);
    let mut errors: Vec<ErrorReport> = vec![];
    assert_eq!(s.running_for_no_exec(span(), &mut errors).map(|g| g.process), Some(5));
    s.game = Game::Closed;
    assert!(s.running_for_no_exec(span(), &mut errors).is_none());
    assert!(matches!(s.game, Game::PreviousClosed));
    assert!(matches!(errors[0].error, RuntimeError::PreviousClosed));
}

#[test]
fn execution_result_becomes_the_game() {
    let mut errors: Vec<ErrorReport> = vec![];
    let g: Game<u32, String> = Game::from_execution(Ok(GameState::new(3)), span(), &mut errors);
    assert!(matches!(g, Game::Running(_)));
    let g: Game<u32, String> = Game::from_execution(Err("crash".to_string()), span(), &mut errors);
    assert!(matches!(g, Game::Crashed(ref c) if c == "crash"));
    assert!(matches!(errors[0].error, RuntimeError::Crash));
    assert!(!errors[0].is_warning);
}

fn output_of(games: Vec<Game<u32, String>>) -> RunOutput<u32, String, String> {
    let mut run: Run<u32, String, String> = Run::new(Arc::new(RunHandle::new()));
    for g in games {
        let mut s: TestState = State::new(0);
        s.game = g;
        run.record_step(s, vec![]);
    }
    run.output
}

#[test]
fn steps_past_the_end_show_the_last_state() {
    let out = output_of(vec![Game::Running(Box::new(GameState::new(1))), Game::Running(Box::new(GameState::new(2)))]);
    assert_eq!(out.states.len(), 2);
    assert_eq!(out.view_game(0).unwrap().unwrap().process, 1);
    assert_eq!(out.view_game(1).unwrap().unwrap().process, 2);
    assert_eq!(out.view_game(99).unwrap().unwrap().process, 2);
    let empty = output_of(vec![]);
    assert!(empty.get_state_by_step(0).is_none());
    assert!(matches!(empty.view_game(0), Ok(None)));
}

#[test]
fn crash_reports_last_until_the_game_runs_again() {
    let out = output_of(vec![
        Game::Running(Box::new(GameState::new(1))),
        Game::Crashed("c1".to_string()),
        Game::PreviousCrash,
        Game::Running(Box::new(GameState::new(2))),
    ]);
    assert!(out.get_crash_report(0).is_none());
    assert_eq!(out.get_crash_report(1).map(|c| c.as_str()), Some("c1"));
    assert_eq!(out.get_crash_report(2).map(|c| c.as_str()), Some("c1"));
    assert!(out.get_crash_report(3).is_none());
    assert!(matches!(out.view_game(2), Err(RuntimeViewError::Crash)));
}

#[test]
fn run_handle_aborts() {
    let handle = RunHandle::new();
    assert!(!handle.is_aborted());
    handle.abort();
    assert!(handle.is_aborted());
    assert!(!Run::<u32, String, String>::should_notify(0));
    assert!(Run::<u32, String, String>::should_notify(3));
}

#[test]
fn reloading_needs_a_save() {
    let mut s: TestState = State::new(1);
    let mut errors: Vec<ErrorReport> = vec![];
    assert!(matches!(s.save_to_reload(None, true, span(), &mut errors), ReloadSave::NewGame));
    assert!(matches!(s.save_to_reload(None, false, span(), &mut errors), ReloadSave::NotFound));
    assert!(matches!(errors[0].error, RuntimeError::NoManualSave));
    assert!(matches!(s.save_to_reload(Some("x"), false, span(), &mut errors), ReloadSave::NotFound));
    assert!(matches!(&errors[1].error, RuntimeError::SaveNotFound(n) if n == "x"));
    s.record_save(Some("x"), Some(Arc::new("data".to_string())));
    s.record_save(Some("y"), None);
    match s.save_to_reload(Some("x"), false, span(), &mut errors) {
        ReloadSave::Save(d) => assert_eq!(*d, "data"),
        _ => panic!("the save was recorded"),
    }
    assert_eq!(s.save_names(), vec!["x".to_string()]);
    assert_eq!(errors.len(), 2);
}

#[test]
fn without_steps_the_views_are_empty() {
    let empty = output_of(vec![]);
    let p = empty
        .get_pouch_list(3, |_: &u32, _: &skybook_runtime::state::GameSystems| Err(RuntimeViewError::Crash))
        .unwrap();
    assert_eq!(p.count, 0);
    assert!(p.items.is_empty() && p.tabs.is_empty());
    assert!(p.are_tabs_valid);
    assert_eq!(p.num_tabs, 0);
    assert_eq!((p.entangled_tab, p.entangled_slot), (-1, -1));
    assert!(matches!(p.screen, skybook_runtime::iv::Screen::Overworld));
    assert!(!p.is_holding_in_inventory && !p.is_arrowless_smuggle);
    let g = empty.get_save_inventory(0, Some("none"), |_: &String| Err(RuntimeViewError::Crash)).unwrap();
    assert!(g.items.is_empty());
    assert_eq!(g.info.num_weapon_slots, 0);
    assert!(!g.master_sword.is_true_form && !g.info.sword_tab_discovered);
    // a game that runs: a step past the end uses the last state
    let out = output_of(vec![Game::Running(Box::new(GameState::new(1))), Game::Running(Box::new(GameState::new(2)))]);
    let seen = |step: usize| {
        out.get_gdt_inventory(step, |p: &u32| {
            let mut g = skybook_runtime::iv::Gdt::empty();
            g.info.num_weapon_slots = *p as i32;
            Ok(g)
        })
        .unwrap()
        .info
        .num_weapon_slots
    };
    assert_eq!(seen(0), 1);
    assert_eq!(seen(1), 2);
    assert_eq!(seen(50), 2);
}
