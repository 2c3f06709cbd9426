//! The state of one step in the simulation: the game (running, crashed or closed), the
//! arguments set for the next command, and the saves
use std::sync::Arc;

use vstd::prelude::*;

use crate::cir::{ItemSelectSpec, Span};
use crate::error::{spec_error, spec_warning, ErrorReport, RuntimeError};
use crate::overworld::{spec_spawned, OverworldSystem};
use crate::screen::ScreenSystem;
use crate::util::str_eq;

verus! {

/// `Arc::clone`: another pointer to the same value
#[verifier::external_body]
fn share<T>(a: &Arc<T>) -> (r: Arc<T>)
    ensures
        *r == **a,
{
    Arc::clone(a)
}

/// State args that could affect execution of the next command
#[derive(Debug, Clone)]
pub struct StateArgs {
    /// Perform item smuggle for arrowless offset
    pub smug: Option<Span>,
    /// Open the pause menu during the next command (effect may differ depending on the
    /// command)
    pub pause_during: bool,
    /// Perform the next operation in the same dialog
    pub same_dialog: bool,
    /// Disable optimizations that may affect accuracy
    pub accurately_simulate: bool,
    /// Target item for PE (item that receives the prompt)
    pub entangle_target: Option<ItemSelectSpec>,
    /// Specify the action should be done in overworld, if possible in both overworld and
    /// another screen
    pub overworld: bool,
    /// Specify the action should be done in dpad quick menu, if possible in both dpad and
    /// pause menu
    pub dpad: bool,
    /// Specify weapon throw to not break the weapon
    pub non_breaking: bool,
    /// Specify weapon throw to break the weapon
    pub breaking: bool,
    /// Specify how much value is decreased per use
    pub per_use: Option<i32>,
}

/// The empty arguments
pub open spec fn spec_default_args() -> StateArgs {
    StateArgs {
        smug: None,
        pause_during: false,
        same_dialog: false,
        accurately_simulate: false,
        entangle_target: None,
        overworld: false,
        dpad: false,
        non_breaking: false,
        breaking: false,
        per_use: None,
    }
}

impl Default for StateArgs {
    fn default() -> (r: StateArgs)
        ensures
            r == spec_default_args(),
    {
        StateArgs {
            smug: None,
            pause_during: false,
            same_dialog: false,
            accurately_simulate: false,
            entangle_target: None,
            overworld: false,
            dpad: false,
            non_breaking: false,
            breaking: false,
            per_use: None,
        }
    }
}

/// A command of the script that only sets an argument of the next command
#[derive(Debug, Clone)]
pub enum ArgCommand {
    Smug,
    PauseDuring,
    SameDialog,
    AccuratelySimulate,
    Targeting(ItemSelectSpec),
    Overworld,
    Dpad,
    NonBreaking,
    Breaking,
    PerUse(i32),
}

/// The arguments with the one of the command set; the span is that of the command
pub open spec fn spec_set_arg(args: StateArgs, command: ArgCommand, span: Span) -> StateArgs {
    match command {
        ArgCommand::Smug => StateArgs { smug: Some(span), ..args },
        ArgCommand::PauseDuring => StateArgs { pause_during: true, ..args },
        ArgCommand::SameDialog => StateArgs { same_dialog: true, ..args },
        ArgCommand::AccuratelySimulate => StateArgs { accurately_simulate: true, ..args },
        ArgCommand::Targeting(spec) => StateArgs { entangle_target: Some(spec), ..args },
        ArgCommand::Overworld => StateArgs { overworld: true, ..args },
        ArgCommand::Dpad => StateArgs { dpad: true, ..args },
        ArgCommand::NonBreaking => StateArgs { non_breaking: true, ..args },
        ArgCommand::Breaking => StateArgs { breaking: true, ..args },
        ArgCommand::PerUse(x) => StateArgs { per_use: Some(x), ..args },
    }
}

/// Simulated systems in the game
#[derive(Debug, Clone)]
pub struct GameSystems {
    /// Simulation of screens in the game
    pub screen: ScreenSystem,
    /// Simulation of the overworld
    pub overworld: OverworldSystem,
}

/// The systems of a game that just started: the overworld, nothing on the ground or held,
/// no screen flag set
pub open spec fn spec_is_new_systems(r: GameSystems) -> bool {
    &&& r.screen.screen is Overworld
    &&& !r.screen.is_manually_switched
    &&& !r.screen.menu_overload
    &&& !r.screen.remove_held_item_after_dialog
    &&& r.screen.equipped_items_to_remove_after_dialog@.len() == 0
    &&& !r.screen.holding_in_inventory
    &&& r.overworld.actor_creator.is_actor_creation_allowed
    &&& r.overworld.weapon is None
    &&& r.overworld.bow is None
    &&& r.overworld.shield is None
    &&& r.overworld.spawning_ground_weapons@.len() == 0
    &&& r.overworld.ground_weapons@.len() == 0
    &&& r.overworld.ground_materials@.len() == 0
    &&& r.overworld.dropped_materials@.len() == 0
    &&& r.overworld.holding@.len() == 0
    &&& !r.overworld.is_hold_arrowless_smuggle
}

impl GameSystems {
    /// The systems of a game that just started
    pub fn new() -> (r: GameSystems)
        ensures
            spec_is_new_systems(r),
            r.screen.screen is Overworld,
            !r.screen.is_manually_switched,
            !r.screen.menu_overload,
            !r.screen.remove_held_item_after_dialog,
            r.screen.equipped_items_to_remove_after_dialog@.len() == 0,
            !r.screen.holding_in_inventory,
            r.overworld.actor_creator.is_actor_creation_allowed,
            r.overworld.weapon is None,
            r.overworld.bow is None,
            r.overworld.shield is None,
            r.overworld.spawning_ground_weapons@.len() == 0,
            r.overworld.ground_weapons@.len() == 0,
            r.overworld.ground_materials@.len() == 0,
            r.overworld.dropped_materials@.len() == 0,
            r.overworld.holding@.len() == 0,
            !r.overworld.is_hold_arrowless_smuggle,
    {
        GameSystems { screen: ScreenSystem::default(), overworld: OverworldSystem::new() }
    }

    /// Process weapon spawning if in overworld: the weapons waiting to spawn do spawn,
    /// unless the menu is overloaded (then they are cleared)
    pub fn check_weapon_spawn(&mut self)
        ensures
            final(self).screen == old(self).screen,
            !(old(self).screen.screen is Overworld) ==> final(self).overworld == old(self).overworld,
            old(self).screen.screen is Overworld ==> {
                &&& final(self).overworld.spawning_ground_weapons@.len() == 0
                &&& final(self).overworld.ground_weapons@ == if old(self).screen.menu_overload {
                    old(self).overworld.ground_weapons@
                } else {
                    old(self).overworld.ground_weapons@ + spec_spawned(
                        old(self).overworld.spawning_ground_weapons@,
                    )
                }
                &&& final(self).overworld == (OverworldSystem {
                    ground_weapons: final(self).overworld.ground_weapons,
                    spawning_ground_weapons: final(self).overworld.spawning_ground_weapons,
                    ..old(self).overworld
                })
            },
    {
        if self.screen.current_screen().is_overworld() {
            if !self.screen.menu_overload {
                self.overworld.spawn_ground_weapons();
            } else {
                self.overworld.clear_spawning_weapons();
            }
        }
    }
}

/// The state of the running game in the simulator
#[derive(Debug, Clone)]
pub struct GameState<P> {
    /// Running game's process
    pub process: P,
    /// Simulated systems in the game
    pub systems: GameSystems,
}

impl<P> GameState<P> {
    /// A game that just started with the process
    pub fn new(process: P) -> (r: GameState<P>)
        ensures
            r.process == process,
            spec_is_new_systems(r.systems),
    {
        GameState { process, systems: GameSystems::new() }
    }
}

/// The game in a step, with the crash report `C` of a crash
#[derive(Debug, Clone)]
pub enum Game<P, C> {
    /// Game is never started
    ///
    /// This is the only state that the simulator will allow auto-starting a new game
    Uninit,
    /// Game is running
    Running(Box<GameState<P>>),
    /// Game has crashed in the last step
    Crashed(C),
    /// Game has crashed in a previous step
    PreviousCrash,
    /// Game was manually closed in the last step
    Closed,
    /// Game was manually closed in a previous step
    PreviousClosed,
}

/// The game taken out of a state to execute a step
#[derive(Debug, Clone)]
pub enum TakeGame<P> {
    Uninit,
    Running(Box<GameState<P>>),
    Crashed,
    PreviousCrash,
    Closed,
    PreviousClosed,
}

impl<P, C> Game<P, C> {
    /// Take out the game state if it's running (the game is then `Uninit`)
    ///
    /// If `uninit_if_not_running` is true, it will return `Uninit` if the game is not
    /// running for any reason
    pub fn take_for_execute(&mut self, uninit_if_not_running: bool) -> (r: TakeGame<P>)
        ensures
            match *old(self) {
                Game::Uninit => r is Uninit && *final(self) is Uninit,
                Game::Running(g) => r == TakeGame::Running(g) && *final(self) is Uninit,
                Game::Crashed(_) => *final(self) == *old(self) && r == if uninit_if_not_running {
                    TakeGame::<P>::Uninit
                } else {
                    TakeGame::<P>::Crashed
                },
                Game::PreviousCrash => *final(self) == *old(self) && r == if uninit_if_not_running {
                    TakeGame::<P>::Uninit
                } else {
                    TakeGame::<P>::PreviousCrash
                },
                Game::Closed => *final(self) == *old(self) && r == if uninit_if_not_running {
                    TakeGame::<P>::Uninit
                } else {
                    TakeGame::<P>::Closed
                },
                Game::PreviousClosed => *final(self) == *old(self) && r
                    == if uninit_if_not_running {
                    TakeGame::<P>::Uninit
                } else {
                    TakeGame::<P>::PreviousClosed
                },
            },
    {
        match self {
            Game::Uninit => TakeGame::Uninit,
            Game::Crashed(_) => if uninit_if_not_running {
                TakeGame::Uninit
            } else {
                TakeGame::Crashed
            },
            Game::PreviousCrash => if uninit_if_not_running {
                TakeGame::Uninit
            } else {
                TakeGame::PreviousCrash
            },
            Game::Closed => if uninit_if_not_running {
                TakeGame::Uninit
            } else {
                TakeGame::Closed
            },
            Game::PreviousClosed => if uninit_if_not_running {
                TakeGame::Uninit
            } else {
                TakeGame::PreviousClosed
            },
            Game::Running(_) => {
                let mut taken: Game<P, C> = Game::Uninit;
                std::mem::swap(&mut taken, self);
                match taken {
                    Game::Running(g) => TakeGame::Running(g),
                    _ => vstd::pervasive::unreached(),
                }
            },
        }
    }

    /// The game after executing a step on a running game: running, or crashed (with an
    /// error) if the execution crashed
    pub fn from_execution(result: Result<GameState<P>, C>, span: Span, errors: &mut Vec<ErrorReport>) -> (r:
        Game<P, C>)
        ensures
            match result {
                Ok(g) => r == Game::<P, C>::Running(Box::new(g)) && final(errors)@ == old(errors)@,
                Err(c) => r == Game::<P, C>::Crashed(c) && final(errors)@ == old(errors)@.push(
                    spec_error(span, RuntimeError::Crash),
                ),
            },
    {
        match result {
            Ok(g) => Game::Running(Box::new(g)),
            Err(c) => {
                errors.push(ErrorReport::error(span, RuntimeError::Crash));
                Game::Crashed(c)
            },
        }
    }

    pub fn is_uninit(&self) -> (r: bool)
        ensures
            r == (*self is Uninit),
    {
        match self {
            Game::Uninit => true,
            _ => false,
        }
    }
}

/// What executing a command on the state does next
#[derive(Debug, Clone)]
pub enum ExecuteStart<P> {
    /// The game does not run: the state stays as it is
    Skip,
    /// Execute on the running game
    Run(Box<GameState<P>>),
    /// Start a new game from the initial process, then execute on it
    Start,
}

/// The save a reload loads
pub enum ReloadSave<S> {
    /// The save of a new game, from the initial process
    NewGame,
    /// A save of the state
    Save(Arc<S>),
    /// There is no such save
    NotFound,
}

/// The state of one step in the simulation, with the game process `P`, the crash report
/// `C` and the save data `S`
#[derive(Debug, Clone)]
pub struct State<P, C, S> {
    /// Current game state
    pub game: Game<P, C>,
    /// Current args
    pub args: Option<Box<StateArgs>>,
    /// Named save data, in insertion order so the order doesn't feel random to users
    pub saves: Vec<(String, Arc<S>)>,
    /// The "manual" or "default" save (what is used if a name is not specified when
    /// saving)
    pub manual_save: Option<Arc<S>>,
}

/// `i` is the first save with the name
pub open spec fn spec_is_save_of<S>(saves: Seq<(String, Arc<S>)>, name: Seq<char>, i: int) -> bool {
    &&& 0 <= i < saves.len()
    &&& saves[i].0@ == name
    &&& forall|k: int| 0 <= k < i ==> saves[k].0@ != name
}

/// The named save, if there is one
pub open spec fn spec_named_save<S>(saves: Seq<(String, Arc<S>)>, name: Seq<char>) -> Option<S> {
    if exists|i: int| spec_is_save_of(saves, name, i) {
        let i = choose|i: int| spec_is_save_of(saves, name, i);
        Some(*saves[i].1)
    } else {
        None
    }
}

/// Two first saves of a name are the same save
pub proof fn lemma_save_of_unique<S>(saves: Seq<(String, Arc<S>)>, name: Seq<char>, i: int, j: int)
    requires
        spec_is_save_of(saves, name, i),
        spec_is_save_of(saves, name, j),
    ensures
        i == j,
{
}

/// `after` is `before` with the save of the name (the manual save for `None`) set to
/// `data`: a named save with the same name is replaced, otherwise the new save comes last
pub open spec fn spec_saved<P, C, S>(
    before: State<P, C, S>,
    name: Option<Seq<char>>,
    data: Arc<S>,
    after: State<P, C, S>,
) -> bool {
    &&& after.game == before.game
    &&& after.args == before.args
    &&& match name {
        None => after.manual_save == Some(data) && after.saves@ == before.saves@,
        Some(n) => after.manual_save == before.manual_save && if exists|i: int|
            spec_is_save_of(before.saves@, n, i) {
            let i = choose|i: int| spec_is_save_of(before.saves@, n, i);
            after.saves@ == before.saves@.update(i, (before.saves@[i].0, data))
        } else {
            after.saves@.len() == before.saves@.len() + 1 && after.saves@.take(
                before.saves@.len() as int,
            ) == before.saves@ && after.saves@.last().0@ == n && after.saves@.last().1 == data
        },
    }
}

/// A name held by some save has a first save
pub proof fn lemma_first_save<S>(saves: Seq<(String, Arc<S>)>, name: Seq<char>, k: int)
    requires
        0 <= k < saves.len(),
        saves[k].0@ == name,
    ensures
        exists|i: int| spec_is_save_of(saves, name, i),
    decreases k,
{
    if exists|j: int| 0 <= j < k && saves[j].0@ == name {
        let j = choose|j: int| 0 <= j < k && saves[j].0@ == name;
        lemma_first_save(saves, name, j);
    } else {
        assert(spec_is_save_of(saves, name, k));
    }
}

/// Saves that agree on the names and on the data of the saves of `name` give the same
/// save of `name`
pub proof fn lemma_same_named_save<S>(a: Seq<(String, Arc<S>)>, b: Seq<(String, Arc<S>)>, name: Seq<char>)
    requires
        forall|k: int| 0 <= k < a.len() && 0 <= k < b.len() ==> a[k].0@ == b[k].0@,
        forall|k: int| 0 <= k < a.len() && 0 <= k < b.len() && a[k].0@ == name ==> a[k].1 == b[k].1,
        forall|k: int| b.len() <= k < a.len() ==> a[k].0@ != name,
        forall|k: int| a.len() <= k < b.len() ==> b[k].0@ != name,
    ensures
        spec_named_save(a, name) == spec_named_save(b, name),
{
    assert forall|k: int| spec_is_save_of(a, name, k) <==> spec_is_save_of(b, name, k) by {
        if spec_is_save_of(a, name, k) {
            assert forall|j: int| 0 <= j < k implies b[j].0@ != name by {
                assert(a[j].0@ != name);
            }
        }
        if spec_is_save_of(b, name, k) {
            assert forall|j: int| 0 <= j < k implies a[j].0@ != name by {
                assert(b[j].0@ != name);
            }
        }
    }
    if exists|i: int| spec_is_save_of(a, name, i) {
        let i = choose|i: int| spec_is_save_of(a, name, i);
        assert(spec_is_save_of(b, name, i));
        let j = choose|j: int| spec_is_save_of(b, name, j);
        lemma_save_of_unique(b, name, i, j);
    }
}

/// A save reads back what was saved under its name, and the saves of the other names
/// stay as they were
pub proof fn lemma_save_read_after_write<P, C, S>(
    before: State<P, C, S>,
    name: Option<Seq<char>>,
    data: Arc<S>,
    after: State<P, C, S>,
    other: Option<Seq<char>>,
)
    requires
        spec_saved(before, name, data, after),
    ensures
        after.spec_save(name) == Some(*data),
        other != name ==> after.spec_save(other) == before.spec_save(other),
{
    match name {
        None => {},
        Some(n) => {
            if exists|i: int| spec_is_save_of(before.saves@, n, i) {
                let i = choose|i: int| spec_is_save_of(before.saves@, n, i);
                assert(spec_is_save_of(after.saves@, n, i));
                let j = choose|j: int| spec_is_save_of(after.saves@, n, j);
                lemma_save_of_unique(after.saves@, n, i, j);
                if let Some(o) = other {
                    if o != n {
                        lemma_same_named_save(after.saves@, before.saves@, o);
                    }
                }
            } else {
                let last = before.saves@.len() as int;
                assert(after.saves@[last] == after.saves@.last());
                assert forall|k: int| 0 <= k < last implies after.saves@[k] == before.saves@[k] by {
                    assert(after.saves@.take(last)[k] == after.saves@[k]);
                }
                assert forall|k: int| 0 <= k < last implies after.saves@[k].0@ != n by {
                    if after.saves@[k].0@ == n {
                        lemma_first_save(before.saves@, n, k);
                    }
                }
                assert(spec_is_save_of(after.saves@, n, last));
                let j = choose|j: int| spec_is_save_of(after.saves@, n, j);
                lemma_save_of_unique(after.saves@, n, last, j);
                if let Some(o) = other {
                    if o != n {
                        lemma_same_named_save(after.saves@, before.saves@, o);
                    }
                }
            }
        },
    }
}

impl<P, C, S> State<P, C, S> {
    /// A state with the game running on the process
    pub fn new(process: P) -> (r: State<P, C, S>)
        ensures
            r.game matches Game::Running(g) && g.process == process && spec_is_new_systems(
                g.systems,
            ),
            r.args is None,
            r.saves@.len() == 0,
            r.manual_save is None,
    {
        State {
            game: Game::Running(Box::new(GameState::new(process))),
            args: None,
            saves: Vec::new(),
            manual_save: None,
        }
    }

    /// The save of the name, the manual save for `None`
    pub open spec fn spec_save(&self, name: Option<Seq<char>>) -> Option<S> {
        match name {
            None => match self.manual_save {
                Some(a) => Some(*a),
                None => None,
            },
            Some(n) => spec_named_save(self.saves@, n),
        }
    }

    /// The names of the saves, in insertion order
    pub open spec fn spec_save_names(&self) -> Seq<Seq<char>> {
        self.saves@.map_values(|e: (String, Arc<S>)| e.0@)
    }

    /// Get names of all saves
    pub fn save_names(&self) -> (r: Vec<String>)
        ensures
            r@.map_values(|n: String| n@) == self.spec_save_names(),
    {
        let mut out: Vec<String> = Vec::new();
        let mut i: usize = 0;
        while i < self.saves.len()
            invariant
                i <= self.saves@.len(),
                out@.len() == i,
                forall|k: int| 0 <= k < i ==> (#[trigger] out@[k])@ == self.saves@[k].0@,
            decreases self.saves.len() - i,
        {
            out.push(self.saves[i].0.clone());
            i += 1;
        }
        assert(out@.map_values(|n: String| n@) =~= self.spec_save_names());
        out
    }

    /// Get a manual save (if name is `None`) or a named save
    pub fn save_by_name(&self, name: Option<&str>) -> (r: Option<Arc<S>>)
        ensures
            match r {
                Some(a) => self.spec_save(
                    match name {
                        Some(n) => Some(n@),
                        None => None,
                    },
                ) == Some(*a),
                None => self.spec_save(
                    match name {
                        Some(n) => Some(n@),
                        None => None,
                    },
                ) is None,
            },
    {
        match name {
            None => match &self.manual_save {
                Some(a) => Some(share(a)),
                None => None,
            },
            Some(n) => {
                let mut i: usize = 0;
                while i < self.saves.len()
                    invariant
                        name == Some(n),
                        i <= self.saves@.len(),
                        forall|k: int| 0 <= k < i ==> self.saves@[k].0@ != n@,
                    decreases self.saves.len() - i,
                {
                    if str_eq(self.saves[i].0.as_str(), n) {
                        proof {
                            assert(spec_is_save_of(self.saves@, n@, i as int));
                            let j = choose|j: int| spec_is_save_of(self.saves@, n@, j);
                            lemma_save_of_unique(self.saves@, n@, i as int, j);
                            assert(spec_named_save(self.saves@, n@) == Some(
                                *self.saves@[i as int].1,
                            ));
                        }
                        let r = share(&self.saves[i].1);
                        assert(*r == *self.saves@[i as int].1);
                        return Some(r);
                    }
                    i += 1;
                }
                None
            },
        }
    }

    /// The save to reload: the save of a new game, or the named (or manual) save; when
    /// there is no such save, an error is reported and nothing is reloaded
    pub fn save_to_reload(
        &self,
        name: Option<&str>,
        new_game: bool,
        span: Span,
        errors: &mut Vec<ErrorReport>,
    ) -> (r: ReloadSave<S>)
        ensures
            new_game ==> r is NewGame && final(errors)@ == old(errors)@,
            !new_game ==> match self.spec_save(
                match name {
                    Some(n) => Some(n@),
                    None => None,
                },
            ) {
                Some(save) => (r matches ReloadSave::Save(a) && *a == save) && final(errors)@
                    == old(errors)@,
                None => r is NotFound && final(errors)@.len() == old(errors)@.len() + 1
                    && final(errors)@.take(old(errors)@.len() as int) == old(errors)@ && match name {
                    Some(n) => final(errors)@.last().span == span && !final(errors)@.last().is_warning
                        && (final(errors)@.last().error matches RuntimeError::SaveNotFound(m) && m@
                        == n@),
                    None => final(errors)@.last() == spec_error(span, RuntimeError::NoManualSave),
                },
            },
    {
        if new_game {
            return ReloadSave::NewGame;
        }
        match self.save_by_name(name) {
            Some(save) => ReloadSave::Save(save),
            None => {
                match name {
                    Some(n) => errors.push(
                        ErrorReport::error(span, RuntimeError::SaveNotFound(n.to_owned())),
                    ),
                    None => errors.push(ErrorReport::error(span, RuntimeError::NoManualSave)),
                }
                assert(errors@.take(old(errors)@.len() as int) =~= old(errors)@);
                ReloadSave::NotFound
            },
        }
    }

    /// Record the data that saving produced under the name (the manual save for `None`);
    /// nothing is recorded when saving did not produce any
    pub fn record_save(&mut self, name: Option<&str>, data: Option<Arc<S>>)
        ensures
            match data {
                Some(d) => spec_saved(
                    *old(self),
                    match name {
                        Some(n) => Some(n@),
                        None => None,
                    },
                    d,
                    *final(self),
                ),
                None => *final(self) == *old(self),
            },
    {
        if let Some(d) = data {
            self.set_save_by_name(name, d);
        }
    }

    /// Set a manual save (if name is `None`) or a named save. A named save with the same
    /// name is replaced; otherwise the new save comes last
    pub fn set_save_by_name(&mut self, name: Option<&str>, data: Arc<S>)
        ensures
            spec_saved(
                *old(self),
                match name {
                    Some(n) => Some(n@),
                    None => None,
                },
                data,
                *final(self),
            ),
    {
        match name {
            None => {
                self.manual_save = Some(data);
            },
            Some(n) => {
                let mut i: usize = 0;
                while i < self.saves.len()
                    invariant
                        name == Some(n),
                        i <= self.saves@.len(),
                        self.saves == old(self).saves,
                        self.game == old(self).game,
                        self.args == old(self).args,
                        self.manual_save == old(self).manual_save,
                        forall|k: int| 0 <= k < i ==> self.saves@[k].0@ != n@,
                    decreases self.saves.len() - i,
                {
                    if str_eq(self.saves[i].0.as_str(), n) {
                        proof {
                            assert(spec_is_save_of(self.saves@, n@, i as int));
                            let j = choose|j: int| spec_is_save_of(self.saves@, n@, j);
                            lemma_save_of_unique(self.saves@, n@, i as int, j);
                        }
                        let old_entry = self.saves.remove(i);
                        self.saves.insert(i, (old_entry.0, data));
                        assert(self.saves@ =~= old(self).saves@.update(
                            i as int,
                            (old(self).saves@[i as int].0, data),
                        ));
                        return;
                    }
                    i += 1;
                }
                self.saves.push((n.to_owned(), data));
                assert(self.saves@.take(old(self).saves@.len() as int) =~= old(self).saves@);
            },
        }
    }

    /// Set an argument of the next command: the arguments are made if there are none
    pub fn set_arg(&mut self, args: Option<Box<StateArgs>>, command: ArgCommand, span: Span)
        ensures
            final(self).args == Some(
                Box::new(
                    spec_set_arg(
                        match args {
                            Some(a) => *a,
                            None => spec_default_args(),
                        },
                        command,
                        span,
                    ),
                ),
            ),
            final(self).game == old(self).game,
            final(self).saves == old(self).saves,
            final(self).manual_save == old(self).manual_save,
    {
        let mut a = match args {
            None => StateArgs::default(),
            Some(x) => *x,
        };
        match command {
            ArgCommand::Smug => a.smug = Some(span),
            ArgCommand::PauseDuring => a.pause_during = true,
            ArgCommand::SameDialog => a.same_dialog = true,
            ArgCommand::AccuratelySimulate => a.accurately_simulate = true,
            ArgCommand::Targeting(spec) => a.entangle_target = Some(spec),
            ArgCommand::Overworld => a.overworld = true,
            ArgCommand::Dpad => a.dpad = true,
            ArgCommand::NonBreaking => a.non_breaking = true,
            ArgCommand::Breaking => a.breaking = true,
            ArgCommand::PerUse(x) => a.per_use = Some(x),
        }
        self.args = Some(Box::new(a));
    }

    /// Start executing a command: take the running game out, or tell that a new game
    /// starts, or (for a crashed or closed game) report that the game does not run
    ///
    /// With `start_if_closed`, a game starts no matter how it was closed
    pub fn prepare_execute(&mut self, start_if_closed: bool, span: Span, errors: &mut Vec<ErrorReport>) -> (r:
        ExecuteStart<P>)
        ensures
            final(self).args == old(self).args,
            final(self).saves == old(self).saves,
            final(self).manual_save == old(self).manual_save,
            match old(self).game {
                Game::Running(g) => r == ExecuteStart::Run(g) && final(self).game is Uninit
                    && final(errors)@ == old(errors)@,
                Game::Uninit => r is Start && final(self).game is Uninit && final(errors)@ == old(errors)@,
                Game::Crashed(_) => if start_if_closed {
                    r is Start && final(self).game == old(self).game && final(errors)@ == old(errors)@
                } else {
                    r is Skip && final(self).game is PreviousCrash && final(errors)@ == old(errors)@.push(spec_warning(span, RuntimeError::PreviousCrash))
                },
                Game::Closed => if start_if_closed {
                    r is Start && final(self).game == old(self).game && final(errors)@ == old(errors)@
                } else {
                    r is Skip && final(self).game is PreviousClosed && final(errors)@ == old(errors)@.push(spec_warning(span, RuntimeError::PreviousClosed))
                },
                Game::PreviousCrash | Game::PreviousClosed => final(self).game == old(self).game
                    && final(errors)@ == old(errors)@ && if start_if_closed {
                    r is Start
                } else {
                    r is Skip
                },
            },
    {
        match self.game.take_for_execute(start_if_closed) {
            TakeGame::Crashed => {
                self.game = Game::PreviousCrash;
                errors.push(ErrorReport::warning(span, RuntimeError::PreviousCrash));
                ExecuteStart::Skip
            },
            TakeGame::PreviousCrash | TakeGame::PreviousClosed => ExecuteStart::Skip,
            TakeGame::Closed => {
                self.game = Game::PreviousClosed;
                errors.push(ErrorReport::warning(span, RuntimeError::PreviousClosed));
                ExecuteStart::Skip
            },
            TakeGame::Running(g) => ExecuteStart::Run(g),
            TakeGame::Uninit => ExecuteStart::Start,
        }
    }

    /// Check a game before running a command that needs no execution on the process: a
    /// crashed or closed game becomes previously crashed or closed (with a warning).
    ///
    /// Returns the running game to work on, if it is running
    pub fn running_for_no_exec(&mut self, span: Span, errors: &mut Vec<ErrorReport>) -> (r:
        Option<&mut GameState<P>>)
        ensures
            final(self).args == old(self).args,
            final(self).saves == old(self).saves,
            final(self).manual_save == old(self).manual_save,
            match old(self).game {
                Game::Running(g) => r matches Some(x) && *x == *g && final(self).game
                    == Game::<P, C>::Running(Box::new(*final(x))) && final(errors)@ == old(errors)@,
                Game::Crashed(_) => r is None && final(self).game is PreviousCrash && final(errors)@ == old(errors)@.push(spec_warning(span, RuntimeError::PreviousCrash)),
                Game::Closed => r is None && final(self).game is PreviousClosed && final(errors)@ == old(errors)@.push(spec_warning(span, RuntimeError::PreviousClosed)),
                _ => r is None && final(self).game == old(self).game && final(errors)@ == old(errors)@,
            },
    {
        let (crashed, closed) = match &self.game {
            Game::Crashed(_) => (true, false),
            Game::Closed => (false, true),
            _ => (false, false),
        };
        if crashed {
            self.game = Game::PreviousCrash;
            errors.push(ErrorReport::warning(span, RuntimeError::PreviousCrash));
            return None;
        }
        if closed {
            self.game = Game::PreviousClosed;
            errors.push(ErrorReport::warning(span, RuntimeError::PreviousClosed));
            return None;
        }
        match &mut self.game {
            Game::Running(g) => Some(&mut **g),
            _ => None,
        }
    }
}

} // verus!
