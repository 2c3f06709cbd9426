//! The output of a run: the state after each step and the errors, and the views of the
//! state at a step
use vstd::prelude::*;

use crate::error::{ErrorReport, RuntimeViewError};
use crate::iv;
use crate::state::{Game, GameState, GameSystems, State};

verus! {

/// Output of a run
#[derive(Debug, Clone)]
pub struct RunOutput<P, C, S> {
    /// State at each simulation step
    pub states: Vec<State<P, C, S>>,
    pub errors: Vec<ErrorReport>,
}

/// Index of the state shown for a step: the step, or the last state if the step is out
/// of bounds; none if there are no states
pub open spec fn spec_state_index(len: nat, step: usize) -> Option<int> {
    if len == 0 {
        None
    } else if step < len {
        Some(step as int)
    } else {
        Some(len - 1)
    }
}

/// What the views can show of a game: nothing for a game never started, the running
/// game, or an error for a crashed or closed game
pub open spec fn spec_view_game<P, C>(game: Game<P, C>) -> Result<Option<GameState<P>>, RuntimeViewError> {
    match game {
        Game::Uninit => Ok(None),
        Game::Running(g) => Ok(Some(*g)),
        Game::Crashed(_) | Game::PreviousCrash => Err(RuntimeViewError::Crash),
        Game::Closed | Game::PreviousClosed => Err(RuntimeViewError::Closed),
    }
}

impl<P, C, S> RunOutput<P, C, S> {
    /// An output without steps
    pub fn new() -> (r: RunOutput<P, C, S>)
        ensures
            r.states@.len() == 0,
            r.errors@.len() == 0,
    {
        RunOutput { states: Vec::new(), errors: Vec::new() }
    }

    /// The state shown for a step
    pub open spec fn spec_state_by_step(&self, step: usize) -> Option<State<P, C, S>> {
        match spec_state_index(self.states@.len(), step) {
            Some(i) => Some(self.states@[i]),
            None => None,
        }
    }

    /// What the views can show of the game at a step: nothing if there is no state
    pub open spec fn spec_view_at(&self, step: usize) -> Result<Option<GameState<P>>, RuntimeViewError> {
        match self.spec_state_by_step(step) {
            None => Ok(None),
            Some(s) => spec_view_game(s.game),
        }
    }

    /// The state at a step; the last state if the step is out of bounds
    pub fn get_state_by_step(&self, step: usize) -> (r: Option<&State<P, C, S>>)
        ensures
            match self.spec_state_by_step(step) {
                Some(s) => r matches Some(x) && *x == s,
                None => r is None,
            },
    {
        let n = self.states.len();
        if n == 0 {
            return None;
        }
        if step < n {
            Some(&self.states[step])
        } else {
            Some(&self.states[n - 1])
        }
    }

    /// The running game at a step, if the views can show one
    pub fn view_game(&self, step: usize) -> (r: Result<Option<&GameState<P>>, RuntimeViewError>)
        ensures
            match self.spec_view_at(step) {
                Ok(Some(g)) => r matches Ok(Some(x)) && *x == g,
                Ok(None) => r matches Ok(None),
                Err(e) => r == Err::<Option<&GameState<P>>, RuntimeViewError>(e),
            },
    {
        let state = match self.get_state_by_step(step) {
            None => return Ok(None),
            Some(s) => s,
        };
        match &state.game {
            Game::Uninit => Ok(None),
            Game::Running(g) => Ok(Some(&**g)),
            Game::Crashed(_) => Err(RuntimeViewError::Crash),
            Game::PreviousCrash => Err(RuntimeViewError::Crash),
            Game::Closed => Err(RuntimeViewError::Closed),
            Game::PreviousClosed => Err(RuntimeViewError::Closed),
        }
    }

    /// Get the pouch inventory view for the given step in the script
    ///
    /// If there are no steps in the script, an empty pouch list is returned. Otherwise,
    /// the state at the given step is used to generate the pouch list unless the step is
    /// out of bounds, in which case the last state is used. `extract` reads the view of a
    /// running game.
    pub fn get_pouch_list<F>(&self, step: usize, extract: F) -> (r: Result<
        iv::PouchList,
        RuntimeViewError,
    >) where F: Fn(&P, &GameSystems) -> Result<iv::PouchList, RuntimeViewError>
        requires
            forall|p: &P, s: &GameSystems| extract.requires((p, s)),
        ensures
            spec_pouch_list_result(self.spec_view_at(step), extract, r),
    {
        match self.view_game(step) {
            Err(e) => Err(e),
            Ok(None) => Ok(iv::PouchList::empty()),
            Ok(Some(g)) => extract(&g.process, &g.systems),
        }
    }

    /// Get the GDT inventory view for the given step in the script; `extract` reads the
    /// view of a running game
    pub fn get_gdt_inventory<F>(&self, step: usize, extract: F) -> (r: Result<
        iv::Gdt,
        RuntimeViewError,
    >) where F: Fn(&P) -> Result<iv::Gdt, RuntimeViewError>
        requires
            forall|p: &P| extract.requires((p,)),
        ensures
            match self.spec_view_at(step) {
                Ok(Some(g)) => extract.ensures((&g.process,), r),
                Ok(None) => r matches Ok(v) && v.spec_is_empty(),
                Err(e) => r == Err::<iv::Gdt, RuntimeViewError>(e),
            },
    {
        match self.view_game(step) {
            Err(e) => Err(e),
            Ok(None) => Ok(iv::Gdt::empty()),
            Ok(Some(g)) => extract(&g.process),
        }
    }

    /// Get the overworld view for the given step in the script
    pub fn get_overworld_items(&self, step: usize) -> (r: Result<iv::Overworld, RuntimeViewError>)
        ensures
            match self.spec_view_at(step) {
                Ok(Some(g)) => r matches Ok(v) && v.items@ == g.systems.overworld.spec_to_iv(),
                Ok(None) => r matches Ok(v) && v.items@.len() == 0,
                Err(e) => r == Err::<iv::Overworld, RuntimeViewError>(e),
            },
    {
        match self.view_game(step) {
            Err(e) => Err(e),
            Ok(None) => Ok(iv::Overworld::empty()),
            Ok(Some(g)) => Ok(g.systems.overworld.to_iv()),
        }
    }

    /// Get the save names at the given step. Does not include the manual save (which
    /// doesn't have a name)
    pub fn get_save_names(&self, step: usize) -> (r: Vec<String>)
        ensures
            match self.spec_state_by_step(step) {
                Some(s) => r@.map_values(|n: String| n@) == s.spec_save_names(),
                None => r@.len() == 0,
            },
    {
        match self.get_state_by_step(step) {
            None => Vec::new(),
            Some(state) => state.save_names(),
        }
    }

    /// Get the GDT inventory view for the save in the given step in the script
    ///
    /// If name is `None`, it uses the manual save. If the save doesn't exist, it gives an
    /// empty GDT. `extract` reads the view of a save
    pub fn get_save_inventory<F>(&self, step: usize, name: Option<&str>, extract: F) -> (r:
        Result<iv::Gdt, RuntimeViewError>) where F: Fn(&S) -> Result<iv::Gdt, RuntimeViewError>
        requires
            forall|s: &S| extract.requires((s,)),
        ensures
            match self.spec_state_by_step(step) {
                Some(s) => match s.spec_save(
                    match name {
                        Some(n) => Some(n@),
                        None => None,
                    },
                ) {
                    Some(save) => extract.ensures((&save,), r),
                    None => r matches Ok(v) && v.spec_is_empty(),
                },
                None => r matches Ok(v) && v.spec_is_empty(),
            },
    {
        let state = match self.get_state_by_step(step) {
            None => return Ok(iv::Gdt::empty()),
            Some(s) => s,
        };
        match state.save_by_name(name) {
            None => Ok(iv::Gdt::empty()),
            Some(save) => extract(&*save),
        }
    }

    /// Get the crash report for a step, if the game has crashed on that step or before,
    /// without having run since
    pub fn get_crash_report(&self, step: usize) -> (r: Option<&C>)
        ensures
            match r {
                Some(c) => exists|i: int|
                    0 <= i < self.states@.len() && self.states@[i].game == Game::<P, C>::Crashed(
                        *c,
                    ) && spec_crash_reaches(self.states@, i, spec_state_index(
                        self.states@.len(),
                        step,
                    )->Some_0),
                None => !(exists|i: int|
                    0 <= i < self.states@.len() && self.states@[i].game is Crashed
                        && spec_crash_reaches(self.states@, i, spec_state_index(
                        self.states@.len(),
                        step,
                    )->Some_0)) || self.states@.len() == 0,
            },
    {
        let n = self.states.len();
        if n == 0 {
            return None;
        }
        let mut i: usize = if step < n {
            step
        } else {
            n - 1
        };
        let ghost target = i as int;
        loop
            invariant
                n == self.states@.len(),
                i < n,
                target == spec_state_index(self.states@.len(), step)->Some_0,
                i <= target < n,
                forall|k: int| i < k <= target ==> self.states@[k].game is PreviousCrash,
            decreases i,
        {
            match &self.states[i].game {
                Game::Crashed(c) => {
                    assert(spec_crash_reaches(self.states@, i as int, target));
                    assert(self.states@[i as int].game == Game::<P, C>::Crashed(*c));
                    return Some(c);
                },
                Game::PreviousCrash => {
                    if i == 0 {
                        proof {
                            assert forall|j: int|
                                0 <= j < self.states@.len() && self.states@[j].game is Crashed
                                    && spec_crash_reaches(
                                    self.states@,
                                    j,
                                    target,
                                ) implies false by {
                                assert(self.states@[j].game is PreviousCrash);
                            }
                        }
                        return None;
                    }
                    i -= 1;
                },
                _ => {
                    proof {
                        assert forall|j: int|
                            0 <= j < self.states@.len() && self.states@[j].game is Crashed
                                && spec_crash_reaches(self.states@, j, target) implies false by {
                            if j < i {
                                assert(self.states@[i as int].game is PreviousCrash);
                            } else if j > i {
                                assert(self.states@[j].game is PreviousCrash);
                            }
                        }
                    }
                    return None;
                },
            }
        }
    }
}

/// The crash at step `i` is still reported at step `t`: every step after it up to `t`
/// is a previous crash
pub open spec fn spec_crash_reaches<P, C, S>(states: Seq<State<P, C, S>>, i: int, t: int) -> bool {
    i <= t && forall|k: int| i < k <= t ==> states[k].game is PreviousCrash
}

/// `r` is a pouch view of what the views can show of a game: what `extract` gives for a
/// running game, the empty view for a game never started, or the error
pub open spec fn spec_pouch_list_result<P, F>(
    view: Result<Option<GameState<P>>, RuntimeViewError>,
    extract: F,
    r: Result<iv::PouchList, RuntimeViewError>,
) -> bool where F: Fn(&P, &GameSystems) -> Result<iv::PouchList, RuntimeViewError> {
    match view {
        Ok(Some(g)) => extract.ensures((&g.process, &g.systems), r),
        Ok(None) => r matches Ok(v) && v.spec_is_empty(),
        Err(e) => r == Err::<iv::PouchList, RuntimeViewError>(e),
    }
}

/// The pouch view of a step past the last one is the pouch view of the last step: a
/// result is valid for the one exactly when it is valid for the other
pub proof fn lemma_pouch_list_past_end_is_last<P, C, S, F>(
    out: RunOutput<P, C, S>,
    step: usize,
    extract: F,
    r: Result<iv::PouchList, RuntimeViewError>,
) where F: Fn(&P, &GameSystems) -> Result<iv::PouchList, RuntimeViewError>
    requires
        out.states@.len() > 0,
        step >= out.states@.len(),
    ensures
        spec_pouch_list_result(out.spec_view_at(step), extract, r) <==> spec_pouch_list_result(
            out.spec_view_at((out.states@.len() - 1) as usize),
            extract,
            r,
        ),
{
    lemma_step_past_end_shows_last(out, step);
}

/// With no step at all, every step shows the empty pouch view
pub proof fn lemma_pouch_list_without_steps<P, C, S, F>(
    out: RunOutput<P, C, S>,
    step: usize,
    extract: F,
    r: Result<iv::PouchList, RuntimeViewError>,
) where F: Fn(&P, &GameSystems) -> Result<iv::PouchList, RuntimeViewError>
    requires
        out.states@.len() == 0,
        spec_pouch_list_result(out.spec_view_at(step), extract, r),
    ensures
        r matches Ok(v) && v.spec_is_empty(),
{
}

/// A step past the last one shows the last state
pub proof fn lemma_step_past_end_shows_last<P, C, S>(out: RunOutput<P, C, S>, step: usize)
    requires
        out.states@.len() > 0,
        step >= out.states@.len(),
    ensures
        out.spec_state_by_step(step) == out.spec_state_by_step((out.states@.len() - 1) as usize),
{
}

} // verus!
