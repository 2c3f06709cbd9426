//! A run of a script: the handle that aborts it, and the output it collects
use std::sync::Arc;

use vstd::prelude::*;

use crate::error::ErrorReport;
use crate::output::RunOutput;
use crate::state::State;

verus! {

/// Handle for a running simulation task, shared with the code that may abort it
pub struct RunHandle {
    is_aborted: std::sync::atomic::AtomicBool,
}

impl RunHandle {
    /// A handle of a run that is not aborted
    pub fn new() -> (r: RunHandle) {
        RunHandle { is_aborted: std::sync::atomic::AtomicBool::new(false) }
    }

    /// If the run was aborted (by any thread holding the handle)
    pub fn is_aborted(&self) -> (r: bool) {
        self.is_aborted.load(std::sync::atomic::Ordering::Relaxed)
    }

    /// Abort the run
    pub fn abort(&self) {
        self.is_aborted.store(true, std::sync::atomic::Ordering::Relaxed)
    }
}

/// A run of a script
pub struct Run<P, C, S> {
    /// Handle for the running task
    pub handle: Arc<RunHandle>,
    /// Data produced by the run
    pub output: RunOutput<P, C, S>,
}

impl<P, C, S> Run<P, C, S> {
    /// A run with no step executed yet
    pub fn new(handle: Arc<RunHandle>) -> (r: Run<P, C, S>)
        ensures
            r.output.states@.len() == 0,
            r.output.errors@.len() == 0,
    {
        Run { handle, output: RunOutput::new() }
    }

    /// Record the state after a step and the errors of the step
    pub fn record_step(&mut self, state: State<P, C, S>, errors: Vec<ErrorReport>)
        ensures
            final(self).output.states@ == old(self).output.states@.push(state),
            final(self).output.errors@ == old(self).output.errors@ + errors@,
            final(self).handle == old(self).handle,
    {
        self.output.states.push(state);
        let mut errors = errors;
        self.output.errors.append(&mut errors);
    }

    /// Notifying the partial output is for every step but the first: the first step may
    /// not start at the beginning of the script
    pub fn should_notify(step_index: usize) -> (r: bool)
        ensures
            r == (step_index > 0),
    {
        step_index > 0
    }
}

} // verus!
