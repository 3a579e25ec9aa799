use vstd::prelude::*;

use crate::directory::Directory;
use crate::events::{ChangeEvent, MirrorOp};
use crate::path::MappingError;
use crate::reconcile::{plan, plan_sync, steps_view, Entry, Step};

verus! {

/// The life of one mirrored pair.
#[derive(Debug, Clone, Copy, PartialEq, Eq, Structural)]
pub enum Phase {
    /// Holds the pair; nothing done yet.
    Starting,
    /// Applying the steps of the one reconciliation pass.
    Reconciling,
    /// Mirroring change events as they come.
    Watching,
    /// Told to stop.
    Stopped,
}

/// The decisions of one pair's mirroring: which reconciliation step comes
/// next, what a change event turns into, and when the phases change. The
/// caller performs the work that each decision names and hands back how it
/// went.
#[derive(Debug)]
pub struct DirectoryWatcher {
    pub pair: Directory,
    pub phase: Phase,
    /// The steps of the reconciliation pass.
    pub steps: Vec<Step>,
    /// How many of the steps have been carried out, with or without success.
    pub done: usize,
    /// The steps that failed, each with what was reported of the failure.
    pub failures: Vec<(Step, String)>,
}

impl DirectoryWatcher {
    pub open spec fn wf(&self) -> bool {
        &&& self.done <= self.steps.len()
        &&& self.failures.len() <= self.done
        &&& self.phase == Phase::Reconciling ==> self.done < self.steps.len()
    }

    pub fn new(pair: Directory) -> (r: DirectoryWatcher)
        ensures
            r.wf(),
            r.pair == pair,
            r.phase == Phase::Starting,
            r.steps@.len() == 0,
            r.failures@.len() == 0,
    {
        DirectoryWatcher { pair, phase: Phase::Starting, steps: Vec::new(), done: 0, failures: Vec::new() }
    }

    /// Starts the reconciliation pass from the listings of the two roots. A
    /// pass with nothing to do, or whose listings could not be had, goes
    /// straight on to watching: a listing failure ends the pass and nothing
    /// else.
    pub fn begin(&mut self, listings: Result<(Vec<Entry>, Vec<Entry>), String>)
        requires
            old(self).wf(),
            old(self).phase == Phase::Starting,
        ensures
            final(self).wf(),
            final(self).pair == old(self).pair,
            final(self).done == 0,
            match listings {
                Ok((source, target)) => {
                    &&& steps_view(final(self).steps@) == plan(source@, target@)
                    &&& final(self).failures@.len() == 0
                    &&& final(self).phase == if plan(source@, target@).len() == 0 {
                        Phase::Watching
                    } else {
                        Phase::Reconciling
                    }
                },
                Err(detail) => {
                    &&& final(self).steps@.len() == 0
                    &&& final(self).failures@.len() == 0
                    &&& final(self).phase == Phase::Watching
                },
            },
    {
        match listings {
            Ok((source, target)) => {
                self.steps = plan_sync(&source, &target);
                self.done = 0;
                self.failures = Vec::new();
                if self.steps.len() == 0 {
                    self.phase = Phase::Watching;
                } else {
                    self.phase = Phase::Reconciling;
                }
            },
            Err(_) => {
                self.steps = Vec::new();
                self.done = 0;
                self.failures = Vec::new();
                self.phase = Phase::Watching;
            },
        }
    }

    /// The reconciliation step to carry out next, if the pass is under way.
    pub fn next_step(&self) -> (r: Option<&Step>)
        requires
            self.wf(),
        ensures
            self.phase == Phase::Reconciling ==> r == Some(&self.steps@[self.done as int]),
            self.phase != Phase::Reconciling ==> r is None,
    {
        if self.phase == Phase::Reconciling {
            Some(&self.steps[self.done])
        } else {
            None
        }
    }

    /// Records how the current step went and moves on to the next one,
    /// whether it succeeded or not: a failed step is kept among the failures
    /// and never holds up the steps after it. After the last step the pair
    /// is watched.
    pub fn record(&mut self, outcome: Result<(), String>)
        requires
            old(self).wf(),
            old(self).phase == Phase::Reconciling,
        ensures
            final(self).wf(),
            final(self).pair == old(self).pair,
            final(self).steps == old(self).steps,
            final(self).done == old(self).done + 1,
            final(self).phase == if final(self).done == final(self).steps@.len() {
                Phase::Watching
            } else {
                Phase::Reconciling
            },
            outcome is Ok ==> final(self).failures@ == old(self).failures@,
            outcome matches Err(detail) ==> {
                &&& final(self).failures@.len() == old(self).failures@.len() + 1
                &&& final(self).failures@.last().0@ == old(self).steps@[old(self).done as int]@
                &&& final(self).failures@.last().1 == detail
                &&& final(self).failures@.drop_last() == old(self).failures@
            },
    {
        match outcome {
            Ok(()) => {},
            Err(detail) => {
                let current = &self.steps[self.done];
                let step = Step { name: current.name.clone(), kind: current.kind };
                self.failures.push((step, detail));
            },
        }
        self.done = self.done + 1;
        if self.done == self.steps.len() {
            self.phase = Phase::Watching;
        }
    }

    /// The operation that mirrors a change event while the pair is watched;
    /// an event outside the source root is refused.
    pub fn handle(&self, event: &ChangeEvent, source_is_dir: bool) -> (r: Result<MirrorOp, MappingError>)
        requires
            self.phase == Phase::Watching,
        ensures
            r.is_ok() == self.pair.event_in_source(event@),
            r matches Ok(op) ==> op@ == self.pair.effect_of(event@, source_is_dir),
    {
        self.pair.translate(event, source_is_dir)
    }

    /// Stops the pair, whatever it was doing.
    pub fn stop(&mut self)
        requires
            old(self).wf(),
        ensures
            final(self).wf(),
            final(self).phase == Phase::Stopped,
            final(self).pair == old(self).pair,
            final(self).steps == old(self).steps,
            final(self).done == old(self).done,
            final(self).failures == old(self).failures,
    {
        self.phase = Phase::Stopped;
    }
}

} // verus!
