//! The pipeline engine's bookkeeping: which stage to start next, which
//! child to wait on, and when the run is over.
//!
//! The engine starts the stages in order, left to right. If a spawn fails
//! it starts no further stage, but every child already started must still
//! be waited on — otherwise it would linger after exiting. The engine is
//! driven step by step: the surrounding program performs each spawn or
//! wait and reports what happened.

use vstd::prelude::*;

verus! {

/// The next thing the pipeline engine asks for: start the stage with this
/// index, wait on the child with this index, or nothing — the run is over.
pub enum RunStep {
    Spawn(usize),
    Wait(usize),
    Done,
}

/// The engine's bookkeeping for one pipeline run: how many stages there
/// are, how many children were started, how many of them were waited on,
/// and whether some spawn failed.
#[derive(Clone, Copy)]
pub struct PipelineRun {
    pub total: usize,
    pub spawned: usize,
    pub reaped: usize,
    pub failed: bool,
}

impl PipelineRun {
    /// The counters always stand in this order: no child is waited on
    /// before it was started, and no stage is started beyond the last.
    pub open spec fn wf(&self) -> bool {
        self.reaped <= self.spawned <= self.total
    }

    /// The step the engine asks for next: the next spawn while none has
    /// failed and stages remain, then one wait per started child, then
    /// nothing.
    pub open spec fn spec_next(&self) -> RunStep {
        if !self.failed && self.spawned < self.total {
            RunStep::Spawn(self.spawned as usize)
        } else if self.reaped < self.spawned {
            RunStep::Wait(self.reaped as usize)
        } else {
            RunStep::Done
        }
    }

    /// A fresh run over `total` stages.
    pub fn new(total: usize) -> (r: PipelineRun)
        ensures
            r.wf(),
            r == (PipelineRun { total, spawned: 0, reaped: 0, failed: false }),
    {
        PipelineRun { total, spawned: 0, reaped: 0, failed: false }
    }

    /// The next step to take.
    pub fn next_step(&self) -> (s: RunStep)
        ensures
            s == self.spec_next(),
    {
        if !self.failed && self.spawned < self.total {
            RunStep::Spawn(self.spawned)
        } else if self.reaped < self.spawned {
            RunStep::Wait(self.reaped)
        } else {
            RunStep::Done
        }
    }

    /// Records that the stage the engine asked to spawn was started.
    pub fn after_spawn_ok(self) -> (r: PipelineRun)
        ensures
            self.spec_next() matches RunStep::Spawn(_) ==> r == (PipelineRun {
                spawned: (self.spawned + 1) as usize,
                ..self
            }),
            !(self.spec_next() matches RunStep::Spawn(_)) ==> r == self,
            self.wf() ==> r.wf(),
    {
        if !self.failed && self.spawned < self.total {
            PipelineRun { spawned: self.spawned + 1, ..self }
        } else {
            self
        }
    }

    /// Records that spawning failed: no further stage is started, but the
    /// children already started are still waited on.
    pub fn after_spawn_failure(self) -> (r: PipelineRun)
        ensures
            r == (PipelineRun { failed: true, ..self }),
            self.wf() ==> r.wf(),
    {
        PipelineRun { failed: true, ..self }
    }

    /// Records that the child the engine asked to wait on was reaped.
    pub fn after_reap(self) -> (r: PipelineRun)
        ensures
            self.spec_next() matches RunStep::Wait(_) ==> r == (PipelineRun {
                reaped: (self.reaped + 1) as usize,
                ..self
            }),
            !(self.spec_next() matches RunStep::Wait(_)) ==> r == self,
            self.wf() ==> r.wf(),
    {
        if !(!self.failed && self.spawned < self.total) && self.reaped < self.spawned {
            PipelineRun { reaped: self.reaped + 1, ..self }
        } else {
            self
        }
    }
}

/// When the engine reports that a run over `N` stages is over, every child
/// that was started has been waited on — and when no spawn failed, that is
/// all `N` of them. A spawn failure never leaves an already-started child
/// unwaited: the engine only finishes once the wait count has caught up.
pub proof fn lemma_done_reaps_all_spawned(r: PipelineRun)
    requires
        r.wf(),
        r.spec_next() is Done,
    ensures
        r.reaped == r.spawned,
        !r.failed ==> r.reaped == r.total,
{
}

} // verus!
