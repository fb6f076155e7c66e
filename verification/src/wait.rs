//! Waiting for one pressure event, one action at a time.
//!
//! A [`Wait`] is the state of a single wait. The caller performs the action
//! that the wait asks for, reports its outcome to [`Wait::resume`], and goes
//! on until the wait is finished. How an action is performed is the
//! caller's business: a blocking engine parks the thread in `poll`, a
//! suspending engine parks the task in a reactor. What to wait for, whether
//! to drain the source afterwards and which failures count is decided here,
//! once for both.
//!
//! There is no timeout: an action that awaits readiness lasts until the
//! kernel reports it. The kernel limits how often it reports pressure on
//! one source, so waiting again at once is safe.

use vstd::prelude::*;
use crate::error::{errno_is_would_block, Error};
use crate::source::SourceKind;

verus! {

/// The readiness of a handle that a wait asks the kernel to report.
#[derive(Clone, Copy, Debug, PartialEq, Eq, Structural)]
pub enum Readiness {
    /// An urgent, out-of-band condition. A PSI file signals pressure this
    /// way, and the signal clears itself.
    Priority,
    /// Data is there to be read.
    Readable,
}

/// How the caller waits for readiness.
#[derive(Clone, Copy, Debug, PartialEq, Eq, Structural)]
pub enum Engine {
    /// The calling thread blocks until the handle is ready.
    Blocking,
    /// The calling task is suspended in a reactor, which wakes it when the
    /// handle is ready. The thread goes on with other tasks.
    Suspending,
}

/// The size of the buffer that a blocking engine drains into.
pub const BLOCKING_DRAIN_LEN: usize = 1024;

/// The size of the buffer that a suspending engine drains into.
pub const SUSPENDING_DRAIN_LEN: usize = 512;

/// What a wait on a source comes to: the decisions that depend on the kind
/// of the source and on the engine.
#[derive(Clone, Copy, Debug, PartialEq, Eq, Structural)]
pub struct WaitPlan {
    /// The readiness to wait for.
    pub readiness: Readiness,
    /// Whether the readiness that woke the waiter has to be cleared by hand
    /// before the next wait.
    pub clear: bool,
    /// The size of the one read that drains the source after it became
    /// ready, or `None` where nothing is read.
    pub drain: Option<usize>,
}

impl SourceKind {
    /// The readiness by which a source of this kind signals pressure.
    pub open spec fn readiness(self) -> Readiness {
        match self {
            SourceKind::RegularFile => Readiness::Priority,
            SourceKind::NamedPipe | SourceKind::StreamSocket => Readiness::Readable,
        }
    }

    /// Whether a source of this kind stays ready until it is read. Such a
    /// source has to be drained after every event, or it would report the
    /// same event over and over.
    pub open spec fn needs_drain(self) -> bool {
        !(self is RegularFile)
    }
}

impl Engine {
    /// The size of the drain buffer of this engine.
    pub open spec fn drain_len(self) -> usize {
        match self {
            Engine::Blocking => BLOCKING_DRAIN_LEN,
            Engine::Suspending => SUSPENDING_DRAIN_LEN,
        }
    }

    /// Whether readiness has to be cleared by hand: a reactor remembers
    /// that a handle was ready, `poll` does not.
    pub open spec fn clears_readiness(self) -> bool {
        self is Suspending
    }
}

/// The plan of a wait on a source of this kind with this engine.
pub open spec fn wait_plan(kind: SourceKind, engine: Engine) -> WaitPlan {
    WaitPlan {
        readiness: kind.readiness(),
        clear: engine.clears_readiness(),
        drain: if kind.needs_drain() {
            Some(engine.drain_len())
        } else {
            None
        },
    }
}

/// Computes [`wait_plan`].
pub fn plan_wait(kind: SourceKind, engine: Engine) -> (plan: WaitPlan)
    ensures
        plan == wait_plan(kind, engine),
{
    let clear = match engine {
        Engine::Blocking => false,
        Engine::Suspending => true,
    };
    let len: usize = match engine {
        Engine::Blocking => BLOCKING_DRAIN_LEN,
        Engine::Suspending => SUSPENDING_DRAIN_LEN,
    };
    match kind {
        SourceKind::RegularFile => WaitPlan { readiness: Readiness::Priority, clear, drain: None },
        SourceKind::NamedPipe | SourceKind::StreamSocket => WaitPlan {
            readiness: Readiness::Readable,
            clear,
            drain: Some(len),
        },
    }
}

/// What the caller has to do next for a wait.
#[derive(Clone, Copy, Debug, PartialEq, Eq, Structural)]
pub enum WaitAction {
    /// Wait, without a timeout, until the handle reports `readiness`.
    /// Where `clear` is set, clear that readiness as soon as it is reported.
    /// The outcome is `Ok` with any number, or the failure of the wait.
    AwaitReadiness { readiness: Readiness, clear: bool },
    /// Read once from the handle into a buffer of `len` bytes and discard
    /// what was read. The outcome is the number of bytes read, or the
    /// failure of the read.
    Drain { len: usize },
}

/// The state of one wait for a pressure event.
#[derive(Clone, Copy, Debug, PartialEq, Eq, Structural)]
pub enum Wait {
    /// The handle is not yet known to be ready.
    AwaitingReadiness(WaitPlan),
    /// The handle was ready and is being drained with one read of this
    /// size.
    Draining(usize),
}

/// What [`Wait::resume`] answers.
#[derive(Debug)]
pub enum WaitStep {
    /// More is to be done: perform the action of this wait.
    Next(Wait),
    /// The wait is over, with this result.
    Finished(Result<(), Error>),
}

/// What a wait has come to after some of its actions: the actions that
/// were asked for, in order, and the result if the wait is over.
pub struct WaitTrace {
    pub actions: Seq<WaitAction>,
    pub result: Option<Result<(), Error>>,
}

/// Whether a read that ended this way found nothing to read. That is no
/// failure: the event was signalled, and its data had not arrived yet or
/// was gone already.
pub open spec fn found_nothing(outcome: Result<usize, Error>) -> bool {
    match outcome {
        Err(Error::Nix(errno)) => errno_is_would_block(errno.raw),
        _ => false,
    }
}

/// The result of a wait whose drain read ended with `outcome`, where
/// `benign` says whether a failed read only found nothing to read.
pub open spec fn drain_result(outcome: Result<usize, Error>, benign: bool) -> Result<(), Error> {
    match outcome {
        Ok(_) => Ok(()),
        Err(e) => if benign {
            Ok(())
        } else {
            Err(e)
        },
    }
}

/// Computes [`drain_result`].
pub fn finish_drain(outcome: Result<usize, Error>, benign: bool) -> (r: Result<(), Error>)
    ensures
        r == drain_result(outcome, benign),
{
    match outcome {
        Ok(_) => Ok(()),
        Err(e) => if benign {
            Ok(())
        } else {
            Err(e)
        },
    }
}

impl Wait {
    /// The wait on a source of this kind with this engine, before anything
    /// was done.
    pub open spec fn begun(kind: SourceKind, engine: Engine) -> Wait {
        Wait::AwaitingReadiness(wait_plan(kind, engine))
    }

    /// The action that this state asks for.
    pub open spec fn pending(self) -> WaitAction {
        match self {
            Wait::AwaitingReadiness(plan) => WaitAction::AwaitReadiness {
                readiness: plan.readiness,
                clear: plan.clear,
            },
            Wait::Draining(len) => WaitAction::Drain { len },
        }
    }

    /// The step that follows when the pending action ends with `outcome`.
    ///
    /// A failed wait for readiness ends the wait with that failure. Once
    /// the handle is ready the wait is over, unless the plan asks for a
    /// drain: that read comes next. After the read the wait is over: with
    /// success if anything or nothing was read, with the failure of the
    /// read otherwise.
    pub open spec fn resumed(self, outcome: Result<usize, Error>) -> WaitStep {
        match self {
            Wait::AwaitingReadiness(plan) => match outcome {
                Err(e) => WaitStep::Finished(Err(e)),
                Ok(_) => match plan.drain {
                    Some(len) => WaitStep::Next(Wait::Draining(len)),
                    None => WaitStep::Finished(Ok(())),
                },
            },
            Wait::Draining(_) => WaitStep::Finished(drain_result(outcome, found_nothing(outcome))),
        }
    }

    /// The course of the wait from this state on, where the actions that
    /// are asked for end as `outcomes` says, the pending one first.
    ///
    /// Outcomes beyond the end of the wait are not looked at. If the
    /// outcomes run out first, the last action of the trace is the one that
    /// is still pending, and there is no result yet.
    pub open spec fn trace(self, outcomes: Seq<Result<usize, Error>>) -> WaitTrace
        decreases outcomes.len(),
    {
        if outcomes.len() == 0 {
            WaitTrace { actions: seq![self.pending()], result: None }
        } else {
            match self.resumed(outcomes[0]) {
                WaitStep::Finished(result) => WaitTrace {
                    actions: seq![self.pending()],
                    result: Some(result),
                },
                WaitStep::Next(next) => {
                    let rest = next.trace(outcomes.skip(1));
                    WaitTrace { actions: seq![self.pending()] + rest.actions, result: rest.result }
                },
            }
        }
    }

    /// Starts a wait: see [`Wait::begun`].
    pub fn begin(kind: SourceKind, engine: Engine) -> (wait: Wait)
        ensures
            wait == Wait::begun(kind, engine),
    {
        Wait::AwaitingReadiness(plan_wait(kind, engine))
    }

    /// The action to perform now: see [`Wait::pending`].
    pub fn action(&self) -> (action: WaitAction)
        ensures
            action == self.pending(),
    {
        match self {
            Wait::AwaitingReadiness(plan) => WaitAction::AwaitReadiness {
                readiness: plan.readiness,
                clear: plan.clear,
            },
            Wait::Draining(len) => WaitAction::Drain { len: *len },
        }
    }

    /// Takes the outcome of the pending action and says how the wait goes
    /// on: see [`Wait::resumed`].
    pub fn resume(self, outcome: Result<usize, Error>) -> (step: WaitStep)
        ensures
            step == self.resumed(outcome),
    {
        match self {
            Wait::AwaitingReadiness(plan) => match outcome {
                Err(e) => WaitStep::Finished(Err(e)),
                Ok(_) => match plan.drain {
                    Some(len) => WaitStep::Next(Wait::Draining(len)),
                    None => WaitStep::Finished(Ok(())),
                },
            },
            Wait::Draining(_) => {
                let benign = match &outcome {
                    Err(Error::Nix(errno)) => errno.is_would_block(),
                    _ => false,
                };
                WaitStep::Finished(finish_drain(outcome, benign))
            },
        }
    }
}

} // verus!
