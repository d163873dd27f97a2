//! A tap thread and its run loop together, and what a stop from another thread comes to.

use crate::run_loop::{stop_sequence, Phase, RunLoop, StopAction};
use crate::tap::{TapAction, TapThread};
use vstd::prelude::*;

verus! {

/// A tap thread and the run loop that its `RunLoop` action runs.
pub struct Tap {
    pub thread: TapThread,
    pub run_loop: RunLoop,
}

/// What the surroundings contribute to one step of the tap thread.
pub struct Surroundings {
    /// The outcome of the action that is due.
    pub outcome: bool,
    /// Something happens that a run loop that sleeps wakes up for.
    pub wakes: bool,
    /// A run loop that runs returns without having been asked to.
    pub returns: bool,
}

impl Tap {
    /// At the start of the thread, whose run loop nobody has entered.
    pub open spec fn start(run_loop: RunLoop) -> Tap {
        Tap { thread: TapThread::initial(), run_loop }
    }

    /// The run loop has returned, and the thread moves on.
    pub open spec fn after_return(self, run_loop: RunLoop, outcome: bool) -> Tap {
        Tap {
            thread: self.thread.next(outcome),
            run_loop: RunLoop { phase: Phase::Outside, ..run_loop },
        }
    }

    /// After one step of the tap thread. An action is one step, but for running the run loop: that
    /// takes one step to enter it and one for every pass, and no step ends a sleep that nothing
    /// wakes it from.
    pub open spec fn step(self, around: Surroundings) -> Tap {
        if self.thread.due != TapAction::RunLoop {
            Tap { thread: self.thread.next(around.outcome), ..self }
        } else {
            match self.run_loop.phase {
                Phase::Outside => Tap { run_loop: self.run_loop.enter(), ..self },
                Phase::Awake => {
                    let passed = self.run_loop.pass();
                    if passed.phase == Phase::Outside || around.returns {
                        self.after_return(passed, around.outcome)
                    } else {
                        Tap { run_loop: passed, ..self }
                    }
                },
                Phase::Asleep => if around.returns {
                    self.after_return(self.run_loop, around.outcome)
                } else if around.wakes {
                    Tap { run_loop: RunLoop { phase: Phase::Awake, ..self.run_loop }, ..self }
                } else {
                    self
                },
            }
        }
    }

    /// After several steps, the first of them first.
    pub open spec fn steps(self, around: Seq<Surroundings>) -> Tap
        decreases around.len(),
    {
        if around.len() == 0 {
            self
        } else {
            self.steps(around.drop_last()).step(around.last())
        }
    }

    /// After an action of the thread that stops this one.
    pub open spec fn act(self, action: StopAction) -> Tap {
        Tap { run_loop: self.run_loop.act(action), ..self }
    }

    /// The listener is no longer wanted: whenever the thread looks during these steps, it finds so.
    pub open spec fn found_unwanted(self, around: Seq<Surroundings>) -> bool {
        forall|i: int|
            0 <= i < around.len() && (#[trigger] self.steps(around.take(i))).thread.due
                == TapAction::CheckRunning ==> !around[i].outcome
    }

    /// What holds at every moment: the run loop is running only when the thread runs it, and a
    /// thread that has given up only cleans up and reports.
    spec fn wf(self) -> bool {
        &&& self.thread.due != TapAction::RunLoop ==> self.run_loop.phase == Phase::Outside
        &&& self.thread.failure is Some ==> match self.thread.due {
            TapAction::InvalidatePort
            | TapAction::FreeContext
            | TapAction::ReportFailure(_)
            | TapAction::Finish => true,
            _ => false,
        }
    }

    /// If the run loop is run, it finds a stop in its queue.
    spec fn stop_is_queued(self) -> bool {
        self.thread.due == TapAction::RunLoop ==> self.run_loop.queued_stops > 0
    }

    /// If the run loop is run, it is not asleep.
    spec fn is_awake(self) -> bool {
        self.thread.due == TapAction::RunLoop ==> self.run_loop.phase != Phase::Asleep
    }

    /// The most steps that are left once the stop is queued and the run loop is awake.
    spec fn steps_left(self) -> nat {
        let reports: nat = if self.thread.failure is Some {
            1
        } else {
            0
        };
        match self.thread.due {
            TapAction::AllocateContext => 13,
            TapAction::CreateTap => 12,
            TapAction::ShareTap => 11,
            TapAction::CreateSource => 10,
            TapAction::FindRunLoop => 9,
            TapAction::AddSource => 8,
            TapAction::RunLoop => if self.run_loop.phase == Phase::Outside {
                8
            } else {
                7
            },
            TapAction::EnableTap => 7,
            TapAction::ReportReady => 6,
            TapAction::CheckPort => 6,
            TapAction::CheckRunning => 5,
            TapAction::RemoveSource => 4,
            TapAction::DisableTap => 3,
            TapAction::InvalidatePort => 2 + reports,
            TapAction::FreeContext => 1 + reports,
            TapAction::ReportFailure(_) => 1,
            TapAction::Finish => 0,
        }
    }
}

/// Steps keep what holds at every moment.
proof fn lemma_wf(tap: Tap, around: Seq<Surroundings>)
    requires
        tap.wf(),
    ensures
        tap.steps(around).wf(),
    decreases around.len(),
{
    if around.len() > 0 {
        lemma_wf(tap, around.drop_last());
    }
}

/// A thread that finds itself unwanted at the end does so before.
proof fn lemma_unwanted_before(tap: Tap, around: Seq<Surroundings>)
    requires
        around.len() > 0,
        tap.found_unwanted(around),
    ensures
        tap.found_unwanted(around.drop_last()),
        tap.steps(around.drop_last()).thread.due == TapAction::CheckRunning
            ==> !around.last().outcome,
{
    let init = around.drop_last();
    assert(around.take(around.len() - 1) =~= init);
    assert forall|i: int|
        0 <= i < init.len() && (#[trigger] tap.steps(init.take(i))).thread.due
            == TapAction::CheckRunning implies !init[i].outcome by {
        assert(init.take(i) =~= around.take(i));
    }
}

/// A queued stop stays queued until the run loop has returned for good.
proof fn lemma_stop_stays_queued(tap: Tap, around: Seq<Surroundings>)
    requires
        tap.stop_is_queued(),
        tap.found_unwanted(around),
    ensures
        tap.steps(around).stop_is_queued(),
    decreases around.len(),
{
    if around.len() > 0 {
        lemma_unwanted_before(tap, around);
        lemma_stop_stays_queued(tap, around.drop_last());
    }
}

/// With the stop queued and the run loop awake, every step brings the thread nearer to its end.
proof fn lemma_steps_left(tap: Tap, around: Seq<Surroundings>)
    requires
        tap.wf(),
        tap.stop_is_queued(),
        tap.is_awake(),
        tap.found_unwanted(around),
    ensures
        tap.steps(around).wf(),
        tap.steps(around).stop_is_queued(),
        tap.steps(around).is_awake(),
        tap.steps(around).steps_left() + around.len() <= tap.steps_left() || tap.steps(
            around,
        ).thread.due == TapAction::Finish,
    decreases around.len(),
{
    if around.len() > 0 {
        lemma_unwanted_before(tap, around);
        lemma_steps_left(tap, around.drop_last());
    }
}

/// A stop ends the tap thread, at whatever moment it comes: once the listener is no longer wanted
/// and the stop actions have been done, the thread is at its end after a bounded number of steps,
/// and it is not left in a run loop that sleeps.
///
/// The thread may be anywhere when the stop is queued, also between finding itself wanted and
/// entering the run loop, and it may take any steps before it is woken. `before`, `between` and
/// `after` are its steps before the stop is queued, until the wake-up, and from then on.
pub proof fn stopped_thread_ends(
    run_loop: RunLoop,
    before: Seq<Surroundings>,
    between: Seq<Surroundings>,
    after: Seq<Surroundings>,
)
    requires
        run_loop.phase == Phase::Outside,
        ({
            let queued = Tap::start(run_loop).steps(before).act(stop_sequence()[0]);
            let woken = queued.steps(between).act(stop_sequence()[1]);
            queued.found_unwanted(between) && woken.found_unwanted(after)
        }),
        after.len() >= 13,
    ensures
        Tap::start(run_loop).steps(before).act(stop_sequence()[0]).steps(between).act(
            stop_sequence()[1],
        ).steps(after).thread.due == TapAction::Finish,
{
    let running = Tap::start(run_loop).steps(before);
    let queued = running.act(stop_sequence()[0]);
    let woken = queued.steps(between).act(stop_sequence()[1]);
    lemma_wf(Tap::start(run_loop), before);
    lemma_wf(queued, between);
    lemma_stop_stays_queued(queued, between);
    lemma_steps_left(woken, after);
}

/// A stop that comes when the thread has found itself wanted and has not entered the run loop yet
/// takes effect at that entry: the run loop returns on its first pass.
pub proof fn stop_before_the_entry_takes_effect_there(tap: Tap, around: Surroundings)
    requires
        tap.thread.due == TapAction::RunLoop,
        tap.run_loop.phase == Phase::Outside,
    ensures
        ({
            let stopped = tap.act(stop_sequence()[0]).act(stop_sequence()[1]);
            stopped.step(around).step(around).thread.due == TapAction::CheckPort
        }),
{
}

} // verus!
