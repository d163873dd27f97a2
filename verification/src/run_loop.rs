//! Stopping the run loop of a tap thread from another thread.
//!
//! A run loop's own stop request reaches it only between its entry and its return: every entry
//! forgets the requests made before. Blocks are different. They wait in a queue that outlives the
//! entries, and whatever is queued is performed on the next pass. So the request is put into a
//! block.

use vstd::prelude::*;

verus! {

/// Something to do to a run loop to stop it.
#[derive(Clone, Copy, Debug, PartialEq, Eq, Structural)]
pub enum StopAction {
    /// Queue a block that stops the run loop that performs it.
    QueueStop,
    /// Wake the run loop, in case it sleeps.
    WakeUp,
}

/// What stops a run loop, whether it has been entered or not: the block is queued first, so that
/// the run loop finds it when it wakes.
pub open spec fn stop_sequence() -> Seq<StopAction> {
    seq![StopAction::QueueStop, StopAction::WakeUp]
}

/// What stops a run loop, whether it has been entered or not.
pub fn stop_actions() -> (r: Vec<StopAction>)
    ensures
        r@ == stop_sequence(),
{
    let mut r: Vec<StopAction> = Vec::new();
    r.push(StopAction::QueueStop);
    r.push(StopAction::WakeUp);
    r
}

/// Where a run loop is.
pub enum Phase {
    /// It has not been entered, or it has returned.
    Outside,
    /// It is about to make a pass.
    Awake,
    /// It waits for something to happen.
    Asleep,
}

/// As much of a run loop as stopping it depends on.
pub struct RunLoop {
    pub phase: Phase,
    /// It was asked to stop since its last entry.
    pub stop_requested: bool,
    /// The number of queued blocks, each of which asks the run loop that performs it to stop.
    pub queued_stops: nat,
}

impl RunLoop {
    /// After its own stop request, which is lost on a run loop that is not running.
    pub open spec fn request_stop(self) -> RunLoop {
        match self.phase {
            Phase::Outside => self,
            _ => RunLoop { phase: Phase::Awake, stop_requested: true, ..self },
        }
    }

    /// After an action that is to stop it.
    pub open spec fn act(self, action: StopAction) -> RunLoop {
        match action {
            StopAction::QueueStop => RunLoop { queued_stops: self.queued_stops + 1, ..self },
            StopAction::WakeUp => match self.phase {
                Phase::Asleep => RunLoop { phase: Phase::Awake, ..self },
                _ => self,
            },
        }
    }

    /// After several actions, the first of them first.
    pub open spec fn act_all(self, actions: Seq<StopAction>) -> RunLoop
        decreases actions.len(),
    {
        if actions.len() == 0 {
            self
        } else {
            self.act_all(actions.drop_last()).act(actions.last())
        }
    }

    /// After it has been entered, where it was not: requests made before are forgotten.
    pub open spec fn enter(self) -> RunLoop {
        match self.phase {
            Phase::Outside => RunLoop { phase: Phase::Awake, stop_requested: false, ..self },
            _ => self,
        }
    }

    /// After one pass, where it is awake: the queued blocks are performed, and it returns if it
    /// was asked to stop.
    pub open spec fn pass(self) -> RunLoop {
        match self.phase {
            Phase::Awake => if self.stop_requested || self.queued_stops > 0 {
                RunLoop { phase: Phase::Outside, stop_requested: true, queued_stops: 0 }
            } else {
                RunLoop { phase: Phase::Asleep, ..self }
            },
            _ => self,
        }
    }
}

/// The stop actions end a run loop on its next pass, wherever it was: one that sleeps is woken, and
/// one that has not been entered returns as soon as it is.
pub proof fn stop_is_not_lost(run_loop: RunLoop)
    ensures
        run_loop.act_all(stop_sequence()).enter().pass().phase == Phase::Outside,
        run_loop.phase != Phase::Outside ==> run_loop.act_all(stop_sequence()).pass().phase
            == Phase::Outside,
{
    let actions = stop_sequence();
    assert(actions.drop_last() =~= seq![StopAction::QueueStop]);
    assert(actions.drop_last().drop_last() =~= Seq::<StopAction>::empty());
    reveal_with_fuel(RunLoop::act_all, 3);
}

/// A run loop's own stop request is lost where it comes before the entry: the run loop falls
/// asleep all the same.
pub proof fn bare_request_is_lost_before_the_entry(run_loop: RunLoop)
    requires
        run_loop.phase == Phase::Outside,
        run_loop.queued_stops == 0,
    ensures
        run_loop.request_stop().enter().pass().phase == Phase::Asleep,
{
}

/// The stop is queued before the run loop is woken, and nothing else is done.
pub proof fn stop_is_queued_before_the_wake_up(r: Vec<StopAction>)
    requires
        call_ensures(stop_actions, (), r),
    ensures
        r@.len() == 2,
        r@[0] == StopAction::QueueStop,
        r@[1] == StopAction::WakeUp,
{
}

} // verus!
