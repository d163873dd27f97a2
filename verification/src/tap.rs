//! The life of the thread that runs the event tap, one action after the other.

use vstd::prelude::*;

verus! {

/// Why the tap thread gave up before it ran.
#[derive(Clone, Copy, Debug, PartialEq, Eq, Structural)]
pub enum InitFailure {
    TapNotCreated,
    SourceNotCreated,
    NoRunLoop,
}

impl InitFailure {
    /// The failure in words.
    pub open spec fn text(self) -> Seq<char> {
        match self {
            InitFailure::TapNotCreated =>
            "Failed to create event tap. Your terminal app may need accessibility permission in System Settings > Privacy & Security > Accessibility"@,
            InitFailure::SourceNotCreated => "Failed to create run loop source"@,
            InitFailure::NoRunLoop => "Failed to get current run loop"@,
        }
    }

    /// The failure in words.
    pub fn message(self) -> (r: String)
        ensures
            r@ == self.text(),
    {
        match self {
            InitFailure::TapNotCreated =>
            "Failed to create event tap. Your terminal app may need accessibility permission in System Settings > Privacy & Security > Accessibility".to_string(),
            InitFailure::SourceNotCreated => "Failed to create run loop source".to_string(),
            InitFailure::NoRunLoop => "Failed to get current run loop".to_string(),
        }
    }
}

/// Something for the tap thread to do. Those whose outcome matters say what it means.
#[derive(Clone, Copy, Debug, PartialEq, Eq, Structural)]
pub enum TapAction {
    /// Allocate the callback's context.
    AllocateContext,
    /// Create the tap, for the events of `event_mask`. Outcome: it was created.
    CreateTap,
    /// Let the context know the tap.
    ShareTap,
    /// Create a run loop source for the tap. Outcome: it was created.
    CreateSource,
    /// Find the run loop of the thread. Outcome: there is one.
    FindRunLoop,
    /// Add the source to the run loop.
    AddSource,
    /// Turn the tap on.
    EnableTap,
    /// Report that the tap runs, and hand its run loop out.
    ReportReady,
    /// Look whether the listener is still wanted. Outcome: it is.
    CheckRunning,
    /// Run the run loop until it returns.
    RunLoop,
    /// Look whether the tap's port is still valid. Outcome: it is.
    CheckPort,
    /// Take the source off the run loop.
    RemoveSource,
    /// Turn the tap off.
    DisableTap,
    /// Invalidate the tap's port.
    InvalidatePort,
    /// Free the callback's context.
    FreeContext,
    /// Report the failure.
    ReportFailure(InitFailure),
    /// Nothing is left to do.
    Finish,
}

/// Where the tap thread is: the action that is due, and why it gave up if it did.
#[derive(Clone, Copy, Debug, PartialEq, Eq, Structural)]
pub struct TapThread {
    pub due: TapAction,
    pub failure: Option<InitFailure>,
}

impl TapThread {
    /// The start of the thread.
    pub open spec fn initial() -> TapThread {
        TapThread { due: TapAction::AllocateContext, failure: None }
    }

    /// An action follows, for the reason that held before.
    pub open spec fn then_do(self, action: TapAction) -> TapThread {
        TapThread { due: action, ..self }
    }

    /// The thread gives up; an action follows.
    pub open spec fn give_up(self, failure: InitFailure, action: TapAction) -> TapThread {
        TapThread { due: action, failure: Some(failure) }
    }

    /// Where the thread is once the action that is due has been done, with that outcome.
    pub open spec fn next(self, outcome: bool) -> TapThread {
        match self.due {
            TapAction::AllocateContext => self.then_do(TapAction::CreateTap),
            TapAction::CreateTap => if outcome {
                self.then_do(TapAction::ShareTap)
            } else {
                self.give_up(InitFailure::TapNotCreated, TapAction::FreeContext)
            },
            TapAction::ShareTap => self.then_do(TapAction::CreateSource),
            TapAction::CreateSource => if outcome {
                self.then_do(TapAction::FindRunLoop)
            } else {
                self.give_up(InitFailure::SourceNotCreated, TapAction::InvalidatePort)
            },
            TapAction::FindRunLoop => if outcome {
                self.then_do(TapAction::AddSource)
            } else {
                self.give_up(InitFailure::NoRunLoop, TapAction::InvalidatePort)
            },
            TapAction::AddSource => self.then_do(TapAction::EnableTap),
            TapAction::EnableTap => self.then_do(TapAction::ReportReady),
            TapAction::ReportReady => self.then_do(TapAction::CheckRunning),
            TapAction::CheckRunning => if outcome {
                self.then_do(TapAction::RunLoop)
            } else {
                self.then_do(TapAction::RemoveSource)
            },
            TapAction::RunLoop => self.then_do(TapAction::CheckPort),
            TapAction::CheckPort => if outcome {
                self.then_do(TapAction::CheckRunning)
            } else {
                self.then_do(TapAction::RemoveSource)
            },
            TapAction::RemoveSource => self.then_do(TapAction::DisableTap),
            TapAction::DisableTap => self.then_do(TapAction::InvalidatePort),
            TapAction::InvalidatePort => self.then_do(TapAction::FreeContext),
            TapAction::FreeContext => match self.failure {
                Some(failure) => self.then_do(TapAction::ReportFailure(failure)),
                None => self.then_do(TapAction::Finish),
            },
            TapAction::ReportFailure(_) => self.then_do(TapAction::Finish),
            TapAction::Finish => self,
        }
    }

    /// A tap thread that has done nothing yet.
    pub fn new() -> (r: TapThread)
        ensures
            r == TapThread::initial(),
    {
        TapThread { due: TapAction::AllocateContext, failure: None }
    }

    /// Moves on, now that the action that was due has been done with that outcome.
    pub fn advance(&mut self, outcome: bool)
        ensures
            *final(self) == old(self).next(outcome),
    {
        let following = match self.due {
            TapAction::AllocateContext => TapAction::CreateTap,
            TapAction::CreateTap => if outcome {
                TapAction::ShareTap
            } else {
                self.failure = Some(InitFailure::TapNotCreated);
                TapAction::FreeContext
            },
            TapAction::ShareTap => TapAction::CreateSource,
            TapAction::CreateSource => if outcome {
                TapAction::FindRunLoop
            } else {
                self.failure = Some(InitFailure::SourceNotCreated);
                TapAction::InvalidatePort
            },
            TapAction::FindRunLoop => if outcome {
                TapAction::AddSource
            } else {
                self.failure = Some(InitFailure::NoRunLoop);
                TapAction::InvalidatePort
            },
            TapAction::AddSource => TapAction::EnableTap,
            TapAction::EnableTap => TapAction::ReportReady,
            TapAction::ReportReady => TapAction::CheckRunning,
            TapAction::CheckRunning => if outcome {
                TapAction::RunLoop
            } else {
                TapAction::RemoveSource
            },
            TapAction::RunLoop => TapAction::CheckPort,
            TapAction::CheckPort => if outcome {
                TapAction::CheckRunning
            } else {
                TapAction::RemoveSource
            },
            TapAction::RemoveSource => TapAction::DisableTap,
            TapAction::DisableTap => TapAction::InvalidatePort,
            TapAction::InvalidatePort => TapAction::FreeContext,
            TapAction::FreeContext => match self.failure {
                Some(failure) => TapAction::ReportFailure(failure),
                None => TapAction::Finish,
            },
            TapAction::ReportFailure(_) => TapAction::Finish,
            TapAction::Finish => TapAction::Finish,
        };
        self.due = following;
    }
}

/// What a tap thread tells the one that started it.
pub enum Report {
    Ready,
    Failed(InitFailure),
}

/// The port of the tap.
pub enum Port {
    /// There is no tap.
    Absent,
    /// The tap was created, and its port was not found to be invalid since.
    Open,
    /// The port was found to be no longer valid.
    Dead,
    /// The thread has invalidated the port.
    Invalidated,
}

/// What the actions of a tap thread have left behind so far.
pub struct World {
    /// The callback's context is allocated.
    pub context: bool,
    pub port: Port,
    /// The context knows the tap.
    pub shared: bool,
    /// The outcomes of creating the tap and its source and of finding the run loop.
    pub tap: Option<bool>,
    pub source: Option<bool>,
    pub run_loop: Option<bool>,
    /// The source is on the run loop.
    pub attached: bool,
    /// The tap is turned on.
    pub enabled: bool,
    /// The listener was found no longer wanted, or the port no longer valid.
    pub over: bool,
    pub reports: Seq<Report>,
}

impl World {
    /// Before the first action.
    pub open spec fn untouched() -> World {
        World {
            context: false,
            port: Port::Absent,
            shared: false,
            tap: None,
            source: None,
            run_loop: None,
            attached: false,
            enabled: false,
            over: false,
            reports: Seq::empty(),
        }
    }

    /// After one more action.
    pub open spec fn perform(self, action: TapAction, outcome: bool) -> World {
        match action {
            TapAction::AllocateContext => World { context: true, ..self },
            TapAction::CreateTap => World {
                tap: Some(outcome),
                port: if outcome {
                    Port::Open
                } else {
                    Port::Absent
                },
                ..self
            },
            TapAction::ShareTap => World { shared: true, ..self },
            TapAction::CreateSource => World { source: Some(outcome), ..self },
            TapAction::FindRunLoop => World { run_loop: Some(outcome), ..self },
            TapAction::AddSource => World { attached: true, ..self },
            TapAction::EnableTap => World { enabled: true, ..self },
            TapAction::ReportReady => World { reports: self.reports.push(Report::Ready), ..self },
            TapAction::CheckRunning => World { over: self.over || !outcome, ..self },
            TapAction::CheckPort => World {
                over: self.over || !outcome,
                port: if outcome {
                    self.port
                } else {
                    Port::Dead
                },
                ..self
            },
            TapAction::RunLoop => self,
            TapAction::RemoveSource => World { attached: false, ..self },
            TapAction::DisableTap => World { enabled: false, ..self },
            TapAction::InvalidatePort => World { port: Port::Invalidated, ..self },
            TapAction::FreeContext => World { context: false, ..self },
            TapAction::ReportFailure(failure) => World {
                reports: self.reports.push(Report::Failed(failure)),
                ..self
            },
            TapAction::Finish => self,
        }
    }

    /// There is a port that the thread has yet to invalidate.
    pub open spec fn has_port(self) -> bool {
        self.port == Port::Open || self.port == Port::Dead
    }

    /// Nothing is held any more.
    pub open spec fn released(self) -> bool {
        !self.context && !self.has_port() && !self.attached && !self.enabled
    }

    /// What is to be told, by the first thing that could not be had.
    pub open spec fn due_report(self) -> Report {
        if self.tap == Some(false) {
            Report::Failed(InitFailure::TapNotCreated)
        } else if self.source == Some(false) {
            Report::Failed(InitFailure::SourceNotCreated)
        } else if self.run_loop == Some(false) {
            Report::Failed(InitFailure::NoRunLoop)
        } else {
            Report::Ready
        }
    }

    /// An action is in order: what it works on is there, and what it undoes was done. The context
    /// is freed only when there is no port that could call back into it.
    pub open spec fn allows(self, action: TapAction) -> bool {
        match action {
            TapAction::AllocateContext => !self.context,
            TapAction::CreateTap => self.context && self.tap is None,
            TapAction::ShareTap => self.context && self.port == Port::Open,
            TapAction::CreateSource => self.port == Port::Open && self.source is None,
            TapAction::FindRunLoop => self.source == Some(true) && self.run_loop is None,
            TapAction::AddSource => self.port == Port::Open && self.source == Some(true)
                && self.run_loop == Some(true) && !self.attached,
            TapAction::EnableTap => self.context && self.shared && self.port == Port::Open
                && self.attached && !self.enabled,
            TapAction::ReportReady => self.enabled && self.reports.len() == 0,
            TapAction::CheckRunning => !self.over && self.run_loop == Some(true),
            TapAction::RunLoop => self.context && self.shared && self.port == Port::Open
                && self.attached && self.enabled && !self.over,
            TapAction::CheckPort => !self.over && self.port == Port::Open,
            TapAction::RemoveSource => self.over && self.attached,
            TapAction::DisableTap => self.over && self.enabled && self.has_port(),
            TapAction::InvalidatePort => self.has_port() && !self.attached && !self.enabled,
            TapAction::FreeContext => self.context && !self.has_port(),
            TapAction::ReportFailure(failure) => self.released() && self.reports.len() == 0
                && self.due_report() == Report::Failed(failure),
            TapAction::Finish => self.released() && self.reports =~= seq![self.due_report()],
        }
    }
}

/// A tap thread and what it has left behind, after actions with these outcomes.
pub open spec fn life(outcomes: Seq<bool>) -> (TapThread, World)
    decreases outcomes.len(),
{
    if outcomes.len() == 0 {
        (TapThread::initial(), World::untouched())
    } else {
        let (thread, world) = life(outcomes.drop_last());
        (thread.next(outcomes.last()), world.perform(thread.due, outcomes.last()))
    }
}

/// How far the world has come when an action is due.
spec fn in_step(thread: TapThread, world: World) -> bool {
    let up = world.context && world.shared && world.has_port() && world.tap == Some(true)
        && world.source == Some(true) && world.run_loop == Some(true);
    let fresh = world.reports =~= Seq::empty() && !world.attached && !world.enabled && !world.over
        && thread.failure is None;
    let ready = world.reports =~= seq![Report::Ready] && thread.failure is None;
    let failed = thread.failure matches Some(f) && world.due_report() == Report::Failed(f)
        && world.reports =~= Seq::empty() && !world.attached && !world.enabled;
    match thread.due {
        TapAction::AllocateContext => world == World::untouched() && thread.failure is None,
        TapAction::CreateTap => world == (World { context: true, ..World::untouched() })
            && thread.failure is None,
        TapAction::ShareTap => fresh && world.context && world.port == Port::Open && world.tap
            == Some(true) && world.source is None && world.run_loop is None,
        TapAction::CreateSource => fresh && world.context && world.shared && world.port
            == Port::Open && world.tap == Some(true) && world.source is None
            && world.run_loop is None,
        TapAction::FindRunLoop => fresh && world.context && world.shared && world.port
            == Port::Open && world.tap == Some(true) && world.source == Some(true)
            && world.run_loop is None,
        TapAction::AddSource => fresh && up && world.port == Port::Open,
        TapAction::EnableTap => up && world.port == Port::Open && world.attached && !world.enabled && !world.over
            && world.reports =~= Seq::empty() && thread.failure is None,
        TapAction::ReportReady => up && world.port == Port::Open && world.attached && world.enabled && !world.over
            && world.reports =~= Seq::empty() && thread.failure is None,
        TapAction::CheckRunning | TapAction::RunLoop | TapAction::CheckPort => up && ready
            && world.port == Port::Open && world.attached && world.enabled && !world.over,
        TapAction::RemoveSource => up && ready && world.attached && world.enabled && world.over,
        TapAction::DisableTap => up && ready && !world.attached && world.enabled && world.over,
        TapAction::InvalidatePort => world.context && world.has_port() && !world.attached
            && !world.enabled && ((up && ready) || failed),
        TapAction::FreeContext => world.context && !world.has_port() && !world.attached
            && !world.enabled && ((ready && world.due_report() == Report::Ready) || failed),
        TapAction::ReportFailure(f) => failed && thread.failure == Some(f) && world.released(),
        TapAction::Finish => world.released() && world.reports =~= seq![world.due_report()],
    }
}

/// The world stays in step with the thread.
proof fn lemma_in_step(outcomes: Seq<bool>)
    ensures
        in_step(life(outcomes).0, life(outcomes).1),
    decreases outcomes.len(),
{
    if outcomes.len() > 0 {
        lemma_in_step(outcomes.drop_last());
    }
}

/// Whatever the outcomes, every action of a tap thread is in order when it is due. In particular
/// the context outlives every port that could call back into it, and when nothing is left to do,
/// everything is released and one report has been made: ready, or the first thing that could not
/// be had.
pub proof fn every_action_is_in_order(outcomes: Seq<bool>)
    ensures
        life(outcomes).1.allows(life(outcomes).0.due),
{
    lemma_in_step(outcomes);
}

/// The run loop is run again whenever it returns and the listener is still wanted and the port
/// still valid.
pub proof fn wanted_listener_runs_again(outcomes: Seq<bool>, returned: bool)
    requires
        life(outcomes).0.due == TapAction::RunLoop,
    ensures
        life(outcomes.push(returned).push(true).push(true)).0.due == TapAction::RunLoop,
{
    lemma_one_more(outcomes, returned);
    lemma_one_more(outcomes.push(returned), true);
    lemma_one_more(outcomes.push(returned).push(true), true);
}

/// Once the listener is found no longer wanted, or the port no longer valid, four actions clean up
/// and nothing is left to do, whatever their outcomes.
pub proof fn unwanted_listener_ends(outcomes: Seq<bool>, cleanup: Seq<bool>)
    requires
        life(outcomes).0.due == TapAction::CheckRunning || life(outcomes).0.due
            == TapAction::CheckPort,
        cleanup.len() == 4,
    ensures
        life(outcomes.push(false) + cleanup).0.due == TapAction::Finish,
{
    let a = outcomes.push(false);
    let b = a.push(cleanup[0]);
    let c = b.push(cleanup[1]);
    let d = c.push(cleanup[2]);
    let e = d.push(cleanup[3]);
    lemma_in_step(outcomes);
    lemma_one_more(outcomes, false);
    lemma_one_more(a, cleanup[0]);
    lemma_one_more(b, cleanup[1]);
    lemma_one_more(c, cleanup[2]);
    lemma_one_more(d, cleanup[3]);
    assert(e =~= outcomes.push(false) + cleanup);
}

/// A tap thread that has given up ends, with at most the port and the context to clean up and the
/// failure to report.
pub proof fn failed_thread_ends(outcomes: Seq<bool>, cleanup: Seq<bool>)
    requires
        life(outcomes).0.failure is Some,
        cleanup.len() == 3,
    ensures
        life(outcomes + cleanup).0.due == TapAction::Finish,
{
    let a = outcomes.push(cleanup[0]);
    let b = a.push(cleanup[1]);
    let c = b.push(cleanup[2]);
    lemma_in_step(outcomes);
    lemma_one_more(outcomes, cleanup[0]);
    lemma_one_more(a, cleanup[1]);
    lemma_one_more(b, cleanup[2]);
    assert(c =~= outcomes + cleanup);
}

/// One more action moves the thread and the world on by one.
proof fn lemma_one_more(outcomes: Seq<bool>, outcome: bool)
    ensures
        life(outcomes.push(outcome)).0 == life(outcomes).0.next(outcome),
        life(outcomes.push(outcome)).1 == life(outcomes).1.perform(
            life(outcomes).0.due,
            outcome,
        ),
{
    assert(outcomes.push(outcome).drop_last() =~= outcomes);
}

/// The most actions that are left when the listener is no longer wanted.
spec fn actions_left(thread: TapThread) -> nat {
    let reports: nat = if thread.failure is Some {
        1
    } else {
        0
    };
    match thread.due {
        TapAction::AllocateContext => 13,
        TapAction::CreateTap => 12,
        TapAction::ShareTap => 11,
        TapAction::CreateSource => 10,
        TapAction::FindRunLoop => 9,
        TapAction::AddSource => 8,
        TapAction::EnableTap => 7,
        TapAction::RunLoop => 7,
        TapAction::ReportReady => 6,
        TapAction::CheckPort => 6,
        TapAction::CheckRunning => 5,
        TapAction::RemoveSource => 4,
        TapAction::DisableTap => 3,
        TapAction::InvalidatePort => 2 + reports,
        TapAction::FreeContext => 1 + reports,
        TapAction::ReportFailure(_) => 1,
        TapAction::Finish => 0,
    }
}

/// The listener is no longer wanted: whenever the thread looks, after these outcomes, it finds so.
pub open spec fn found_unwanted(outcomes: Seq<bool>, rest: Seq<bool>) -> bool {
    forall|i: int|
        0 <= i < rest.len() && (#[trigger] life(outcomes + rest.take(i))).0.due
            == TapAction::CheckRunning ==> !rest[i]
}

/// Every action brings an unwanted listener's thread nearer to its end.
proof fn lemma_actions_left(outcomes: Seq<bool>, rest: Seq<bool>)
    requires
        found_unwanted(outcomes, rest),
    ensures
        actions_left(life(outcomes + rest).0) + rest.len() <= actions_left(life(outcomes).0)
            || life(outcomes + rest).0.due == TapAction::Finish,
    decreases rest.len(),
{
    if rest.len() == 0 {
        assert(outcomes + rest =~= outcomes);
    } else {
        let init = rest.drop_last();
        assert(rest.take(rest.len() - 1) =~= init);
        assert forall|i: int|
            0 <= i < init.len() && (#[trigger] life(outcomes + init.take(i))).0.due
                == TapAction::CheckRunning implies !init[i] by {
            assert(init.take(i) =~= rest.take(i));
        }
        lemma_actions_left(outcomes, init);
        lemma_in_step(outcomes + init);
        lemma_one_more(outcomes + init, rest.last());
        assert((outcomes + init).push(rest.last()) =~= outcomes + rest);
    }
}

/// Once the listener is no longer wanted, its thread ends, wherever it was and whatever the other
/// outcomes, as long as every run of the run loop returns.
pub proof fn unwanted_thread_ends(outcomes: Seq<bool>, rest: Seq<bool>)
    requires
        found_unwanted(outcomes, rest),
        rest.len() >= 13,
    ensures
        life(outcomes + rest).0.due == TapAction::Finish,
{
    lemma_actions_left(outcomes, rest);
}

/// Only what creates the tap or its source, finds the run loop, or looks whether to go on has an
/// outcome that matters.
pub proof fn only_five_outcomes_matter(thread: TapThread)
    requires
        thread.due != TapAction::CreateTap,
        thread.due != TapAction::CreateSource,
        thread.due != TapAction::FindRunLoop,
        thread.due != TapAction::CheckRunning,
        thread.due != TapAction::CheckPort,
    ensures
        thread.next(true) == thread.next(false),
{
}

/// A call of `advance` notes a failure exactly when something cannot be had, by what it is, and
/// forgets none.
pub proof fn failures_are_what_could_not_be_had(thread: &mut TapThread, outcome: bool)
    requires
        call_ensures(TapThread::advance, (thread, outcome), ()),
    ensures
        !outcome && old(thread).due == TapAction::CreateTap ==> final(thread).failure == Some(
            InitFailure::TapNotCreated,
        ),
        !outcome && old(thread).due == TapAction::CreateSource ==> final(thread).failure == Some(
            InitFailure::SourceNotCreated,
        ),
        !outcome && old(thread).due == TapAction::FindRunLoop ==> final(thread).failure == Some(
            InitFailure::NoRunLoop,
        ),
        outcome || !(old(thread).due == TapAction::CreateTap || old(thread).due
            == TapAction::CreateSource || old(thread).due == TapAction::FindRunLoop) ==> final(thread).failure == old(thread).failure,
{
}

/// A call of `advance` while the tap is set up: each thing comes after what it needs, and what
/// cannot be had leads to giving back what was had before.
pub proof fn set_up_goes_step_by_step(thread: &mut TapThread, outcome: bool)
    requires
        call_ensures(TapThread::advance, (thread, outcome), ()),
    ensures
        old(thread).due == TapAction::AllocateContext ==> final(thread).due
            == TapAction::CreateTap,
        old(thread).due == TapAction::CreateTap ==> (final(thread).due == TapAction::ShareTap
            <==> outcome) && (final(thread).due == TapAction::FreeContext <==> !outcome),
        old(thread).due == TapAction::ShareTap ==> final(thread).due == TapAction::CreateSource,
        old(thread).due == TapAction::CreateSource ==> (final(thread).due
            == TapAction::FindRunLoop <==> outcome) && (final(thread).due
            == TapAction::InvalidatePort <==> !outcome),
        old(thread).due == TapAction::FindRunLoop ==> (final(thread).due == TapAction::AddSource
            <==> outcome) && (final(thread).due == TapAction::InvalidatePort <==> !outcome),
        old(thread).due == TapAction::AddSource ==> final(thread).due == TapAction::EnableTap,
        old(thread).due == TapAction::EnableTap ==> final(thread).due == TapAction::ReportReady,
        old(thread).due == TapAction::ReportReady ==> final(thread).due == TapAction::CheckRunning,
{
}

/// A call of `advance` once the tap is set up: the run loop is run as long as it is wanted and its
/// port is valid, and then everything is given back, the last thing first.
pub proof fn running_leads_to_cleaning_up(thread: &mut TapThread, outcome: bool)
    requires
        call_ensures(TapThread::advance, (thread, outcome), ()),
    ensures
        old(thread).due == TapAction::CheckRunning ==> (final(thread).due == TapAction::RunLoop
            <==> outcome) && (final(thread).due == TapAction::RemoveSource <==> !outcome),
        old(thread).due == TapAction::RunLoop ==> final(thread).due == TapAction::CheckPort,
        old(thread).due == TapAction::CheckPort ==> (final(thread).due == TapAction::CheckRunning
            <==> outcome) && (final(thread).due == TapAction::RemoveSource <==> !outcome),
        old(thread).due == TapAction::RemoveSource ==> final(thread).due == TapAction::DisableTap,
        old(thread).due == TapAction::DisableTap ==> final(thread).due
            == TapAction::InvalidatePort,
        old(thread).due == TapAction::InvalidatePort ==> final(thread).due
            == TapAction::FreeContext,
        old(thread).due == TapAction::FreeContext ==> final(thread).due == match old(thread).failure {
            Some(failure) => TapAction::ReportFailure(failure),
            None => TapAction::Finish,
        },
        old(thread).due is ReportFailure || old(thread).due == TapAction::Finish ==> final(thread).due == TapAction::Finish,
{
}

/// A new thread has everything before it.
pub proof fn threads_start_at_the_beginning(r: TapThread)
    requires
        call_ensures(TapThread::new, (), r),
    ensures
        r.due == TapAction::AllocateContext,
        r.failure is None,
        r == life(Seq::empty()).0,
{
}

/// The words of a failure say what could not be had.
pub proof fn words_say_what_could_not_be_had(failure: InitFailure, r: String)
    requires
        call_ensures(InitFailure::message, (failure,), r),
    ensures
        r@ == match failure {
            InitFailure::TapNotCreated =>
            "Failed to create event tap. Your terminal app may need accessibility permission in System Settings > Privacy & Security > Accessibility"@,
            InitFailure::SourceNotCreated => "Failed to create run loop source"@,
            InitFailure::NoRunLoop => "Failed to get current run loop"@,
        },
{
}

} // verus!
