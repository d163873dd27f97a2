use keytap::run_loop::{stop_actions, StopAction};
use keytap::spawn::{require_accessibility, started, Error};
use keytap::tap::{InitFailure, TapAction, TapThread};

/// The actions of a thread in which those named fail, and the run loop is run `runs` times.
fn actions(failing: &[TapAction], runs: usize) -> Vec<TapAction> {
    let mut thread = TapThread::new();
    let mut done = vec![];
    let mut left = runs;
    while thread.due != TapAction::Finish {
        let action = thread.due;
        done.push(action);
        let outcome = match action {
            TapAction::CheckRunning => left > 0,
            TapAction::RunLoop => {
                left -= 1;
                true
            }
            other => !failing.contains(&other),
        };
        thread.advance(outcome);
    }
    done
}

#[test]
fn tap_thread_runs_and_cleans_up() {
    assert_eq!(
        actions(&[], 2),
        vec![
            TapAction::AllocateContext,
            TapAction::CreateTap,
            TapAction::ShareTap,
            TapAction::CreateSource,
            TapAction::FindRunLoop,
            TapAction::AddSource,
            TapAction::EnableTap,
            TapAction::ReportReady,
            TapAction::CheckRunning,
            TapAction::RunLoop,
            TapAction::CheckPort,
            TapAction::CheckRunning,
            TapAction::RunLoop,
            TapAction::CheckPort,
            TapAction::CheckRunning,
            TapAction::RemoveSource,
            TapAction::DisableTap,
            TapAction::InvalidatePort,
            TapAction::FreeContext,
        ]
    );
}

#[test]
fn dead_port_ends_the_thread() {
    let done = actions(&[TapAction::CheckPort], 9);
    assert_eq!(done.iter().filter(|a| **a == TapAction::RunLoop).count(), 1);
    assert_eq!(
        done[done.len() - 5..],
        [
            TapAction::CheckPort,
            TapAction::RemoveSource,
            TapAction::DisableTap,
            TapAction::InvalidatePort,
            TapAction::FreeContext,
        ]
    );
}

#[test]
fn missing_tap_is_reported() {
    assert_eq!(
        actions(&[TapAction::CreateTap], 1),
        vec![
            TapAction::AllocateContext,
            TapAction::CreateTap,
            TapAction::FreeContext,
            TapAction::ReportFailure(InitFailure::TapNotCreated),
        ]
    );
    assert_eq!(
        InitFailure::TapNotCreated.message(),
        "Failed to create event tap. Your terminal app may need accessibility permission in System Settings > Privacy & Security > Accessibility"
    );
}

#[test]
fn missing_source_is_reported() {
    let done = actions(&[TapAction::CreateSource], 1);
    assert_eq!(
        done[3..],
        [
            TapAction::CreateSource,
            TapAction::InvalidatePort,
            TapAction::FreeContext,
            TapAction::ReportFailure(InitFailure::SourceNotCreated),
        ]
    );
    assert_eq!(InitFailure::SourceNotCreated.message(), "Failed to create run loop source");
}

#[test]
fn missing_run_loop_is_reported() {
    let done = actions(&[TapAction::FindRunLoop], 1);
    assert_eq!(
        done[4..],
        [
            TapAction::FindRunLoop,
            TapAction::InvalidatePort,
            TapAction::FreeContext,
            TapAction::ReportFailure(InitFailure::NoRunLoop),
        ]
    );
    assert_eq!(InitFailure::NoRunLoop.message(), "Failed to get current run loop");
}

#[test]
fn finished_thread_stays_finished() {
    let mut thread = TapThread { due: TapAction::Finish, failure: None };
    thread.advance(true);
    assert_eq!(thread.due, TapAction::Finish);
}

#[test]
fn stop_is_queued_before_the_wake_up() {
    assert_eq!(stop_actions(), vec![StopAction::QueueStop, StopAction::WakeUp]);
}

#[test]
fn stop_between_the_check_and_the_entry_ends_the_thread() {
    let mut thread = TapThread::new();
    while thread.due != TapAction::RunLoop {
        thread.advance(true);
    }

    // The thread has found itself wanted and has not entered the run loop yet.
    let mut queued = 0;
    for action in stop_actions() {
        if action == StopAction::QueueStop {
            queued += 1;
        }
    }

    let mut steps = 0;
    while thread.due != TapAction::Finish && steps < 13 {
        let outcome = match thread.due {
            TapAction::RunLoop => {
                assert_eq!(queued, 1, "nothing makes the run loop return");
                queued = 0;
                true
            }
            TapAction::CheckRunning => false,
            _ => true,
        };
        thread.advance(outcome);
        steps += 1;
    }
    assert_eq!(thread.due, TapAction::Finish);
    assert_eq!(steps, 7);
}

#[test]
fn unwanted_thread_ends_from_its_start() {
    let mut thread = TapThread::new();
    for _ in 0..13 {
        assert_ne!(thread.due, TapAction::Finish);
        let wanted = thread.due != TapAction::CheckRunning;
        thread.advance(wanted);
    }
    assert_eq!(thread.due, TapAction::Finish);
}

#[test]
fn accessibility_is_required() {
    assert_eq!(require_accessibility(true), Ok(()));
    assert_eq!(require_accessibility(false), Err(Error::AccessibilityNotGranted));
}

#[test]
fn report_decides_the_start() {
    assert_eq!(started(Some(Ok(7))), Ok(7));
    assert_eq!(
        started::<u8>(Some(Err("no tap".to_string()))),
        Err(Error::EventTapCreationFailed("no tap".to_string()))
    );
    assert_eq!(
        started::<u8>(None),
        Err(Error::EventTapCreationFailed(
            "Event tap thread terminated unexpectedly".to_string()
        ))
    );
}
