//! Starting a listener.

use vstd::prelude::*;

verus! {

/// Why a listener could not be started.
#[derive(Clone, Debug, PartialEq, Eq)]
pub enum Error {
    AccessibilityNotGranted,
    EventTapCreationFailed(String),
}

/// A listener is started only with the permission to watch other applications' input.
pub fn require_accessibility(granted: bool) -> (r: Result<(), Error>)
    ensures
        r == if granted {
            Ok(())
        } else {
            Err(Error::AccessibilityNotGranted)
        },
{
    if granted {
        Ok(())
    } else {
        Err(Error::AccessibilityNotGranted)
    }
}

/// What comes of the tap thread's report: `R` is what it hands out when it is ready, and there is
/// none where it ended without a word.
pub fn started<R>(report: Option<Result<R, String>>) -> (r: Result<R, Error>)
    ensures
        match report {
            Some(Ok(handle)) => r == Ok::<R, Error>(handle),
            Some(Err(message)) => r == Err::<R, Error>(Error::EventTapCreationFailed(message)),
            None => r matches Err(Error::EventTapCreationFailed(message)) && message@
                == "Event tap thread terminated unexpectedly"@,
        },
{
    match report {
        Some(Ok(handle)) => Ok(handle),
        Some(Err(message)) => Err(Error::EventTapCreationFailed(message)),
        None => Err(
            Error::EventTapCreationFailed("Event tap thread terminated unexpectedly".to_string()),
        ),
    }
}

/// Without the permission there is no start, and with it there is no error.
pub proof fn permission_alone_admits(granted: bool, r: Result<(), Error>)
    requires
        call_ensures(require_accessibility, (granted,), r),
    ensures
        r is Ok <==> granted,
        r is Err ==> r->Err_0 == Error::AccessibilityNotGranted,
{
}

/// A start succeeds exactly when the thread reports so, with what it hands out; a failure carries
/// the thread's own words, and a thread without a word is a failure too.
pub proof fn starts_are_as_reported<R>(report: Option<Result<R, String>>, r: Result<R, Error>)
    requires
        call_ensures(started::<R>, (report,), r),
    ensures
        r is Ok <==> (report is Some && report->0 is Ok),
        r is Ok ==> r->Ok_0 == report->0->Ok_0,
        r is Err ==> r->Err_0 is EventTapCreationFailed,
        r is Err && report is Some ==> r->Err_0->EventTapCreationFailed_0 == report->0->Err_0,
        report is None ==> r->Err_0->EventTapCreationFailed_0@
            == "Event tap thread terminated unexpectedly"@,
{
}

} // verus!
