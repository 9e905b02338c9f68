//! Stopping the daemon that owns the cache: a plain termination signal
//! first, and an elevated one only when that did not do.

use vstd::prelude::*;

use crate::cache_cleaner::{extends, CleanError};
use crate::text::{contains_str, occurs_in};

verus! {

/// How an external command ended, as the host saw it.
#[derive(Debug, Clone)]
pub struct ProcessOutcome {
    pub success: bool,
    /// The exit code, when the command exited rather than being killed.
    pub code: Option<i32>,
    /// What the command wrote to its error stream.
    pub stderr: String,
}

/// What to do after the plain termination signal.
#[derive(Debug, Clone, Copy, PartialEq, Eq, Structural)]
pub enum StopStep {
    /// The daemon is stopped (or was not running).
    Stopped,
    /// Ask for elevated privileges and signal it again.
    Escalate,
}

/// The words an elevation prompt writes when the user cancels it.
pub open spec fn cancel_words() -> Seq<char> {
    "User canceled"@
}

/// A termination command that succeeded, or found no such process (exit
/// code 1), leaves the daemon stopped.
pub open spec fn signal_stopped(o: ProcessOutcome) -> bool {
    o.success || o.code == Some(1i32)
}

fn cancel_text() -> (r: &'static str)
    ensures
        r@ == cancel_words(),
{
    "User canceled"
}

/// Decides on the outcome of the plain termination signal (the reason the
/// command could not be started, when it could not).
pub fn after_signal(run: Result<ProcessOutcome, String>, log: &mut Vec<String>) -> (r: Result<
    StopStep,
    CleanError,
>)
    ensures
        run matches Ok(o) ==> (signal_stopped(o) ==> r == Ok::<StopStep, CleanError>(
            StopStep::Stopped,
        )) && (!signal_stopped(o) ==> r == Ok::<StopStep, CleanError>(StopStep::Escalate)),
        run matches Err(m) ==> (r matches Err(e) && e == CleanError::DaemonKillFailed(m)),
        extends(final(log)@, old(log)@),
{
    proof {
        assert(log@.subrange(0, log@.len() as int) =~= log@);
    }
    match run {
        Ok(o) => {
            if o.success || o.code == Some(1i32) {
                log.push(String::from_str("Stopped coresymbolicationd daemon"));
                proof {
                    assert(log@.subrange(0, old(log)@.len() as int) =~= old(log)@);
                }
                Ok(StopStep::Stopped)
            } else {
                Ok(StopStep::Escalate)
            }
        },
        Err(m) => Err(CleanError::DaemonKillFailed(m)),
    }
}

/// Decides on the outcome of the elevated termination signal. A cancelled
/// prompt is a refusal of permission; any other failure a failed stop.
pub fn after_elevated_signal(run: Result<ProcessOutcome, String>, log: &mut Vec<String>) -> (r:
    Result<(), CleanError>)
    ensures
        run matches Ok(o) ==> {
            &&& o.success ==> r is Ok
            &&& !o.success && occurs_in(cancel_words(), o.stderr@) ==> (r matches Err(e)
                && e is PermissionDenied)
            &&& !o.success && !occurs_in(cancel_words(), o.stderr@) ==> (r matches Err(e)
                && e == CleanError::DaemonKillFailed(o.stderr))
        },
        run matches Err(m) ==> (r matches Err(e) && e == CleanError::DaemonKillFailed(m)),
        extends(final(log)@, old(log)@),
{
    proof {
        assert(log@.subrange(0, log@.len() as int) =~= log@);
    }
    match run {
        Ok(o) => {
            if o.success {
                log.push(String::from_str("Stopped coresymbolicationd daemon (with privileges)"));
                proof {
                    assert(log@.subrange(0, old(log)@.len() as int) =~= old(log)@);
                }
                Ok(())
            } else if contains_str(o.stderr.as_str(), cancel_text()) {
                Err(CleanError::PermissionDenied(String::from_str("User cancelled authentication")))
            } else {
                Err(CleanError::DaemonKillFailed(o.stderr))
            }
        },
        Err(m) => Err(CleanError::DaemonKillFailed(m)),
    }
}

/// Decides on the outcome of the elevated search-index rebuild, which is
/// optional: only a cancelled prompt is reported; every other failure is
/// passed over.
pub fn after_reindex(run: Result<ProcessOutcome, String>, log: &mut Vec<String>) -> (r: Result<
    (),
    CleanError,
>)
    ensures
        (r is Err) <==> (run matches Ok(o) && !o.success && occurs_in(cancel_words(), o.stderr@)),
        r matches Err(e) ==> e is PermissionDenied,
        extends(final(log)@, old(log)@),
{
    proof {
        assert(log@.subrange(0, log@.len() as int) =~= log@);
    }
    match run {
        Ok(o) => {
            if o.success {
                log.push(String::from_str("Spotlight reindex initiated"));
                proof {
                    assert(log@.subrange(0, old(log)@.len() as int) =~= old(log)@);
                }
                Ok(())
            } else if contains_str(o.stderr.as_str(), cancel_text()) {
                Err(CleanError::PermissionDenied(String::from_str("User cancelled authentication")))
            } else {
                Ok(())
            }
        },
        Err(_) => Ok(()),
    }
}

} // verus!
