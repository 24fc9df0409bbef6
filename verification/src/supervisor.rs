//! The process supervisor: the state machine for the lifecycle of one
//! managed worker process.
//!
//! The supervisor decides; the operating system acts. The caller that
//! owns the real process handle asks `is_running` whether an operation
//! needs a spawn or a kill, performs it, and hands the outcome in. Each
//! operation's effect on the state, and whether it reports success, is a
//! function of the old state and that outcome alone — `spec_start`,
//! `spec_terminate` and `spec_restart` below.
//!
//! A process instance is identified by an opaque token (for example the
//! operating-system process id): the supervisor never interprets it, it
//! only records which instance is running.

use vstd::pervasive::unreached;
use vstd::prelude::*;

verus! {

/// What the operating system reported for one spawn attempt: the token of
/// the new process instance, or the error detail.
pub type SpawnOutcome = Result<u64, String>;

/// What the operating system reported for one kill attempt.
pub type KillOutcome = Result<(), String>;

/// The effect of `start_backend`: a running process is left alone and the
/// call succeeds without consuming a spawn outcome; otherwise the spawn
/// outcome decides.
pub open spec fn spec_start(st: Option<u64>, spawn: Option<SpawnOutcome>) -> (Option<u64>, bool) {
    match st {
        Some(p) => (Some(p), true),
        None => match spawn {
            Some(Ok(id)) => (Some(id), true),
            Some(Err(_)) => (None, false),
            None => (None, false),
        },
    }
}

/// The effect of `terminate_backend`: with no process there is nothing to
/// do and the call succeeds without consuming a kill outcome; otherwise
/// the kill outcome decides, and a failed kill leaves the process in place
/// (the supervisor stays usable).
pub open spec fn spec_terminate(st: Option<u64>, kill: Option<KillOutcome>) -> (Option<u64>, bool) {
    match st {
        None => (None, true),
        Some(p) => match kill {
            Some(Ok(_)) => (None, true),
            Some(Err(_)) => (Some(p), false),
            None => (Some(p), false),
        },
    }
}

/// The effect of `restart_backend`: terminate, strictly followed by start
/// only when the terminate phase succeeded.
pub open spec fn spec_restart(
    st: Option<u64>,
    kill: Option<KillOutcome>,
    spawn: Option<SpawnOutcome>,
) -> (Option<u64>, bool) {
    let t = spec_terminate(st, kill);
    if t.1 {
        spec_start(t.0, spawn)
    } else {
        (t.0, false)
    }
}

/// The supervisor of one managed worker process. Its view is the running
/// process instance, when there is one.
pub struct APIManager {
    child: Option<u64>,
}

impl View for APIManager {
    type V = Option<u64>;

    closed spec fn view(&self) -> Option<u64> {
        self.child
    }
}

impl APIManager {
    /// A supervisor with no process yet.
    pub fn new() -> (m: APIManager)
        ensures
            m@ is None,
    {
        APIManager { child: None }
    }

    /// Whether a process is currently running. The caller performs a spawn
    /// before `start_backend` exactly when this is false, and a kill before
    /// `terminate_backend` exactly when it is true.
    pub fn is_running(&self) -> (b: bool)
        ensures
            b == (self@ is Some),
    {
        match self.child {
            Some(_) => true,
            None => false,
        }
    }

    /// The token of the running process instance, when there is one.
    pub fn current_instance(&self) -> (r: Option<u64>)
        ensures
            r == self@,
    {
        self.child
    }

    /// Start the worker process. A spawn outcome is handed in exactly when
    /// no process is running: starting a running process is a no-op that
    /// reports success, so nothing may have been spawned for it. On a failed
    /// spawn the error detail is the reported failure.
    pub fn start_backend(&mut self, spawn: Option<SpawnOutcome>) -> (r: Result<String, String>)
        requires
            (spawn is Some) <==> (old(self)@ is None),
        ensures
            final(self)@ == spec_start(old(self)@, spawn).0,
            (r is Ok) == spec_start(old(self)@, spawn).1,
            spawn matches Some(Err(e)) ==> r == Result::<String, String>::Err(e),
    {
        match self.child {
            Some(_) => Ok(
                "a worker process is already active and will not be launched again".to_owned(),
            ),
            None => match spawn {
                Some(Ok(id)) => {
                    self.child = Some(id);
                    Ok("worker process launched".to_owned())
                },
                Some(Err(e)) => Err(e),
                None => unreached(),
            },
        }
    }

    /// Terminate the worker process. A kill outcome is handed in exactly
    /// when a process is running: terminating with none running is a no-op
    /// that reports success, with no operating-system call made. On a failed
    /// kill the error detail is the reported failure and the process stays
    /// recorded, so the supervisor remains usable.
    pub fn terminate_backend(&mut self, kill: Option<KillOutcome>) -> (r: Result<String, String>)
        requires
            (kill is Some) <==> (old(self)@ is Some),
        ensures
            final(self)@ == spec_terminate(old(self)@, kill).0,
            (r is Ok) == spec_terminate(old(self)@, kill).1,
            kill matches Some(Err(e)) ==> r == Result::<String, String>::Err(e),
    {
        match self.child {
            None => Ok("no worker process exists, no operation is needed".to_owned()),
            Some(_) => match kill {
                Some(Ok(_)) => {
                    self.child = None;
                    Ok("the existing worker process was killed".to_owned())
                },
                Some(Err(e)) => Err(e),
                None => unreached(),
            },
        }
    }

    /// Restart the worker process: terminate, strictly followed by start.
    /// The kill outcome is handed in exactly when a process is running; the
    /// spawn outcome exactly when the terminate phase succeeds — when it
    /// fails, nothing may have been spawned and the process stays in place.
    pub fn restart_backend(
        &mut self,
        kill: Option<KillOutcome>,
        spawn: Option<SpawnOutcome>,
    ) -> (r: Result<String, String>)
        requires
            (kill is Some) <==> (old(self)@ is Some),
            (spawn is Some) <==> (kill is None || kill matches Some(Ok(_))),
        ensures
            final(self)@ == spec_restart(old(self)@, kill, spawn).0,
            (r is Ok) == spec_restart(old(self)@, kill, spawn).1,
    {
        match self.terminate_backend(kill) {
            Ok(_) => match self.start_backend(spawn) {
                Ok(_) => Ok("the worker process was restarted".to_owned()),
                Err(e) => Err(e),
            },
            Err(e) => Err(e),
        }
    }
}

/// Supervisor idempotence: two starts in a row launch exactly one process.
/// The first consumes one successful spawn; the second is handed no spawn
/// outcome at all — nothing was launched for it — and still reports
/// success, leaving the same process in place.
pub proof fn lemma_start_idempotent(id: u64)
    ensures
        ({
            let first = spec_start(None, Some(Ok(id)));
            let second = spec_start(first.0, None);
            first.1 && second.1 && first.0 == Some(id) && second.0 == first.0
        }),
{
}

/// Idempotent terminate: with no process running, terminate consumes no
/// kill outcome — no operating-system call is made — and reports success.
pub proof fn lemma_terminate_when_absent()
    ensures
        spec_terminate(None, None) == (Option::<u64>::None, true),
{
}

/// Restart composition: restarting a running process, when both the kill
/// and the spawn succeed, ends in the running state with the freshly
/// spawned instance — a different instance than before, since the spawned
/// token is not the killed one.
pub proof fn lemma_restart_replaces_instance(p: u64, q: u64)
    requires
        p != q,
    ensures
        ({
            let after = spec_restart(Some(p), Some(Ok(())), Some(Ok(q)));
            after.1 && after.0 == Some(q) && after.0 != Some(p)
        }),
{
}

/// Restart stops after a failed terminate: no start is attempted — no
/// spawn outcome may be handed in — the call fails, and the old process
/// stays in place.
pub proof fn lemma_restart_stops_after_failed_terminate(p: u64, detail: String)
    ensures
        spec_restart(Some(p), Some(Err(detail)), None) == (Some(p), false),
{
}

} // verus!
