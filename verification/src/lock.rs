//! Directory-lock state machine: which lock file guards a cache directory,
//! and the process-local record of an outstanding lock that drives crash
//! cleanup. The surrounding application performs the OS-level file
//! operations (creating, locking, removing files); this module decides what
//! they act on and tracks the state they leave behind.

use vstd::prelude::*;
use vstd::string::StringExecFns;

verus! {

broadcast use vstd::string::group_string_axioms;

/// Fixed name of the lock file inside the guarded directory.
pub const LOCK_FILE: &'static str = "sm.lock";

/// Process-local record of whether a lock is currently outstanding, and over
/// which directory. Held explicitly by the caller rather than in hidden
/// global state, and consulted by the abnormal-termination cleanup path:
/// the record lives only in process memory, so it protects against failures
/// the same process can still observe, never against a hard kill.
pub struct LockState {
    pub recorded: Option<String>,
}

/// The process state that any release leaves behind: no lock outstanding,
/// whatever was recorded before.
pub open spec fn release_transition(s: LockState) -> LockState {
    LockState { recorded: None }
}

impl LockState {
    /// The directory currently recorded as guarded, if any, as a sequence
    /// of characters.
    pub open spec fn recorded_dir(self) -> Option<Seq<char>> {
        match self.recorded {
            None => None,
            Some(p) => Some(p@),
        }
    }

    /// Fresh process state: no lock outstanding.
    pub fn new() -> (s: Self)
        ensures
            s.recorded_dir() is None,
    {
        LockState { recorded: None }
    }
}

/// The path of the lock file guarding `lock_folder`: the fixed lock-file
/// name joined under that directory.
pub fn lock_file_path(lock_folder: &str) -> (p: String)
    ensures
        p@ == lock_folder@ + "/"@ + LOCK_FILE@,
{
    let mut p = lock_folder.to_string();
    p.append("/");
    p.append(LOCK_FILE);
    proof {
        assert(p@ =~= lock_folder@ + "/"@ + LOCK_FILE@);
    }
    p
}

/// Handle for one outstanding directory lock: it owns the path of the lock
/// file inside the guarded directory. The application keeps the open file
/// descriptor it created at this path alongside the handle.
pub struct Lock {
    pub path: String,
}

impl Lock {
    /// Take the lock over `lock_folder`: record the directory as guarded in
    /// the process state and hand back the handle naming the lock file
    /// inside it. The application creates the lock file at `path` and takes
    /// the best-effort OS-level lock before calling this, so that a failed
    /// file creation leaves nothing recorded.
    pub fn acquire(state: &mut LockState, lock_folder: &str) -> (l: Lock)
        ensures
            final(state).recorded_dir() == Some(lock_folder@),
            l.path@ == lock_folder@ + "/"@ + LOCK_FILE@,
    {
        let path = lock_file_path(lock_folder);
        state.recorded = Some(lock_folder.to_string());
        Lock { path }
    }

    /// Drop the lock: clear the process record of an outstanding lock,
    /// leaving the handle's path untouched. Callable in any state — in
    /// particular a second time, or after the lock file was already removed
    /// from disk by someone else — and never an error. The application
    /// removes the lock file and releases the OS-level lock around this
    /// call, swallowing any failure of either.
    pub fn release(&mut self, state: &mut LockState)
        ensures
            *final(state) == release_transition(*old(state)),
            final(self).path@ == old(self).path@,
    {
        state.recorded = None;
    }
}

/// Releasing is idempotent: the process state after releasing twice is the
/// state after releasing once, from any starting state.
pub proof fn lemma_release_idempotent(s: LockState)
    ensures
        release_transition(release_transition(s)) == release_transition(s),
{
}

/// Crash-recovery decision: the directory the application must wipe before
/// an abnormal exit, if any. `Some` exactly when a lock is recorded as
/// outstanding in this process — the enclosing operation is unwinding
/// between an acquire and its release, so the guarded directory may hold a
/// partially written cache and is sacrificed whole for a clean slate. When
/// nothing is recorded the call is a no-op: it returns `None` and the state
/// it read is untouched.
pub fn clear_lock_if_required(state: &LockState) -> (dir: Option<&String>)
    ensures
        match dir {
            Some(d) => state.recorded_dir() == Some(d@),
            None => state.recorded_dir() is None,
        },
{
    match &state.recorded {
        Some(p) => Some(p),
        None => None,
    }
}

} // verus!
