//! The single-instance lock: at most one running copy of the app holds it.

use vstd::prelude::*;

verus! {

/// How an attempt to take the system-wide lock went.
#[derive(Clone, Copy, Debug, PartialEq, Eq, Structural)]
pub enum LockAttempt {
    /// The lock was created; this is its handle.
    Acquired(i64),
    /// Another instance already holds the lock.
    AlreadyHeld,
    /// The lock could not be created.
    Failed,
}

/// The lock held by this instance, if any.
pub struct AppLockState {
    pub handle: Option<i64>,
}

impl AppLockState {
    /// No lock held.
    pub fn new() -> (s: Self)
        ensures
            s.handle is None,
    {
        AppLockState { handle: None }
    }
}

/// Takes the outcome of an attempt to create the lock: this instance may run
/// only when the lock was created, and it then keeps the handle.
pub fn acquire_app_lock(state: &mut AppLockState, attempt: LockAttempt) -> (acquired: bool)
    ensures
        acquired == (attempt is Acquired),
        final(state).handle == (match attempt {
            LockAttempt::Acquired(h) => Some(h),
            _ => old(state).handle,
        }),
{
    match attempt {
        LockAttempt::Acquired(h) => {
            state.handle = Some(h);
            true
        },
        _ => false,
    }
}

/// Gives up the lock: hands back the held handle, to be closed, and holds
/// none afterwards.
pub fn release_app_lock(state: &mut AppLockState) -> (released: Option<i64>)
    ensures
        released == old(state).handle,
        final(state).handle is None,
{
    let h = state.handle;
    state.handle = None;
    h
}

} // verus!
