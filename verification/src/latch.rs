//! A latch: a one-way signal raised by the producer side of a channel to wake
//! a consumer that went to sleep waiting for the slot to be filled.  Once
//! raised it stays raised, so a signal sent before the consumer starts
//! waiting is never lost.
//!
//! The latch itself promises nothing about values; it only provides
//! blocking.  Everything the channel proves rests on the verified lock that
//! guards the slot, not on the latch.

use vstd::prelude::*;

use std::sync::Condvar;
use std::sync::Mutex;

verus! {

/// A boolean flag under a mutex, paired with a condition variable.  Raising
/// the latch sets the flag and wakes one waiter; waiting sleeps until the
/// flag is set.  Opaque to the verifier: no contract anywhere relies on its
/// state.
#[verifier::external_body]
pub struct Latch {
    flag: Mutex<bool>,
    cond: Condvar,
}

/// Relies on `std::sync::Mutex::new` and `std::sync::Condvar::new`: builds a
/// latch that starts lowered.  Nothing is claimed of the result.
#[verifier::external_body]
pub fn latch_new() -> Latch {
    Latch { flag: Mutex::new(false), cond: Condvar::new() }
}

/// Raises the latch: sets the flag and wakes one waiter.  Relies on
/// `std::sync::Mutex::lock` and `std::sync::Condvar::notify_one`; the mutex
/// is released before notifying.  Nothing is claimed of the effect.
#[verifier::external_body]
pub fn latch_raise(l: &Latch) {
    let mut raised = l.flag.lock().unwrap();
    *raised = true;
    drop(raised);
    l.cond.notify_one();
}

/// Calls `poll` until it yields a value, sleeping on the latch between
/// polls, and returns that value.  Relies on `std::sync::Mutex::lock` and
/// `std::sync::Condvar::wait`: the wait releases the mutex and suspends
/// atomically, so a raise between a failed poll and the wait is not missed,
/// and the flag is re-checked after every wake to absorb spurious wakeups.
///
/// The contract claims only that the returned value is one that a call of
/// `poll` produced: whatever `poll`'s own postcondition says of `Some`
/// results therefore holds of it.  How long the wait lasts, or that it ends
/// at all, is not claimed; a latch that is never raised blocks forever.
#[verifier::external_body]
pub fn await_some<T, F: Fn() -> Option<T>>(l: &Latch, poll: F) -> (found: T)
    requires
        poll.requires(()),
    ensures
        poll.ensures((), Some(found)),
{
    loop {
        if let Some(v) = poll() {
            return v;
        }
        let mut raised = l.flag.lock().unwrap();
        while !*raised {
            raised = l.cond.wait(raised).unwrap();
        }
    }
}

} // verus!
