//! One-shot channels: exactly one value travels from a single producer
//! capability to a single consumer capability.
//!
//! The shared cell holds an optional slot guarded by a verified lock, plus a
//! latch on which a blocked receiver sleeps.  The lock carries an invariant
//! `P` chosen when the channel is built: every value deposited in the slot
//! must satisfy it, so whatever the receiver takes out satisfies it too.
//! That invariant is the whole story of value transfer here — fidelity for a
//! concrete channel follows by picking `P` to pin the value down.
//!
//! Both capabilities are consumed by their one permitted operation, so a
//! second send or receive on the same cell is rejected by the type system,
//! not at run time.

use vstd::prelude::*;
use vstd::rwlock::RwLock;
use vstd::rwlock::RwLockPredicate;

use crate::latch::await_some;
use crate::latch::latch_new;
use crate::latch::latch_raise;
use crate::latch::Latch;

use std::sync::Arc;

verus! {

/// The shared cell of a one-shot channel: a slot holding at most one pending
/// value, and a signal used to wake a waiting receiver.  `None` in the slot
/// means no value has been deposited yet (or it has already been removed).
pub struct Repr<T, P: RwLockPredicate<Option<T>>> {
    slot: RwLock<Option<T>, P>,
    signal: Latch,
}

impl<T, P: RwLockPredicate<Option<T>>> Repr<T, P> {
    /// The slot starts empty and is emptied again when the value is
    /// removed, so the invariant must allow the empty slot.
    #[verifier::type_invariant]
    spec fn wf(self) -> bool {
        self.slot.pred().inv(None)
    }
}

/// The producer capability: owns a reference to exactly one cell and is
/// consumed by its single `send`.
pub struct Send<T, P: RwLockPredicate<Option<T>>> {
    repr: Arc<Repr<T, P>>,
}

/// The consumer capability: owns a reference to exactly one cell and is
/// consumed by its single `recv`.
pub struct Recv<T, P: RwLockPredicate<Option<T>>> {
    repr: Arc<Repr<T, P>>,
}

/// Relies on `alloc::sync::Arc::clone`: the clone is a second handle to the
/// same allocation, equal to the original.
#[verifier::external_body]
fn arc_clone<T>(a: &Arc<T>) -> (r: Arc<T>)
    ensures
        r == *a,
{
    Arc::clone(a)
}

/// Builds a fresh channel whose slot is governed by the invariant `p`: every
/// value sent must satisfy it, and the value received is known to satisfy
/// it.  The empty slot must be allowed by `p`, since that is how the cell
/// starts and is left after the value is removed.
pub fn new_chan_with<T, P: RwLockPredicate<Option<T>>>(Ghost(p): Ghost<P>) -> (chan: (
    Send<T, P>,
    Recv<T, P>,
))
    requires
        p.inv(None),
    ensures
        chan.0.pred() == p,
        chan.1.pred() == p,
        chan.0.paired_with(chan.1),
{
    let repr = Arc::new(Repr { slot: RwLock::new(None, Ghost(p)), signal: latch_new() });
    let repr2 = arc_clone(&repr);
    (Send { repr }, Recv { repr: repr2 })
}

/// Builds a fresh channel with no constraint on the value transferred.
pub fn new_chan<T>() -> (chan: (
    Send<T, spec_fn(Option<T>) -> bool>,
    Recv<T, spec_fn(Option<T>) -> bool>,
))
    ensures
        chan.0.pred() == (|slot: Option<T>| true),
        chan.1.pred() == (|slot: Option<T>| true),
        chan.0.paired_with(chan.1),
{
    new_chan_with(Ghost(|slot: Option<T>| true))
}

impl<T, P: RwLockPredicate<Option<T>>> Send<T, P> {
    /// The invariant this channel was built with.
    pub closed spec fn pred(self) -> P {
        self.repr.slot.pred()
    }

    /// Whether `v` may travel on this channel.
    pub open spec fn allows(self, v: T) -> bool {
        self.pred().inv(Some(v))
    }

    /// Whether this producer capability and `r` are bound to the same cell:
    /// capabilities are only ever issued as such a pair.
    pub closed spec fn paired_with(self, r: Recv<T, P>) -> bool {
        self.repr == r.repr
    }

    /// Deposits `msg` in the slot and wakes a waiting receiver, consuming
    /// this capability.  The deposit happens under the lock; the wake-up
    /// follows after the lock is released.
    pub fn send(self, msg: T)
        requires
            self.allows(msg),
    {
        let (_prev, handle) = self.repr.slot.acquire_write();
        handle.release_write(Some(msg));
        latch_raise(&self.repr.signal);
    }
}

impl<T, P: RwLockPredicate<Option<T>>> Recv<T, P> {
    /// The invariant this channel was built with.
    pub closed spec fn pred(self) -> P {
        self.repr.slot.pred()
    }

    /// Whether `v` may travel on this channel.
    pub open spec fn allows(self, v: T) -> bool {
        self.pred().inv(Some(v))
    }

    /// Removes the value from the slot, consuming this capability; the
    /// result satisfies the channel's invariant.  Blocks — sleeping on the
    /// latch, not spinning — until the value has been deposited; if no send
    /// ever happens, blocks forever (the multi-shot close protocol exists to
    /// avoid that).
    pub fn recv(self) -> (msg: T)
        ensures
            self.allows(msg),
    {
        let repr = self.repr;
        await_some(
            &repr.signal,
            || -> (taken: Option<T>)
                ensures
                    (taken matches Some(v) ==> repr.slot.pred().inv(Some(v)))
                {
                    proof {
                        use_type_invariant(&*repr);
                    }
                    let (stored, handle) = repr.slot.acquire_write();
                    handle.release_write(None);
                    stored
                },
        )
    }
}

/// The invariant of a channel meant to carry one known value: the slot is
/// empty or holds exactly `want`.
pub struct PinnedVal<T> {
    pub want: T,
}

impl<T> RwLockPredicate<Option<T>> for PinnedVal<T> {
    open spec fn inv(self, slot: Option<T>) -> bool {
        slot matches Option::Some(v) ==> v == self.want
    }
}

/// Single transfer fidelity: sending a value on a fresh one-shot channel and
/// then receiving yields exactly that value.  The channel is built with the
/// invariant that pins the slot to `v`, so the receiver's contract forces
/// the result to be `v` itself.
pub fn transfer<T>(v: T) -> (back: T)
    ensures
        back == v,
{
    let (tx, rx) = new_chan_with::<T, PinnedVal<T>>(Ghost(PinnedVal { want: v }));
    tx.send(v);
    rx.recv()
}

} // verus!
