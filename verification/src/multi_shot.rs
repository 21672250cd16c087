//! Multi-shot channels, built by chaining one-shot channels.
//!
//! Each cell in the chain carries either a close marker or a pair of the
//! next item and the consumer capability for the rest of the stream.  Every
//! send consumes the current producer capability and returns a fresh one;
//! every receive consumes the current consumer capability and, unless the
//! stream was closed, yields the next one.  Because each capability is
//! single-use and the next capability is produced by the prior step, items
//! arrive in exactly the order they were sent.
//!
//! That ordering is carried in the ghost state: each cell's invariant
//! records the history of items sent before it and pins the next cell's
//! history to be that history extended by the item travelling now.  An
//! optional ghost plan strengthens the invariant to a fixed stream: then a
//! close marker can appear only once the whole plan has been sent, so a
//! consumer that reaches the marker knows it saw every planned item, in
//! order.

use vstd::prelude::*;
use vstd::rwlock::RwLockPredicate;

use crate::one_shot::new_chan_with;
use crate::one_shot::Recv;
use crate::one_shot::Send;

verus! {

/// Ghost description of what a stream is allowed to carry: anything at all,
/// or exactly a fixed sequence followed by the close marker.
pub enum StreamPlan<T> {
    Free,
    Exactly(Seq<T>),
}

/// The invariant of one cell in the chain: `hist` is the sequence of items
/// sent on the stream before this cell, `plan` constrains the stream as a
/// whole.
pub struct StreamPred<T> {
    pub hist: Seq<T>,
    pub plan: StreamPlan<T>,
}

/// The consumer capability of a multi-shot channel; consumed by its single
/// `recv`, which yields the capability for the rest of the stream.
///
/// `note` mirrors the annotation of the underlying cell; the cell invariant
/// below speaks of the mirror rather than of the cell, which keeps its
/// definition free of the self-reference a chained cell would otherwise
/// introduce.  The type invariant ties the mirror to the cell.
pub struct MultiRecv<T> {
    receiver: Recv<Option<(T, MultiRecv<T>)>, StreamPred<T>>,
    note: Ghost<StreamPred<T>>,
}

impl<T> MultiRecv<T> {
    /// The mirror annotation is the annotation of the underlying cell, and
    /// on a planned stream the history never runs past the plan.
    #[verifier::type_invariant]
    spec fn wf(self) -> bool {
        &&& self.note@ == self.receiver.pred()
        &&& (self.note@.plan matches StreamPlan::Exactly(p) ==> self.note@.hist.is_prefix_of(p))
    }
}

/// The producer capability of a multi-shot channel; consumed by its single
/// `send` (which yields the capability for the next item) or by `close`.
pub struct MultiSend<T> {
    sender: Send<Option<(T, MultiRecv<T>)>, StreamPred<T>>,
}

impl<T> RwLockPredicate<Option<Option<(T, MultiRecv<T>)>>> for StreamPred<T> {
    /// What the cell's slot may hold.  An empty slot is always fine.  A
    /// close marker is allowed only once a planned stream is complete.  An
    /// item must respect the plan, and the capability sent along with it
    /// must be annotated with the extended history and the same plan — that
    /// single clause is what threads the ordering through the whole chain.
    closed spec fn inv(self, slot: Option<Option<(T, MultiRecv<T>)>>) -> bool {
        match slot {
            Option::None => true,
            Option::Some(Option::None) => self.plan matches StreamPlan::Exactly(p)
                ==> self.hist == p,
            Option::Some(Option::Some((item, next))) => {
                &&& next.note@ == (StreamPred { hist: self.hist.push(item), plan: self.plan })
                &&& (self.plan matches StreamPlan::Exactly(p) ==> self.hist.push(
                    item,
                ).is_prefix_of(p))
            },
        }
    }
}

/// Builds a multi-shot channel constrained by `plan`, returning the paired
/// initial producer and consumer capabilities.
pub fn new_multi_chan_plan<T>(Ghost(plan): Ghost<StreamPlan<T>>) -> (chan: (
    MultiSend<T>,
    MultiRecv<T>,
))
    ensures
        chan.0.hist() == Seq::<T>::empty(),
        chan.1.hist() == Seq::<T>::empty(),
        chan.0.plan() == plan,
        chan.1.plan() == plan,
        chan.0.paired_with(chan.1),
{
    let ghost ann = StreamPred { hist: Seq::<T>::empty(), plan };
    let (tx, rx) = new_chan_with::<Option<(T, MultiRecv<T>)>, StreamPred<T>>(Ghost(ann));
    proof {
        if let StreamPlan::Exactly(p) = plan {
            assert(ann.hist =~= p.subrange(0, 0));
        }
    }
    (MultiSend { sender: tx }, MultiRecv { receiver: rx, note: Ghost(ann) })
}

/// Builds an unconstrained multi-shot channel.
pub fn new_multi_chan<T>() -> (chan: (MultiSend<T>, MultiRecv<T>))
    ensures
        chan.0.hist() == Seq::<T>::empty(),
        chan.1.hist() == Seq::<T>::empty(),
        chan.0.plan() == StreamPlan::<T>::Free,
        chan.1.plan() == StreamPlan::<T>::Free,
        chan.0.paired_with(chan.1),
{
    new_multi_chan_plan(Ghost(StreamPlan::Free))
}

impl<T> MultiSend<T> {
    /// The annotation of the cell this capability would send on.
    pub closed spec fn pred(self) -> StreamPred<T> {
        self.sender.pred()
    }

    /// The items sent on the stream so far.
    pub open spec fn hist(self) -> Seq<T> {
        self.pred().hist
    }

    /// The constraint the stream was built with.
    pub open spec fn plan(self) -> StreamPlan<T> {
        self.pred().plan
    }

    /// Whether this producer capability and `r` are bound to the same cell:
    /// capabilities are only ever issued as such a pair.
    pub closed spec fn paired_with(self, r: MultiRecv<T>) -> bool {
        self.sender.paired_with(r.receiver)
    }

    /// Sends `msg`, consuming this capability, and returns the capability
    /// for the next item.  A fresh cell for the rest of the stream is built
    /// first; `msg` travels through the current cell together with that
    /// cell's consumer capability.
    pub fn send(self, msg: T) -> (next: MultiSend<T>)
        requires
            self.plan() matches StreamPlan::Exactly(p) ==> self.hist().push(msg).is_prefix_of(p),
        ensures
            next.hist() == self.hist().push(msg),
            next.plan() == self.plan(),
    {
        let ghost stepped = StreamPred { hist: self.hist().push(msg), plan: self.plan() };
        let (tx2, rx2) = new_chan_with::<Option<(T, MultiRecv<T>)>, StreamPred<T>>(Ghost(stepped));
        self.sender.send(Some((msg, MultiRecv { receiver: rx2, note: Ghost(stepped) })));
        MultiSend { sender: tx2 }
    }

    /// Sends the close marker, consuming this capability; no further sends
    /// are possible on this stream.  A planned stream may be closed only
    /// once every planned item has been sent.
    pub fn close(self)
        requires
            self.plan() matches StreamPlan::Exactly(p) ==> self.hist() == p,
    {
        self.sender.send(None);
    }
}

impl<T> MultiRecv<T> {
    /// The annotation of the cell this capability would receive on.
    pub closed spec fn pred(self) -> StreamPred<T> {
        self.note@
    }

    /// The items already received on the stream before this capability.
    pub open spec fn hist(self) -> Seq<T> {
        self.pred().hist
    }

    /// The constraint the stream was built with.
    pub open spec fn plan(self) -> StreamPlan<T> {
        self.pred().plan
    }

    /// Receives on the current cell, consuming this capability.  `None`
    /// means the producer closed the stream — on a planned stream that can
    /// only happen once the whole plan was sent, so the history equals the
    /// plan.  Otherwise the result is the next item together with the
    /// capability for the rest of the stream, whose history is this one's
    /// extended by exactly that item: items are observed in the order they
    /// were sent.  Blocks (without spinning) until the producer sends or
    /// closes.
    pub fn recv(self) -> (step: Option<(T, MultiRecv<T>)>)
        ensures
            match step {
                Option::None => self.plan() matches StreamPlan::Exactly(p) ==> self.hist() == p,
                Option::Some((item, next)) => {
                    &&& next.hist() == self.hist().push(item)
                    &&& next.plan() == self.plan()
                    &&& (self.plan() matches StreamPlan::Exactly(p) ==> self.hist().push(
                        item,
                    ).is_prefix_of(p))
                },
            },
    {
        proof {
            use_type_invariant(&self);
        }
        let MultiRecv { receiver, note: _ } = self;
        receiver.recv()
    }
}

/// Sends every item of `items`, in order, threading the producer capability
/// through each step, and returns the capability left after the last item.
pub fn send_all<T>(tx: MultiSend<T>, items: Vec<T>) -> (next: MultiSend<T>)
    requires
        tx.plan() matches StreamPlan::Exactly(p) ==> (tx.hist() + items@).is_prefix_of(p),
    ensures
        next.hist() == tx.hist() + items@,
        next.plan() == tx.plan(),
{
    let mut cur_tx = tx;
    let mut rest = items;
    proof {
        assert(cur_tx.hist() + rest@ =~= tx.hist() + items@);
    }
    while rest.len() > 0
        invariant
            cur_tx.plan() == tx.plan(),
            cur_tx.hist() + rest@ == tx.hist() + items@,
            tx.plan() matches StreamPlan::Exactly(p) ==> (tx.hist() + items@).is_prefix_of(p),
        decreases rest.len(),
    {
        let x = rest.remove(0);
        proof {
            assert(cur_tx.hist().push(x) + rest@ =~= tx.hist() + items@);
            if let StreamPlan::Exactly(p) = tx.plan() {
                assert(cur_tx.hist().push(x) =~= p.subrange(
                    0,
                    cur_tx.hist().push(x).len() as int,
                ));
            }
        }
        cur_tx = cur_tx.send(x);
    }
    proof {
        assert(cur_tx.hist() =~= tx.hist() + items@);
    }
    cur_tx
}

/// Receives until the close marker and returns the items collected, in the
/// order they arrived.  Asks for a planned stream so that the loop provably
/// terminates; on a planned stream the close marker arrives exactly after
/// the whole plan, so history plus collected items equals the plan.
pub fn recv_all<T>(rx: MultiRecv<T>) -> (got: Vec<T>)
    requires
        rx.plan() is Exactly,
    ensures
        rx.plan() matches StreamPlan::Exactly(p) ==> rx.hist() + got@ == p,
{
    let ghost plan_seq = rx.plan()->Exactly_0;
    proof {
        use_type_invariant(&rx);
        assert(rx.hist() + Seq::<T>::empty() =~= rx.hist());
    }
    let mut got: Vec<T> = Vec::new();
    let mut cur_rx: Option<MultiRecv<T>> = Some(rx);
    while cur_rx.is_some()
        invariant
            match cur_rx {
                Option::Some(r) => {
                    &&& r.plan() == StreamPlan::<T>::Exactly(plan_seq)
                    &&& r.hist() == rx.hist() + got@
                    &&& r.hist().is_prefix_of(plan_seq)
                },
                Option::None => rx.hist() + got@ == plan_seq,
            },
        decreases plan_seq.len() - got@.len() + (if cur_rx is Some {
            1int
        } else {
            0int
        }),
    {
        let r = cur_rx.unwrap();
        match r.recv() {
            Option::Some((x, next)) => {
                proof {
                    assert((rx.hist() + got@).push(x) =~= rx.hist() + got@.push(x));
                }
                got.push(x);
                cur_rx = Some(next);
            },
            Option::None => {
                cur_rx = None;
            },
        }
    }
    got
}

/// A full stream round trip: the producer side sends every item of `items`
/// in order and closes; the consumer side receives until the close marker.
/// The consumer collects exactly `items`: the same values, in the same
/// order, ended by exactly one close marker — the channel is built with the
/// plan pinned to `items`, and the contracts of `send`, `close` and `recv`
/// force the collected sequence to equal the plan.
pub fn round_trip<T>(items: Vec<T>) -> (got: Vec<T>)
    ensures
        got@ == items@,
{
    let ghost plan_seq = items@;
    let (tx, rx) = new_multi_chan_plan::<T>(Ghost(StreamPlan::Exactly(plan_seq)));
    proof {
        assert((tx.hist() + plan_seq).is_prefix_of(plan_seq)) by {
            assert(tx.hist() + plan_seq =~= plan_seq.subrange(0, plan_seq.len() as int));
        }
    }
    let done_tx = send_all(tx, items);
    done_tx.close();
    let got = recv_all(rx);
    proof {
        assert(got@ =~= plan_seq);
    }
    got
}

} // verus!
