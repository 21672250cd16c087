//! Channels with the two sides on different threads.
//!
//! The sequential operations elsewhere in the crate already prove what
//! values a receiver can observe; these functions run the producer side on a
//! spawned thread and show that the same contracts go through: the receiver
//! provably gets the value — or the whole stream, in order — that the other
//! thread sent.

use vstd as vs;
use vstd::prelude::*;

use crate::multi_shot::new_multi_chan_plan;
use crate::multi_shot::recv_all;
use crate::multi_shot::send_all;
use crate::multi_shot::StreamPlan;
use crate::one_shot::new_chan_with;
use crate::one_shot::PinnedVal;

verus! {

/// A spawned thread sends `v` on a fresh one-shot channel while this thread
/// receives; the receive blocks — asleep, not spinning — until the send has
/// happened, and yields exactly `v`.
pub fn transfer_spawned<T: core::marker::Send + core::marker::Sync + 'static>(v: T) -> (back: T)
    ensures
        back == v,
{
    let (tx, rx) = new_chan_with::<T, PinnedVal<T>>(Ghost(PinnedVal { want: v }));
    let producer = vs::thread::spawn(
        move ||
            {
                tx.send(v);
            },
    );
    let back = rx.recv();
    let _ = producer.join();
    back
}

/// A spawned thread sends every item of `items` in order and closes, while
/// this thread receives until the close marker.  The collected values are
/// exactly `items`, in order, regardless of how the two threads interleave.
pub fn round_trip_spawned<T: core::marker::Send + core::marker::Sync + 'static>(items: Vec<T>) -> (got: Vec<T>)
    ensures
        got@ == items@,
{
    let ghost plan_seq = items@;
    let (tx, rx) = new_multi_chan_plan::<T>(Ghost(StreamPlan::Exactly(plan_seq)));
    proof {
        assert((tx.hist() + plan_seq).is_prefix_of(plan_seq)) by {
            assert(tx.hist() + plan_seq =~= plan_seq.subrange(0, plan_seq.len() as int));
        }
    }
    let producer = vs::thread::spawn(
        move ||
            {
                let done_tx = send_all(tx, items);
                proof {
                    assert(done_tx.hist() =~= plan_seq);
                }
                done_tx.close();
            },
    );
    let got = recv_all(rx);
    let _ = producer.join();
    proof {
        assert(got@ =~= plan_seq);
    }
    got
}

} // verus!
