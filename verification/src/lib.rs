//! One-shot and multi-shot channels.
//!
//! A one-shot channel transfers exactly one value from a single producer
//! capability to a single consumer capability.  The slot is guarded by a
//! verified lock carrying the channel's invariant, and a condition-variable
//! latch lets a blocked receiver sleep instead of spinning.  A multi-shot
//! channel is built by chaining one-shot channels: every operation consumes
//! the current capability and yields the capability for the rest of the
//! stream, so each cell is used for exactly one transfer.

pub mod latch;
pub mod multi_shot;
pub mod one_shot;
pub mod threaded;
