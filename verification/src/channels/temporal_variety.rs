//! The temporal variety channel.
//!
//! Its measurements and analyses are floating-point values with no record here;
//! the channel's buffer is bounded here.

use vstd::prelude::*;

verus! {

/// The temporal variety channel actor; the actor layer runs it.
pub struct TemporalVariety;

/// How many measurements the channel buffers.
pub const BUFFER_LIMIT: usize = 10_000;

/// The buffer after a measurement arrives: newest first, at most the limit.
pub open spec fn buffered<T>(buffer: Seq<T>, measurement: T) -> Seq<T> {
    let b = seq![measurement] + buffer;
    if b.len() > BUFFER_LIMIT { b.take(BUFFER_LIMIT as int) } else { b }
}

/// Buffers a measurement as the newest, dropping the oldest beyond the limit.
pub fn buffer_measurement<T>(buffer: &mut Vec<T>, measurement: T)
    ensures
        final(buffer)@ == buffered(old(buffer)@, measurement),
{
    let ghost b = buffer@;
    buffer.insert(0, measurement);
    assert(buffer@ =~= seq![measurement] + b);
    buffer.truncate(BUFFER_LIMIT);
    assert(buffer@ =~= buffered(b, measurement));
}

} // verus!
