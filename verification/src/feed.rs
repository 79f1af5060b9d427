//! Sizing of the in-process feed channel.

use vstd::prelude::*;

verus! {

/// The smallest broadcast capacity the feed channel is given.
pub const MIN_FEED_CAPACITY: usize = 16;

/// Capacity of the feed broadcast channel for a requested capacity: never
/// below 16.
pub fn feed_channel_capacity(requested: usize) -> (r: usize)
    ensures
        r == (if requested < 16 {
            16
        } else {
            requested
        }),
{
    if requested < MIN_FEED_CAPACITY {
        MIN_FEED_CAPACITY
    } else {
        requested
    }
}

} // verus!
