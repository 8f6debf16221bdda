//! One cell of the snake's body, with its role flags.

use vstd::prelude::*;
use crate::board::Position;

verus! {

/// One occupied grid cell of the snake. The chain holds its segments ordered
/// tail-first, so the segment that succeeds a given one (the one that takes
/// over its role after the next shrink) is its neighbour at the next index.
///
/// Exactly one segment of a well-formed chain carries `is_head` and exactly
/// one carries `is_tail`; a single-segment chain carries both on that segment.
#[derive(Clone, Copy, PartialEq, Eq, Structural, Debug)]
pub struct Segment {
    pub position: Position,
    pub is_head: bool,
    pub is_tail: bool,
    /// One-tick-lived growth marker: set on the tail segment by the eat check
    /// when the head reaches the food, observed and cleared by the tail drop
    /// of the same tick, which then keeps the tail. Never persists past the
    /// tick that set it.
    pub pending_growth: bool,
}

} // verus!
