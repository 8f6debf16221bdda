//! The food spawner: picks a pseudo-random cell on the board.
//!
//! The spawner deliberately does not avoid cells occupied by the snake: food
//! may appear under the body and stays there until the snake moves away.

use vstd::prelude::*;
use crate::board::{Board, Position};

verus! {

/// Relies on rand::random: one draw of a `u32` from the thread-local
/// generator. The result depends on the generator's state, so nothing is
/// promised of it.
#[verifier::external_body]
fn random_u32() -> u32 {
    rand::random::<u32>()
}

/// Maps one random draw into `[0, n)`.
fn random_below(n: i32) -> (r: i32)
    requires
        n > 0,
    ensures
        0 <= r < n,
{
    let raw: u32 = random_u32();
    let m: u32 = raw % (n as u32);
    m as i32
}

/// Picks the next food cell, each coordinate drawn independently from the
/// board's range. Always succeeds; the cell may coincide with a snake
/// segment.
pub fn spawn_food(board: &Board) -> (food: Position)
    requires
        board.wf(),
    ensures
        board.contains(food),
{
    let x: i32 = random_below(board.width);
    let y: i32 = random_below(board.height);
    Position { x, y }
}

} // verus!
