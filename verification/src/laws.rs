//! The general laws of the simulation, stated over the model and proved once
//! and for all.

use vstd::prelude::*;
use crate::board::{Direction, Position};
use crate::game::{spec_tick, GameView};
use crate::segment::Segment;

verus! {

/// A tick preserves well-formedness: the chain keeps its structure (one head
/// flag on the last segment, one tail flag on the first, every segment on
/// the board), the food stays on the board, and no growth marker survives
/// the tick.
pub proof fn lemma_tick_preserves_wf(s: GameView, f: Position)
    requires
        s.wf(),
        s.board.contains(f),
    ensures
        spec_tick(s, f).wf(),
{
    let next = s.next_head_cell();
    if s.board.contains(next) {
        let n = s.segments.len() as int;
        let advanced = s.with_head_advanced(next);
        let a = advanced.segments;
        assert(a.len() == n + 1);
        if next == s.food {
            let r = spec_tick(s, f);
            assert(a[0].pending_growth == false);
            assert(r.segments =~= a);
            assert(r.chain_wf());
            assert(r.no_pending());
        } else {
            let r = spec_tick(s, f);
            let b = a.update(1, Segment { is_tail: true, ..a[1] });
            assert(r.segments == b.remove(0));
            b.remove_ensures(0);
            assert(r.segments.len() == n);
            assert forall|j: int| 0 <= j < n implies r.segments[j] == b[j + 1] by {}
            assert(r.chain_wf());
            assert(r.no_pending());
        }
    }
}

/// An in-bounds tick keeps the chain's length, unless the head lands on the
/// food cell, in which case the chain grows by exactly one segment.
pub proof fn lemma_tick_length(s: GameView, f: Position)
    requires
        s.wf(),
        s.board.contains(s.next_head_cell()),
    ensures
        s.next_head_cell() == s.food ==> spec_tick(s, f).segments.len() == s.segments.len() + 1,
        s.next_head_cell() != s.food ==> spec_tick(s, f).segments.len() == s.segments.len(),
{
}

/// A tick whose next head cell lies off the board changes nothing at all:
/// the segments with their positions and roles, the food and the heading
/// all stay as they were.
pub proof fn lemma_blocked_tick_is_identity(s: GameView, f: Position)
    requires
        !s.board.contains(s.next_head_cell()),
    ensures
        spec_tick(s, f) == s,
{
}

/// After every tick on a well-formed state, exactly one segment carries the
/// head flag and exactly one carries the tail flag.
pub proof fn lemma_exactly_one_head_and_tail(s: GameView, f: Position)
    requires
        s.wf(),
        s.board.contains(f),
    ensures
        spec_tick(s, f).exactly_one_head_and_tail(),
{
    lemma_tick_preserves_wf(s, f);
    let r = spec_tick(s, f);
    assert(r.segments[r.segments.len() - 1].is_head);
    assert(r.segments[0].is_tail);
}

/// A tick that consumes the food leaves a replacement on the board within
/// the same tick: afterwards the food is the freshly spawned cell, which
/// the board contains.
pub proof fn lemma_food_replaced_same_tick(s: GameView, f: Position)
    requires
        s.wf(),
        s.board.contains(f),
        s.board.contains(s.next_head_cell()),
        s.next_head_cell() == s.food,
    ensures
        spec_tick(s, f).food == f,
        s.board.contains(spec_tick(s, f).food),
{
}

/// A tick that does not consume the food leaves it where it was.
pub proof fn lemma_food_kept_when_not_eaten(s: GameView, f: Position)
    requires
        s.next_head_cell() != s.food,
    ensures
        spec_tick(s, f).food == s.food,
{
}

/// Directional input applied between two ticks steers the next tick's head
/// advance: with the heading overwritten to `d`, the tick moves the head
/// one step in `d` (when that cell is on the board), whatever the heading
/// was before. Input can never reach back into an earlier tick, since a
/// tick's outcome is a function of the state at its start alone.
pub proof fn lemma_input_steers_next_tick(s: GameView, d: Direction, f: Position)
    requires
        s.wf(),
    ensures
        ({
            let steered = GameView { direction: d, ..s };
            let next = s.head().position.spec_next(d);
            s.board.contains(next) ==> spec_tick(steered, f).head().position == next
        }),
{
    let steered = GameView { direction: d, ..s };
    let next = s.head().position.spec_next(d);
    if s.board.contains(next) {
        let n = s.segments.len() as int;
        let advanced = steered.with_head_advanced(next);
        assert(advanced.segments[n].position == next);
        let r = spec_tick(steered, f);
        if next == s.food {
            assert(r.head() == advanced.segments[n]);
        } else {
            let b = advanced.segments.update(1, Segment { is_tail: true, ..advanced.segments[1] });
            b.remove_ensures(0);
            assert(r.head() == b[n]);
        }
    }
}

} // verus!
