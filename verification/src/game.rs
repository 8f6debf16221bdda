//! The simulation state and the tick logic: head advance, eat check and
//! tail drop, run strictly in that order within one tick.

use vstd::prelude::*;
use crate::board::{Board, Direction, Position};
use crate::food::spawn_food;
use crate::segment::Segment;

verus! {

/// The mathematical model of one simulation state: the board, the chain of
/// segments ordered tail-first (index 0 is the tail, the last index is the
/// head), the current heading and the food cell.
#[verifier::ext_equal]
pub struct GameView {
    pub board: Board,
    pub segments: Seq<Segment>,
    pub direction: Direction,
    pub food: Position,
}

impl GameView {
    /// The head segment: the last of the chain.
    pub open spec fn head(self) -> Segment {
        self.segments.last()
    }

    /// The tail segment: the first of the chain.
    pub open spec fn tail(self) -> Segment {
        self.segments[0]
    }

    /// The cell the head would move into next, one step in the current
    /// heading.
    pub open spec fn next_head_cell(self) -> Position {
        self.head().position.spec_next(self.direction)
    }

    /// Chain structure: at least one segment; the head flag sits exactly on
    /// the last segment and the tail flag exactly on the first; every
    /// segment lies on the board.
    pub open spec fn chain_wf(self) -> bool {
        &&& self.segments.len() >= 1
        &&& forall|i: int|
            0 <= i < self.segments.len() ==> (#[trigger] self.segments[i].is_head <==> i
                == self.segments.len() - 1)
        &&& forall|i: int|
            0 <= i < self.segments.len() ==> (#[trigger] self.segments[i].is_tail <==> i == 0)
        &&& forall|i: int|
            0 <= i < self.segments.len() ==> self.board.contains(
                (#[trigger] self.segments[i]).position,
            )
    }

    /// Exactly one segment carries the head flag, and exactly one the tail
    /// flag. On a single-segment chain that one segment carries both.
    pub open spec fn exactly_one_head_and_tail(self) -> bool {
        &&& exists|i: int| 0 <= i < self.segments.len() && (#[trigger] self.segments[i]).is_head
        &&& forall|i: int, j: int|
            0 <= i < self.segments.len() && 0 <= j < self.segments.len() && (
            #[trigger] self.segments[i]).is_head && (#[trigger] self.segments[j]).is_head ==> i
                == j
        &&& exists|i: int| 0 <= i < self.segments.len() && (#[trigger] self.segments[i]).is_tail
        &&& forall|i: int, j: int|
            0 <= i < self.segments.len() && 0 <= j < self.segments.len() && (
            #[trigger] self.segments[i]).is_tail && (#[trigger] self.segments[j]).is_tail ==> i
                == j
    }

    /// No segment carries the growth marker. It lives only inside a tick,
    /// between the eat check and the tail drop.
    pub open spec fn no_pending(self) -> bool {
        forall|i: int| 0 <= i < self.segments.len() ==> !(#[trigger] self.segments[i]).pending_growth
    }

    /// Well-formedness between ticks: valid board, structured chain, food on
    /// the board, no growth marker left over.
    pub open spec fn wf(self) -> bool {
        &&& self.board.wf()
        &&& self.chain_wf()
        &&& self.board.contains(self.food)
        &&& self.no_pending()
    }

    /// The chain after a head advance into `next`: the old head is demoted
    /// to a body segment (it keeps its tail flag if it had one) and a new
    /// head segment is appended at `next`.
    pub open spec fn with_head_advanced(self, next: Position) -> GameView {
        GameView {
            segments: self.segments.update(
                self.segments.len() - 1,
                Segment { is_head: false, ..self.segments.last() },
            ).push(
                Segment { position: next, is_head: true, is_tail: false, pending_growth: false },
            ),
            ..self
        }
    }

    /// The state after the eat check marks the tail for growth.
    pub open spec fn with_tail_marked(self) -> GameView {
        GameView {
            segments: self.segments.update(
                0,
                Segment { pending_growth: true, ..self.segments[0] },
            ),
            ..self
        }
    }

    /// The state with the food replaced by `f`.
    pub open spec fn with_food(self, f: Position) -> GameView {
        GameView { food: f, ..self }
    }

    /// The state after the tail drop observes the growth marker and clears
    /// it, keeping the tail.
    pub open spec fn with_pending_cleared(self) -> GameView {
        GameView {
            segments: self.segments.update(
                0,
                Segment { pending_growth: false, ..self.segments[0] },
            ),
            ..self
        }
    }

    /// The state after the tail drop retires the tail: its successor (the
    /// segment at the next index) is promoted to tail and the old tail is
    /// removed. Meaningful only for chains of length at least two.
    pub open spec fn with_tail_dropped(self) -> GameView {
        GameView {
            segments: self.segments.update(
                1,
                Segment { is_tail: true, ..self.segments[1] },
            ).remove(0),
            ..self
        }
    }
}

/// One whole tick on the model, with `f` standing for the cell the food
/// spawner would pick if the food is eaten.
///
/// If the head's next cell is off the board, the tick mutates nothing.
/// Otherwise the head advances; if it lands on the food the tail is marked
/// for growth, the food is replaced within the same tick, and the tail drop
/// clears the marker and keeps the whole chain (net growth by one);
/// otherwise the tail drop retires the tail (net length unchanged).
pub open spec fn spec_tick(s: GameView, f: Position) -> GameView {
    let next = s.next_head_cell();
    if !s.board.contains(next) {
        s
    } else {
        let advanced = s.with_head_advanced(next);
        if next == s.food {
            advanced.with_tail_marked().with_food(f).with_pending_cleared()
        } else {
            advanced.with_tail_dropped()
        }
    }
}

/// The simulation state: owned by the tick driver and passed explicitly to
/// each step. Input events overwrite the heading between ticks; the tick
/// reads it exactly once, at head-advance time.
pub struct Game {
    board: Board,
    chain: Vec<Segment>,
    direction: Direction,
    food: Position,
}

impl View for Game {
    type V = GameView;

    closed spec fn view(&self) -> GameView {
        GameView {
            board: self.board,
            segments: self.chain@,
            direction: self.direction,
            food: self.food,
        }
    }
}

impl Game {
    /// Builds a starting state: a single segment at `start` acting as both
    /// head and tail, heading `direction`, food at `food`.
    pub fn new(board: Board, start: Position, direction: Direction, food: Position) -> (g: Game)
        requires
            board.wf(),
            board.contains(start),
            board.contains(food),
        ensures
            g@.wf(),
            g@.board == board,
            g@.direction == direction,
            g@.food == food,
            g@.segments =~= seq![
                Segment { position: start, is_head: true, is_tail: true, pending_growth: false },
            ],
    {
        Game {
            board,
            chain: vec![
                Segment { position: start, is_head: true, is_tail: true, pending_growth: false },
            ],
            direction,
            food,
        }
    }

    /// The board, as configured at startup.
    pub fn board(&self) -> (b: Board)
        ensures
            b == self@.board,
    {
        self.board
    }

    /// Read-only snapshot of the chain for rendering, tail-first.
    pub fn segments(&self) -> (q: &Vec<Segment>)
        ensures
            q@ == self@.segments,
    {
        &self.chain
    }

    /// The current food cell.
    pub fn food(&self) -> (f: Position)
        ensures
            f == self@.food,
    {
        self.food
    }

    /// The current heading.
    pub fn direction(&self) -> (d: Direction)
        ensures
            d == self@.direction,
    {
        self.direction
    }

    /// Head advance: computes the next cell one step in the current heading
    /// and, if the board contains it, appends a new head segment there,
    /// demoting the old head to a body segment. An out-of-bounds next cell
    /// blocks the move and leaves the state untouched.
    pub fn advance_head(&mut self) -> (moved: bool)
        requires
            old(self)@.board.wf(),
            old(self)@.chain_wf(),
        ensures
            moved == old(self)@.board.contains(old(self)@.next_head_cell()),
            moved ==> final(self)@ == old(self)@.with_head_advanced(old(self)@.next_head_cell()),
            !moved ==> final(self)@ == old(self)@,
    {
        let last: usize = self.chain.len() - 1;
        let head_position: Position = self.chain[last].position;
        let next: Position = head_position.calc_next(self.direction);
        if self.board.validate(next) {
            let demoted: Segment = self.chain[last];
            self.chain[last] = Segment { is_head: false, ..demoted };
            self.chain.push(
                Segment { position: next, is_head: true, is_tail: false, pending_growth: false },
            );
            true
        } else {
            false
        }
    }

    /// Eat check: runs after the head advance. If the head sits on the food
    /// cell, the tail is marked for growth, the eaten food is destroyed and
    /// the spawner places a replacement within the same tick; otherwise
    /// nothing changes.
    pub fn check_eat(&mut self)
        requires
            old(self)@.board.wf(),
            old(self)@.segments.len() >= 1,
        ensures
            old(self)@.head().position == old(self)@.food ==> exists|f: Position|
                old(self)@.board.contains(f) && final(self)@ == old(self)@.with_tail_marked()
                    .with_food(f),
            old(self)@.head().position != old(self)@.food ==> final(self)@ == old(self)@,
    {
        let last: usize = self.chain.len() - 1;
        let head_position: Position = self.chain[last].position;
        if head_position == self.food {
            let tail: Segment = self.chain[0];
            self.chain[0] = Segment { pending_growth: true, ..tail };
            self.food = spawn_food(&self.board);
        }
    }

    /// Tail drop: runs after the eat check. A tail carrying the growth
    /// marker has the marker cleared and stays (the chain keeps the segment
    /// the head advance added: net growth by one). Otherwise the tail's
    /// successor, the segment at the next index, is promoted to tail and the
    /// old tail is retired. A single-segment chain without the marker is
    /// left alone: it has no successor yet.
    pub fn drop_tail(&mut self)
        requires
            old(self)@.segments.len() >= 1,
        ensures
            old(self)@.tail().pending_growth ==> final(self)@ == old(self)@.with_pending_cleared(),
            !old(self)@.tail().pending_growth && old(self)@.segments.len() >= 2 ==> final(self)@
                == old(self)@.with_tail_dropped(),
            !old(self)@.tail().pending_growth && old(self)@.segments.len() < 2 ==> final(self)@
                == old(self)@,
    {
        let tail: Segment = self.chain[0];
        if tail.pending_growth {
            self.chain[0] = Segment { pending_growth: false, ..tail };
        } else if self.chain.len() >= 2 {
            let successor: Segment = self.chain[1];
            self.chain[1] = Segment { is_tail: true, ..successor };
            self.chain.remove(0);
        }
    }

    /// One whole tick: head advance, then eat check, then tail drop,
    /// strictly in that order. A blocked head advance (next cell off the
    /// board) skips the later stages, so such a tick mutates nothing.
    ///
    /// The resulting state is `spec_tick` of the old state at some food cell
    /// `f` the spawner picked; which cell is not pinned down, only that it
    /// lies on the board.
    pub fn tick(&mut self)
        requires
            old(self)@.wf(),
        ensures
            final(self)@.wf(),
            exists|f: Position|
                old(self)@.board.contains(f) && final(self)@ == #[trigger] spec_tick(
                    old(self)@,
                    f,
                ),
    {
        let ghost s0 = self@;
        let moved: bool = self.advance_head();
        if moved {
            proof {
                assert(self@.head().position == s0.next_head_cell());
                assert(self@.food == s0.food);
            }
            self.check_eat();
            let ghost fw = self@.food;
            proof {
                assert(self@.segments.len() >= 2);
                assert(s0.with_head_advanced(s0.next_head_cell()).segments[0].pending_growth
                    == false);
            }
            self.drop_tail();
            proof {
                crate::laws::lemma_tick_preserves_wf(s0, fw);
                assert(s0.board.contains(fw) && self@ == spec_tick(s0, fw));
            }
        } else {
            proof {
                assert(spec_tick(s0, s0.food) == s0);
                assert(s0.board.contains(s0.food) && self@ == spec_tick(s0, s0.food));
            }
        }
    }

    /// Ingests one directional input event. There is no queue: of several
    /// inputs between two ticks, the last one overwrites the others.
    pub fn set_direction(&mut self, d: Direction)
        ensures
            final(self)@ == (GameView { direction: d, ..old(self)@ }),
    {
        self.direction = d;
    }
}

} // verus!
