use snake_core::{spawn_food, Board, Direction, Game, Position, Segment};

fn board_9x9() -> Board {
    Board::new(9, 9).expect("positive dimensions")
}

fn single_segment_game(start: Position, direction: Direction, food: Position) -> Game {
    Game::new(board_9x9(), start, direction, food)
}

fn positions(game: &Game) -> Vec<Position> {
    game.segments().iter().map(|s| s.position).collect()
}

#[test]
fn board_rejects_bad_dimensions() {
    assert!(Board::new(0, 9).is_none());
    assert!(Board::new(9, 0).is_none());
    assert!(Board::new(-1, 5).is_none());
    assert!(Board::new(5, -1).is_none());
    assert!(Board::new(0, 0).is_none());
    assert!(Board::new(1, 1).is_some());
}

#[test]
fn validate_checks_both_ranges() {
    let board = board_9x9();
    assert!(board.validate(Position { x: 0, y: 0 }));
    assert!(board.validate(Position { x: 8, y: 8 }));
    assert!(board.validate(Position { x: 4, y: 7 }));
    assert!(!board.validate(Position { x: -1, y: 0 }));
    assert!(!board.validate(Position { x: 0, y: -1 }));
    assert!(!board.validate(Position { x: 9, y: 0 }));
    assert!(!board.validate(Position { x: 0, y: 9 }));
}

#[test]
fn calc_next_unit_vectors() {
    let p = Position { x: 3, y: 4 };
    assert_eq!(p.calc_next(Direction::Up), Position { x: 3, y: 5 });
    assert_eq!(p.calc_next(Direction::Down), Position { x: 3, y: 3 });
    assert_eq!(p.calc_next(Direction::Left), Position { x: 2, y: 4 });
    assert_eq!(p.calc_next(Direction::Right), Position { x: 4, y: 4 });
}

// Scenario: a single segment at (0,0) heading Up, no food on its path;
// after one tick the chain is still one segment, now at (0,1).
#[test]
fn scenario_single_segment_moves_up() {
    let mut game = single_segment_game(
        Position { x: 0, y: 0 },
        Direction::Up,
        Position { x: 5, y: 5 },
    );
    game.tick();
    let segs = game.segments();
    assert_eq!(segs.len(), 1);
    assert_eq!(segs[0].position, Position { x: 0, y: 1 });
    assert!(segs[0].is_head);
    assert!(segs[0].is_tail);
    assert!(!segs[0].pending_growth);
    assert_eq!(game.food(), Position { x: 5, y: 5 });
}

// Scenario: food at (0,1), snake at (0,0) heading Up; after one tick the
// head sits on the former food cell, the chain has grown to two segments,
// and a fresh food exists on the board in the same tick.
#[test]
fn scenario_eating_grows_by_one() {
    let mut game = single_segment_game(
        Position { x: 0, y: 0 },
        Direction::Up,
        Position { x: 0, y: 1 },
    );
    game.tick();
    let segs: Vec<Segment> = game.segments().clone();
    assert_eq!(segs.len(), 2);
    assert_eq!(segs[0].position, Position { x: 0, y: 0 });
    assert_eq!(segs[1].position, Position { x: 0, y: 1 });
    assert!(segs[0].is_tail && !segs[0].is_head);
    assert!(segs[1].is_head && !segs[1].is_tail);
    assert!(!segs[0].pending_growth && !segs[1].pending_growth);
    let food = game.food();
    assert!(game.board().validate(food));
}

// Scenario: head at (8,4) on a 9-wide board heading Right; x = 9 is out of
// bounds, so the tick changes nothing.
#[test]
fn scenario_blocked_at_wall() {
    let mut game = single_segment_game(
        Position { x: 8, y: 4 },
        Direction::Right,
        Position { x: 5, y: 5 },
    );
    game.tick();
    let segs = game.segments();
    assert_eq!(segs.len(), 1);
    assert_eq!(segs[0].position, Position { x: 8, y: 4 });
    assert!(segs[0].is_head && segs[0].is_tail);
    assert_eq!(game.food(), Position { x: 5, y: 5 });
}

// Scenario: direction set to Left, then immediately to Right before the
// tick fires; the head moves Right, the last write wins.
#[test]
fn scenario_last_direction_wins() {
    let mut game = single_segment_game(
        Position { x: 4, y: 4 },
        Direction::Up,
        Position { x: 7, y: 7 },
    );
    game.set_direction(Direction::Left);
    game.set_direction(Direction::Right);
    game.tick();
    let segs = game.segments();
    assert_eq!(segs.len(), 1);
    assert_eq!(segs[0].position, Position { x: 5, y: 4 });
}

// Input alone moves nothing: only the tick advances the snake.
#[test]
fn set_direction_changes_only_the_heading() {
    let mut game = single_segment_game(
        Position { x: 2, y: 2 },
        Direction::Up,
        Position { x: 6, y: 6 },
    );
    let before = positions(&game);
    game.set_direction(Direction::Down);
    game.set_direction(Direction::Left);
    assert_eq!(positions(&game), before);
    assert_eq!(game.food(), Position { x: 6, y: 6 });
    assert_eq!(game.direction(), Direction::Left);
}

// Length across in-bounds ticks: unchanged without food, +1 when the head
// lands on the food cell, whichever cell the spawner picks next.
#[test]
fn length_law_across_two_ticks() {
    let mut game = single_segment_game(
        Position { x: 0, y: 0 },
        Direction::Up,
        Position { x: 0, y: 1 },
    );
    game.tick();
    assert_eq!(game.segments().len(), 2);

    // The second tick moves the head to (0,2); whether it eats depends on
    // where the fresh food landed, which the previous tick chose at random.
    let expects_eat = game.food() == Position { x: 0, y: 2 };
    game.tick();
    let segs = game.segments();
    assert_eq!(segs.len(), if expects_eat { 3 } else { 2 });
    assert_eq!(segs[segs.len() - 1].position, Position { x: 0, y: 2 });
    assert!(segs[segs.len() - 1].is_head);
    assert!(segs[0].is_tail);
}

// A blocked tick leaves a longer chain untouched as well.
#[test]
fn blocked_tick_keeps_longer_chain() {
    let mut game = single_segment_game(
        Position { x: 0, y: 0 },
        Direction::Up,
        Position { x: 0, y: 1 },
    );
    game.tick();
    assert_eq!(game.segments().len(), 2);
    let before: Vec<Segment> = game.segments().clone();
    let food_before = game.food();

    // Head is at (0,1); Left points at (-1,1), which is off the board.
    game.set_direction(Direction::Left);
    game.tick();
    assert_eq!(game.segments().clone(), before);
    assert_eq!(game.food(), food_before);
}

// Exactly one head and one tail after every tick of a short random walk.
#[test]
fn one_head_one_tail_after_every_tick() {
    let mut game = single_segment_game(
        Position { x: 4, y: 4 },
        Direction::Up,
        Position { x: 4, y: 5 },
    );
    let walk = [
        Direction::Up,
        Direction::Right,
        Direction::Right,
        Direction::Down,
        Direction::Left,
        Direction::Down,
        Direction::Up,
    ];
    for d in walk {
        game.set_direction(d);
        game.tick();
        let heads = game.segments().iter().filter(|s| s.is_head).count();
        let tails = game.segments().iter().filter(|s| s.is_tail).count();
        assert_eq!(heads, 1);
        assert_eq!(tails, 1);
        assert!(game.segments().iter().all(|s| !s.pending_growth));
        assert!(game.segments().last().unwrap().is_head);
        assert!(game.segments().first().unwrap().is_tail);
    }
}

// The spawner stays on the board; on a one-cell board it can only pick the
// one cell, so a spawner that did not map its draw into the range would
// fail here.
#[test]
fn spawn_food_stays_on_the_board() {
    let board = board_9x9();
    for _ in 0..200 {
        let food = spawn_food(&board);
        assert!(board.validate(food));
    }
    let tiny = Board::new(1, 1).expect("positive dimensions");
    for _ in 0..20 {
        assert_eq!(spawn_food(&tiny), Position { x: 0, y: 0 });
    }
}

// Food is replaced in the very tick it is eaten, never leaving the board
// without food.
#[test]
fn food_always_present_after_eating() {
    let mut game = single_segment_game(
        Position { x: 3, y: 3 },
        Direction::Right,
        Position { x: 4, y: 3 },
    );
    game.tick();
    assert_eq!(game.segments().len(), 2);
    assert!(game.board().validate(game.food()));
}
