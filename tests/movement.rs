use cycle_game::game_state::{GameState, TimeAxis, TimeState};
use cycle_game::grid::{Facing, GridCoordinate};
use cycle_game::player::{attempt_move, MoveResult, Player};
use cycle_game::session::{LevelSnapshot, Session, StepOutcome};
use cycle_game::walls::LevelWalls;

fn cell(x: i32, y: i32) -> GridCoordinate {
    GridCoordinate { x, y }
}

fn playing_session(walls: Vec<GridCoordinate>, spawn: GridCoordinate) -> Session {
    let mut s = Session::new();
    let level = LevelSnapshot {
        width_px: 320,
        height_px: 320,
        grid_size: 32,
        walls,
        orbs: Vec::new(),
        goal: Some(cell(9, 9)),
        player_spawn: Some(spawn),
    };
    assert_eq!(s.load_level(level), Ok(()));
    s.confirm_start(true);
    s
}

#[test]
fn right_right_up_from_default_clock() {
    let mut s = playing_session(Vec::new(), cell(0, 0));
    assert_eq!(s.time_state, TimeState { time_axis: TimeAxis::Horizontal, time_step_delta: 5, time: 0 });
    s.step(Some(Facing::Right));
    assert_eq!(s.time_state.time, 5);
    s.step(Some(Facing::Right));
    assert_eq!(s.time_state.time, 10);
    s.step(Some(Facing::Up));
    assert_eq!(s.time_state.time, 10);
    assert_eq!(s.player.position, cell(2, 1));
}

#[test]
fn wall_blocks_move_and_clock() {
    let mut s = playing_session(vec![cell(3, 2)], cell(2, 2));
    let before = s.time_state;
    let out = s.step(Some(Facing::Right));
    assert_eq!(out, StepOutcome::Blocked);
    assert_eq!(s.player.position, cell(2, 2));
    assert_eq!(s.time_state, before);
}

#[test]
fn out_of_bounds_blocks_move() {
    let mut s = playing_session(Vec::new(), cell(0, 0));
    assert_eq!(s.step(Some(Facing::Left)), StepOutcome::Blocked);
    assert_eq!(s.step(Some(Facing::Down)), StepOutcome::Blocked);
    assert_eq!(s.player.position, cell(0, 0));
    assert_eq!(s.time_state.time, 0);
    let mut t = playing_session(Vec::new(), cell(9, 9));
    assert_eq!(t.step(Some(Facing::Right)), StepOutcome::Blocked);
    assert_eq!(t.step(Some(Facing::Up)), StepOutcome::Blocked);
    assert_eq!(t.player.position, cell(9, 9));
}

#[test]
fn sense_of_each_direction() {
    let walls = LevelWalls::build(320, 320, 32, &Vec::new());
    let mut clock = TimeState { time_axis: TimeAxis::Horizontal, time_step_delta: 7, time: 100 };
    let mut p = Player { position: cell(5, 5), facing: Facing::Right, occupying_orb: false };
    assert_eq!(
        attempt_move(&mut p, Facing::Left, &walls, &mut clock),
        MoveResult::Moved { new_position: cell(4, 5), time_delta_applied: -7 }
    );
    assert_eq!(clock.time, 93);
    assert_eq!(p.facing, Facing::Left);
    attempt_move(&mut p, Facing::Right, &walls, &mut clock);
    assert_eq!(clock.time, 100);
    assert_eq!(p.facing, Facing::Right);
    clock.time_axis = TimeAxis::Vertical;
    attempt_move(&mut p, Facing::Up, &walls, &mut clock);
    assert_eq!(clock.time, 107);
    attempt_move(&mut p, Facing::Down, &walls, &mut clock);
    assert_eq!(clock.time, 100);
    assert_eq!(p.position, cell(5, 5));
    clock.time_axis = TimeAxis::Neither;
    for f in [Facing::Up, Facing::Left, Facing::Down, Facing::Right] {
        let r = attempt_move(&mut p, f, &walls, &mut clock);
        assert_eq!(r, MoveResult::Moved { new_position: p.position, time_delta_applied: 0 });
        assert_eq!(clock.time, 100);
    }
}

#[test]
fn zero_step_delta_moves_without_time() {
    let walls = LevelWalls::build(320, 320, 32, &Vec::new());
    let mut clock = TimeState { time_axis: TimeAxis::Horizontal, time_step_delta: 0, time: 3 };
    let mut p = Player { position: cell(1, 1), facing: Facing::Up, occupying_orb: false };
    let r = attempt_move(&mut p, Facing::Right, &walls, &mut clock);
    assert_eq!(r, MoveResult::Moved { new_position: cell(2, 1), time_delta_applied: 0 });
    assert_eq!(clock.time, 3);
}

#[test]
fn blocked_move_keeps_player_and_facing() {
    let walls = LevelWalls::build(64, 64, 32, &vec![cell(1, 0)]);
    let mut clock = TimeState::default();
    let mut p = Player { position: cell(0, 0), facing: Facing::Up, occupying_orb: true };
    assert_eq!(attempt_move(&mut p, Facing::Right, &walls, &mut clock), MoveResult::Blocked);
    assert_eq!(p, Player { position: cell(0, 0), facing: Facing::Up, occupying_orb: true });
    assert_eq!(clock, TimeState::default());
}

#[test]
fn extreme_coordinates_are_blocked() {
    let walls = LevelWalls::build(i32::MAX, i32::MAX, 1, &Vec::new());
    let mut clock = TimeState::default();
    let mut p = Player { position: cell(i32::MAX, 0), facing: Facing::Up, occupying_orb: false };
    assert_eq!(attempt_move(&mut p, Facing::Right, &walls, &mut clock), MoveResult::Blocked);
    let mut q = Player { position: cell(i32::MIN, 0), facing: Facing::Up, occupying_orb: false };
    assert_eq!(attempt_move(&mut q, Facing::Left, &walls, &mut clock), MoveResult::Blocked);
    assert_eq!(clock.time, 0);
}

#[test]
fn inert_outside_play_or_without_input() {
    let mut s = Session::new();
    let level = LevelSnapshot {
        width_px: 320,
        height_px: 320,
        grid_size: 32,
        walls: Vec::new(),
        orbs: Vec::new(),
        goal: Some(cell(9, 9)),
        player_spawn: Some(cell(0, 0)),
    };
    s.load_level(level).unwrap();
    assert_eq!(s.phase, GameState::WelcomeScreen);
    assert_eq!(s.step(Some(Facing::Right)), StepOutcome::Inert);
    assert_eq!(s.player.position, cell(0, 0));
    s.confirm_start(false);
    assert_eq!(s.phase, GameState::WelcomeScreen);
    s.confirm_start(true);
    assert_eq!(s.phase, GameState::Playing);
    assert_eq!(s.step(None), StepOutcome::Inert);
    s.fail();
    assert_eq!(s.phase, GameState::Dead);
    s.confirm_start(true);
    assert_eq!(s.phase, GameState::Dead);
    assert_eq!(s.step(Some(Facing::Right)), StepOutcome::Inert);
    assert_eq!(s.time_state.time, 0);
}

#[test]
fn step_reports_move() {
    let mut s = playing_session(Vec::new(), cell(4, 4));
    let out = s.step(Some(Facing::Left));
    assert_eq!(
        out,
        StepOutcome::Moved { new_position: cell(3, 4), time_delta_applied: -5, level_completed: false }
    );
    assert_eq!(s.time_state.time, -5);
    assert_eq!(s.player.facing, Facing::Left);
}

#[test]
fn can_step_guards_clock_overflow() {
    let mut s = playing_session(Vec::new(), cell(0, 0));
    s.time_state.time = i32::MAX - 5;
    assert!(s.can_step(Some(Facing::Right)));
    s.time_state.time = i32::MAX - 4;
    assert!(!s.can_step(Some(Facing::Right)));
    assert!(s.can_step(Some(Facing::Up)));
    assert!(s.can_step(Some(Facing::Left)));
    assert!(s.can_step(None));
    assert!(s.can_step(Some(Facing::Down)));
}
