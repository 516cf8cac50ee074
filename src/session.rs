use vstd::prelude::*;

use crate::game_state::{
    fits_i32, menu_screen_key_press, phase_after_start, GameState, TimeModel, TimeState,
};
use crate::grid::{lemma_sense_scales, target, Facing, GridCoordinate};
use crate::orbs::{effects_at, effects_fit, has_orb_of_kind, orb_at, Orb, OrbKind};
use crate::player::{
    attempt_move, check_direction_orb_hit, check_goal_acheived, check_in_no_orb, check_in_orb,
    check_slow_down_orb_hit, check_speed_up_orb_hit, check_switch_orb_hit, moved_player,
    Goal, MoveResult, Player,
};
use crate::walls::{cells_of, LevelWalls, WallModel};

verus! {

/// Everything a level loader supplies for one level.
pub struct LevelSnapshot {
    pub width_px: i32,
    pub height_px: i32,
    pub grid_size: i32,
    pub walls: Vec<GridCoordinate>,
    pub orbs: Vec<Orb>,
    pub goal: Option<GridCoordinate>,
    pub player_spawn: Option<GridCoordinate>,
}

/// Why a level snapshot was refused.
#[derive(Clone, Copy, Debug, PartialEq, Eq, Structural, Hash)]
pub enum LevelError {
    /// The grid cell size is zero or negative.
    NonPositiveGridSize,
    /// The level's pixel width or height is negative.
    NegativeDimensions,
    /// The level has no goal cell.
    MissingGoal,
    /// The level has no player spawn cell.
    MissingPlayerSpawn,
}

/// The first problem found in a level snapshot, if any.
pub open spec fn level_error(level: &LevelSnapshot) -> Option<LevelError> {
    if level.grid_size <= 0 {
        Some(LevelError::NonPositiveGridSize)
    } else if level.width_px < 0 || level.height_px < 0 {
        Some(LevelError::NegativeDimensions)
    } else if level.goal is None {
        Some(LevelError::MissingGoal)
    } else if level.player_spawn is None {
        Some(LevelError::MissingPlayerSpawn)
    } else {
        None
    }
}

/// What a single step came to.
#[derive(Clone, Copy, Debug, PartialEq, Eq, Structural, Hash)]
pub enum StepOutcome {
    /// Not playing, or no direction was given: nothing changed.
    Inert,
    /// The destination is a wall or out of bounds: nothing changed.
    Blocked,
    /// The player moved; `level_completed` tells the host to load the next
    /// level.
    Moved { new_position: GridCoordinate, time_delta_applied: i64, level_completed: bool },
}

/// One simulation session: the clock, the current level and the player.
pub struct Session {
    pub phase: GameState,
    pub time_state: TimeState,
    pub level_walls: LevelWalls,
    pub orbs: Vec<Orb>,
    pub goal: Goal,
    pub player: Player,
    pub level_index: i32,
}

/// A session as mathematical values.
pub struct SessionModel {
    pub phase: GameState,
    pub time: TimeModel,
    pub walls: WallModel,
    pub orbs: Seq<Orb>,
    pub goal: GridCoordinate,
    pub player: Player,
    pub level_index: int,
}

impl SessionModel {
    /// The level bounds are `i32` values, as those of every `LevelWalls`.
    pub open spec fn walls_fit(self) -> bool {
        fits_i32(self.walls.width) && fits_i32(self.walls.height)
    }
}

impl View for Session {
    type V = SessionModel;

    open spec fn view(&self) -> SessionModel {
        SessionModel {
            phase: self.phase,
            time: self.time_state@,
            walls: self.level_walls@,
            orbs: self.orbs@,
            goal: self.goal.position,
            player: self.player,
            level_index: self.level_index as int,
        }
    }
}

/// Whether a step with `input` moves the player: the session is playing, a
/// direction was given and its destination is free.
pub open spec fn moves(s: SessionModel, input: Option<Facing>) -> bool {
    match input {
        Some(f) => s.phase == GameState::Playing && !s.walls.blocks(target(s.player.position, f)),
        None => false,
    }
}

/// The session after one step: the move and its clock update, then the
/// orbs on the new cell (only when arriving from a cell without orbs), then
/// the goal check. A step that does not move changes nothing.
pub open spec fn step_model(s: SessionModel, input: Option<Facing>) -> SessionModel {
    match input {
        Some(f) => if moves(s, input) {
            let p = moved_player(s.player, f);
            let t = s.time.after_move(f);
            SessionModel {
                time: if s.player.occupying_orb {
                    t
                } else {
                    effects_at(t, s.orbs, p.position)
                },
                player: Player { occupying_orb: orb_at(s.orbs, p.position), ..p },
                level_index: if p.position == s.goal {
                    s.level_index + 1
                } else {
                    s.level_index
                },
                ..s
            }
        } else {
            s
        },
        None => s,
    }
}

/// What `step` reports for `input`.
pub open spec fn step_outcome(s: SessionModel, input: Option<Facing>) -> StepOutcome {
    match input {
        Some(f) => if s.phase != GameState::Playing {
            StepOutcome::Inert
        } else if !moves(s, input) {
            StepOutcome::Blocked
        } else {
            let p = moved_player(s.player, f);
            StepOutcome::Moved {
                new_position: p.position,
                time_delta_applied: s.time.advance_for(f) as i64,
                level_completed: p.position == s.goal,
            }
        },
        None => StepOutcome::Inert,
    }
}

/// Whether every value a step with `input` computes fits its `i32` field.
pub open spec fn step_fits(s: SessionModel, input: Option<Facing>) -> bool {
    match input {
        Some(f) => moves(s, input) ==> {
            let p = moved_player(s.player, f);
            let t = s.time.after_move(f);
            &&& fits_i32(t.time)
            &&& !s.player.occupying_orb ==> effects_fit(t, s.orbs, p.position)
            &&& p.position == s.goal ==> s.level_index < i32::MAX
        },
        None => true,
    }
}

/// The session after loading `level`, which `level_error` accepts.
pub open spec fn loaded(s: SessionModel, level: &LevelSnapshot) -> SessionModel {
    SessionModel {
        walls: WallModel {
            blocked: cells_of(level.walls@),
            width: level.width_px / level.grid_size,
            height: level.height_px / level.grid_size,
        },
        orbs: level.orbs@,
        goal: level.goal->0,
        player: Player { position: level.player_spawn->0, facing: Facing::Right, occupying_orb: false },
        ..s
    }
}

impl Session {
    /// A fresh session on the welcome screen, with the default clock, level
    /// index zero and an empty level in which every move is blocked.
    pub fn new() -> (r: Session)
        ensures
            r.phase == GameState::WelcomeScreen,
            r.time_state.time_axis == crate::game_state::TimeAxis::Horizontal,
            r.time_state.time_step_delta == 5,
            r.time_state.time == 0,
            r.level_index == 0,
            r.orbs@.len() == 0,
            r.level_walls@.width == 0,
            r.level_walls@.height == 0,
            r.level_walls@.blocked == Set::<(int, int)>::empty(),
            r.player == (Player {
                position: GridCoordinate { x: 0, y: 0 },
                facing: Facing::Right,
                occupying_orb: false,
            }),
            r.goal.position == (GridCoordinate { x: 0, y: 0 }),
    {
        let origin = GridCoordinate { x: 0, y: 0 };
        Session {
            phase: GameState::WelcomeScreen,
            time_state: TimeState::default(),
            level_walls: LevelWalls::default(),
            orbs: Vec::new(),
            goal: Goal { position: origin },
            player: Player { position: origin, facing: Facing::Right, occupying_orb: false },
            level_index: 0,
        }
    }

    /// Replaces the level as a whole: walls, bounds, orbs, goal, and the
    /// player at its spawn cell. The clock, the phase and the level index
    /// carry over. A malformed snapshot is refused and changes nothing.
    pub fn load_level(&mut self, level: LevelSnapshot) -> (r: Result<(), LevelError>)
        ensures
            level_error(&level) is Some ==> r == Err::<(), LevelError>(level_error(&level)->0)
                && final(self)@ == old(self)@,
            level_error(&level) is None ==> r is Ok && final(self)@ == loaded(old(self)@, &level),
    {
        if level.grid_size <= 0 {
            return Err(LevelError::NonPositiveGridSize);
        }
        if level.width_px < 0 || level.height_px < 0 {
            return Err(LevelError::NegativeDimensions);
        }
        let goal = match level.goal {
            Some(g) => g,
            None => {
                return Err(LevelError::MissingGoal);
            },
        };
        let spawn = match level.player_spawn {
            Some(p) => p,
            None => {
                return Err(LevelError::MissingPlayerSpawn);
            },
        };
        let walls = LevelWalls::build(level.width_px, level.height_px, level.grid_size, &level.walls);
        self.level_walls = walls;
        self.orbs = level.orbs;
        self.goal = Goal { position: goal };
        self.player = Player { position: spawn, facing: Facing::Right, occupying_orb: false };
        Ok(())
    }

    /// Handles the confirm/start signal: the welcome screen gives way to
    /// play.
    pub fn confirm_start(&mut self, start_pressed: bool)
        ensures
            final(self)@ == (SessionModel {
                phase: phase_after_start(old(self).phase, start_pressed),
                ..old(self)@
            }),
    {
        self.phase = menu_screen_key_press(self.phase, start_pressed);
    }

    /// Whether `step(input)` may run: every value it would compute fits its
    /// `i32` field.
    pub fn can_step(&self, input: Option<Facing>) -> (r: bool)
        ensures
            r == step_fits(self@, input),
    {
        let direction = match input {
            Some(f) => f,
            None => {
                return true;
            },
        };
        if self.phase != GameState::Playing {
            return true;
        }
        let player = self.player;
        let clock = self.time_state;
        proof {
            self.level_walls.lemma_bounds_fit();
        }
        let (dx, dy) = direction.offset();
        let x = player.position.x as i64 + dx as i64;
        let y = player.position.y as i64 + dy as i64;
        if x < 0 || y < 0 || x > i32::MAX as i64 || y > i32::MAX as i64 {
            return true;
        }
        let destination = GridCoordinate { x: x as i32, y: y as i32 };
        if self.level_walls.in_wall(&destination) {
            return true;
        }
        let applied: i64 = if clock.time_axis == direction.time_axis() {
            let delta = clock.time_step_delta as i64;
        proof {
            lemma_sense_scales(direction, delta as int);
        }
        if direction.sense() > 0 {
            delta
        } else {
            -delta
        }
        } else {
            0
        };
        let time = clock.time as i64 + applied;
        if time < i32::MIN as i64 || time > i32::MAX as i64 {
            return false;
        }
        if !self.player.occupying_orb {
            let mut delta = clock.time_step_delta as i64;
            if has_orb_of_kind(&self.orbs, destination, OrbKind::DirectionSwitch) {
                delta = -delta;
                if delta > i32::MAX as i64 {
                    return false;
                }
            }
            if has_orb_of_kind(&self.orbs, destination, OrbKind::SpeedUp) {
                delta = delta + 1;
                if delta > i32::MAX as i64 {
                    return false;
                }
            }
            if has_orb_of_kind(&self.orbs, destination, OrbKind::SlowDown) {
                delta = delta - 1;
                if delta < i32::MIN as i64 {
                    return false;
                }
            }
        }
        !(destination == self.goal.position && self.level_index == i32::MAX)
    }

    /// Ends play: a playing session becomes dead; other phases stay.
    pub fn fail(&mut self)
        ensures
            final(self)@ == (SessionModel {
                phase: if old(self).phase == GameState::Playing {
                    GameState::Dead
                } else {
                    old(self).phase
                },
                ..old(self)@
            }),
    {
        if self.phase == GameState::Playing {
            self.phase = GameState::Dead;
        }
    }

    /// Runs one step for `input`: the move, then the orbs on the new cell,
    /// then the goal. Outside play, or without a direction, nothing happens.
    pub fn step(&mut self, input: Option<Facing>) -> (r: StepOutcome)
        requires
            step_fits(old(self)@, input),
        ensures
            final(self)@ == step_model(old(self)@, input),
            r == step_outcome(old(self)@, input),
    {
        let direction = match input {
            Some(f) => f,
            None => {
                return StepOutcome::Inert;
            },
        };
        if self.phase != GameState::Playing {
            return StepOutcome::Inert;
        }
        let result = attempt_move(&mut self.player, direction, &self.level_walls, &mut self.time_state);
        match result {
            MoveResult::Blocked => StepOutcome::Blocked,
            MoveResult::Moved { new_position, time_delta_applied } => {
                check_switch_orb_hit(&mut self.time_state, &self.player, true, &self.orbs);
                check_direction_orb_hit(&mut self.time_state, &self.player, true, &self.orbs);
                check_speed_up_orb_hit(&mut self.time_state, &self.player, true, &self.orbs);
                check_slow_down_orb_hit(&mut self.time_state, &self.player, true, &self.orbs);
                check_in_no_orb(&mut self.player, true, &self.orbs);
                check_in_orb(&mut self.player, true, &self.orbs);
                let at_goal = self.player.position == self.goal.position;
                check_goal_acheived(&mut self.level_index, true, &self.player, &self.goal);
                StepOutcome::Moved { new_position, time_delta_applied, level_completed: at_goal }
            },
        }
    }
}

/// A step that leaves the player where it was changes nothing at all: in
/// particular, standing on an orb never applies it again.
pub proof fn lemma_standing_still_changes_nothing(s: SessionModel, input: Option<Facing>)
    requires
        s.walls_fit(),
    ensures
        step_model(s, input).player.position == s.player.position ==> step_model(s, input) == s,
{
    if let Some(f) = input {
        if moves(s, input) {
            let dest = target(s.player.position, f);
            assert(fits_i32(dest.0) && fits_i32(dest.1));
            assert(dest != s.player.position.cell());
        }
    }
}

/// While the player stands on an orb it has triggered, a move changes the
/// clock by the move alone: no orb acts, not even one on the next cell.
pub proof fn lemma_no_orb_effect_while_occupying(s: SessionModel, f: Facing)
    requires
        s.player.occupying_orb,
        moves(s, Some(f)),
    ensures
        step_model(s, Some(f)).time == s.time.after_move(f),
{
}

/// Leaving the orbs re-arms them: after a move to a cell without an orb,
/// the next move onto any cell applies every orb found there.
pub proof fn lemma_orb_rearmed_after_leaving(s: SessionModel, away: Facing, back: Facing)
    requires
        moves(s, Some(away)),
        !orb_at(s.orbs, step_model(s, Some(away)).player.position),
    ensures
        !step_model(s, Some(away)).player.occupying_orb,
        ({
            let s1 = step_model(s, Some(away));
            let s2 = step_model(s1, Some(back));
            moves(s1, Some(back)) ==> s2.time == effects_at(
                s1.time.after_move(back),
                s.orbs,
                s2.player.position,
            ) && s2.player.occupying_orb == orb_at(s.orbs, s2.player.position)
        }),
{
}

/// The level index grows by exactly one on each arrival at the goal and
/// not otherwise: a step that does not move the player, such as standing on
/// the goal, leaves it as it is.
pub proof fn lemma_goal_once_per_arrival(s: SessionModel, input: Option<Facing>)
    ensures
        step_model(s, input).level_index == s.level_index + if moves(s, input) && step_model(
            s,
            input,
        ).player.position == s.goal {
            1int
        } else {
            0int
        },
        !moves(s, input) ==> step_model(s, input).level_index == s.level_index,
{
}

} // verus!
