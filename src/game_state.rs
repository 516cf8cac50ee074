use vstd::prelude::*;

use crate::grid::Facing;

verus! {

/// Number of in-world days that make up one season.
pub const DAYS_PER_SEASION: i32 = 2;

/// Top-level mode of a session; the core only acts while `Playing`.
#[derive(Clone, Copy, Debug, PartialEq, Eq, Structural, Hash)]
pub enum GameState {
    WelcomeScreen,
    Playing,
    Dead,
}

impl Default for GameState {
    fn default() -> (r: Self)
        ensures
            r == GameState::WelcomeScreen,
    {
        GameState::WelcomeScreen
    }
}

/// The phase after a confirm/start signal: the welcome screen gives way to
/// play; every other phase stays as it is.
pub open spec fn phase_after_start(phase: GameState, start_pressed: bool) -> GameState {
    if phase == GameState::WelcomeScreen && start_pressed {
        GameState::Playing
    } else {
        phase
    }
}

pub fn menu_screen_key_press(phase: GameState, start_pressed: bool) -> (r: GameState)
    ensures
        r == phase_after_start(phase, start_pressed),
{
    if start_pressed && phase == GameState::WelcomeScreen {
        GameState::Playing
    } else {
        phase
    }
}

/// Which movement axis drives the clock; `Neither` means no movement does.
#[derive(Clone, Copy, Debug, PartialEq, Eq, Structural, Hash)]
pub enum TimeAxis {
    Horizontal,
    Vertical,
    Neither,
}

/// The axis a move in direction `f` runs along.
pub open spec fn axis_of(f: Facing) -> TimeAxis {
    match f {
        Facing::Up | Facing::Down => TimeAxis::Vertical,
        Facing::Left | Facing::Right => TimeAxis::Horizontal,
    }
}

impl Facing {
    pub fn time_axis(self) -> (r: TimeAxis)
        ensures
            r == axis_of(self),
    {
        match self {
            Facing::Up | Facing::Down => TimeAxis::Vertical,
            Facing::Left | Facing::Right => TimeAxis::Horizontal,
        }
    }
}

/// Horizontal and vertical trade places; `Neither` stays `Neither`.
pub open spec fn switched_axis(a: TimeAxis) -> TimeAxis {
    match a {
        TimeAxis::Horizontal => TimeAxis::Vertical,
        TimeAxis::Vertical => TimeAxis::Horizontal,
        TimeAxis::Neither => TimeAxis::Neither,
    }
}

/// The global clock and the rule that couples it to movement.
#[derive(Clone, Copy, Debug, PartialEq, Eq, Structural, Hash)]
pub struct TimeState {
    pub time_axis: TimeAxis,
    pub time_step_delta: i32,
    pub time: i32,
}

/// A clock state over mathematical integers.
pub struct TimeModel {
    pub axis: TimeAxis,
    pub step_delta: int,
    pub time: int,
}

impl View for TimeState {
    type V = TimeModel;

    open spec fn view(&self) -> TimeModel {
        TimeModel { axis: self.time_axis, step_delta: self.time_step_delta as int, time: self.time as int }
    }
}

/// Whether an integer fits in an `i32`.
pub open spec fn fits_i32(v: int) -> bool {
    i32::MIN <= v <= i32::MAX
}

impl TimeModel {
    /// What a move in direction `f` adds to the clock: `sense * step_delta`
    /// when `f` runs along the active axis, nothing otherwise.
    pub open spec fn advance_for(self, f: Facing) -> int {
        if self.axis == axis_of(f) {
            f.spec_sense() * self.step_delta
        } else {
            0
        }
    }

    /// The clock after a move in direction `f`.
    pub open spec fn after_move(self, f: Facing) -> TimeModel {
        TimeModel { time: self.time + self.advance_for(f), ..self }
    }

    pub open spec fn fits(self) -> bool {
        fits_i32(self.step_delta) && fits_i32(self.time)
    }
}

/// Hour of the day, `0..24`; negative times wrap round (Euclidean remainder).
pub open spec fn hour_of(time: int) -> int {
    time % 24
}

/// Index of the season, `0..4`, counted in whole seasons from time zero
/// (floor division, Euclidean remainder).
pub open spec fn season_index(time: int) -> int {
    (time / (DAYS_PER_SEASION * 24)) % 4
}

/// A season of the in-world year.
#[derive(Clone, Copy, Debug, PartialEq, Eq, Structural, Hash)]
pub enum Seasion {
    Spring,
    Summer,
    Autum,
    Winter,
}

impl Seasion {
    pub open spec fn from_index(i: int) -> Seasion {
        if i == 0 {
            Seasion::Spring
        } else if i == 1 {
            Seasion::Summer
        } else if i == 2 {
            Seasion::Autum
        } else {
            Seasion::Winter
        }
    }
}

impl Default for TimeState {
    fn default() -> (r: Self)
        ensures
            r.time_axis == TimeAxis::Horizontal,
            r.time_step_delta == 5,
            r.time == 0,
    {
        TimeState { time_axis: TimeAxis::Horizontal, time_step_delta: 5, time: 0 }
    }
}

impl TimeState {
    pub fn current_hour(&self) -> (r: i32)
        ensures
            r == hour_of(self.time as int),
            0 <= r < 24,
    {
        match self.time.checked_rem_euclid(24) {
            Some(h) => h,
            None => 0,
        }
    }

    pub fn current_seasion(&self) -> (r: Seasion)
        ensures
            r == Seasion::from_index(season_index(self.time as int)),
    {
        let day_span: i32 = DAYS_PER_SEASION * 24;
        let ghost t = self.time as int;
        assert(i32::MIN <= t / 48 <= i32::MAX) by (nonlinear_arith)
            requires
                i32::MIN <= t <= i32::MAX,
        ;
        let seasons = match self.time.checked_div_euclid(day_span) {
            Some(q) => q,
            None => 0,
        };
        let index = match seasons.checked_rem_euclid(4) {
            Some(i) => i,
            None => 0,
        };
        assert(day_span == DAYS_PER_SEASION * 24);
        assert(seasons == t / day_span as int);
        assert(index == seasons as int % 4 && 0 <= index < 4);
        if index == 0 {
            Seasion::Spring
        } else if index == 1 {
            Seasion::Summer
        } else if index == 2 {
            Seasion::Autum
        } else {
            Seasion::Winter
        }
    }
}

/// The hour of the day repeats every 24 units of time, whatever the sign.
pub proof fn lemma_hour_periodic(time: int, k: int)
    ensures
        hour_of(time) == hour_of(time + 24 * k),
{
    vstd::arithmetic::div_mod::lemma_mod_multiples_vanish(k, time, 24);
}

} // verus!
