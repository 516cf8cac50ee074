use vstd::prelude::*;

use crate::game_state::{axis_of, fits_i32, TimeState};
use crate::grid::{lemma_sense_scales, target, Facing, GridCoordinate};
use crate::orbs::{effect_if, has_orb, has_orb_of_kind, kind_at, orb_at, Orb, OrbKind};
use crate::walls::LevelWalls;

verus! {

/// The player: where it stands, where it last moved, and whether it is
/// standing on an orb it has already triggered.
#[derive(Clone, Copy, Debug, PartialEq, Eq, Structural, Hash)]
pub struct Player {
    pub position: GridCoordinate,
    pub facing: Facing,
    pub occupying_orb: bool,
}

/// The single goal cell of a level.
#[derive(Clone, Copy, Debug, PartialEq, Eq, Structural, Hash)]
pub struct Goal {
    pub position: GridCoordinate,
}

/// What a requested move came to.
#[derive(Clone, Copy, Debug, PartialEq, Eq, Structural, Hash)]
pub enum MoveResult {
    /// The destination is a wall or out of bounds; nothing changed.
    Blocked,
    /// The player moved to `new_position` and the clock moved by
    /// `time_delta_applied`.
    Moved { new_position: GridCoordinate, time_delta_applied: i64 },
}

/// The player after one step towards `f`, its orb mark not yet updated.
pub open spec fn moved_player(p: Player, f: Facing) -> Player {
    let dest = target(p.position, f);
    Player {
        position: GridCoordinate { x: dest.0 as i32, y: dest.1 as i32 },
        facing: f,
        occupying_orb: p.occupying_orb,
    }
}

/// Moves `player` one cell towards `direction` unless the destination is
/// blocked. A move along the active time axis moves the clock by
/// `sense * step_delta`; a move along the other axis leaves it alone. A
/// blocked move changes neither the player nor the clock.
pub fn attempt_move(
    player: &mut Player,
    direction: Facing,
    level_walls: &LevelWalls,
    time_state: &mut TimeState,
) -> (r: MoveResult)
    requires
        !level_walls@.blocks(target(old(player).position, direction)) ==> fits_i32(
            old(time_state)@.after_move(direction).time,
        ),
    ensures
        level_walls@.blocks(target(old(player).position, direction)) ==> {
            &&& r == MoveResult::Blocked
            &&& *final(player) == *old(player)
            &&& *final(time_state) == *old(time_state)
        },
        !level_walls@.blocks(target(old(player).position, direction)) ==> {
            &&& *final(player) == moved_player(*old(player), direction)
            &&& final(player).position.cell() == target(old(player).position, direction)
            &&& final(time_state)@ == old(time_state)@.after_move(direction)
            &&& r == MoveResult::Moved {
                new_position: final(player).position,
                time_delta_applied: old(time_state)@.advance_for(direction) as i64,
            }
        },
        old(time_state).time_axis == axis_of(direction) && !level_walls@.blocks(
            target(old(player).position, direction),
        ) ==> final(time_state).time == old(time_state).time + direction.spec_sense()
            * old(time_state).time_step_delta,
        old(time_state).time_axis != axis_of(direction) ==> final(time_state).time == old(
            time_state,
        ).time,
{
    proof {
        level_walls.lemma_bounds_fit();
    }
    let (dx, dy) = direction.offset();
    let x = player.position.x as i64 + dx as i64;
    let y = player.position.y as i64 + dy as i64;
    if x < 0 || y < 0 || x > i32::MAX as i64 || y > i32::MAX as i64 {
        return MoveResult::Blocked;
    }
    let destination = GridCoordinate { x: x as i32, y: y as i32 };
    if level_walls.in_wall(&destination) {
        return MoveResult::Blocked;
    }
    let applied: i64 = if time_state.time_axis == direction.time_axis() {
        let delta = time_state.time_step_delta as i64;
        proof {
            lemma_sense_scales(direction, delta as int);
        }
        if direction.sense() > 0 {
            delta
        } else {
            -delta
        }
    } else {
        0
    };
    player.position = destination;
    player.facing = direction;
    time_state.time = (time_state.time as i64 + applied) as i32;
    MoveResult::Moved { new_position: destination, time_delta_applied: applied }
}

/// Whether arriving on the player's cell fires the orbs of `kind` there:
/// only when the position changed and the player was not already on an
/// orb.
pub open spec fn fires(player: Player, moved: bool, orbs: Seq<Orb>, kind: OrbKind) -> bool {
    moved && !player.occupying_orb && kind_at(orbs, player.position, kind)
}

fn check_orb_hit(
    kind: OrbKind,
    time_state: &mut TimeState,
    player: &Player,
    moved: bool,
    orbs: &Vec<Orb>,
)
    requires
        effect_if(old(time_state)@, fires(*player, moved, orbs@, kind), kind).fits(),
    ensures
        final(time_state)@ == effect_if(old(time_state)@, fires(*player, moved, orbs@, kind), kind),
{
    if moved && !player.occupying_orb && has_orb_of_kind(orbs, player.position, kind) {
        kind.apply(time_state);
    }
}

/// Swaps the time axis when the player has just arrived on an axis switch.
pub fn check_switch_orb_hit(
    time_state: &mut TimeState,
    player: &Player,
    moved: bool,
    orbs: &Vec<Orb>,
)
    ensures
        final(time_state)@ == effect_if(
            old(time_state)@,
            fires(*player, moved, orbs@, OrbKind::AxisSwitch),
            OrbKind::AxisSwitch,
        ),
{
    check_orb_hit(OrbKind::AxisSwitch, time_state, player, moved, orbs);
}

/// Negates the step delta when the player has just arrived on a direction
/// switch.
pub fn check_direction_orb_hit(
    time_state: &mut TimeState,
    player: &Player,
    moved: bool,
    orbs: &Vec<Orb>,
)
    requires
        fires(*player, moved, orbs@, OrbKind::DirectionSwitch) ==> old(time_state).time_step_delta
            != i32::MIN,
    ensures
        final(time_state)@ == effect_if(
            old(time_state)@,
            fires(*player, moved, orbs@, OrbKind::DirectionSwitch),
            OrbKind::DirectionSwitch,
        ),
{
    check_orb_hit(OrbKind::DirectionSwitch, time_state, player, moved, orbs);
}

/// Adds one to the step delta when the player has just arrived on a speed
/// up orb.
pub fn check_speed_up_orb_hit(
    time_state: &mut TimeState,
    player: &Player,
    moved: bool,
    orbs: &Vec<Orb>,
)
    requires
        fires(*player, moved, orbs@, OrbKind::SpeedUp) ==> old(time_state).time_step_delta
            != i32::MAX,
    ensures
        final(time_state)@ == effect_if(
            old(time_state)@,
            fires(*player, moved, orbs@, OrbKind::SpeedUp),
            OrbKind::SpeedUp,
        ),
{
    check_orb_hit(OrbKind::SpeedUp, time_state, player, moved, orbs);
}

/// Takes one from the step delta when the player has just arrived on a
/// slow down orb.
pub fn check_slow_down_orb_hit(
    time_state: &mut TimeState,
    player: &Player,
    moved: bool,
    orbs: &Vec<Orb>,
)
    requires
        fires(*player, moved, orbs@, OrbKind::SlowDown) ==> old(time_state).time_step_delta
            != i32::MIN,
    ensures
        final(time_state)@ == effect_if(
            old(time_state)@,
            fires(*player, moved, orbs@, OrbKind::SlowDown),
            OrbKind::SlowDown,
        ),
{
    check_orb_hit(OrbKind::SlowDown, time_state, player, moved, orbs);
}

/// Marks the player as standing on an orb once it has moved onto one.
pub fn check_in_orb(player: &mut Player, moved: bool, orbs: &Vec<Orb>)
    ensures
        final(player).position == old(player).position,
        final(player).facing == old(player).facing,
        final(player).occupying_orb == (old(player).occupying_orb || (moved && orb_at(
            orbs@,
            old(player).position,
        ))),
{
    if moved && !player.occupying_orb && has_orb(orbs, player.position) {
        player.occupying_orb = true;
    }
}

/// Clears the mark once the player has moved to a cell with no orb,
/// re-arming the orbs for the next arrival.
pub fn check_in_no_orb(player: &mut Player, moved: bool, orbs: &Vec<Orb>)
    ensures
        final(player).position == old(player).position,
        final(player).facing == old(player).facing,
        final(player).occupying_orb == (old(player).occupying_orb && !(moved && !orb_at(
            orbs@,
            old(player).position,
        ))),
{
    if moved && player.occupying_orb && !has_orb(orbs, player.position) {
        player.occupying_orb = false;
    }
}

/// Advances the level index when the player has just arrived on the goal.
pub fn check_goal_acheived(level_index: &mut i32, moved: bool, player: &Player, goal: &Goal)
    requires
        moved && player.position == goal.position ==> *old(level_index) < i32::MAX,
    ensures
        *final(level_index) == *old(level_index) + if moved && player.position == goal.position {
            1int
        } else {
            0int
        },
{
    if moved && player.position == goal.position {
        *level_index = *level_index + 1;
    }
}

} // verus!
