use vstd::prelude::*;

use crate::game_state::{switched_axis, TimeAxis, TimeModel, TimeState};
use crate::grid::GridCoordinate;

verus! {

/// The rule change an orb makes on arrival.
#[derive(Clone, Copy, Debug, PartialEq, Eq, Structural, Hash)]
pub enum OrbKind {
    AxisSwitch,
    DirectionSwitch,
    SpeedUp,
    SlowDown,
}

/// A special cell of a level and the effect it carries.
#[derive(Clone, Copy, Debug, PartialEq, Eq, Structural, Hash)]
pub struct Orb {
    pub position: GridCoordinate,
    pub kind: OrbKind,
}

impl OrbKind {
    /// The clock after this orb's effect.
    pub open spec fn effect(self, t: TimeModel) -> TimeModel {
        match self {
            OrbKind::AxisSwitch => TimeModel { axis: switched_axis(t.axis), ..t },
            OrbKind::DirectionSwitch => TimeModel { step_delta: -t.step_delta, ..t },
            OrbKind::SpeedUp => TimeModel { step_delta: t.step_delta + 1, ..t },
            OrbKind::SlowDown => TimeModel { step_delta: t.step_delta - 1, ..t },
        }
    }

    /// Applies this orb's effect to `time_state`.
    pub fn apply(self, time_state: &mut TimeState)
        requires
            self.effect(old(time_state)@).fits(),
        ensures
            final(time_state)@ == self.effect(old(time_state)@),
    {
        match self {
            OrbKind::AxisSwitch => {
                time_state.time_axis =
                    match time_state.time_axis {
                        TimeAxis::Horizontal => TimeAxis::Vertical,
                        TimeAxis::Vertical => TimeAxis::Horizontal,
                        TimeAxis::Neither => TimeAxis::Neither,
                    };
            },
            OrbKind::DirectionSwitch => {
                time_state.time_step_delta = -time_state.time_step_delta;
            },
            OrbKind::SpeedUp => {
                time_state.time_step_delta = time_state.time_step_delta + 1;
            },
            OrbKind::SlowDown => {
                time_state.time_step_delta = time_state.time_step_delta - 1;
            },
        }
    }
}

/// Whether an orb of `kind` lies on `pos`.
pub open spec fn kind_at(orbs: Seq<Orb>, pos: GridCoordinate, kind: OrbKind) -> bool {
    exists|i: int| 0 <= i < orbs.len() && #[trigger] orbs[i].position == pos && orbs[i].kind == kind
}

/// Whether any orb lies on `pos`.
pub open spec fn orb_at(orbs: Seq<Orb>, pos: GridCoordinate) -> bool {
    exists|i: int| 0 <= i < orbs.len() && #[trigger] orbs[i].position == pos
}

/// Applies `kind`'s effect when `present` holds.
pub open spec fn effect_if(t: TimeModel, present: bool, kind: OrbKind) -> TimeModel {
    if present {
        kind.effect(t)
    } else {
        t
    }
}

/// The clock after arriving on `pos`: each kind of orb found there acts
/// once, in the fixed order axis switch, direction switch, speed up, slow
/// down.
pub open spec fn effects_at(t: TimeModel, orbs: Seq<Orb>, pos: GridCoordinate) -> TimeModel {
    let t1 = effect_if(t, kind_at(orbs, pos, OrbKind::AxisSwitch), OrbKind::AxisSwitch);
    let t2 = effect_if(t1, kind_at(orbs, pos, OrbKind::DirectionSwitch), OrbKind::DirectionSwitch);
    let t3 = effect_if(t2, kind_at(orbs, pos, OrbKind::SpeedUp), OrbKind::SpeedUp);
    effect_if(t3, kind_at(orbs, pos, OrbKind::SlowDown), OrbKind::SlowDown)
}

/// Whether every intermediate clock of `effects_at` fits in `i32` fields.
pub open spec fn effects_fit(t: TimeModel, orbs: Seq<Orb>, pos: GridCoordinate) -> bool {
    let t1 = effect_if(t, kind_at(orbs, pos, OrbKind::AxisSwitch), OrbKind::AxisSwitch);
    let t2 = effect_if(t1, kind_at(orbs, pos, OrbKind::DirectionSwitch), OrbKind::DirectionSwitch);
    let t3 = effect_if(t2, kind_at(orbs, pos, OrbKind::SpeedUp), OrbKind::SpeedUp);
    let t4 = effect_if(t3, kind_at(orbs, pos, OrbKind::SlowDown), OrbKind::SlowDown);
    t1.fits() && t2.fits() && t3.fits() && t4.fits()
}

/// Whether an orb of `kind` lies on `pos`.
pub fn has_orb_of_kind(orbs: &Vec<Orb>, pos: GridCoordinate, kind: OrbKind) -> (r: bool)
    ensures
        r == kind_at(orbs@, pos, kind),
{
    let mut i: usize = 0;
    while i < orbs.len()
        invariant
            i <= orbs.len(),
            forall|j: int| 0 <= j < i ==> !(#[trigger] orbs@[j].position == pos && orbs@[j].kind == kind),
        decreases orbs.len() - i,
    {
        if orbs[i].position == pos && orbs[i].kind == kind {
            return true;
        }
        i = i + 1;
    }
    false
}

/// Whether any orb lies on `pos`.
pub fn has_orb(orbs: &Vec<Orb>, pos: GridCoordinate) -> (r: bool)
    ensures
        r == orb_at(orbs@, pos),
{
    let mut i: usize = 0;
    while i < orbs.len()
        invariant
            i <= orbs.len(),
            forall|j: int| 0 <= j < i ==> #[trigger] orbs@[j].position != pos,
        decreases orbs.len() - i,
    {
        if orbs[i].position == pos {
            return true;
        }
        i = i + 1;
    }
    false
}

/// Switching the axis twice restores it.
pub proof fn lemma_axis_switch_involutive(t: TimeModel)
    ensures
        OrbKind::AxisSwitch.effect(OrbKind::AxisSwitch.effect(t)) == t,
{
}

/// Reversing the direction twice restores the step delta.
pub proof fn lemma_direction_switch_involutive(t: TimeModel)
    ensures
        OrbKind::DirectionSwitch.effect(OrbKind::DirectionSwitch.effect(t)) == t,
{
}

} // verus!
