//! Target choice of turrets. A turret attacks its preferred target when that
//! one is alive and in range and not already its target; otherwise it keeps
//! attacking its current target while that one is alive and in range, or
//! else turns to the closest enemy in range, if any. The distances, the
//! states of the other characters and the search for the closest enemy are
//! looked up by the caller, which hands the results in.
use vstd::prelude::*;
use crate::skills::CharEntityId;

verus! {

/// A character seen from the turret: whether it is dead and where it stands
/// against the turret's attack radius.
#[derive(Clone, Copy, Debug, PartialEq, Eq, Structural)]
pub struct TargetSight {
    pub is_dead: bool,
    /// Distance strictly below the radius.
    pub closer_than_radius: bool,
    /// Distance strictly above the radius.
    pub farther_than_radius: bool,
}

/// What the caller knows of one turret.
#[derive(Clone, Copy, Debug, PartialEq, Eq, Structural)]
pub struct TurretView {
    /// Whether the turret's character still exists.
    pub has_char_state: bool,
    /// The enemy this turret attacks first.
    pub preferred_target: Option<CharEntityId>,
    /// The preferred target, where it exists.
    pub preferred_sight: Option<TargetSight>,
    /// The entity the turret targets now, where its target is an entity.
    pub current_target: Option<CharEntityId>,
    /// The current target, where it exists.
    pub current_sight: Option<TargetSight>,
    /// The closest enemy within the radius, if any.
    pub closest_enemy: Option<CharEntityId>,
}

/// The decision for one turret.
#[derive(Clone, Copy, Debug, PartialEq, Eq, Structural)]
pub enum TurretDecision {
    /// Attack the preferred target; no further turret is looked at in this
    /// frame.
    AttackPreferred(CharEntityId),
    /// Attack this entity.
    Attack(CharEntityId),
    /// No action.
    Idle,
    /// The turret's character is gone: remove its controller.
    RemoveController,
}

/// Whether a target seen as `sight` is alive and closer than the radius.
pub open spec fn alive_within(sight: Option<TargetSight>) -> bool {
    match sight {
        Some(s) => !s.is_dead && s.closer_than_radius,
        None => false,
    }
}

/// Whether a target seen as `sight` is alive and not farther than the radius.
pub open spec fn alive_not_beyond(sight: Option<TargetSight>) -> bool {
    match sight {
        Some(s) => !s.is_dead && !s.farther_than_radius,
        None => false,
    }
}

/// The decision for the turret `t`.
pub open spec fn spec_turret_decision(t: TurretView) -> TurretDecision {
    if !t.has_char_state {
        TurretDecision::RemoveController
    } else if t.preferred_target is Some && t.current_target != t.preferred_target
        && alive_within(t.preferred_sight) {
        TurretDecision::AttackPreferred(t.preferred_target->0)
    } else {
        let keep_current = t.current_target is Some && alive_not_beyond(t.current_sight);
        if keep_current {
            TurretDecision::Attack(t.current_target->0)
        } else {
            match t.closest_enemy {
                Some(e) => TurretDecision::Attack(e),
                None => TurretDecision::Idle,
            }
        }
    }
}

/// See `spec_turret_decision`.
pub fn turret_decision(t: &TurretView) -> (r: TurretDecision)
    ensures
        r == spec_turret_decision(*t),
{
    if !t.has_char_state {
        return TurretDecision::RemoveController;
    }
    if let Some(preferred) = t.preferred_target {
        let already_targeted = match t.current_target {
            Some(id) => id == preferred,
            None => false,
        };
        if !already_targeted {
            if let Some(s) = t.preferred_sight {
                if !s.is_dead && s.closer_than_radius {
                    return TurretDecision::AttackPreferred(preferred);
                }
            }
        }
    }
    let target_lost = match (t.current_target, t.current_sight) {
        (Some(_), Some(s)) => s.is_dead || s.farther_than_radius,
        _ => true,
    };
    if target_lost {
        match t.closest_enemy {
            Some(e) => TurretDecision::Attack(e),
            None => TurretDecision::Idle,
        }
    } else {
        match t.current_target {
            Some(id) => TurretDecision::Attack(id),
            None => TurretDecision::Idle,
        }
    }
}

/// The decisions for the turrets `ts` from index `k` on, in order: after the
/// first that attacks its preferred target no further turret is decided.
pub open spec fn spec_turret_run(ts: Seq<TurretView>, k: int) -> Seq<TurretDecision>
    decreases ts.len() - k,
{
    if k < 0 || k >= ts.len() {
        Seq::empty()
    } else {
        let d = spec_turret_decision(ts[k]);
        if d is AttackPreferred {
            seq![d]
        } else {
            seq![d] + spec_turret_run(ts, k + 1)
        }
    }
}

/// In one frame at most one turret attacks its preferred target, and it is
/// the last one decided; no turret is decided twice.
pub proof fn law_one_preferred_attack_per_frame(ts: Seq<TurretView>, k: int)
    requires
        0 <= k <= ts.len(),
    ensures
        spec_turret_run(ts, k).len() <= ts.len() - k,
        forall|i: int| 0 <= i < spec_turret_run(ts, k).len() - 1
            ==> !(#[trigger] spec_turret_run(ts, k)[i] is AttackPreferred),
        forall|i: int| 0 <= i < spec_turret_run(ts, k).len()
            ==> #[trigger] spec_turret_run(ts, k)[i] == spec_turret_decision(ts[k + i]),
    decreases ts.len() - k,
{
    if k < ts.len() {
        law_one_preferred_attack_per_frame(ts, k + 1);
        let rest = spec_turret_run(ts, k + 1);
        let d = spec_turret_decision(ts[k]);
        if !(d is AttackPreferred) {
            assert forall|i: int| 0 <= i < spec_turret_run(ts, k).len()
                implies #[trigger] spec_turret_run(ts, k)[i] == spec_turret_decision(ts[k + i]) by {
                if i > 0 {
                    assert(spec_turret_run(ts, k)[i] == rest[i - 1]);
                    assert(rest[i - 1] == spec_turret_decision(ts[k + 1 + (i - 1)]));
                    assert(k + 1 + (i - 1) == k + i);
                }
            }
            assert forall|i: int| 0 <= i < spec_turret_run(ts, k).len() - 1
                implies !(#[trigger] spec_turret_run(ts, k)[i] is AttackPreferred) by {
                if i > 0 {
                    assert(spec_turret_run(ts, k)[i] == rest[i - 1]);
                }
            }
        }
    }
}

/// One frame of the turret system: the decisions for the turrets in order,
/// stopping after the first that attacks its preferred target.
pub fn turret_ai_run(turrets: &Vec<TurretView>) -> (r: Vec<TurretDecision>)
    ensures
        r@ == spec_turret_run(turrets@, 0),
{
    let mut out: Vec<TurretDecision> = Vec::new();
    let mut k: usize = 0;
    while k < turrets.len()
        invariant
            k <= turrets@.len(),
            out@ + spec_turret_run(turrets@, k as int) == spec_turret_run(turrets@, 0),
        decreases turrets@.len() - k,
    {
        let d = turret_decision(&turrets[k]);
        proof {
            if d is AttackPreferred {
                assert(out@.push(d) =~= out@ + spec_turret_run(turrets@, k as int));
            } else {
                assert(out@.push(d) + spec_turret_run(turrets@, k + 1) =~= out@ + spec_turret_run(
                    turrets@,
                    k as int,
                ));
            }
        }
        out.push(d);
        if d.is_attack_preferred() {
            proof {
                assert(out@ + Seq::<TurretDecision>::empty() =~= out@);
            }
            return out;
        }
        k = k + 1;
    }
    proof {
        assert(out@ + Seq::<TurretDecision>::empty() =~= out@);
    }
    out
}

impl TurretDecision {
    /// Whether this is `AttackPreferred`.
    pub fn is_attack_preferred(&self) -> (r: bool)
        ensures
            r == (*self is AttackPreferred),
    {
        match self {
            TurretDecision::AttackPreferred(_) => true,
            _ => false,
        }
    }
}

} // verus!
