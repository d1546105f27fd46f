//! Statuses that last a while: stun, death (before the body is removed)
//! and poison, which hurts its target once a second.
use vstd::prelude::*;
use crate::attrib_mod::ElapsedTime;
use crate::skills::CharEntityId;
use crate::statuses::StatusUpdateResult;

verus! {

/// Damage per poison tick.
pub const POISON_DAMAGE_PER_TICK: u32 = 30;

/// Milliseconds between poison ticks.
pub const POISON_TICK_MILLIS: u64 = 1000;

/// Milliseconds a dead character stays before it is removed.
pub const DEATH_REMOVAL_MILLIS: u64 = 2000;

/// A stun cast by `caster_entity_id`.
#[derive(Clone, Copy, Debug, PartialEq, Eq, Structural)]
pub struct StunStatus {
    pub caster_entity_id: CharEntityId,
    pub started: ElapsedTime,
    pub until: ElapsedTime,
}

impl StunStatus {
    /// A stun starting `now` for `duration_millis`.
    pub fn new(caster_entity_id: CharEntityId, now: ElapsedTime, duration_millis: u64) -> (r: StunStatus)
        requires
            now.0 + duration_millis <= u64::MAX,
        ensures
            r == (StunStatus { caster_entity_id, started: now, until: ElapsedTime((now.0 + duration_millis) as u64) }),
    {
        StunStatus { caster_entity_id, started: now, until: now.add_millis(duration_millis) }
    }

    /// The stun goes once its end has come.
    pub fn update(&self, now: ElapsedTime) -> (r: StatusUpdateResult)
        ensures
            r == (if self.until.0 <= now.0 { StatusUpdateResult::RemoveIt } else { StatusUpdateResult::KeepIt }),
    {
        if self.until.has_already_passed(now) {
            StatusUpdateResult::RemoveIt
        } else {
            StatusUpdateResult::KeepIt
        }
    }
}

/// A dead character, removed `DEATH_REMOVAL_MILLIS` after dying.
#[derive(Clone, Copy, Debug, PartialEq, Eq, Structural)]
pub struct DeathStatus {
    pub started: ElapsedTime,
    pub remove_char_at: ElapsedTime,
    pub is_npc: bool,
}

impl DeathStatus {
    /// A death happening `now`.
    pub fn new(now: ElapsedTime, is_npc: bool) -> (r: DeathStatus)
        requires
            now.0 + DEATH_REMOVAL_MILLIS <= u64::MAX,
        ensures
            r == (DeathStatus { started: now, remove_char_at: ElapsedTime((now.0 + DEATH_REMOVAL_MILLIS) as u64), is_npc }),
    {
        DeathStatus { is_npc, started: now, remove_char_at: now.add_millis(DEATH_REMOVAL_MILLIS) }
    }
}

/// A change of hit points one character asks for another.
#[derive(Clone, Copy, Debug, PartialEq, Eq, Structural)]
pub enum HpModificationType {
    Heal(u32),
    Poison(u32),
}

/// A request to change the hit points of `dst_entity`, made by `src_entity`.
#[derive(Clone, Copy, Debug, PartialEq, Eq, Structural)]
pub struct HpModificationRequest {
    pub src_entity: CharEntityId,
    pub dst_entity: CharEntityId,
    pub typ: HpModificationType,
}

/// A poison cast by `poison_caster_entity_id`.
#[derive(Clone, Copy, Debug, PartialEq, Eq, Structural)]
pub struct PoisonStatus {
    pub poison_caster_entity_id: CharEntityId,
    pub started: ElapsedTime,
    pub until: ElapsedTime,
    pub next_damage_at: ElapsedTime,
    pub damage: u32,
}

impl PoisonStatus {
    /// At `now`: the poison goes once its end has come; otherwise, when a
    /// tick is due, it asks for `POISON_DAMAGE_PER_TICK` poison damage on
    /// the carrier `self_char_id` and schedules the next tick a second
    /// later.
    pub fn update(&mut self, now: ElapsedTime, self_char_id: CharEntityId) -> (r: (StatusUpdateResult, Option<HpModificationRequest>))
        requires
            now.0 + POISON_TICK_MILLIS <= u64::MAX,
        ensures
            old(self).until.0 <= now.0 ==> r == (StatusUpdateResult::RemoveIt, None::<HpModificationRequest>)
                && *final(self) == *old(self),
            old(self).until.0 > now.0 && old(self).next_damage_at.0 <= now.0 ==> r == (
                StatusUpdateResult::KeepIt,
                Some(HpModificationRequest {
                    src_entity: old(self).poison_caster_entity_id,
                    dst_entity: self_char_id,
                    typ: HpModificationType::Poison(POISON_DAMAGE_PER_TICK),
                }),
            ) && *final(self) == (PoisonStatus {
                next_damage_at: ElapsedTime((now.0 + POISON_TICK_MILLIS) as u64),
                ..*old(self)
            }),
            old(self).until.0 > now.0 && old(self).next_damage_at.0 > now.0 ==> r == (
                StatusUpdateResult::KeepIt,
                None::<HpModificationRequest>,
            ) && *final(self) == *old(self),
    {
        if self.until.has_already_passed(now) {
            (StatusUpdateResult::RemoveIt, None)
        } else {
            if self.next_damage_at.has_already_passed(now) {
                let req = HpModificationRequest {
                    src_entity: self.poison_caster_entity_id,
                    dst_entity: self_char_id,
                    typ: HpModificationType::Poison(POISON_DAMAGE_PER_TICK),
                };
                self.next_damage_at = now.add_millis(POISON_TICK_MILLIS);
                (StatusUpdateResult::KeepIt, Some(req))
            } else {
                (StatusUpdateResult::KeepIt, None)
            }
        }
    }
}

/// Law: a poison hurts at most once per tick: right after a tick, the
/// next update at the same moment asks for nothing.
pub proof fn law_poison_ticks_once(p: PoisonStatus, now: ElapsedTime)
    requires
        p.until.0 > now.0,
        p.next_damage_at.0 <= now.0,
        now.0 + POISON_TICK_MILLIS <= u64::MAX,
    ensures
        ({
            let after = PoisonStatus { next_damage_at: ElapsedTime((now.0 + POISON_TICK_MILLIS) as u64), ..p };
            after.until.0 > now.0 && after.next_damage_at.0 > now.0
        }),
{
}

} // verus!
