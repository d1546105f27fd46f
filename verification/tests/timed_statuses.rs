use rustarok_client::attrib_mod::ElapsedTime;
use rustarok_client::skills::CharEntityId;
use rustarok_client::statuses::StatusUpdateResult;
use rustarok_client::timed_statuses::{
    DeathStatus, HpModificationRequest, HpModificationType, PoisonStatus, StunStatus,
};

#[test]
fn stun_lasts_its_duration() {
    let s = StunStatus::new(CharEntityId(1), ElapsedTime(500), 1500);
    assert_eq!(s.until, ElapsedTime(2000));
    assert_eq!(s.update(ElapsedTime(1999)), StatusUpdateResult::KeepIt);
    assert_eq!(s.update(ElapsedTime(2000)), StatusUpdateResult::RemoveIt);
}

#[test]
fn death_removes_after_two_seconds() {
    let d = DeathStatus::new(ElapsedTime(10), true);
    assert_eq!(d.remove_char_at, ElapsedTime(2010));
    assert!(d.is_npc);
}

#[test]
fn poison_ticks_once_a_second() {
    let mut p = PoisonStatus {
        poison_caster_entity_id: CharEntityId(7),
        started: ElapsedTime(0),
        until: ElapsedTime(5000),
        next_damage_at: ElapsedTime(0),
        damage: 99,
    };
    let tick = Some(HpModificationRequest {
        src_entity: CharEntityId(7),
        dst_entity: CharEntityId(3),
        typ: HpModificationType::Poison(30),
    });
    assert_eq!(p.update(ElapsedTime(100), CharEntityId(3)), (StatusUpdateResult::KeepIt, tick));
    assert_eq!(p.next_damage_at, ElapsedTime(1100));
    assert_eq!(p.update(ElapsedTime(100), CharEntityId(3)), (StatusUpdateResult::KeepIt, None));
    assert_eq!(p.update(ElapsedTime(1100), CharEntityId(3)), (StatusUpdateResult::KeepIt, tick));
    assert_eq!(p.update(ElapsedTime(5000), CharEntityId(3)), (StatusUpdateResult::RemoveIt, None));
}
