use rustarok_client::skills::CharEntityId;
use rustarok_client::turret_ai::{turret_ai_run, turret_decision, TargetSight, TurretDecision, TurretView};

fn alive_near() -> TargetSight {
    TargetSight { is_dead: false, closer_than_radius: true, farther_than_radius: false }
}

fn view() -> TurretView {
    TurretView {
        has_char_state: true,
        preferred_target: None,
        preferred_sight: None,
        current_target: None,
        current_sight: None,
        closest_enemy: None,
    }
}

#[test]
fn turret_without_character_is_removed() {
    let mut t = view();
    t.has_char_state = false;
    assert_eq!(turret_decision(&t), TurretDecision::RemoveController);
}

#[test]
fn preferred_target_comes_first() {
    let mut t = view();
    t.preferred_target = Some(CharEntityId(7));
    t.preferred_sight = Some(alive_near());
    t.current_target = Some(CharEntityId(3));
    t.current_sight = Some(alive_near());
    assert_eq!(turret_decision(&t), TurretDecision::AttackPreferred(CharEntityId(7)));
    t.current_target = Some(CharEntityId(7));
    assert_eq!(turret_decision(&t), TurretDecision::Attack(CharEntityId(7)));
}

#[test]
fn dead_or_far_targets_are_dropped() {
    let mut t = view();
    t.current_target = Some(CharEntityId(3));
    t.current_sight = Some(TargetSight { is_dead: true, closer_than_radius: true, farther_than_radius: false });
    t.closest_enemy = Some(CharEntityId(9));
    assert_eq!(turret_decision(&t), TurretDecision::Attack(CharEntityId(9)));
    t.current_sight = Some(TargetSight { is_dead: false, closer_than_radius: false, farther_than_radius: true });
    t.closest_enemy = None;
    assert_eq!(turret_decision(&t), TurretDecision::Idle);
    t.current_sight = Some(TargetSight { is_dead: false, closer_than_radius: false, farther_than_radius: false });
    assert_eq!(turret_decision(&t), TurretDecision::Attack(CharEntityId(3)));
}

#[test]
fn run_stops_after_an_attack_on_a_preferred_target() {
    let mut a = view();
    a.closest_enemy = Some(CharEntityId(1));
    let mut b = view();
    b.preferred_target = Some(CharEntityId(2));
    b.preferred_sight = Some(alive_near());
    let c = view();
    let r = turret_ai_run(&vec![a, b, c]);
    assert_eq!(r, vec![TurretDecision::Attack(CharEntityId(1)), TurretDecision::AttackPreferred(CharEntityId(2))]);
    let r = turret_ai_run(&vec![a, c]);
    assert_eq!(r, vec![TurretDecision::Attack(CharEntityId(1)), TurretDecision::Idle]);
}
