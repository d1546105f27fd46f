use rustarok_client::attrib_mod::{
    percentage, ArmorModifierStatus, AttributeChange, CharAttributeKind, CharAttributeModifier,
    CharAttributeModifierCollector, ElapsedTime, WalkingSpeedModifierStatus,
};
use rustarok_client::statuses::StatusUpdateResult;

#[test]
fn armor_modifier_lasts_ten_seconds() {
    let mut s = ArmorModifierStatus::new(ElapsedTime(1_000), percentage(20));
    assert_eq!(s.until, ElapsedTime(11_000));
    assert_eq!(s.update(ElapsedTime(10_999)), StatusUpdateResult::KeepIt);
    assert_eq!(s.update(ElapsedTime(11_000)), StatusUpdateResult::RemoveIt);
}

#[test]
fn modifiers_are_collected_in_order() {
    let mut c = CharAttributeModifierCollector::new();
    let armor = ArmorModifierStatus::new(ElapsedTime(0), percentage(-10));
    let speed = WalkingSpeedModifierStatus::new(ElapsedTime(5), percentage(30), 2_000);
    armor.calc_attribs(&mut c);
    speed.calc_attribs(&mut c);
    assert_eq!(
        c.changes().clone(),
        vec![
            AttributeChange {
                attribute: CharAttributeKind::Armor,
                modifier: CharAttributeModifier::AddPercentage(percentage(-10)),
                started: ElapsedTime(0),
                until: ElapsedTime(10_000),
            },
            AttributeChange {
                attribute: CharAttributeKind::WalkingSpeed,
                modifier: CharAttributeModifier::AddPercentage(percentage(30)),
                started: ElapsedTime(5),
                until: ElapsedTime(2_005),
            },
        ]
    );
    c.clear();
    assert!(c.changes().is_empty());
}

#[test]
fn time_points_compare() {
    let t = ElapsedTime(100);
    assert!(t.has_already_passed(ElapsedTime(100)));
    assert!(!t.has_already_passed(ElapsedTime(99)));
    assert!(t.has_not_passed_yet(ElapsedTime(99)));
    assert!(!t.has_not_passed_yet(ElapsedTime(100)));
    assert_eq!(t.add_millis(50), ElapsedTime(150));
}
