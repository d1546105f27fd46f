use rustarok_client::input::{HumanInputComponent, SkillKey};
use rustarok_client::skill_bar::{main_skill_bar_layout, secondary_skill_bar_layout};
use rustarok_client::skills::Skills;

#[test]
fn main_bar_slots_follow_the_bound_keys() {
    let mut input = HumanInputComponent::new("u");
    input.assign_skill(SkillKey::Q, Skills::FireWall);
    input.assign_skill(SkillKey::E, Skills::Heal);
    let mut not_castable = vec![false; 10];
    not_castable[3] = true; // E
    let (slots, top) = main_skill_bar_layout(&input, &not_castable, Some(SkillKey::Q), 0, 0, 800, 600, 12);
    assert_eq!(top, 600 - 86);
    assert_eq!(slots.len(), 2);
    let start_x = 400 - 149;
    assert_eq!(slots[0].skill, Skills::FireWall);
    assert_eq!(slots[0].border_x, start_x + 6);
    assert_eq!(slots[0].border_y, top + 6);
    assert_eq!(slots[0].icon_x, start_x + 9);
    assert_eq!(slots[0].icon_y, top + 9);
    assert_eq!(slots[0].border_color, (0, 255, 0, 255));
    assert_eq!(slots[0].background_color, (28, 64, 122, 255));
    assert_eq!(slots[0].key_x, -2 + start_x + 9 + 48 - 12);
    assert_eq!(slots[0].key_color, (255, 255, 255));
    assert_eq!(slots[1].skill_key, SkillKey::E);
    assert_eq!(slots[1].border_x, start_x + 6 + 58);
    assert_eq!(slots[1].border_color, (179, 179, 179, 255));
    assert_eq!(slots[1].background_color, (179, 179, 179, 255));
    assert_eq!(slots[1].key_color, (239, 76, 76));
    assert!(!slots[0].hovered);
}

#[test]
fn hovered_slot_and_secondary_bar() {
    let mut input = HumanInputComponent::new("u");
    input.assign_skill(SkillKey::Num2, Skills::Cure);
    let mut not_castable = vec![false; 10];
    not_castable[8] = true;
    let slots = secondary_skill_bar_layout(&input, &not_castable, None, 350, 480, 800, 514, 10);
    assert_eq!(slots.len(), 1);
    let start_x = 400 - 59;
    let y = 514 - 42;
    assert_eq!(slots[0].border_x, start_x + 3);
    assert_eq!(slots[0].icon_x, start_x + 5);
    assert_eq!(slots[0].icon_y, y + 5);
    assert_eq!(slots[0].background_color, (233, 76, 76, 255));
    assert!(slots[0].hovered);
    let slots = secondary_skill_bar_layout(&input, &not_castable, None, 350, 400, 800, 514, 10);
    assert!(!slots[0].hovered);
}
