use rustarok_client::input::{CameraMode, HumanInputComponent, SkillKey};
use rustarok_client::input_consumer::{
    consume_event, InputConsumerSystem, InputEvent, MouseButton, SCANCODE_F12, SCANCODE_L,
    SCANCODE_LALT, SCANCODE_LCTRL, SCANCODE_LSHIFT,
};
use rustarok_client::skills::Skills;

fn key_down(k: usize) -> InputEvent {
    InputEvent::KeyDown { scancode: Some(k), alt: false, ctrl: false, shift: false }
}

fn key_up(k: usize) -> InputEvent {
    InputEvent::KeyUp { scancode: Some(k), alt: false, ctrl: false, shift: false }
}

#[test]
fn mouse_events() {
    let mut input = HumanInputComponent::new("p");
    let mut sys = InputConsumerSystem;
    let events = vec![
        InputEvent::MouseButtonDown(MouseButton::Left),
        InputEvent::MouseMotion { x: 410, y: 290 },
        InputEvent::MouseWheel { y: -1 },
        InputEvent::TextInput("a".to_string()),
    ];
    let out = sys.run(&mut input, &events);
    assert!(out.scripts.is_empty());
    assert!(!out.reset_camera);
    assert!(input.left_mouse_down && input.left_mouse_pressed);
    assert_eq!((input.delta_mouse_x, input.delta_mouse_y), (10, 10));
    assert_eq!((input.last_mouse_x, input.last_mouse_y), (410, 290));
    assert_eq!(input.mouse_wheel, -1);
    assert_eq!(input.text, "a");
    let out = sys.run(&mut input, &vec![InputEvent::MouseButtonUp(MouseButton::Left)]);
    assert!(out.scripts.is_empty());
    assert!(!input.left_mouse_down && !input.left_mouse_pressed && input.left_mouse_released);
    assert_eq!(input.mouse_wheel, 0);
    assert_eq!(input.text, "");
}

#[test]
fn ctrl_and_alt_alone_are_ignored() {
    let mut input = HumanInputComponent::new("p");
    consume_event(&mut input, &key_down(SCANCODE_LCTRL));
    consume_event(&mut input, &key_down(SCANCODE_LALT));
    assert!(!input.is_key_down(SCANCODE_LCTRL));
    assert!(!input.is_key_down(SCANCODE_LALT));
    consume_event(&mut input, &InputEvent::KeyDown { scancode: Some(4), alt: false, ctrl: true, shift: false });
    assert!(input.ctrl_down && input.is_key_just_pressed(4));
}

#[test]
fn key_bindings_fire_and_swallow_the_press() {
    let mut input = HumanInputComponent::new("p");
    input.key_bindings.push(([Some(SCANCODE_LSHIFT), Some(7), None, None], "shout".to_string()));
    input.key_bindings.push(([Some(8), None, None, None], "eight".to_string()));
    let mut sys = InputConsumerSystem;
    // 7 without shift: the first binding does not fire
    let out = sys.run(&mut input, &vec![key_down(7)]);
    assert!(out.scripts.is_empty());
    assert!(input.is_key_just_pressed(7));
    sys.run(&mut input, &vec![key_up(7)]);
    // shift + 7 fires it, and the press is swallowed
    let shift7 = InputEvent::KeyDown { scancode: Some(7), alt: false, ctrl: false, shift: true };
    let out = sys.run(&mut input, &vec![shift7]);
    assert_eq!(out.scripts, vec!["shout".to_string()]);
    assert!(input.is_key_down(7));
    assert!(!input.is_key_just_pressed(7));
    // 8 fires the second one
    let out = sys.run(&mut input, &vec![key_down(8), InputEvent::TextInput("8".to_string())]);
    assert_eq!(out.scripts, vec!["eight".to_string()]);
    assert_eq!(input.text, "");
}

#[test]
fn l_cycles_the_camera() {
    let mut input = HumanInputComponent::new("p");
    let mut sys = InputConsumerSystem;
    assert_eq!(input.camera_movement_mode, CameraMode::FollowChar);
    sys.run(&mut input, &vec![key_down(SCANCODE_L), key_up(SCANCODE_L)]);
    assert_eq!(input.camera_movement_mode, CameraMode::FreeMoveButFixedAngle);
    sys.run(&mut input, &vec![key_down(SCANCODE_L), key_up(SCANCODE_L)]);
    assert_eq!(input.camera_movement_mode, CameraMode::Free);
    let out = sys.run(&mut input, &vec![key_down(SCANCODE_L), key_up(SCANCODE_L)]);
    assert_eq!(input.camera_movement_mode, CameraMode::FollowChar);
    assert!(out.reset_camera);
    input.is_console_open = true;
    sys.run(&mut input, &vec![key_down(SCANCODE_L), key_up(SCANCODE_L)]);
    assert_eq!(input.camera_movement_mode, CameraMode::FollowChar);
}

#[test]
fn f12_switches_skill_sets() {
    let mut input = HumanInputComponent::new("p");
    input.assign_skill(SkillKey::Q, Skills::FireWall);
    let mut sys = InputConsumerSystem;
    let press = vec![key_down(SCANCODE_F12), key_up(SCANCODE_F12)];
    sys.run(&mut input, &press);
    assert_eq!(input.get_skill_for_key(SkillKey::Q), Some(Skills::Poison));
    assert_eq!(input.get_skill_for_key(SkillKey::Num3), Some(Skills::GazBarricade));
    sys.run(&mut input, &press);
    assert_eq!(input.get_skill_for_key(SkillKey::Q), Some(Skills::WizPyroBlast));
    sys.run(&mut input, &press);
    assert_eq!(input.get_skill_for_key(SkillKey::Q), Some(Skills::GazTurret));
    assert_eq!(input.get_skill_for_key(SkillKey::D), Some(Skills::GazDestroyTurret));
    sys.run(&mut input, &press);
    assert_eq!(input.get_skill_for_key(SkillKey::Q), Some(Skills::FireWall));
    assert_eq!(input.get_skill_for_key(SkillKey::E), Some(Skills::Heal));
}
