use rustarok_client::char_visuals::SpriteBoundingRect;
use rustarok_client::input::{
    calc_entities_below_cursor, CameraMode, CastMode, EntitiesBelowCursor, HumanInputComponent,
    KeyState, SkillKey,
};
use rustarok_client::skills::CharEntityId;

#[test]
fn key_state_reports_each_press_and_release_once() {
    let mut k = KeyState::default();
    assert!(k.pressed());
    assert!(k.down && k.just_pressed);
    assert!(!k.pressed());
    assert!(!k.just_pressed);
    assert!(k.released());
    assert!(!k.down && k.just_released);
    assert!(!k.released());
    assert!(!k.just_released);
}

#[test]
fn input_tracks_keys_for_one_frame() {
    let mut input = HumanInputComponent::new("bob");
    assert_eq!(input.username, "bob");
    assert_eq!(input.cast_mode, CastMode::Normal);
    assert_eq!(input.camera_movement_mode, CameraMode::FollowChar);
    assert_eq!((input.last_mouse_x, input.last_mouse_y), (400, 300));
    input.key_pressed(20);
    assert!(input.is_key_down(20));
    assert!(input.is_key_just_pressed(20));
    assert!(input.is_key_up(21));
    input.cleanup_released_keys();
    assert!(input.is_key_down(20));
    assert!(!input.is_key_just_pressed(20));
    input.key_released(20);
    assert!(input.is_key_just_released(20));
    input.cleanup_released_keys();
    assert!(!input.is_key_just_released(20));
    assert!(input.is_key_up(20));
}

#[test]
fn skill_key_scancodes() {
    assert_eq!(SkillKey::A.scancode(), 4);
    assert_eq!(SkillKey::Q.scancode(), 20);
    assert_eq!(SkillKey::Num3.scancode(), 32);
}

#[test]
fn entities_below_cursor() {
    let rect = |x0, y0, x1, y1| SpriteBoundingRect { bottom_left: [x0, y0], top_right: [x1, y1] };
    let rects = vec![
        (CharEntityId(1), rect(0, 100, 50, 0), true),
        (CharEntityId(2), rect(10, 60, 40, 20), false),
        (CharEntityId(3), rect(200, 300, 250, 250), false),
        (CharEntityId(4), rect(30, 50, 30, 50), true),
    ];
    let mut e = EntitiesBelowCursor::new();
    e.add_enemy(CharEntityId(99));
    calc_entities_below_cursor(&mut e, &rects, 30, 50);
    assert_eq!(e.friendly, vec![CharEntityId(1), CharEntityId(4)]);
    assert_eq!(e.enemy, vec![CharEntityId(2)]);
    assert_eq!(e.get_enemy_or_friend(), Some(CharEntityId(2)));
    assert_eq!(e.get_friend(), Some(CharEntityId(1)));
    assert_eq!(e.get_friend_except(CharEntityId(1)), Some(CharEntityId(4)));
    assert_eq!(e.get_enemy(), Some(CharEntityId(2)));
    e.clear();
    assert_eq!(e.get_enemy_or_friend(), None);
    e.add_friend(CharEntityId(7));
    assert_eq!(e.get_friend_except(CharEntityId(7)), None);
    assert_eq!(e.get_enemy_or_friend(), Some(CharEntityId(7)));
}
