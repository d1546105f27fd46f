use rustarok_client::char_visuals::{
    get_sprite_index, went_from_casting_to_idle, CharActionIndex, CharStateKind, FlyingNumberType, MonsterActionIndex,
    SpriteBoundingRect,
};

#[test]
fn player_and_monster_sprite_actions() {
    assert_eq!(get_sprite_index(CharStateKind::Idle, false), 0);
    assert_eq!(get_sprite_index(CharStateKind::Attacking, false), 88);
    assert_eq!(get_sprite_index(CharStateKind::Dead, false), 65);
    assert_eq!(get_sprite_index(CharStateKind::StandBy, false), 32);
    assert_eq!(get_sprite_index(CharStateKind::StandBy, true), 0);
    assert_eq!(get_sprite_index(CharStateKind::Attacking, true), 16);
    assert_eq!(get_sprite_index(CharStateKind::Dead, true), 32);
    assert_eq!(CharActionIndex::CastingSpell.index(), 96);
    assert_eq!(MonsterActionIndex::ReceivingDamage.index(), 24);
}

#[test]
fn flying_number_colors() {
    assert_eq!(FlyingNumberType::Damage.color(true, false, false), [255, 0, 0]);
    assert_eq!(FlyingNumberType::Damage.color(false, true, false), [255, 0, 0]);
    assert_eq!(FlyingNumberType::SubCombo.color(false, false, true), [255, 255, 255]);
    let combo = FlyingNumberType::Combo { single_attack_damage: 5, attack_count: 3 };
    assert_eq!(combo.color(true, true, true), [230, 230, 38]);
    assert_eq!(FlyingNumberType::Heal.color(false, false, false), [0, 255, 0]);
    assert_eq!(FlyingNumberType::Poison.color(false, false, false), [140, 0, 140]);
    assert_eq!(FlyingNumberType::Absorb.color(false, false, false), [255, 255, 255]);
}

#[test]
fn merged_rect_covers_both() {
    let mut a = SpriteBoundingRect { bottom_left: [0, 10], top_right: [5, 0] };
    let b = SpriteBoundingRect { bottom_left: [-3, 4], top_right: [2, -6] };
    a.merge(&b);
    assert_eq!(a, SpriteBoundingRect { bottom_left: [-3, 10], top_right: [5, -6] });
}

#[test]
fn no_state_counts_as_casting() {
    assert!(!went_from_casting_to_idle(CharStateKind::Walking, CharStateKind::Idle));
    assert!(!went_from_casting_to_idle(CharStateKind::Idle, CharStateKind::Dead));
}
