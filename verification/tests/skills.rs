use rustarok_client::cursor::{cursor_click, cursor_normal, cursor_stop, cursor_target, CursorFrame};
use rustarok_client::skills::{
    is_casting_allowed_based_on_target, AbsorbShieldSkill, CharEntityId, HealSkill, PosionSkill, SkillDef,
    SkillTargetType, WizPyroBlastSkill,
};

#[test]
fn skill_definitions() {
    assert_eq!(
        AbsorbShieldSkill.get_icon_path(),
        "data\\texture\\À¯ÀúÀÎÅÍÆäÀÌ½º\\item\\cr_reflectshield.bmp"
    );
    assert_eq!(AbsorbShieldSkill.get_skill_target_type(), SkillTargetType::OnlyAllyAndSelf);
    assert_eq!(PosionSkill.get_skill_target_type(), SkillTargetType::OnlyEnemy);
    assert_eq!(WizPyroBlastSkill.get_icon_path(), "data\\texture\\À¯ÀúÀÎÅÍÆäÀÌ½º\\item\\ht_blastmine.bmp");
    assert_eq!(HealSkill.get_icon_path(), "data\\texture\\À¯ÀúÀÎÅÍÆäÀÌ½º\\item\\al_heal.bmp");
}

#[test]
fn casting_targets() {
    let me = CharEntityId(1);
    let other = CharEntityId(2);
    assert!(is_casting_allowed_based_on_target(SkillTargetType::Area, false, me, None));
    assert!(!is_casting_allowed_based_on_target(SkillTargetType::AnyEntity, true, me, None));
    assert!(!is_casting_allowed_based_on_target(SkillTargetType::OnlyEnemy, false, me, Some(other)));
    assert!(is_casting_allowed_based_on_target(SkillTargetType::OnlyEnemy, true, me, Some(other)));
    assert!(!is_casting_allowed_based_on_target(SkillTargetType::OnlyAllyButNoSelf, true, me, Some(me)));
    assert!(is_casting_allowed_based_on_target(SkillTargetType::OnlyAllyButNoSelf, true, me, Some(other)));
    assert!(is_casting_allowed_based_on_target(SkillTargetType::OnlyAllyAndSelf, true, me, Some(me)));
}

#[test]
fn cursor_frames() {
    assert_eq!(cursor_normal(), CursorFrame(0, 0));
    assert_eq!(cursor_click(), CursorFrame(0, 2));
    assert_eq!(cursor_stop(), CursorFrame(0, 8));
    assert_eq!(cursor_target(), CursorFrame(1, 10));
}
