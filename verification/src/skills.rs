//! Skill definitions: where a skill's icon is and what it may target, and
//! whether a cast is allowed against the chosen target.
use vstd::prelude::*;

verus! {

/// What a skill may be cast at.
#[derive(Clone, Copy, Debug, PartialEq, Eq, Structural)]
pub enum SkillTargetType {
    /// Casts immediately.
    NoTarget,
    Area,
    Directional,
    AnyEntity,
    OnlyAllyButNoSelf,
    OnlyAllyAndSelf,
    OnlyEnemy,
}

/// Identifier of a character entity.
#[derive(Clone, Copy, Debug, PartialEq, Eq, Structural)]
pub struct CharEntityId(pub u64);

/// Whether a skill of `skill_target_type` may be cast by `caster_id` at
/// `target_entity`, where `in_range` says whether the target lies within the
/// skill's casting range: area, directional and untargeted skills always;
/// the others need a target in range, which for ally-only-but-not-self
/// skills must not be the caster.
pub open spec fn spec_casting_allowed(
    skill_target_type: SkillTargetType,
    in_range: bool,
    caster_id: CharEntityId,
    target_entity: Option<CharEntityId>,
) -> bool {
    match skill_target_type {
        SkillTargetType::Area | SkillTargetType::Directional | SkillTargetType::NoTarget => true,
        SkillTargetType::OnlyAllyButNoSelf => (target_entity matches Some(t) && t != caster_id) && in_range,
        _ => target_entity is Some && in_range,
    }
}

/// See `spec_casting_allowed`; `in_range` is whether the skill's casting
/// range reaches the target's distance.
pub fn is_casting_allowed_based_on_target(
    skill_target_type: SkillTargetType,
    in_range: bool,
    caster_id: CharEntityId,
    target_entity: Option<CharEntityId>,
) -> (r: bool)
    ensures
        r == spec_casting_allowed(skill_target_type, in_range, caster_id, target_entity),
{
    match skill_target_type {
        SkillTargetType::Area => true,
        SkillTargetType::Directional => true,
        SkillTargetType::NoTarget => true,
        SkillTargetType::AnyEntity => target_entity.is_some() && in_range,
        SkillTargetType::OnlyAllyButNoSelf => {
            let not_self = match target_entity {
                Some(it) => it != caster_id,
                None => false,
            };
            not_self && in_range
        },
        SkillTargetType::OnlyAllyAndSelf => target_entity.is_some() && in_range,
        SkillTargetType::OnlyEnemy => target_entity.is_some() && in_range,
    }
}

/// What every skill tells about itself.
pub trait SkillDef {
    /// Path of the skill's icon in the game archive.
    fn get_icon_path(&self) -> &'static str;

    /// What the skill may be cast at.
    fn get_skill_target_type(&self) -> SkillTargetType;
}

pub struct AbsorbShieldSkill;

impl SkillDef for AbsorbShieldSkill {
    fn get_icon_path(&self) -> (r: &'static str)
        ensures
            r@ == "data\\texture\\À¯ÀúÀÎÅÍÆäÀÌ½º\\item\\cr_reflectshield.bmp"@,
    {
        "data\\texture\\À¯ÀúÀÎÅÍÆäÀÌ½º\\item\\cr_reflectshield.bmp"
    }

    fn get_skill_target_type(&self) -> (r: SkillTargetType)
        ensures
            r == SkillTargetType::OnlyAllyAndSelf,
    {
        SkillTargetType::OnlyAllyAndSelf
    }
}

pub struct BrutalTestSkill;

impl SkillDef for BrutalTestSkill {
    fn get_icon_path(&self) -> (r: &'static str)
        ensures
            r@ == "data\\texture\\À¯ÀúÀÎÅÍÆäÀÌ½º\\item\\wz_meteor.bmp"@,
    {
        "data\\texture\\À¯ÀúÀÎÅÍÆäÀÌ½º\\item\\wz_meteor.bmp"
    }

    fn get_skill_target_type(&self) -> (r: SkillTargetType)
        ensures
            r == SkillTargetType::Area,
    {
        SkillTargetType::Area
    }
}

pub struct CureSkill;

impl SkillDef for CureSkill {
    fn get_icon_path(&self) -> (r: &'static str)
        ensures
            r@ == "data\\texture\\À¯ÀúÀÎÅÍÆäÀÌ½º\\item\\so_el_cure.bmp"@,
    {
        "data\\texture\\À¯ÀúÀÎÅÍÆäÀÌ½º\\item\\so_el_cure.bmp"
    }

    fn get_skill_target_type(&self) -> (r: SkillTargetType)
        ensures
            r == SkillTargetType::OnlyAllyAndSelf,
    {
        SkillTargetType::OnlyAllyAndSelf
    }
}

pub struct FireWallSkill;

impl SkillDef for FireWallSkill {
    fn get_icon_path(&self) -> (r: &'static str)
        ensures
            r@ == "data\\texture\\À¯ÀúÀÎÅÍÆäÀÌ½º\\item\\mg_firewall.bmp"@,
    {
        "data\\texture\\À¯ÀúÀÎÅÍÆäÀÌ½º\\item\\mg_firewall.bmp"
    }

    fn get_skill_target_type(&self) -> (r: SkillTargetType)
        ensures
            r == SkillTargetType::Area,
    {
        SkillTargetType::Area
    }
}

pub struct GazXplodiumChargeSkill;

impl SkillDef for GazXplodiumChargeSkill {
    fn get_icon_path(&self) -> (r: &'static str)
        ensures
            r@ == "data\\texture\\À¯ÀúÀÎÅÍÆäÀÌ½º\\item\\ra_detonator.bmp"@,
    {
        "data\\texture\\À¯ÀúÀÎÅÍÆäÀÌ½º\\item\\ra_detonator.bmp"
    }

    fn get_skill_target_type(&self) -> (r: SkillTargetType)
        ensures
            r == SkillTargetType::Area,
    {
        SkillTargetType::Area
    }
}

pub struct HealSkill;

impl SkillDef for HealSkill {
    fn get_icon_path(&self) -> (r: &'static str)
        ensures
            r@ == "data\\texture\\À¯ÀúÀÎÅÍÆäÀÌ½º\\item\\al_heal.bmp"@,
    {
        "data\\texture\\À¯ÀúÀÎÅÍÆäÀÌ½º\\item\\al_heal.bmp"
    }

    fn get_skill_target_type(&self) -> (r: SkillTargetType)
        ensures
            r == SkillTargetType::OnlyAllyAndSelf,
    {
        SkillTargetType::OnlyAllyAndSelf
    }
}

pub struct LightningSkill;

impl SkillDef for LightningSkill {
    fn get_icon_path(&self) -> (r: &'static str)
        ensures
            r@ == "data\\texture\\À¯ÀúÀÎÅÍÆäÀÌ½º\\item\\wl_chainlightning.bmp"@,
    {
        "data\\texture\\À¯ÀúÀÎÅÍÆäÀÌ½º\\item\\wl_chainlightning.bmp"
    }

    fn get_skill_target_type(&self) -> (r: SkillTargetType)
        ensures
            r == SkillTargetType::Area,
    {
        SkillTargetType::Area
    }
}

pub struct PosionSkill;

impl SkillDef for PosionSkill {
    fn get_icon_path(&self) -> (r: &'static str)
        ensures
            r@ == "data\\texture\\À¯ÀúÀÎÅÍÆäÀÌ½º\\item\\tf_poison.bmp"@,
    {
        "data\\texture\\À¯ÀúÀÎÅÍÆäÀÌ½º\\item\\tf_poison.bmp"
    }

    fn get_skill_target_type(&self) -> (r: SkillTargetType)
        ensures
            r == SkillTargetType::OnlyEnemy,
    {
        SkillTargetType::OnlyEnemy
    }
}

pub struct SanctuarySkill;

impl SkillDef for SanctuarySkill {
    fn get_icon_path(&self) -> (r: &'static str)
        ensures
            r@ == "data\\texture\\À¯ÀúÀÎÅÍÆäÀÌ½º\\item\\wz_meteor.bmp"@,
    {
        "data\\texture\\À¯ÀúÀÎÅÍÆäÀÌ½º\\item\\wz_meteor.bmp"
    }

    fn get_skill_target_type(&self) -> (r: SkillTargetType)
        ensures
            r == SkillTargetType::Area,
    {
        SkillTargetType::Area
    }
}

pub struct WizPyroBlastSkill;

impl SkillDef for WizPyroBlastSkill {
    fn get_icon_path(&self) -> (r: &'static str)
        ensures
            r@ == "data\\texture\\À¯ÀúÀÎÅÍÆäÀÌ½º\\item\\ht_blastmine.bmp"@,
    {
        "data\\texture\\À¯ÀúÀÎÅÍÆäÀÌ½º\\item\\ht_blastmine.bmp"
    }

    fn get_skill_target_type(&self) -> (r: SkillTargetType)
        ensures
            r == SkillTargetType::OnlyEnemy,
    {
        SkillTargetType::OnlyEnemy
    }
}

/// Every skill of the game.
#[derive(Clone, Copy, Debug, PartialEq, Eq, Structural)]
pub enum Skills {
    AttackMove,
    FireWall,
    BrutalTestSkill,
    Lightning,
    Heal,
    Mounting,
    Poison,
    Cure,
    FireBomb,
    AbsorbShield,
    WizPyroBlast,
    AssaBladeDash,
    AssaPhasePrism,
    GazXplodiumCharge,
    GazTurret,
    GazBarricade,
    GazDestroyTurret,
    GazTurretTarget,
    FalconCarry,
    FalconAttack,
    Sanctuary,
    ExoSkeleton,
}

/// A skill aimed at a character is cast only at a target that is there
/// and within its casting range; the ally-only-but-not-self kind never at
/// the caster; skills aimed at an area, a direction or nothing always.
pub proof fn law_targeted_casts_need_a_target_in_range(
    skill_target_type: SkillTargetType,
    in_range: bool,
    caster_id: CharEntityId,
    target_entity: Option<CharEntityId>,
)
    ensures
        (skill_target_type == SkillTargetType::AnyEntity || skill_target_type
            == SkillTargetType::OnlyAllyButNoSelf || skill_target_type == SkillTargetType::OnlyAllyAndSelf
            || skill_target_type == SkillTargetType::OnlyEnemy) ==> {
            &&& (!in_range ==> !spec_casting_allowed(skill_target_type, in_range, caster_id, target_entity))
            &&& (target_entity is None ==> !spec_casting_allowed(skill_target_type, in_range, caster_id, target_entity))
            &&& (in_range && target_entity is Some && (skill_target_type != SkillTargetType::OnlyAllyButNoSelf
                || target_entity != Some(caster_id)) ==> spec_casting_allowed(skill_target_type, in_range,
                caster_id, target_entity))
        },
        skill_target_type == SkillTargetType::OnlyAllyButNoSelf && target_entity == Some(caster_id)
            ==> !spec_casting_allowed(skill_target_type, in_range, caster_id, target_entity),
        (skill_target_type == SkillTargetType::Area || skill_target_type == SkillTargetType::Directional
            || skill_target_type == SkillTargetType::NoTarget) ==> spec_casting_allowed(skill_target_type,
            in_range, caster_id, target_entity),
{
}

} // verus!
