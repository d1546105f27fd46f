//! Which collision groups a character's physics body ignores, by the group
//! it belongs to.
use vstd::prelude::*;

verus! {

/// The collision groups of the game's physics bodies.
#[derive(Clone, Copy, Debug, PartialEq, Eq, Structural)]
pub enum CollisionGroup {
    StaticModel,
    LeftPlayer,
    RightPlayer,
    NonCollidablePlayer,
    Minion,
    Turret,
    Guard,
    SkillArea,
    NeutralPlayerPlayer,
    LeftBarricade,
    RightBarricade,
}

/// The groups a body of `group` does not collide with, in the order the
/// game lists them. Static models and skill areas get no character body.
pub open spec fn spec_blacklist(group: CollisionGroup) -> Seq<CollisionGroup> {
    match group {
        CollisionGroup::Guard => seq![
            CollisionGroup::Minion,
            CollisionGroup::NonCollidablePlayer,
            CollisionGroup::StaticModel,
            CollisionGroup::LeftPlayer,
            CollisionGroup::RightPlayer,
            CollisionGroup::Guard,
            CollisionGroup::SkillArea,
            CollisionGroup::Turret,
            CollisionGroup::NeutralPlayerPlayer,
            CollisionGroup::LeftBarricade,
            CollisionGroup::RightBarricade,
        ],
        CollisionGroup::LeftPlayer | CollisionGroup::RightPlayer => seq![
            CollisionGroup::Minion,
            CollisionGroup::NonCollidablePlayer,
            CollisionGroup::Guard,
            CollisionGroup::Turret,
        ],
        CollisionGroup::NonCollidablePlayer => seq![
            CollisionGroup::Minion,
            CollisionGroup::NonCollidablePlayer,
            CollisionGroup::StaticModel,
            CollisionGroup::LeftPlayer,
            CollisionGroup::RightPlayer,
            CollisionGroup::Guard,
            CollisionGroup::Turret,
            CollisionGroup::NeutralPlayerPlayer,
        ],
        CollisionGroup::Minion => seq![
            CollisionGroup::LeftPlayer,
            CollisionGroup::RightPlayer,
            CollisionGroup::StaticModel,
            CollisionGroup::NonCollidablePlayer,
            CollisionGroup::Turret,
            CollisionGroup::NeutralPlayerPlayer,
        ],
        CollisionGroup::Turret => seq![
            CollisionGroup::Minion,
            CollisionGroup::NonCollidablePlayer,
            CollisionGroup::StaticModel,
            CollisionGroup::LeftPlayer,
            CollisionGroup::RightPlayer,
            CollisionGroup::Guard,
            CollisionGroup::Turret,
            CollisionGroup::NeutralPlayerPlayer,
        ],
        CollisionGroup::NeutralPlayerPlayer => seq![
            CollisionGroup::Minion,
            CollisionGroup::NonCollidablePlayer,
            CollisionGroup::Guard,
            CollisionGroup::Turret,
        ],
        CollisionGroup::LeftBarricade => seq![
            CollisionGroup::LeftPlayer,
            CollisionGroup::Minion,
            CollisionGroup::NonCollidablePlayer,
            CollisionGroup::Guard,
            CollisionGroup::Turret,
        ],
        CollisionGroup::RightBarricade => seq![
            CollisionGroup::RightPlayer,
            CollisionGroup::Minion,
            CollisionGroup::NonCollidablePlayer,
            CollisionGroup::Guard,
            CollisionGroup::Turret,
        ],
        CollisionGroup::StaticModel | CollisionGroup::SkillArea => Seq::empty(),
    }
}

/// See `spec_blacklist`; the game does not build a character body in the
/// static-model or skill-area group.
pub fn blacklist_groups(group: CollisionGroup) -> (r: Vec<CollisionGroup>)
    requires
        group != CollisionGroup::StaticModel,
        group != CollisionGroup::SkillArea,
    ensures
        r@ == spec_blacklist(group),
{
    let r = match group {
        CollisionGroup::Guard => vec![
            CollisionGroup::Minion,
            CollisionGroup::NonCollidablePlayer,
            CollisionGroup::StaticModel,
            CollisionGroup::LeftPlayer,
            CollisionGroup::RightPlayer,
            CollisionGroup::Guard,
            CollisionGroup::SkillArea,
            CollisionGroup::Turret,
            CollisionGroup::NeutralPlayerPlayer,
            CollisionGroup::LeftBarricade,
            CollisionGroup::RightBarricade,
        ],
        CollisionGroup::LeftPlayer | CollisionGroup::RightPlayer => vec![
            CollisionGroup::Minion,
            CollisionGroup::NonCollidablePlayer,
            CollisionGroup::Guard,
            CollisionGroup::Turret,
        ],
        CollisionGroup::NonCollidablePlayer => vec![
            CollisionGroup::Minion,
            CollisionGroup::NonCollidablePlayer,
            CollisionGroup::StaticModel,
            CollisionGroup::LeftPlayer,
            CollisionGroup::RightPlayer,
            CollisionGroup::Guard,
            CollisionGroup::Turret,
            CollisionGroup::NeutralPlayerPlayer,
        ],
        CollisionGroup::Minion => vec![
            CollisionGroup::LeftPlayer,
            CollisionGroup::RightPlayer,
            CollisionGroup::StaticModel,
            CollisionGroup::NonCollidablePlayer,
            CollisionGroup::Turret,
            CollisionGroup::NeutralPlayerPlayer,
        ],
        CollisionGroup::Turret => vec![
            CollisionGroup::Minion,
            CollisionGroup::NonCollidablePlayer,
            CollisionGroup::StaticModel,
            CollisionGroup::LeftPlayer,
            CollisionGroup::RightPlayer,
            CollisionGroup::Guard,
            CollisionGroup::Turret,
            CollisionGroup::NeutralPlayerPlayer,
        ],
        CollisionGroup::NeutralPlayerPlayer => vec![
            CollisionGroup::Minion,
            CollisionGroup::NonCollidablePlayer,
            CollisionGroup::Guard,
            CollisionGroup::Turret,
        ],
        CollisionGroup::LeftBarricade => vec![
            CollisionGroup::LeftPlayer,
            CollisionGroup::Minion,
            CollisionGroup::NonCollidablePlayer,
            CollisionGroup::Guard,
            CollisionGroup::Turret,
        ],
        CollisionGroup::RightBarricade => vec![
            CollisionGroup::RightPlayer,
            CollisionGroup::Minion,
            CollisionGroup::NonCollidablePlayer,
            CollisionGroup::Guard,
            CollisionGroup::Turret,
        ],
        CollisionGroup::StaticModel | CollisionGroup::SkillArea => Vec::new(),
    };
    proof {
        assert(r@ =~= spec_blacklist(group));
    }
    r
}

/// Players of both sides ignore the same groups, and each side's barricade
/// lets that side's players through but not the other side's.
pub proof fn law_player_sides_mirror()
    ensures
        spec_blacklist(CollisionGroup::LeftPlayer) == spec_blacklist(CollisionGroup::RightPlayer),
        spec_blacklist(CollisionGroup::LeftBarricade).contains(CollisionGroup::LeftPlayer),
        !spec_blacklist(CollisionGroup::LeftBarricade).contains(CollisionGroup::RightPlayer),
        spec_blacklist(CollisionGroup::RightBarricade).contains(CollisionGroup::RightPlayer),
        !spec_blacklist(CollisionGroup::RightBarricade).contains(CollisionGroup::LeftPlayer),
{
    let l = spec_blacklist(CollisionGroup::LeftBarricade);
    let r = spec_blacklist(CollisionGroup::RightBarricade);
    assert(l[0] == CollisionGroup::LeftPlayer);
    assert(r[0] == CollisionGroup::RightPlayer);
}

} // verus!
