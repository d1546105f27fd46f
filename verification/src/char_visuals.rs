//! How characters are drawn: which action of their sprite shows a state,
//! the colour of the numbers flying off them, and the bounding rectangle
//! of their sprite layers.
use vstd::prelude::*;

verus! {

/// What a character is doing, as far as its sprite is concerned.
#[derive(Clone, Copy, Debug, PartialEq, Eq, Structural)]
pub enum CharStateKind {
    Idle,
    Walking,
    StandBy,
    Attacking,
    ReceivingDamage,
    Dead,
}

/// Actions of a player sprite; each covers eight directions.
#[derive(Clone, Copy, Debug, PartialEq, Eq, Structural)]
pub enum CharActionIndex {
    Idle,
    Walking,
    Sitting,
    PickingItem,
    StandBy,
    Attacking1,
    ReceivingDamage,
    Freeze1,
    Dead,
    Freeze2,
    Attacking2,
    Attacking3,
    CastingSpell,
}

/// Index of the first of the action's entries in a player sprite.
pub open spec fn spec_char_action_index(a: CharActionIndex) -> usize {
    match a {
        CharActionIndex::Idle => 0,
        CharActionIndex::Walking => 8,
        CharActionIndex::Sitting => 16,
        CharActionIndex::PickingItem => 24,
        CharActionIndex::StandBy => 32,
        CharActionIndex::Attacking1 => 40,
        CharActionIndex::ReceivingDamage => 48,
        CharActionIndex::Freeze1 => 56,
        CharActionIndex::Dead => 65,
        CharActionIndex::Freeze2 => 72,
        CharActionIndex::Attacking2 => 80,
        CharActionIndex::Attacking3 => 88,
        CharActionIndex::CastingSpell => 96,
    }
}

impl CharActionIndex {
    /// See `spec_char_action_index`.
    pub fn index(self) -> (r: usize)
        ensures
            r == spec_char_action_index(self),
    {
        match self {
            CharActionIndex::Idle => 0,
            CharActionIndex::Walking => 8,
            CharActionIndex::Sitting => 16,
            CharActionIndex::PickingItem => 24,
            CharActionIndex::StandBy => 32,
            CharActionIndex::Attacking1 => 40,
            CharActionIndex::ReceivingDamage => 48,
            CharActionIndex::Freeze1 => 56,
            CharActionIndex::Dead => 65,
            CharActionIndex::Freeze2 => 72,
            CharActionIndex::Attacking2 => 80,
            CharActionIndex::Attacking3 => 88,
            CharActionIndex::CastingSpell => 96,
        }
    }
}

/// Actions of a monster sprite; each covers eight directions.
#[derive(Clone, Copy, Debug, PartialEq, Eq, Structural)]
pub enum MonsterActionIndex {
    Idle,
    Walking,
    Attack,
    ReceivingDamage,
    Die,
}

/// Index of the first of the action's entries in a monster sprite.
pub open spec fn spec_monster_action_index(a: MonsterActionIndex) -> usize {
    match a {
        MonsterActionIndex::Idle => 0,
        MonsterActionIndex::Walking => 8,
        MonsterActionIndex::Attack => 16,
        MonsterActionIndex::ReceivingDamage => 24,
        MonsterActionIndex::Die => 32,
    }
}

impl MonsterActionIndex {
    /// See `spec_monster_action_index`.
    pub fn index(self) -> (r: usize)
        ensures
            r == spec_monster_action_index(self),
    {
        match self {
            MonsterActionIndex::Idle => 0,
            MonsterActionIndex::Walking => 8,
            MonsterActionIndex::Attack => 16,
            MonsterActionIndex::ReceivingDamage => 24,
            MonsterActionIndex::Die => 32,
        }
    }
}

/// The sprite action that shows a state: a player attacks with its third
/// attack animation; a monster stands by as it idles.
pub open spec fn spec_sprite_index(state: CharStateKind, is_monster: bool) -> usize {
    if !is_monster {
        spec_char_action_index(
            match state {
                CharStateKind::Idle => CharActionIndex::Idle,
                CharStateKind::Walking => CharActionIndex::Walking,
                CharStateKind::StandBy => CharActionIndex::StandBy,
                CharStateKind::Attacking => CharActionIndex::Attacking3,
                CharStateKind::ReceivingDamage => CharActionIndex::ReceivingDamage,
                CharStateKind::Dead => CharActionIndex::Dead,
            },
        )
    } else {
        spec_monster_action_index(
            match state {
                CharStateKind::Idle => MonsterActionIndex::Idle,
                CharStateKind::Walking => MonsterActionIndex::Walking,
                CharStateKind::StandBy => MonsterActionIndex::Idle,
                CharStateKind::Attacking => MonsterActionIndex::Attack,
                CharStateKind::ReceivingDamage => MonsterActionIndex::ReceivingDamage,
                CharStateKind::Dead => MonsterActionIndex::Die,
            },
        )
    }
}

/// The index of the sprite action that shows `state`.
pub fn get_sprite_index(state: CharStateKind, is_monster: bool) -> (r: usize)
    ensures
        r == spec_sprite_index(state, is_monster),
{
    if !is_monster {
        match state {
            CharStateKind::Idle => CharActionIndex::Idle.index(),
            CharStateKind::Walking => CharActionIndex::Walking.index(),
            CharStateKind::StandBy => CharActionIndex::StandBy.index(),
            CharStateKind::Attacking => CharActionIndex::Attacking3.index(),
            CharStateKind::ReceivingDamage => CharActionIndex::ReceivingDamage.index(),
            CharStateKind::Dead => CharActionIndex::Dead.index(),
        }
    } else {
        match state {
            CharStateKind::Idle => MonsterActionIndex::Idle.index(),
            CharStateKind::Walking => MonsterActionIndex::Walking.index(),
            CharStateKind::StandBy => MonsterActionIndex::Idle.index(),
            CharStateKind::Attacking => MonsterActionIndex::Attack.index(),
            CharStateKind::ReceivingDamage => MonsterActionIndex::ReceivingDamage.index(),
            CharStateKind::Dead => MonsterActionIndex::Die.index(),
        }
    }
}

/// Whether a character went from casting a skill to idling between its
/// previous and current state. No state here is a casting state, so this
/// never holds.
pub fn went_from_casting_to_idle(prev_state: CharStateKind, current_state: CharStateKind) -> (r: bool)
    ensures
        !r,
{
    match current_state {
        CharStateKind::Idle => match prev_state {
            _ => false,
        },
        _ => false,
    }
}

/// What a flying number shows.
#[derive(Clone, Copy, Debug, PartialEq, Eq, Structural)]
pub enum FlyingNumberType {
    Damage,
    Combo { single_attack_damage: u32, attack_count: u8 },
    SubCombo,
    Poison,
    Heal,
    Block,
    Absorb,
}

/// The colour (red, green, blue) of a flying number: damage is red when it
/// hits the current user or a friend, white otherwise; a combo is yellow,
/// a heal green, poison purple, a block or an absorb white.
pub open spec fn spec_flying_number_color(t: FlyingNumberType, target_is_current_user: bool, target_is_friend: bool) -> (u8, u8, u8) {
    match t {
        FlyingNumberType::Damage | FlyingNumberType::SubCombo => {
            if target_is_current_user || target_is_friend {
                (255u8, 0u8, 0u8)
            } else {
                (255u8, 255u8, 255u8)
            }
        },
        FlyingNumberType::Combo { .. } => (230u8, 230u8, 38u8),
        FlyingNumberType::Heal => (0u8, 255u8, 0u8),
        FlyingNumberType::Poison => (140u8, 0u8, 140u8),
        FlyingNumberType::Block | FlyingNumberType::Absorb => (255u8, 255u8, 255u8),
    }
}

impl FlyingNumberType {
    /// See `spec_flying_number_color`; who initiated the damage does not
    /// change the colour.
    pub fn color(
        &self,
        target_is_current_user: bool,
        target_is_friend: bool,
        damage_was_initiated_by_current_user: bool,
    ) -> (r: [u8; 3])
        ensures
            r@ == seq![
                spec_flying_number_color(*self, target_is_current_user, target_is_friend).0,
                spec_flying_number_color(*self, target_is_current_user, target_is_friend).1,
                spec_flying_number_color(*self, target_is_current_user, target_is_friend).2,
            ],
    {
        let r: [u8; 3] = match self {
            FlyingNumberType::Damage | FlyingNumberType::SubCombo => {
                if target_is_current_user {
                    [255, 0, 0]
                } else if target_is_friend {
                    [255, 0, 0]
                } else if damage_was_initiated_by_current_user {
                    [255, 255, 255]
                } else {
                    [255, 255, 255]
                }
            },
            FlyingNumberType::Combo { .. } => [230, 230, 38],
            FlyingNumberType::Heal => [0, 255, 0],
            FlyingNumberType::Poison => [140, 0, 140],
            FlyingNumberType::Block => [255, 255, 255],
            FlyingNumberType::Absorb => [255, 255, 255],
        };
        assert(r@ =~= seq![
            spec_flying_number_color(*self, target_is_current_user, target_is_friend).0,
            spec_flying_number_color(*self, target_is_current_user, target_is_friend).1,
            spec_flying_number_color(*self, target_is_current_user, target_is_friend).2,
        ]);
        r
    }
}

/// Screen rectangle of a sprite, as `[x, y]` corners: x grows to the right
/// and y downwards, so the bottom-left corner has the smallest x and the
/// largest y.
#[derive(Clone, Copy, Debug, PartialEq, Eq, Default)]
pub struct SpriteBoundingRect {
    pub bottom_left: [i32; 2],
    pub top_right: [i32; 2],
}

/// The smaller of two values.
pub open spec fn min_i32(a: i32, b: i32) -> i32 {
    if a <= b { a } else { b }
}

/// The larger of two values.
pub open spec fn max_i32(a: i32, b: i32) -> i32 {
    if a >= b { a } else { b }
}

/// The rectangle that covers the rectangles with corners `a` and `b`.
pub open spec fn merged(a_bl: Seq<i32>, a_tr: Seq<i32>, b_bl: Seq<i32>, b_tr: Seq<i32>) -> (Seq<i32>, Seq<i32>) {
    (
        seq![min_i32(a_bl[0], b_bl[0]), max_i32(a_bl[1], b_bl[1])],
        seq![max_i32(a_tr[0], b_tr[0]), min_i32(a_tr[1], b_tr[1])],
    )
}

impl SpriteBoundingRect {
    /// Grows the rectangle to cover `other` too; see `merged`.
    pub fn merge(&mut self, other: &SpriteBoundingRect)
        ensures
            (final(self).bottom_left@, final(self).top_right@) == merged(
                old(self).bottom_left@,
                old(self).top_right@,
                other.bottom_left@,
                other.top_right@,
            ),
    {
        let l = if self.bottom_left[0] <= other.bottom_left[0] { self.bottom_left[0] } else { other.bottom_left[0] };
        let b = if self.bottom_left[1] >= other.bottom_left[1] { self.bottom_left[1] } else { other.bottom_left[1] };
        let r = if self.top_right[0] >= other.top_right[0] { self.top_right[0] } else { other.top_right[0] };
        let t = if self.top_right[1] <= other.top_right[1] { self.top_right[1] } else { other.top_right[1] };
        self.bottom_left = [l, b];
        self.top_right = [r, t];
        assert(self.bottom_left@ =~= seq![l, b]);
        assert(self.top_right@ =~= seq![r, t]);
    }
}

/// Whether the rectangle with corners `o` covers the one with corners `i`.
pub open spec fn covers(o_bl: Seq<i32>, o_tr: Seq<i32>, i_bl: Seq<i32>, i_tr: Seq<i32>) -> bool {
    &&& o_bl[0] <= i_bl[0]
    &&& o_bl[1] >= i_bl[1]
    &&& o_tr[0] >= i_tr[0]
    &&& o_tr[1] <= i_tr[1]
}

/// Law: a merged rectangle covers both rectangles it was merged from.
pub proof fn law_merge_covers_both(a_bl: Seq<i32>, a_tr: Seq<i32>, b_bl: Seq<i32>, b_tr: Seq<i32>)
    ensures
        covers(merged(a_bl, a_tr, b_bl, b_tr).0, merged(a_bl, a_tr, b_bl, b_tr).1, a_bl, a_tr),
        covers(merged(a_bl, a_tr, b_bl, b_tr).0, merged(a_bl, a_tr, b_bl, b_tr).1, b_bl, b_tr),
{
}

/// A player's sprite shows each state by the action of the same name
/// (attacking by its third attack animation), so no two player states look
/// alike; a monster's shows them by its own actions, standing by as it
/// idles.
pub proof fn law_states_show_their_own_action(state: CharStateKind, other: CharStateKind)
    ensures
        state == CharStateKind::Idle ==> spec_sprite_index(state, false) == spec_char_action_index(CharActionIndex::Idle),
        state == CharStateKind::Walking ==> spec_sprite_index(state, false) == spec_char_action_index(CharActionIndex::Walking),
        state == CharStateKind::StandBy ==> spec_sprite_index(state, false) == spec_char_action_index(CharActionIndex::StandBy),
        state == CharStateKind::Attacking ==> spec_sprite_index(state, false) == spec_char_action_index(CharActionIndex::Attacking3),
        state == CharStateKind::ReceivingDamage ==> spec_sprite_index(state, false) == spec_char_action_index(CharActionIndex::ReceivingDamage),
        state == CharStateKind::Dead ==> spec_sprite_index(state, false) == spec_char_action_index(CharActionIndex::Dead),
        state != other ==> spec_sprite_index(state, false) != spec_sprite_index(other, false),
        state == CharStateKind::Idle ==> spec_sprite_index(state, true) == spec_monster_action_index(MonsterActionIndex::Idle),
        state == CharStateKind::Walking ==> spec_sprite_index(state, true) == spec_monster_action_index(MonsterActionIndex::Walking),
        state == CharStateKind::StandBy ==> spec_sprite_index(state, true) == spec_monster_action_index(MonsterActionIndex::Idle),
        state == CharStateKind::Attacking ==> spec_sprite_index(state, true) == spec_monster_action_index(MonsterActionIndex::Attack),
        state == CharStateKind::ReceivingDamage ==> spec_sprite_index(state, true) == spec_monster_action_index(MonsterActionIndex::ReceivingDamage),
        state == CharStateKind::Dead ==> spec_sprite_index(state, true) == spec_monster_action_index(MonsterActionIndex::Die),
{
}

} // verus!
