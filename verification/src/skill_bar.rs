//! Layout of the two skill bars at the bottom of the screen: the main bar
//! (keys Q, W, E, R, D) and, above it, the secondary bar (keys 1, 2, 3).
//! Each key with a skill bound to it gets a slot: a bordered square whose
//! colours tell whether the skill can be cast now and whether it is the
//! skill whose target is being chosen; the slot under the mouse shows the
//! skill's name. Keys without a skill take no room.
use vstd::prelude::*;
use crate::input::{skill_key_index, HumanInputComponent, SkillKey, SKILLKEY_COUNT};
use crate::skills::Skills;

verus! {

/// Sizes and colours of one bar.
#[derive(Clone, Copy, Debug)]
pub struct BarGeometry {
    pub icon_size: i32,
    pub inner_border: i32,
    pub outer_border: i32,
    pub space: i32,
    /// Background of a skill that cannot be cast now.
    pub not_castable_background: (u8, u8, u8, u8),
}

/// What is drawn for one slot.
#[derive(Clone, Copy, Debug)]
pub struct SkillSlotDraw {
    pub skill_key: SkillKey,
    pub skill: Skills,
    /// Top-left corner of the border square, whose side is
    /// `icon_size + 2 * inner_border`.
    pub border_x: i32,
    pub border_y: i32,
    pub border_color: (u8, u8, u8, u8),
    /// Top-left corner of the icon square.
    pub icon_x: i32,
    pub icon_y: i32,
    pub background_color: (u8, u8, u8, u8),
    /// Where the key's label goes, and its colour.
    pub key_x: i32,
    pub key_y: i32,
    pub key_color: (u8, u8, u8),
    /// Whether the mouse is over the icon (then the skill's name is shown).
    pub hovered: bool,
}

/// The main bar: icons of 48, borders of 3 and 6, 4 between slots.
pub open spec fn main_geometry() -> BarGeometry {
    BarGeometry {
        icon_size: 48,
        inner_border: 3,
        outer_border: 6,
        space: 4,
        not_castable_background: (179u8, 179u8, 179u8, 255u8),
    }
}

/// The secondary bar: icons of 32, borders of 2 and 3, 2 between slots.
pub open spec fn secondary_geometry() -> BarGeometry {
    BarGeometry {
        icon_size: 32,
        inner_border: 2,
        outer_border: 3,
        space: 2,
        not_castable_background: (233u8, 76u8, 76u8, 255u8),
    }
}

/// The keys of the main bar, left to right.
pub open spec fn main_keys() -> Seq<SkillKey> {
    seq![SkillKey::Q, SkillKey::W, SkillKey::E, SkillKey::R, SkillKey::D]
}

/// The keys of the secondary bar, left to right.
pub open spec fn secondary_keys() -> Seq<SkillKey> {
    seq![SkillKey::Num1, SkillKey::Num2, SkillKey::Num3]
}

/// Width of a bar of `count` slots.
pub open spec fn bar_width(g: BarGeometry, count: int) -> int {
    g.outer_border * 2 + count * g.icon_size + g.inner_border * count * 2 + (count - 1) * g.space
}

/// Half of `a`, rounded toward zero.
pub open spec fn half(a: int) -> int {
    if a >= 0 { a / 2 } else { -((-a) / 2) }
}

/// Left edge of a bar of `count` slots centred on a screen `resolution_w`
/// wide (the width read as an `i32`; both halves rounded toward zero).
pub open spec fn bar_start_x(g: BarGeometry, count: int, resolution_w: u32) -> int {
    half((resolution_w as i32) as int) - half(bar_width(g, count))
}

/// The slot of the `j`-th key with a skill (`j` counted from 0), for `key`
/// bound to `skill`, on a bar starting at `start_x` with top `y`.
pub open spec fn slot_at(
    g: BarGeometry,
    start_x: int,
    y: int,
    j: int,
    key: SkillKey,
    skill: Skills,
    not_castable: bool,
    selected: Option<SkillKey>,
    mouse_x: u16,
    mouse_y: u16,
    key_font_size: int,
) -> SkillSlotDraw {
    let border_x = start_x + g.outer_border + j * (g.icon_size + g.inner_border * 2 + g.space);
    let icon_x = border_x + g.inner_border;
    let icon_y = y + g.outer_border + g.inner_border;
    SkillSlotDraw {
        skill_key: key,
        skill,
        border_x: border_x as i32,
        border_y: (y + g.outer_border) as i32,
        border_color: if not_castable {
            (179u8, 179u8, 179u8, 255u8)
        } else if selected == Some(key) {
            (0u8, 255u8, 0u8, 255u8)
        } else {
            (0u8, 0u8, 0u8, 255u8)
        },
        icon_x: icon_x as i32,
        icon_y: icon_y as i32,
        background_color: if not_castable { g.not_castable_background } else { (28u8, 64u8, 122u8, 255u8) },
        key_x: (-2 + icon_x + g.icon_size - key_font_size) as i32,
        key_y: (-2 + icon_y + g.icon_size - key_font_size) as i32,
        key_color: if not_castable { (239u8, 76u8, 76u8) } else { (255u8, 255u8, 255u8) },
        hovered: mouse_x > (icon_x as i32) as u16 && mouse_x < ((icon_x + g.icon_size) as i32) as u16
            && mouse_y > (y as i32) as u16 && mouse_y < ((y + g.icon_size) as i32) as u16,
    }
}

/// The slots of the keys `keys` from position `k` on, the first of them
/// being the `j`-th slot of the bar.
pub open spec fn slots_from(
    g: BarGeometry,
    start_x: int,
    y: int,
    keys: Seq<SkillKey>,
    skills: Seq<Option<Skills>>,
    not_castable: Seq<bool>,
    selected: Option<SkillKey>,
    mouse_x: u16,
    mouse_y: u16,
    key_font_size: int,
    k: int,
    j: int,
) -> Seq<SkillSlotDraw>
    decreases keys.len() - k,
{
    if k < 0 || k >= keys.len() {
        Seq::empty()
    } else {
        let key = keys[k];
        let rest_taken = slots_from(g, start_x, y, keys, skills, not_castable, selected, mouse_x, mouse_y,
            key_font_size, k + 1, j + 1);
        let rest_free = slots_from(g, start_x, y, keys, skills, not_castable, selected, mouse_x, mouse_y,
            key_font_size, k + 1, j);
        match skills[skill_key_index(key)] {
            Some(skill) => seq![slot_at(g, start_x, y, j, key, skill,
                not_castable[skill_key_index(key)], selected, mouse_x, mouse_y, key_font_size)]
                + rest_taken,
            None => rest_free,
        }
    }
}

/// Lays out the slots of `keys` on a bar with geometry `g` whose left edge
/// is `start_x` and top `y`.
fn layout_slots(
    g: BarGeometry,
    start_x: i32,
    y: i32,
    keys: &Vec<SkillKey>,
    input: &HumanInputComponent,
    not_castable: &Vec<bool>,
    selected: Option<SkillKey>,
    mouse_x: u16,
    mouse_y: u16,
    key_font_size: i32,
) -> (r: Vec<SkillSlotDraw>)
    requires
        input.wf(),
        not_castable@.len() == SKILLKEY_COUNT,
        0 <= g.icon_size <= 64,
        0 <= g.inner_border <= 8,
        0 <= g.outer_border <= 8,
        0 <= g.space <= 8,
        keys@.len() <= 8,
        -0x4000_1000 <= start_x <= 0x4000_1000,
        i32::MIN + 100 <= y <= i32::MAX - 86,
        0 <= key_font_size <= 64,
    ensures
        r@ == slots_from(g, start_x as int, y as int, keys@, input.skills_for_keys@, not_castable@,
            selected, mouse_x, mouse_y, key_font_size as int, 0, 0),
{
    let mut out: Vec<SkillSlotDraw> = Vec::new();
    let mut k: usize = 0;
    let mut j: usize = 0;
    let stride = g.icon_size + g.inner_border * 2 + g.space;
    while k < keys.len()
        invariant
            input.wf(),
            not_castable@.len() == SKILLKEY_COUNT,
            0 <= g.icon_size <= 64,
            0 <= g.inner_border <= 8,
            0 <= g.outer_border <= 8,
            0 <= g.space <= 8,
            keys@.len() <= 8,
            -0x4000_1000 <= start_x <= 0x4000_1000,
            i32::MIN + 100 <= y <= i32::MAX - 86,
            0 <= key_font_size <= 64,
            stride == g.icon_size + g.inner_border * 2 + g.space,
            j <= k <= keys@.len(),
            out@ + slots_from(g, start_x as int, y as int, keys@, input.skills_for_keys@, not_castable@,
                selected, mouse_x, mouse_y, key_font_size as int, k as int, j as int)
                == slots_from(g, start_x as int, y as int, keys@, input.skills_for_keys@, not_castable@,
                selected, mouse_x, mouse_y, key_font_size as int, 0, 0),
        decreases keys@.len() - k,
    {
        let key = keys[k];
        let ghost rest = slots_from(g, start_x as int, y as int, keys@, input.skills_for_keys@,
            not_castable@, selected, mouse_x, mouse_y, key_font_size as int, k as int, j as int);
        match input.get_skill_for_key(key) {
            Some(skill) => {
                let nc = not_castable[key.index()];
                assert(0 <= (j as int) * (stride as int) <= 704) by (nonlinear_arith)
                    requires
                        0 <= j <= 8,
                        0 <= stride <= 88,
                ;
                let border_x = start_x + g.outer_border + (j as i32) * stride;
                let icon_x = border_x + g.inner_border;
                let icon_y = y + g.outer_border + g.inner_border;
                let border_color: (u8, u8, u8, u8) = if nc {
                    (179u8, 179u8, 179u8, 255u8)
                } else if selected == Some(key) {
                    (0u8, 255u8, 0u8, 255u8)
                } else {
                    (0u8, 0u8, 0u8, 255u8)
                };
                let background_color: (u8, u8, u8, u8) = if nc {
                    g.not_castable_background
                } else {
                    (28u8, 64u8, 122u8, 255u8)
                };
                let key_color: (u8, u8, u8) = if nc { (239u8, 76u8, 76u8) } else { (255u8, 255u8, 255u8) };
                let hovered = mouse_x > #[verifier::truncate] (icon_x as u16)
                    && mouse_x < #[verifier::truncate] ((icon_x + g.icon_size) as u16)
                    && mouse_y > #[verifier::truncate] (y as u16)
                    && mouse_y < #[verifier::truncate] ((y + g.icon_size) as u16);
                let slot = SkillSlotDraw {
                    skill_key: key,
                    skill,
                    border_x,
                    border_y: y + g.outer_border,
                    border_color,
                    icon_x,
                    icon_y,
                    background_color,
                    key_x: -2 + icon_x + g.icon_size - key_font_size,
                    key_y: -2 + icon_y + g.icon_size - key_font_size,
                    key_color,
                    hovered,
                };
                proof {
                    assert(slot == slot_at(g, start_x as int, y as int, j as int, key, skill,
                        not_castable@[skill_key_index(key)], selected, mouse_x, mouse_y,
                        key_font_size as int));
                    assert(out@.push(slot) + slots_from(g, start_x as int, y as int, keys@,
                        input.skills_for_keys@, not_castable@, selected, mouse_x, mouse_y,
                        key_font_size as int, k + 1, j + 1) =~= out@ + rest);
                }
                out.push(slot);
                j = j + 1;
            },
            None => {},
        }
        k = k + 1;
    }
    proof {
        assert(out@ + Seq::<SkillSlotDraw>::empty() =~= out@);
    }
    out
}

/// The main bar on a screen of `resolution_w` by `resolution_h`: its slots,
/// and the top edge of the bar. `not_castable` tells, by skill key index,
/// which skills cannot be cast now; `selected` is the key whose skill's
/// target is being chosen.
pub fn main_skill_bar_layout(
    input: &HumanInputComponent,
    not_castable: &Vec<bool>,
    selected: Option<SkillKey>,
    mouse_x: u16,
    mouse_y: u16,
    resolution_w: u32,
    resolution_h: u32,
    key_font_size: i32,
) -> (r: (Vec<SkillSlotDraw>, i32))
    requires
        input.wf(),
        not_castable@.len() == SKILLKEY_COUNT,
        (resolution_h as i32) >= i32::MIN + 186,
        0 <= key_font_size <= 64,
    ensures
        r.1 == (resolution_h as i32) - 48 - 20 - 6 * 2 - 3 * 2,
        r.0@ == slots_from(main_geometry(), bar_start_x(main_geometry(), 5, resolution_w), r.1 as int,
            main_keys(), input.skills_for_keys@, not_castable@, selected, mouse_x, mouse_y,
            key_font_size as int, 0, 0),
{
    let g = BarGeometry {
        icon_size: 48,
        inner_border: 3,
        outer_border: 6,
        space: 4,
        not_castable_background: (179u8, 179u8, 179u8, 255u8),
    };
    let keys: Vec<SkillKey> = vec![SkillKey::Q, SkillKey::W, SkillKey::E, SkillKey::R, SkillKey::D];
    let count: i32 = 5;
    let width = g.outer_border * 2 + count * g.icon_size + g.inner_border * count * 2 + (count - 1)
        * g.space;
    let start_x = #[verifier::truncate] (resolution_w as i32) / 2 - width / 2;
    let y = #[verifier::truncate] (resolution_h as i32) - g.icon_size - 20 - g.outer_border * 2 - g.inner_border * 2;
    proof {
        assert(keys@ =~= main_keys());
        assert(g == main_geometry());
    }
    let slots = layout_slots(g, start_x, y, &keys, input, not_castable, selected, mouse_x, mouse_y,
        key_font_size);
    (slots, y)
}

/// The secondary bar above the main bar, whose top edge is
/// `main_skill_bar_top`; see `main_skill_bar_layout`.
pub fn secondary_skill_bar_layout(
    input: &HumanInputComponent,
    not_castable: &Vec<bool>,
    selected: Option<SkillKey>,
    mouse_x: u16,
    mouse_y: u16,
    resolution_w: u32,
    main_skill_bar_top: i32,
    key_font_size: i32,
) -> (r: Vec<SkillSlotDraw>)
    requires
        input.wf(),
        not_castable@.len() == SKILLKEY_COUNT,
        main_skill_bar_top >= i32::MIN + 142,
        main_skill_bar_top <= i32::MAX - 44,
        0 <= key_font_size <= 64,
    ensures
        r@ == slots_from(secondary_geometry(), bar_start_x(secondary_geometry(), 3, resolution_w),
            main_skill_bar_top - 32 - 2 * 2 - 3 * 2, secondary_keys(), input.skills_for_keys@,
            not_castable@, selected, mouse_x, mouse_y, key_font_size as int, 0, 0),
{
    let g = BarGeometry {
        icon_size: 32,
        inner_border: 2,
        outer_border: 3,
        space: 2,
        not_castable_background: (233u8, 76u8, 76u8, 255u8),
    };
    let keys: Vec<SkillKey> = vec![SkillKey::Num1, SkillKey::Num2, SkillKey::Num3];
    let count: i32 = 3;
    let width = g.outer_border * 2 + count * g.icon_size + g.inner_border * count * 2 + (count - 1)
        * g.space;
    let start_x = #[verifier::truncate] (resolution_w as i32) / 2 - width / 2;
    let y = main_skill_bar_top - g.icon_size - g.inner_border * 2 - g.outer_border * 2;
    proof {
        assert(keys@ =~= secondary_keys());
        assert(g == secondary_geometry());
    }
    layout_slots(g, start_x, y, &keys, input, not_castable, selected, mouse_x, mouse_y, key_font_size)
}

} // verus!
