//! Turning a frame's window events into the player's input state, then
//! running the key bindings that fired, cycling the camera mode and
//! switching skill sets.
use vstd::prelude::*;
use crate::input::{
    forget, lemma_wf_from_parts, others_same, spec_pressed, spec_released, CameraMode,
    HumanInputComponent, KeyState, SkillKey, KEY_COUNT, SKILLKEY_COUNT,
};
use crate::skills::Skills;

verus! {

/// Key code of the left Ctrl key.
pub const SCANCODE_LCTRL: usize = 224;

/// Key code of the left Shift key.
pub const SCANCODE_LSHIFT: usize = 225;

/// Key code of the left Alt key.
pub const SCANCODE_LALT: usize = 226;

/// Key code of the L key, which cycles the camera mode.
pub const SCANCODE_L: usize = 15;

/// Key code of the F12 key, which switches skill sets.
pub const SCANCODE_F12: usize = 69;

/// A mouse button.
#[derive(Clone, Copy, Debug, PartialEq, Eq, Structural)]
pub enum MouseButton {
    Left,
    Right,
    Other,
}

/// A window event, as far as the input state is concerned. Key events
/// carry the key code (if the key has one) and which of Alt, Ctrl and
/// Shift were held.
pub enum InputEvent {
    MouseButtonDown(MouseButton),
    MouseButtonUp(MouseButton),
    MouseMotion { x: i32, y: i32 },
    MouseWheel { y: i32 },
    KeyDown { scancode: Option<usize>, alt: bool, ctrl: bool, shift: bool },
    KeyUp { scancode: Option<usize>, alt: bool, ctrl: bool, shift: bool },
    TextInput(String),
    Other,
}

/// The part of the input state that events change.
pub struct InputModel {
    pub left_mouse_down: bool,
    pub right_mouse_down: bool,
    pub left_mouse_pressed: bool,
    pub right_mouse_pressed: bool,
    pub left_mouse_released: bool,
    pub right_mouse_released: bool,
    pub mouse_wheel: i32,
    pub delta_mouse_x: i32,
    pub delta_mouse_y: i32,
    pub last_mouse_x: u16,
    pub last_mouse_y: u16,
    pub alt_down: bool,
    pub ctrl_down: bool,
    pub shift_down: bool,
    pub text: Seq<char>,
    pub keys: Seq<KeyState>,
    pub pressed: Seq<usize>,
    pub released: Seq<usize>,
}

/// The event-driven part of `h`.
pub open spec fn model(h: &HumanInputComponent) -> InputModel {
    InputModel {
        left_mouse_down: h.left_mouse_down,
        right_mouse_down: h.right_mouse_down,
        left_mouse_pressed: h.left_mouse_pressed,
        right_mouse_pressed: h.right_mouse_pressed,
        left_mouse_released: h.left_mouse_released,
        right_mouse_released: h.right_mouse_released,
        mouse_wheel: h.mouse_wheel,
        delta_mouse_x: h.delta_mouse_x,
        delta_mouse_y: h.delta_mouse_y,
        last_mouse_x: h.last_mouse_x,
        last_mouse_y: h.last_mouse_y,
        alt_down: h.alt_down,
        ctrl_down: h.ctrl_down,
        shift_down: h.shift_down,
        text: h.text@,
        keys: h.keys@,
        pressed: h.keys_pressed_in_prev_frame@,
        released: h.keys_released_in_prev_frame@,
    }
}

/// Whether an event can be taken in: key codes are tracked ones, and a
/// mouse position gives a movement that fits 32 bits.
pub open spec fn event_ok(e: InputEvent) -> bool {
    match e {
        InputEvent::KeyDown { scancode: Some(k), .. } => k < KEY_COUNT,
        InputEvent::KeyUp { scancode: Some(k), .. } => k < KEY_COUNT,
        InputEvent::MouseMotion { x, y } => i32::MIN + 65535 <= x && i32::MIN + 65536 <= y,
        _ => true,
    }
}

/// Whether a key code is Ctrl or Alt, whose events count only together
/// with another key (a lone Alt stays down after switching windows).
pub open spec fn is_ctrl_or_alt(k: usize) -> bool {
    k == SCANCODE_LCTRL || k == SCANCODE_LALT
}

/// The state after a key event: the key's new state, the key remembered
/// for clean-up when its state really changed, and the held modifiers
/// added.
pub open spec fn key_step(m: InputModel, k: usize, down: bool, alt: bool, ctrl: bool, shift: bool) -> InputModel {
    let old_key = m.keys[k as int];
    InputModel {
        keys: m.keys.update(k as int, if down { spec_pressed(old_key) } else { spec_released(old_key) }),
        pressed: if down && !old_key.down { m.pressed.push(k) } else { m.pressed },
        released: if !down && old_key.down { m.released.push(k) } else { m.released },
        alt_down: m.alt_down || alt,
        ctrl_down: m.ctrl_down || ctrl,
        shift_down: m.shift_down || shift,
        ..m
    }
}

/// The state after one event.
pub open spec fn step(m: InputModel, e: InputEvent) -> InputModel {
    match e {
        InputEvent::MouseButtonDown(MouseButton::Left) => InputModel {
            left_mouse_down: true,
            left_mouse_pressed: true,
            left_mouse_released: false,
            ..m
        },
        InputEvent::MouseButtonDown(MouseButton::Right) => InputModel {
            right_mouse_down: true,
            right_mouse_pressed: true,
            right_mouse_released: false,
            ..m
        },
        InputEvent::MouseButtonUp(MouseButton::Left) => InputModel { left_mouse_down: false, left_mouse_released: true, ..m },
        InputEvent::MouseButtonUp(MouseButton::Right) => InputModel {
            right_mouse_down: false,
            right_mouse_released: true,
            ..m
        },
        InputEvent::MouseMotion { x, y } => InputModel {
            delta_mouse_x: (x - m.last_mouse_x) as i32,
            delta_mouse_y: (m.last_mouse_y - y) as i32,
            last_mouse_x: x as u16,
            last_mouse_y: y as u16,
            ..m
        },
        InputEvent::MouseWheel { y } => InputModel { mouse_wheel: y, ..m },
        InputEvent::KeyDown { scancode: Some(k), alt, ctrl, shift } => if is_ctrl_or_alt(k) {
            m
        } else {
            key_step(m, k, true, alt, ctrl, shift)
        },
        InputEvent::KeyUp { scancode: Some(k), alt, ctrl, shift } => if is_ctrl_or_alt(k) {
            m
        } else {
            key_step(m, k, false, alt, ctrl, shift)
        },
        InputEvent::TextInput(t) => InputModel { text: t@, ..m },
        _ => m,
    }
}

/// The state at the start of a frame: this frame's clicks, wheel, movement,
/// modifiers and text cleared, and last frame's presses and releases
/// forgotten.
pub open spec fn frame_start(m: InputModel) -> InputModel {
    InputModel {
        left_mouse_released: false,
        right_mouse_released: false,
        right_mouse_pressed: false,
        left_mouse_pressed: false,
        mouse_wheel: 0,
        delta_mouse_x: 0,
        delta_mouse_y: 0,
        alt_down: false,
        ctrl_down: false,
        shift_down: false,
        text: Seq::empty(),
        keys: Seq::new(
            m.keys.len(),
            |i: int| forget(m.keys[i], m.pressed.contains(i as usize), m.released.contains(i as usize)),
        ),
        pressed: Seq::empty(),
        released: Seq::empty(),
        ..m
    }
}

/// The state after the events, in order.
pub open spec fn steps(m: InputModel, events: Seq<InputEvent>) -> InputModel
    decreases events.len(),
{
    if events.len() == 0 {
        m
    } else {
        step(steps(m, events.drop_last()), events.last())
    }
}

/// The fields that events leave alone are the same in both states.
pub open spec fn same_settings(a: &HumanInputComponent, b: &HumanInputComponent) -> bool {
    &&& a.is_console_open == b.is_console_open
    &&& a.username@ == b.username@
    &&& a.cast_mode == b.cast_mode
    &&& a.camera_movement_mode == b.camera_movement_mode
    &&& a.skills_for_keys@ == b.skills_for_keys@
    &&& a.key_bindings@ == b.key_bindings@
}

/// The state with Alt, Ctrl and Shift marked held where the event says so.
pub open spec fn with_modifiers(m: InputModel, alt: bool, ctrl: bool, shift: bool) -> InputModel {
    InputModel { alt_down: m.alt_down || alt, ctrl_down: m.ctrl_down || ctrl, shift_down: m.shift_down || shift, ..m }
}

/// Marks the modifiers held; see `with_modifiers`.
fn apply_modifiers(input: &mut HumanInputComponent, alt: bool, ctrl: bool, shift: bool)
    requires
        old(input).wf(),
    ensures
        final(input).wf(),
        model(final(input)) == with_modifiers(model(old(input)), alt, ctrl, shift),
        same_settings(final(input), old(input)),
{
    if alt {
        input.alt_down = true;
    }
    if ctrl {
        input.ctrl_down = true;
    }
    if shift {
        input.shift_down = true;
    }
    proof {
        lemma_wf_from_parts(old(input), input);
    }
}

/// Presses or releases key `k`.
#[verifier::rlimit(60)]
fn press_or_release(input: &mut HumanInputComponent, k: usize, down: bool)
    requires
        old(input).wf(),
        k < KEY_COUNT,
    ensures
        final(input).wf(),
        model(final(input)) == key_step(model(old(input)), k, down, false, false, false),
        same_settings(final(input), old(input)),
{
    if down {
        input.key_pressed(k);
    } else {
        input.key_released(k);
    }
}

/// Takes in a key event for key `k`; see `key_step`.
fn key_event(input: &mut HumanInputComponent, k: usize, down: bool, alt: bool, ctrl: bool, shift: bool)
    requires
        old(input).wf(),
        k < KEY_COUNT,
    ensures
        final(input).wf(),
        model(final(input)) == (if is_ctrl_or_alt(k) {
            model(old(input))
        } else {
            key_step(model(old(input)), k, down, alt, ctrl, shift)
        }),
        same_settings(final(input), old(input)),
{
    if !(k == SCANCODE_LCTRL || k == SCANCODE_LALT) {
        press_or_release(input, k, down);
        apply_modifiers(input, alt, ctrl, shift);
    }
}

/// Takes in an event that is no key event; see `step`.
#[verifier::rlimit(60)]
fn other_event(input: &mut HumanInputComponent, e: &InputEvent)
    requires
        old(input).wf(),
        event_ok(*e),
        !(*e is KeyDown),
        !(*e is KeyUp),
    ensures
        final(input).wf(),
        model(final(input)) == step(model(old(input)), *e),
        same_settings(final(input), old(input)),
{
    match e {
        InputEvent::MouseButtonDown(MouseButton::Left) => {
            input.left_mouse_down = true;
            input.left_mouse_pressed = true;
            input.left_mouse_released = false;
        },
        InputEvent::MouseButtonDown(MouseButton::Right) => {
            input.right_mouse_down = true;
            input.right_mouse_pressed = true;
            input.right_mouse_released = false;
        },
        InputEvent::MouseButtonUp(MouseButton::Left) => {
            input.left_mouse_down = false;
            input.left_mouse_released = true;
        },
        InputEvent::MouseButtonUp(MouseButton::Right) => {
            input.right_mouse_down = false;
            input.right_mouse_released = true;
        },
        InputEvent::MouseMotion { x, y } => {
            input.delta_mouse_x = *x - input.last_mouse_x as i32;
            input.delta_mouse_y = input.last_mouse_y as i32 - *y;
            input.last_mouse_x = #[verifier::truncate] (*x as u16);
            input.last_mouse_y = #[verifier::truncate] (*y as u16);
        },
        InputEvent::MouseWheel { y } => {
            input.mouse_wheel = *y;
        },
        InputEvent::TextInput(t) => {
            input.text = t.clone();
        },
        _ => {},
    }
    proof {
        lemma_wf_from_parts(old(input), input);
    }
}

/// Takes in one event; see `step`.
pub fn consume_event(input: &mut HumanInputComponent, e: &InputEvent)
    requires
        old(input).wf(),
        event_ok(*e),
    ensures
        final(input).wf(),
        model(final(input)) == step(model(old(input)), *e),
        same_settings(final(input), old(input)),
{
    match e {
        InputEvent::KeyDown { scancode: Some(k), alt, ctrl, shift } => {
            key_event(input, *k, true, *alt, *ctrl, *shift);
        },
        InputEvent::KeyUp { scancode: Some(k), alt, ctrl, shift } => {
            key_event(input, *k, false, *alt, *ctrl, *shift);
        },
        InputEvent::KeyDown { scancode: None, .. } => {},
        InputEvent::KeyUp { scancode: None, .. } => {},
        _ => {
            other_event(input, e);
        },
    }
}

/// Starts a frame; see `frame_start`.
pub fn start_frame(input: &mut HumanInputComponent)
    requires
        old(input).wf(),
    ensures
        final(input).wf(),
        model(final(input)) == frame_start(model(old(input))),
        same_settings(final(input), old(input)),
{
    input.left_mouse_released = false;
    input.right_mouse_released = false;
    input.right_mouse_pressed = false;
    input.left_mouse_pressed = false;
    input.mouse_wheel = 0;
    input.delta_mouse_x = 0;
    input.delta_mouse_y = 0;
    input.alt_down = false;
    input.ctrl_down = false;
    input.shift_down = false;
    input.text = String::new();
    proof {
        lemma_wf_from_parts(old(input), input);
    }
    let ghost before = model(input);
    input.cleanup_released_keys();
    assert(input.keys@ =~= Seq::new(
        before.keys.len(),
        |i: int| forget(before.keys[i], before.pressed.contains(i as usize), before.released.contains(i as usize)),
    ));
    assert(input.keys_pressed_in_prev_frame@ =~= Seq::<usize>::empty());
    assert(input.keys_released_in_prev_frame@ =~= Seq::<usize>::empty());
    assert(input.text@ =~= Seq::<char>::empty());
}

/// Starts a frame and takes in its events, in order.
pub fn consume_events(input: &mut HumanInputComponent, events: &Vec<InputEvent>)
    requires
        old(input).wf(),
        forall|i: int| 0 <= i < events@.len() ==> event_ok(#[trigger] events@[i]),
    ensures
        final(input).wf(),
        model(final(input)) == steps(frame_start(model(old(input))), events@),
        same_settings(final(input), old(input)),
{
    start_frame(input);
    let ghost m0 = model(input);
    let mut i: usize = 0;
    assert(events@.take(0) =~= Seq::<InputEvent>::empty());
    while i < events.len()
        invariant
            input.wf(),
            i <= events@.len(),
            forall|j: int| 0 <= j < events@.len() ==> event_ok(#[trigger] events@[j]),
            m0 == frame_start(model(old(input))),
            model(input) == steps(m0, events@.take(i as int)),
            same_settings(input, old(input)),
        decreases events@.len() - i,
    {
        consume_event(input, &events[i]);
        assert(events@.take(i + 1).drop_last() =~= events@.take(i as int));
        i = i + 1;
    }
    assert(events@.take(events@.len() as int) =~= events@);
}

/// What checking a key binding found so far: whether every key checked
/// was just pressed, which modifiers the binding needs, and its last
/// ordinary key.
pub struct BindingScan {
    pub all_down: bool,
    pub need_alt: bool,
    pub need_ctrl: bool,
    pub need_shift: bool,
    pub key: Option<usize>,
}

/// Checks the binding's key codes from the `i`-th on, up to the first
/// missing one: Alt, Ctrl and Shift mark the modifier as needed; any other
/// key becomes the binding's key and must have been just pressed, else the
/// check stops there.
pub open spec fn scan_binding(keys: Seq<Option<usize>>, states: Seq<KeyState>, i: int, acc: BindingScan) -> BindingScan
    decreases keys.len() - i,
{
    if i >= keys.len() || i < 0 {
        acc
    } else {
        match keys[i] {
            None => acc,
            Some(k) => if k == SCANCODE_LALT {
                scan_binding(keys, states, i + 1, BindingScan { need_alt: true, ..acc })
            } else if k == SCANCODE_LCTRL {
                scan_binding(keys, states, i + 1, BindingScan { need_ctrl: true, ..acc })
            } else if k == SCANCODE_LSHIFT {
                scan_binding(keys, states, i + 1, BindingScan { need_shift: true, ..acc })
            } else if states[k as int].just_pressed {
                scan_binding(keys, states, i + 1, BindingScan { key: Some(k), ..acc })
            } else {
                BindingScan { all_down: false, key: Some(k), ..acc }
            },
        }
    }
}

/// The check of a whole binding.
pub open spec fn binding_scan(keys: Seq<Option<usize>>, states: Seq<KeyState>) -> BindingScan {
    scan_binding(keys, states, 0, BindingScan { all_down: true, need_alt: false, need_ctrl: false, need_shift: false, key: None })
}

/// Whether a binding fires: its keys were just pressed and exactly the
/// modifiers it needs are held.
pub open spec fn binding_fires(keys: Seq<Option<usize>>, m: InputModel) -> bool {
    let sc = binding_scan(keys, m.keys);
    sc.all_down && sc.need_alt == m.alt_down && sc.need_ctrl == m.ctrl_down && sc.need_shift == m.shift_down
}

/// The scripts of the bindings that fire, from the `i`-th binding on, and
/// the key of the first firing binding that has one, where the search
/// stops.
pub open spec fn fire_bindings(bs: Seq<([Option<usize>; 4], String)>, m: InputModel, i: int) -> (Seq<Seq<char>>, Option<usize>)
    decreases bs.len() - i,
{
    if i >= bs.len() || i < 0 {
        (Seq::empty(), None)
    } else if binding_fires(bs[i].0@, m) {
        match binding_scan(bs[i].0@, m.keys).key {
            Some(k) => (seq![bs[i].1@], Some(k)),
            None => {
                let rest = fire_bindings(bs, m, i + 1);
                (seq![bs[i].1@] + rest.0, rest.1)
            },
        }
    } else {
        fire_bindings(bs, m, i + 1)
    }
}

/// Whether every key code of the bindings is a tracked one.
pub open spec fn bindings_ok(bs: Seq<([Option<usize>; 4], String)>) -> bool {
    forall|i: int, j: int| 0 <= i < bs.len() && 0 <= j < 4 ==> (#[trigger] bs[i].0@[j] matches Some(k) ==> k < KEY_COUNT)
}

/// Checks one binding; see `binding_scan`.
fn check_binding(input: &HumanInputComponent, keys: &[Option<usize>; 4]) -> (r: (bool, Option<usize>))
    requires
        input.wf(),
        forall|j: int| 0 <= j < 4 ==> (#[trigger] keys@[j] matches Some(k) ==> k < KEY_COUNT),
    ensures
        r.0 == binding_fires(keys@, model(input)),
        r.1 == binding_scan(keys@, model(input).keys).key,
        r.1 matches Some(k) ==> k < KEY_COUNT,
{
    let ghost states = model(input).keys;
    let ghost start = BindingScan { all_down: true, need_alt: false, need_ctrl: false, need_shift: false, key: None };
    let mut all_down = true;
    let mut need_alt = false;
    let mut need_ctrl = false;
    let mut need_shift = false;
    let mut key: Option<usize> = None;
    let mut i: usize = 0;
    let mut stop = false;
    while i < 4 && !stop
        invariant
            input.wf(),
            states == model(input).keys,
            forall|j: int| 0 <= j < 4 ==> (#[trigger] keys@[j] matches Some(k) ==> k < KEY_COUNT),
            i <= 4,
            key matches Some(k) ==> k < KEY_COUNT,
            stop ==> binding_scan(keys@, states) == (BindingScan { all_down, need_alt, need_ctrl, need_shift, key }),
            !stop ==> all_down && binding_scan(keys@, states) == scan_binding(
                keys@,
                states,
                i as int,
                BindingScan { all_down, need_alt, need_ctrl, need_shift, key },
            ),
        decreases 2 * (4 - i) + (if stop { 0int } else { 1int }),
    {
        match keys[i] {
            None => {
                stop = true;
            },
            Some(k) => {
                if k == SCANCODE_LALT {
                    need_alt = true;
                } else if k == SCANCODE_LCTRL {
                    need_ctrl = true;
                } else if k == SCANCODE_LSHIFT {
                    need_shift = true;
                } else {
                    key = Some(k);
                    if !input.is_key_just_pressed(k) {
                        all_down = false;
                        stop = true;
                    }
                }
            },
        }
        if !stop {
            i = i + 1;
        }
    }
    let fires = all_down && need_alt == input.alt_down && need_ctrl == input.ctrl_down && need_shift == input.shift_down;
    (fires, key)
}

/// The scripts found so far in front of those still to be found.
pub open spec fn prepend_scripts(done: Seq<Seq<char>>, rest: (Seq<Seq<char>>, Option<usize>)) -> (Seq<Seq<char>>, Option<usize>) {
    (done + rest.0, rest.1)
}

/// The texts of a list of strings.
pub open spec fn texts(v: Seq<String>) -> Seq<Seq<char>> {
    v.map_values(|t: String| t@)
}

/// Runs the key bindings; see `fire_bindings`.
fn run_bindings(input: &HumanInputComponent) -> (r: (Vec<String>, Option<usize>))
    requires
        input.wf(),
        bindings_ok(input.key_bindings@),
    ensures
        texts(r.0@) == fire_bindings(input.key_bindings@, model(input), 0).0,
        r.1 == fire_bindings(input.key_bindings@, model(input), 0).1,
        r.1 matches Some(k) ==> k < KEY_COUNT,
{
    let ghost bs = input.key_bindings@;
    let ghost m = model(input);
    let mut scripts: Vec<String> = Vec::new();
    let mut i: usize = 0;
    proof {
        assert(texts(scripts@) =~= Seq::<Seq<char>>::empty());
        let f = fire_bindings(bs, m, 0);
        assert(Seq::<Seq<char>>::empty() + f.0 =~= f.0);
    }
    while i < input.key_bindings.len()
        invariant
            input.wf(),
            bs == input.key_bindings@,
            m == model(input),
            bindings_ok(bs),
            i <= bs.len(),
            fire_bindings(bs, m, 0) == prepend_scripts(texts(scripts@), fire_bindings(bs, m, i as int)),
        decreases bs.len() - i,
    {
        let (fires, key) = check_binding(input, &input.key_bindings[i].0);
        if fires {
            let script = input.key_bindings[i].1.clone();
            proof {
                assert(texts(scripts@.push(script)) =~= texts(scripts@) + seq![bs[i as int].1@]);
            }
            scripts.push(script);
            match key {
                Some(k) => {
                    proof {
                        assert(texts(scripts@) + Seq::<Seq<char>>::empty() =~= texts(scripts@));
                    }
                    return (scripts, Some(k));
                },
                None => {
                    proof {
                        let rest = fire_bindings(bs, m, i + 1);
                        assert(texts(scripts@) + rest.0 =~= (texts(scripts@).drop_last()) + (seq![bs[i as int].1@] + rest.0));
                    }
                },
            }
        }
        i = i + 1;
    }
    proof {
        assert(texts(scripts@) + Seq::<Seq<char>>::empty() =~= texts(scripts@));
    }
    (scripts, None)
}

/// The camera mode after L: following the character, then moving freely
/// at a fixed angle, then moving freely, then following again.
pub open spec fn next_camera_mode(mode: CameraMode) -> CameraMode {
    match mode {
        CameraMode::Free => CameraMode::FollowChar,
        CameraMode::FollowChar => CameraMode::FreeMoveButFixedAngle,
        CameraMode::FreeMoveButFixedAngle => CameraMode::Free,
    }
}

/// Index of a skill key in the skill slots.
pub open spec fn slot(k: SkillKey) -> int {
    crate::input::skill_key_index(k)
}

/// The skills after F12: the skill on Q picks the next set of skills.
pub open spec fn next_skill_set(s: Seq<Option<Skills>>) -> Seq<Option<Skills>> {
    match s[slot(SkillKey::Q)] {
        Some(Skills::FireWall) => s.update(slot(SkillKey::Q), Some(Skills::Poison)).update(
            slot(SkillKey::W),
            Some(Skills::FireBomb),
        ).update(slot(SkillKey::E), Some(Skills::Cure)).update(slot(SkillKey::R), Some(Skills::Lightning)).update(
            slot(SkillKey::Num1),
            Some(Skills::Sanctuary),
        ).update(slot(SkillKey::Num2), Some(Skills::ExoSkeleton)).update(slot(SkillKey::Num3), Some(Skills::GazBarricade)),
        Some(Skills::Poison) => s.update(slot(SkillKey::Q), Some(Skills::WizPyroBlast)).update(
            slot(SkillKey::W),
            Some(Skills::AssaBladeDash),
        ).update(slot(SkillKey::E), Some(Skills::AssaPhasePrism)).update(slot(SkillKey::R), Some(Skills::GazXplodiumCharge)),
        Some(Skills::WizPyroBlast) => s.update(slot(SkillKey::Q), Some(Skills::GazTurret)).update(
            slot(SkillKey::D),
            Some(Skills::GazDestroyTurret),
        ).update(slot(SkillKey::Num1), Some(Skills::GazTurretTarget)).update(slot(SkillKey::Num2), Some(Skills::FalconCarry)).update(
            slot(SkillKey::Num3),
            Some(Skills::FalconAttack),
        ),
        Some(Skills::GazTurret) => s.update(slot(SkillKey::Q), Some(Skills::FireWall)).update(
            slot(SkillKey::W),
            Some(Skills::AbsorbShield),
        ).update(slot(SkillKey::E), Some(Skills::Heal)).update(slot(SkillKey::R), Some(Skills::BrutalTestSkill)),
        _ => s,
    }
}

/// Switches to the next skill set; see `next_skill_set`.
fn switch_skill_set(input: &mut HumanInputComponent)
    requires
        old(input).wf(),
    ensures
        final(input).wf(),
        final(input).skills_for_keys@ == next_skill_set(old(input).skills_for_keys@),
        model(final(input)) == model(old(input)),
        final(input).is_console_open == old(input).is_console_open,
        final(input).username@ == old(input).username@,
        final(input).cast_mode == old(input).cast_mode,
        final(input).camera_movement_mode == old(input).camera_movement_mode,
        final(input).key_bindings@ == old(input).key_bindings@,
{
    match input.get_skill_for_key(SkillKey::Q) {
        Some(Skills::FireWall) => {
            input.assign_skill(SkillKey::Q, Skills::Poison);
            input.assign_skill(SkillKey::W, Skills::FireBomb);
            input.assign_skill(SkillKey::E, Skills::Cure);
            input.assign_skill(SkillKey::R, Skills::Lightning);
            input.assign_skill(SkillKey::Num1, Skills::Sanctuary);
            input.assign_skill(SkillKey::Num2, Skills::ExoSkeleton);
            input.assign_skill(SkillKey::Num3, Skills::GazBarricade);
        },
        Some(Skills::Poison) => {
            input.assign_skill(SkillKey::Q, Skills::WizPyroBlast);
            input.assign_skill(SkillKey::W, Skills::AssaBladeDash);
            input.assign_skill(SkillKey::E, Skills::AssaPhasePrism);
            input.assign_skill(SkillKey::R, Skills::GazXplodiumCharge);
        },
        Some(Skills::WizPyroBlast) => {
            input.assign_skill(SkillKey::Q, Skills::GazTurret);
            input.assign_skill(SkillKey::D, Skills::GazDestroyTurret);
            input.assign_skill(SkillKey::Num1, Skills::GazTurretTarget);
            input.assign_skill(SkillKey::Num2, Skills::FalconCarry);
            input.assign_skill(SkillKey::Num3, Skills::FalconAttack);
        },
        Some(Skills::GazTurret) => {
            input.assign_skill(SkillKey::Q, Skills::FireWall);
            input.assign_skill(SkillKey::W, Skills::AbsorbShield);
            input.assign_skill(SkillKey::E, Skills::Heal);
            input.assign_skill(SkillKey::R, Skills::BrutalTestSkill);
        },
        _ => {},
    }
}

/// The state after the binding that stopped the search (if any) had its
/// key pressed once more, which leaves it down but no longer just pressed,
/// and the typed text dropped.
pub open spec fn after_bindings(m: InputModel, key: Option<usize>) -> InputModel {
    match key {
        Some(k) => InputModel { text: Seq::empty(), ..key_step(m, k, true, false, false, false) },
        None => m,
    }
}

/// Runs the key bindings that fired; see `fire_bindings` and
/// `after_bindings`. Gives the scripts to run.
fn apply_bindings(input: &mut HumanInputComponent) -> (r: Vec<String>)
    requires
        old(input).wf(),
        bindings_ok(old(input).key_bindings@),
    ensures
        final(input).wf(),
        model(final(input)) == after_bindings(
            model(old(input)),
            fire_bindings(old(input).key_bindings@, model(old(input)), 0).1,
        ),
        texts(r@) == fire_bindings(old(input).key_bindings@, model(old(input)), 0).0,
        same_settings(final(input), old(input)),
{
    let (scripts, key) = run_bindings(input);
    match key {
        Some(k) => {
            press_or_release(input, k, true);
            let ghost pressed = *input;
            input.text = String::new();
            proof {
                crate::input::lemma_wf_from_parts(&pressed, input);
                assert(input.text@ =~= Seq::<char>::empty());
            }
        },
        None => {},
    }
    scripts
}

/// Cycles the camera mode when L was just released and the console is
/// closed; gives whether the camera is to be put back behind the character.
fn cycle_camera(input: &mut HumanInputComponent) -> (r: bool)
    requires
        old(input).wf(),
    ensures
        ({
            let cycle = model(old(input)).keys[SCANCODE_L as int].just_released && !old(input).is_console_open;
            &&& final(input).camera_movement_mode == (if cycle {
                next_camera_mode(old(input).camera_movement_mode)
            } else {
                old(input).camera_movement_mode
            })
            &&& r == (cycle && old(input).camera_movement_mode == CameraMode::Free)
        }),
        final(input).wf(),
        model(final(input)) == model(old(input)),
        final(input).is_console_open == old(input).is_console_open,
        final(input).username@ == old(input).username@,
        final(input).cast_mode == old(input).cast_mode,
        final(input).key_bindings@ == old(input).key_bindings@,
        final(input).skills_for_keys@ == old(input).skills_for_keys@,
{
    let mut reset_camera = false;
    if input.is_key_just_released(SCANCODE_L) && !input.is_console_open {
        match input.camera_movement_mode {
            CameraMode::Free => {
                input.camera_movement_mode = CameraMode::FollowChar;
                reset_camera = true;
            },
            CameraMode::FollowChar => {
                input.camera_movement_mode = CameraMode::FreeMoveButFixedAngle;
            },
            CameraMode::FreeMoveButFixedAngle => {
                input.camera_movement_mode = CameraMode::Free;
            },
        }
    }
    proof {
        crate::input::lemma_wf_from_parts(old(input), input);
    }
    reset_camera
}

/// Switches skill sets when F12 was just released.
fn maybe_switch_skill_set(input: &mut HumanInputComponent)
    requires
        old(input).wf(),
    ensures
        final(input).wf(),
        final(input).skills_for_keys@ == (if model(old(input)).keys[SCANCODE_F12 as int].just_released {
            next_skill_set(old(input).skills_for_keys@)
        } else {
            old(input).skills_for_keys@
        }),
        model(final(input)) == model(old(input)),
        final(input).is_console_open == old(input).is_console_open,
        final(input).username@ == old(input).username@,
        final(input).cast_mode == old(input).cast_mode,
        final(input).camera_movement_mode == old(input).camera_movement_mode,
        final(input).key_bindings@ == old(input).key_bindings@,
{
    if input.is_key_just_released(SCANCODE_F12) {
        switch_skill_set(input);
    }
}

/// What a frame's input asks of the rest of the game: the console scripts
/// of the key bindings that fired, and whether the camera is to be put
/// back behind the character.
pub struct InputFrameOutcome {
    pub scripts: Vec<String>,
    pub reset_camera: bool,
}

/// Turns each frame's window events into the player's input.
pub struct InputConsumerSystem;

impl InputConsumerSystem {
    /// Processes a frame: starts it, takes in `events`, runs the key
    /// bindings that fired, cycles the camera mode on L (unless the console
    /// is open) and switches skill sets on F12.
    pub fn run(&mut self, input: &mut HumanInputComponent, events: &Vec<InputEvent>) -> (r: InputFrameOutcome)
        requires
            old(input).wf(),
            bindings_ok(old(input).key_bindings@),
            forall|i: int| 0 <= i < events@.len() ==> event_ok(#[trigger] events@[i]),
        ensures
            ({
                let m1 = steps(frame_start(model(old(input))), events@);
                let fired = fire_bindings(old(input).key_bindings@, m1, 0);
                let m2 = after_bindings(m1, fired.1);
                let cycle = m2.keys[SCANCODE_L as int].just_released && !old(input).is_console_open;
                &&& final(input).wf()
                &&& model(final(input)) == m2
                &&& texts(r.scripts@) == fired.0
                &&& final(input).camera_movement_mode == (if cycle {
                    next_camera_mode(old(input).camera_movement_mode)
                } else {
                    old(input).camera_movement_mode
                })
                &&& r.reset_camera == (cycle && old(input).camera_movement_mode == CameraMode::Free)
                &&& final(input).skills_for_keys@ == (if m2.keys[SCANCODE_F12 as int].just_released {
                    next_skill_set(old(input).skills_for_keys@)
                } else {
                    old(input).skills_for_keys@
                })
            }),
            final(input).is_console_open == old(input).is_console_open,
            final(input).username@ == old(input).username@,
            final(input).cast_mode == old(input).cast_mode,
            final(input).key_bindings@ == old(input).key_bindings@,
    {
        consume_events(input, events);
        let scripts = apply_bindings(input);
        let reset_camera = cycle_camera(input);
        maybe_switch_skill_set(input);
        InputFrameOutcome { scripts, reset_camera }
    }
}

/// Law: three presses of L bring the camera back to the mode it had.
pub proof fn law_camera_modes_cycle(mode: CameraMode)
    ensures
        next_camera_mode(next_camera_mode(next_camera_mode(mode))) == mode,
{
}

/// Law: four presses of F12 bring the skill on Q back to the fire wall it
/// started with.
pub proof fn law_skill_sets_cycle(s: Seq<Option<Skills>>)
    requires
        s.len() == SKILLKEY_COUNT,
        s[slot(SkillKey::Q)] == Some(Skills::FireWall),
    ensures
        next_skill_set(next_skill_set(next_skill_set(next_skill_set(s))))[slot(SkillKey::Q)] == Some(Skills::FireWall),
{
}

/// Law: a lone Ctrl or Alt key event changes nothing; the two count only
/// together with another key.
pub proof fn law_lone_ctrl_alt_ignored(m: InputModel, k: usize, alt: bool, ctrl: bool, shift: bool)
    requires
        k == SCANCODE_LCTRL || k == SCANCODE_LALT,
    ensures
        step(m, InputEvent::KeyDown { scancode: Some(k), alt, ctrl, shift }) == m,
        step(m, InputEvent::KeyUp { scancode: Some(k), alt, ctrl, shift }) == m,
{
}

/// Law: the key of a binding that fired no longer counts as just pressed,
/// so nothing else takes the press too; it stays down, and the typed text
/// is dropped.
pub proof fn law_binding_swallows_press(m: InputModel, k: usize)
    requires
        0 <= k < m.keys.len(),
        m.keys[k as int].down,
    ensures
        after_bindings(m, Some(k)).keys[k as int].down,
        !after_bindings(m, Some(k)).keys[k as int].just_pressed,
        after_bindings(m, Some(k)).text.len() == 0,
{
}

} // verus!
