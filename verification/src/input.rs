//! Keyboard and cursor bookkeeping of the local player: which keys are
//! down or were pressed or released this frame, which keys cast skills,
//! and which characters lie below the cursor.
use vstd::prelude::*;
use crate::char_visuals::SpriteBoundingRect;
use crate::skills::{CharEntityId, Skills};

verus! {

/// Number of key codes tracked.
pub const KEY_COUNT: usize = 284;

/// State of one key.
#[derive(Clone, Copy, Debug, PartialEq, Eq, Structural, Default)]
pub struct KeyState {
    pub down: bool,
    pub just_pressed: bool,
    pub just_released: bool,
}

/// The key after a press: down, pressed just now unless it was down.
pub open spec fn spec_pressed(k: KeyState) -> KeyState {
    KeyState { down: true, just_pressed: !k.down, just_released: false }
}

/// The key after a release: up, released just now if it was down.
pub open spec fn spec_released(k: KeyState) -> KeyState {
    KeyState { down: false, just_pressed: false, just_released: k.down }
}

/// A key that is up and did nothing this frame.
pub open spec fn key_up() -> KeyState {
    KeyState { down: false, just_pressed: false, just_released: false }
}

/// The key with its press (if `press`) and release (if `release`) of
/// this frame forgotten.
pub open spec fn forget(k: KeyState, press: bool, release: bool) -> KeyState {
    KeyState { down: k.down, just_pressed: k.just_pressed && !press, just_released: k.just_released && !release }
}

impl KeyState {
    /// Records a press; whether it is a new one (the key was up).
    pub fn pressed(&mut self) -> (r: bool)
        ensures
            *final(self) == spec_pressed(*old(self)),
            r == !old(self).down,
    {
        self.just_pressed = !self.down;
        self.just_released = false;
        self.down = true;
        self.just_pressed
    }

    /// Records a release; whether the key was down.
    pub fn released(&mut self) -> (r: bool)
        ensures
            *final(self) == spec_released(*old(self)),
            r == old(self).down,
    {
        self.just_pressed = false;
        self.just_released = self.down;
        self.down = false;
        self.just_released
    }
}

/// Law: a key held down reports its press once: pressing it again is no
/// new press, and it is still down.
pub proof fn law_press_reported_once(k: KeyState)
    ensures
        spec_pressed(k).just_pressed == !k.down,
        !spec_pressed(spec_pressed(k)).just_pressed,
        spec_pressed(spec_pressed(k)).down,
{
}

/// Law: releasing a pressed key reports the release, and the key is up; a
/// second release reports nothing.
pub proof fn law_release_after_press(k: KeyState)
    ensures
        spec_released(spec_pressed(k)).just_released,
        !spec_released(spec_pressed(k)).down,
        !spec_released(spec_released(spec_pressed(k))).just_released,
{
}

/// The keys that cast skills.
#[derive(Clone, Copy, Debug, PartialEq, Eq, Structural)]
pub enum SkillKey {
    A,
    Q,
    W,
    E,
    R,
    D,
    Y,
    Num1,
    Num2,
    Num3,
}

/// The key code (USB HID usage, as SDL numbers its scancodes) of a skill key.
pub open spec fn spec_scancode(k: SkillKey) -> u32 {
    match k {
        SkillKey::A => 4,
        SkillKey::Q => 20,
        SkillKey::W => 26,
        SkillKey::E => 8,
        SkillKey::R => 21,
        SkillKey::D => 7,
        SkillKey::Y => 28,
        SkillKey::Num1 => 30,
        SkillKey::Num2 => 31,
        SkillKey::Num3 => 32,
    }
}

/// Position of a skill key in the declaration order above.
pub open spec fn skill_key_index(k: SkillKey) -> int {
    match k {
        SkillKey::A => 0,
        SkillKey::Q => 1,
        SkillKey::W => 2,
        SkillKey::E => 3,
        SkillKey::R => 4,
        SkillKey::D => 5,
        SkillKey::Y => 6,
        SkillKey::Num1 => 7,
        SkillKey::Num2 => 8,
        SkillKey::Num3 => 9,
    }
}

/// Number of skill keys.
pub const SKILLKEY_COUNT: usize = 10;

impl SkillKey {
    /// See `skill_key_index`.
    pub fn index(&self) -> (r: usize)
        ensures
            r == skill_key_index(*self),
    {
        match self {
            SkillKey::A => 0,
            SkillKey::Q => 1,
            SkillKey::W => 2,
            SkillKey::E => 3,
            SkillKey::R => 4,
            SkillKey::D => 5,
            SkillKey::Y => 6,
            SkillKey::Num1 => 7,
            SkillKey::Num2 => 8,
            SkillKey::Num3 => 9,
        }
    }

    /// See `spec_scancode`.
    pub fn scancode(&self) -> (r: u32)
        ensures
            r == spec_scancode(*self),
    {
        match self {
            SkillKey::Q => 20,
            SkillKey::W => 26,
            SkillKey::E => 8,
            SkillKey::R => 21,
            SkillKey::D => 7,
            SkillKey::Y => 28,
            SkillKey::Num1 => 30,
            SkillKey::Num2 => 31,
            SkillKey::Num3 => 32,
            SkillKey::A => 4,
        }
    }
}

/// When a skill bound to a key is cast.
#[derive(Clone, Copy, Debug, PartialEq, Eq, Structural)]
pub enum CastMode {
    /// The key selects a target, the left mouse button casts.
    Normal,
    /// The key selects a target, releasing it casts.
    OnKeyRelease,
    /// The key casts at once.
    OnKeyPress,
}

/// How the camera moves.
#[derive(Clone, Copy, Debug, PartialEq, Eq, Structural)]
pub enum CameraMode {
    Free,
    FreeMoveButFixedAngle,
    FollowChar,
}

proof fn lemma_push_contains(s: Seq<usize>, x: usize, y: usize)
    ensures
        s.push(x).contains(y) == (s.contains(y) || x == y),
{
    if s.contains(y) {
        let k = choose|k: int| 0 <= k < s.len() && s[k] == y;
        assert(s.push(x)[k] == y);
    }
    if x == y {
        assert(s.push(x)[s.len() as int] == y);
    }
    if s.push(x).contains(y) {
        let k = choose|k: int| 0 <= k < s.push(x).len() && s.push(x)[k] == y;
        if k < s.len() {
            assert(s[k] == y);
        }
    }
}

/// The local player's input: the console flag, cast and camera modes,
/// mouse buttons and position, modifier keys, and every key's state with
/// the keys that changed in the previous frame.
pub struct HumanInputComponent {
    pub is_console_open: bool,
    pub username: String,
    pub cast_mode: CastMode,
    pub camera_movement_mode: CameraMode,
    pub text: String,
    pub mouse_wheel: i32,
    pub left_mouse_down: bool,
    pub right_mouse_down: bool,
    pub left_mouse_pressed: bool,
    pub right_mouse_pressed: bool,
    pub left_mouse_released: bool,
    pub right_mouse_released: bool,
    pub alt_down: bool,
    pub ctrl_down: bool,
    pub shift_down: bool,
    pub last_mouse_x: u16,
    pub last_mouse_y: u16,
    pub delta_mouse_x: i32,
    pub delta_mouse_y: i32,
    pub keys: Vec<KeyState>,
    pub keys_released_in_prev_frame: Vec<usize>,
    pub keys_pressed_in_prev_frame: Vec<usize>,
    /// The skill of each skill key, in the order of `SkillKey`.
    pub skills_for_keys: Vec<Option<Skills>>,
    /// Key combinations (up to four key codes) and the console script
    /// each runs.
    pub key_bindings: Vec<([Option<usize>; 4], String)>,
}

/// Whether `a` and `b` agree on everything but the key states, the keys
/// remembered for clean-up and the skills of the skill keys.
pub open spec fn mostly_same(a: &HumanInputComponent, b: &HumanInputComponent) -> bool {
    &&& a.is_console_open == b.is_console_open
    &&& a.username@ == b.username@
    &&& a.cast_mode == b.cast_mode
    &&& a.camera_movement_mode == b.camera_movement_mode
    &&& a.text@ == b.text@
    &&& a.mouse_wheel == b.mouse_wheel
    &&& a.left_mouse_down == b.left_mouse_down
    &&& a.right_mouse_down == b.right_mouse_down
    &&& a.left_mouse_pressed == b.left_mouse_pressed
    &&& a.right_mouse_pressed == b.right_mouse_pressed
    &&& a.left_mouse_released == b.left_mouse_released
    &&& a.right_mouse_released == b.right_mouse_released
    &&& a.alt_down == b.alt_down
    &&& a.ctrl_down == b.ctrl_down
    &&& a.shift_down == b.shift_down
    &&& a.last_mouse_x == b.last_mouse_x
    &&& a.last_mouse_y == b.last_mouse_y
    &&& a.delta_mouse_x == b.delta_mouse_x
    &&& a.delta_mouse_y == b.delta_mouse_y
    &&& a.key_bindings@ == b.key_bindings@
}

/// Whether `a` and `b` agree on everything but the key states and the
/// keys remembered for clean-up.
pub open spec fn others_same(a: &HumanInputComponent, b: &HumanInputComponent) -> bool {
    &&& mostly_same(a, b)
    &&& a.skills_for_keys@ == b.skills_for_keys@
}

/// `wf` depends on the key states, the remembered keys and the number of
/// skill slots alone.
pub proof fn lemma_wf_from_parts(a: &HumanInputComponent, b: &HumanInputComponent)
    requires
        a.wf(),
        b.keys@.len() == a.keys@.len(),
        b.keys_pressed_in_prev_frame@ == a.keys_pressed_in_prev_frame@,
        b.keys_released_in_prev_frame@ == a.keys_released_in_prev_frame@,
        b.skills_for_keys@.len() == a.skills_for_keys@.len(),
    ensures
        b.wf(),
{
    assert forall|i: int| 0 <= i < b.released_keys().len() implies #[trigger] b.released_keys()[i] < KEY_COUNT by {
        assert(b.released_keys()[i] == a.released_keys()[i]);
    }
    assert forall|i: int| 0 <= i < b.pressed_keys().len() implies #[trigger] b.pressed_keys()[i] < KEY_COUNT by {
        assert(b.pressed_keys()[i] == a.pressed_keys()[i]);
    }
}

impl HumanInputComponent {
    /// The state of every key.
    pub open spec fn key_states(&self) -> Seq<KeyState> {
        self.keys@
    }

    /// Keys whose release is to be forgotten at the next clean-up.
    pub open spec fn released_keys(&self) -> Seq<usize> {
        self.keys_released_in_prev_frame@
    }

    /// Keys whose press is to be forgotten at the next clean-up.
    pub open spec fn pressed_keys(&self) -> Seq<usize> {
        self.keys_pressed_in_prev_frame@
    }

    /// Every key has a state, every skill key a slot, and the keys to
    /// clean up exist.
    pub open spec fn wf(&self) -> bool {
        &&& self.key_states().len() == KEY_COUNT
        &&& self.skills_for_keys@.len() == SKILLKEY_COUNT
        &&& forall|i: int| 0 <= i < self.released_keys().len() ==> #[trigger] self.released_keys()[i] < KEY_COUNT
        &&& forall|i: int| 0 <= i < self.pressed_keys().len() ==> #[trigger] self.pressed_keys()[i] < KEY_COUNT
    }

    /// Input of the user `username`: console closed, normal casting, the
    /// camera following the character, the mouse at (400, 300), every key up.
    pub fn new(username: &str) -> (r: Self)
        ensures
            r.wf(),
            r.username@ == username@,
            !r.is_console_open,
            r.cast_mode == CastMode::Normal,
            r.camera_movement_mode == CameraMode::FollowChar,
            r.last_mouse_x == 400 && r.last_mouse_y == 300,
            r.mouse_wheel == 0 && r.delta_mouse_x == 0 && r.delta_mouse_y == 0,
            r.text@.len() == 0,
            !r.left_mouse_down && !r.right_mouse_down && !r.left_mouse_pressed && !r.right_mouse_pressed,
            !r.left_mouse_released && !r.right_mouse_released,
            !r.alt_down && !r.ctrl_down && !r.shift_down,
            forall|i: int| 0 <= i < KEY_COUNT ==> #[trigger] r.key_states()[i] == key_up(),
            r.released_keys().len() == 0,
            r.pressed_keys().len() == 0,
            forall|i: int| 0 <= i < SKILLKEY_COUNT ==> #[trigger] r.skills_for_keys@[i] is None,
            r.key_bindings@.len() == 0,
    {
        let mut keys: Vec<KeyState> = Vec::new();
        let mut i: usize = 0;
        while i < KEY_COUNT
            invariant
                i <= KEY_COUNT,
                keys@.len() == i,
                forall|j: int| 0 <= j < i ==> #[trigger] keys@[j] == key_up(),
            decreases KEY_COUNT - i,
        {
            keys.push(KeyState { down: false, just_pressed: false, just_released: false });
            i = i + 1;
        }
        let mut skills_for_keys: Vec<Option<Skills>> = Vec::new();
        let mut k: usize = 0;
        while k < SKILLKEY_COUNT
            invariant
                k <= SKILLKEY_COUNT,
                skills_for_keys@.len() == k,
                forall|j: int| 0 <= j < k ==> #[trigger] skills_for_keys@[j] is None,
            decreases SKILLKEY_COUNT - k,
        {
            skills_for_keys.push(None);
            k = k + 1;
        }
        HumanInputComponent {
            is_console_open: false,
            username: username.to_owned(),
            cast_mode: CastMode::Normal,
            camera_movement_mode: CameraMode::FollowChar,
            text: String::new(),
            mouse_wheel: 0,
            left_mouse_down: false,
            right_mouse_down: false,
            left_mouse_pressed: false,
            right_mouse_pressed: false,
            left_mouse_released: false,
            right_mouse_released: false,
            alt_down: false,
            ctrl_down: false,
            shift_down: false,
            last_mouse_x: 400,
            last_mouse_y: 300,
            delta_mouse_x: 0,
            delta_mouse_y: 0,
            keys,
            keys_released_in_prev_frame: Vec::new(),
            keys_pressed_in_prev_frame: Vec::new(),
            skills_for_keys,
            key_bindings: Vec::new(),
        }
    }

    /// The skill bound to `skill_key`.
    pub fn get_skill_for_key(&self, skill_key: SkillKey) -> (r: Option<Skills>)
        requires
            self.wf(),
        ensures
            r == self.skills_for_keys@[skill_key_index(skill_key)],
    {
        self.skills_for_keys[skill_key.index()]
    }

    /// Binds `skill` to `skill_key`.
    pub fn assign_skill(&mut self, skill_key: SkillKey, skill: Skills)
        requires
            old(self).wf(),
        ensures
            final(self).wf(),
            final(self).skills_for_keys@ == old(self).skills_for_keys@.update(skill_key_index(skill_key), Some(skill)),
            mostly_same(final(self), old(self)),
            final(self).key_states() == old(self).key_states(),
            final(self).pressed_keys() == old(self).pressed_keys(),
            final(self).released_keys() == old(self).released_keys(),
    {
        self.skills_for_keys.set(skill_key.index(), Some(skill));
        assert forall|i: int| 0 <= i < self.released_keys().len() implies #[trigger] self.released_keys()[i] < KEY_COUNT by {
            assert(self.released_keys()[i] == old(self).released_keys()[i]);
        }
        assert forall|i: int| 0 <= i < self.pressed_keys().len() implies #[trigger] self.pressed_keys()[i] < KEY_COUNT by {
            assert(self.pressed_keys()[i] == old(self).pressed_keys()[i]);
        }
    }

    /// Records a press of `key`; a new press is remembered for clean-up.
    pub fn key_pressed(&mut self, key: usize)
        requires
            old(self).wf(),
            key < KEY_COUNT,
        ensures
            final(self).wf(),
            final(self).key_states() == old(self).key_states().update(key as int, spec_pressed(old(self).key_states()[key as int])),
            final(self).pressed_keys() == if !old(self).key_states()[key as int].down {
                old(self).pressed_keys().push(key)
            } else {
                old(self).pressed_keys()
            },
            final(self).released_keys() == old(self).released_keys(),
            others_same(final(self), old(self)),
    {
        let mut k = self.keys[key];
        let is_new = k.pressed();
        self.keys.set(key, k);
        if is_new {
            self.keys_pressed_in_prev_frame.push(key);
        }
        assert forall|i: int| 0 <= i < self.pressed_keys().len() implies #[trigger] self.pressed_keys()[i] < KEY_COUNT by {
            if i < old(self).pressed_keys().len() {
                assert(self.pressed_keys()[i] == old(self).pressed_keys()[i]);
            }
        }
        assert forall|i: int| 0 <= i < self.released_keys().len() implies #[trigger] self.released_keys()[i] < KEY_COUNT by {
            assert(self.released_keys()[i] == old(self).released_keys()[i]);
        }
    }

    /// Records a release of `key`; a release of a key that was down is
    /// remembered for clean-up.
    pub fn key_released(&mut self, key: usize)
        requires
            old(self).wf(),
            key < KEY_COUNT,
        ensures
            final(self).wf(),
            final(self).key_states() == old(self).key_states().update(key as int, spec_released(old(self).key_states()[key as int])),
            final(self).released_keys() == if old(self).key_states()[key as int].down {
                old(self).released_keys().push(key)
            } else {
                old(self).released_keys()
            },
            final(self).pressed_keys() == old(self).pressed_keys(),
            others_same(final(self), old(self)),
    {
        let mut k = self.keys[key];
        let was_down = k.released();
        self.keys.set(key, k);
        if was_down {
            self.keys_released_in_prev_frame.push(key);
        }
        assert forall|i: int| 0 <= i < self.released_keys().len() implies #[trigger] self.released_keys()[i] < KEY_COUNT by {
            if i < old(self).released_keys().len() {
                assert(self.released_keys()[i] == old(self).released_keys()[i]);
            }
        }
        assert forall|i: int| 0 <= i < self.pressed_keys().len() implies #[trigger] self.pressed_keys()[i] < KEY_COUNT by {
            assert(self.pressed_keys()[i] == old(self).pressed_keys()[i]);
        }
    }

    /// Forgets the presses and releases of the previous frame.
    pub fn cleanup_released_keys(&mut self)
        requires
            old(self).wf(),
        ensures
            final(self).wf(),
            final(self).released_keys().len() == 0,
            final(self).pressed_keys().len() == 0,
            forall|i: int| 0 <= i < KEY_COUNT ==> #[trigger] final(self).key_states()[i] == forget(
                old(self).key_states()[i],
                old(self).pressed_keys().contains(i as usize),
                old(self).released_keys().contains(i as usize),
            ),
            others_same(final(self), old(self)),
    {
        let ghost ks0 = self.keys@;
        let ghost rel = self.keys_released_in_prev_frame@;
        let ghost pre = self.keys_pressed_in_prev_frame@;
        assert forall|i: int| 0 <= i < rel.len() implies #[trigger] rel[i] < KEY_COUNT by {
            assert(old(self).released_keys()[i] == rel[i]);
        }
        assert forall|i: int| 0 <= i < pre.len() implies #[trigger] pre[i] < KEY_COUNT by {
            assert(old(self).pressed_keys()[i] == pre[i]);
        }
        assert(rel.take(0) =~= Seq::<usize>::empty());
        let mut j: usize = 0;
        while j < self.keys_released_in_prev_frame.len()
            invariant
                self.keys@.len() == KEY_COUNT,
                self.skills_for_keys@.len() == SKILLKEY_COUNT,
                others_same(self, old(self)),
                self.keys_released_in_prev_frame@ == rel,
                self.keys_pressed_in_prev_frame@ == pre,
                forall|i: int| 0 <= i < pre.len() ==> #[trigger] pre[i] < KEY_COUNT,
                forall|i: int| 0 <= i < rel.len() ==> #[trigger] rel[i] < KEY_COUNT,
                ks0.len() == KEY_COUNT,
                j <= rel.len(),
                forall|i: int| 0 <= i < KEY_COUNT ==> #[trigger] self.keys@[i] == forget(
                    ks0[i],
                    false,
                    rel.take(j as int).contains(i as usize),
                ),
            decreases rel.len() - j,
        {
            let key = self.keys_released_in_prev_frame[j];
            let mut k = self.keys[key];
            k.just_released = false;
            let ghost ks = self.keys@;
            self.keys.set(key, k);
            proof {
                assert(rel.take(j + 1) =~= rel.take(j as int).push(key));
                assert forall|i: int| 0 <= i < KEY_COUNT implies #[trigger] self.keys@[i] == forget(
                    ks0[i],
                    false,
                    rel.take(j + 1).contains(i as usize),
                ) by {
                    lemma_push_contains(rel.take(j as int), key, i as usize);
                    if i == key {
                        assert(rel.take(j + 1)[j as int] == key);
                    } else {
                        assert(self.keys@[i] == ks[i]);
                    }
                }
            }
            j = j + 1;
        }
        assert(rel.take(rel.len() as int) =~= rel);
        assert(pre.take(0) =~= Seq::<usize>::empty());
        let mut j: usize = 0;
        while j < self.keys_pressed_in_prev_frame.len()
            invariant
                self.keys@.len() == KEY_COUNT,
                self.skills_for_keys@.len() == SKILLKEY_COUNT,
                others_same(self, old(self)),
                self.keys_pressed_in_prev_frame@ == pre,
                forall|i: int| 0 <= i < pre.len() ==> #[trigger] pre[i] < KEY_COUNT,
                ks0.len() == KEY_COUNT,
                j <= pre.len(),
                forall|i: int| 0 <= i < KEY_COUNT ==> #[trigger] self.keys@[i] == forget(
                    ks0[i],
                    pre.take(j as int).contains(i as usize),
                    rel.contains(i as usize),
                ),
            decreases pre.len() - j,
        {
            let key = self.keys_pressed_in_prev_frame[j];
            let mut k = self.keys[key];
            k.just_pressed = false;
            let ghost ks = self.keys@;
            self.keys.set(key, k);
            proof {
                assert(pre.take(j + 1) =~= pre.take(j as int).push(key));
                assert forall|i: int| 0 <= i < KEY_COUNT implies #[trigger] self.keys@[i] == forget(
                    ks0[i],
                    pre.take(j + 1).contains(i as usize),
                    rel.contains(i as usize),
                ) by {
                    lemma_push_contains(pre.take(j as int), key, i as usize);
                    if i == key {
                        assert(pre.take(j + 1)[j as int] == key);
                    } else {
                        assert(self.keys@[i] == ks[i]);
                    }
                }
            }
            j = j + 1;
        }
        assert(pre.take(pre.len() as int) =~= pre);
        self.keys_released_in_prev_frame.clear();
        self.keys_pressed_in_prev_frame.clear();
    }

    /// Whether `key` is down.
    pub fn is_key_down(&self, key: usize) -> (r: bool)
        requires
            self.wf(),
            key < KEY_COUNT,
        ensures
            r == self.key_states()[key as int].down,
    {
        self.keys[key].down
    }

    /// Whether `key` is up.
    pub fn is_key_up(&self, key: usize) -> (r: bool)
        requires
            self.wf(),
            key < KEY_COUNT,
        ensures
            r == !self.key_states()[key as int].down,
    {
        !self.keys[key].down
    }

    /// Whether `key` was released in this frame.
    pub fn is_key_just_released(&self, key: usize) -> (r: bool)
        requires
            self.wf(),
            key < KEY_COUNT,
        ensures
            r == self.key_states()[key as int].just_released,
    {
        self.keys[key].just_released
    }

    /// Whether `key` was pressed in this frame.
    pub fn is_key_just_pressed(&self, key: usize) -> (r: bool)
        requires
            self.wf(),
            key < KEY_COUNT,
        ensures
            r == self.key_states()[key as int].just_pressed,
    {
        self.keys[key].just_pressed
    }
}

/// Law: a new press is seen for exactly one frame: right after it the key
/// is just pressed, and the clean-up at the end of the frame forgets it.
pub proof fn law_press_lasts_one_frame(before: Seq<KeyState>, pressed: Seq<usize>, key: usize, after: Seq<KeyState>)
    requires
        before.len() == KEY_COUNT,
        key < KEY_COUNT,
        pressed.contains(key),
        forall|i: int| 0 <= i < KEY_COUNT ==> #[trigger] after[i] == forget(
            before[i],
            pressed.contains(i as usize),
            false,
        ),
    ensures
        !after[key as int].just_pressed,
        after[key as int].down == before[key as int].down,
{
}

/// The characters below the cursor, friends and enemies apart, each in
/// the order they were found.
#[derive(Debug)]
pub struct EntitiesBelowCursor {
    pub friendly: Vec<CharEntityId>,
    pub enemy: Vec<CharEntityId>,
}

impl EntitiesBelowCursor {
    /// None yet.
    pub fn new() -> (r: Self)
        ensures
            r.friendly@.len() == 0,
            r.enemy@.len() == 0,
    {
        EntitiesBelowCursor { friendly: Vec::new(), enemy: Vec::new() }
    }

    /// Forgets every character.
    pub fn clear(&mut self)
        ensures
            final(self).friendly@.len() == 0,
            final(self).enemy@.len() == 0,
    {
        self.friendly.clear();
        self.enemy.clear();
    }

    /// Adds a friend.
    pub fn add_friend(&mut self, entity_id: CharEntityId)
        ensures
            final(self).friendly@ == old(self).friendly@.push(entity_id),
            final(self).enemy@ == old(self).enemy@,
    {
        self.friendly.push(entity_id);
    }

    /// Adds an enemy.
    pub fn add_enemy(&mut self, entity_id: CharEntityId)
        ensures
            final(self).enemy@ == old(self).enemy@.push(entity_id),
            final(self).friendly@ == old(self).friendly@,
    {
        self.enemy.push(entity_id);
    }

    /// The first enemy, else the first friend.
    pub fn get_enemy_or_friend(&self) -> (r: Option<CharEntityId>)
        ensures
            r == if self.enemy@.len() > 0 {
                Some(self.enemy@[0])
            } else if self.friendly@.len() > 0 {
                Some(self.friendly@[0])
            } else {
                None::<CharEntityId>
            },
    {
        if self.enemy.len() > 0 {
            Some(self.enemy[0])
        } else if self.friendly.len() > 0 {
            Some(self.friendly[0])
        } else {
            None
        }
    }

    /// The first friend other than `except_id`.
    pub fn get_friend_except(&self, except_id: CharEntityId) -> (r: Option<CharEntityId>)
        ensures
            match r {
                Some(id) => exists|i: int|
                    0 <= i < self.friendly@.len() && self.friendly@[i] == id && id != except_id
                        && forall|j: int| 0 <= j < i ==> #[trigger] self.friendly@[j] == except_id,
                None => forall|j: int| 0 <= j < self.friendly@.len() ==> #[trigger] self.friendly@[j] == except_id,
            },
    {
        let mut i: usize = 0;
        while i < self.friendly.len()
            invariant
                i <= self.friendly@.len(),
                forall|j: int| 0 <= j < i ==> #[trigger] self.friendly@[j] == except_id,
            decreases self.friendly@.len() - i,
        {
            let id = self.friendly[i];
            if id.0 != except_id.0 {
                return Some(id);
            }
            i = i + 1;
        }
        None
    }

    /// The first friend.
    pub fn get_friend(&self) -> (r: Option<CharEntityId>)
        ensures
            r == if self.friendly@.len() > 0 { Some(self.friendly@[0]) } else { None::<CharEntityId> },
    {
        if self.friendly.len() > 0 {
            Some(self.friendly[0])
        } else {
            None
        }
    }

    /// The first enemy.
    pub fn get_enemy(&self) -> (r: Option<CharEntityId>)
        ensures
            r == if self.enemy@.len() > 0 { Some(self.enemy@[0]) } else { None::<CharEntityId> },
    {
        if self.enemy.len() > 0 {
            Some(self.enemy[0])
        } else {
            None
        }
    }
}

/// Whether the cursor at (`x`, `y`) lies in the rectangle, borders included.
pub open spec fn under_cursor(r: SpriteBoundingRect, x: u16, y: u16) -> bool {
    &&& r.bottom_left[0] <= x as int <= r.top_right[0]
    &&& r.top_right[1] <= y as int <= r.bottom_left[1]
}

/// The characters, in list order, whose rectangle lies under the cursor,
/// split by whether they are allies of the player.
pub open spec fn spec_below_cursor(rects: Seq<(CharEntityId, SpriteBoundingRect, bool)>, x: u16, y: u16, ally: bool) -> Seq<CharEntityId>
    decreases rects.len(),
{
    if rects.len() == 0 {
        Seq::empty()
    } else {
        let before = spec_below_cursor(rects.drop_last(), x, y, ally);
        let (id, r, is_ally) = rects.last();
        if under_cursor(r, x, y) && is_ally == ally { before.push(id) } else { before }
    }
}

/// Sorts the characters drawn this frame, each with its screen rectangle
/// and whether it is an ally of the player, into the friends and enemies
/// under the cursor.
pub fn calc_entities_below_cursor(
    entities: &mut EntitiesBelowCursor,
    rects: &Vec<(CharEntityId, SpriteBoundingRect, bool)>,
    mouse_x: u16,
    mouse_y: u16,
)
    ensures
        final(entities).friendly@ == spec_below_cursor(rects@, mouse_x, mouse_y, true),
        final(entities).enemy@ == spec_below_cursor(rects@, mouse_x, mouse_y, false),
{
    entities.clear();
    let mut i: usize = 0;
    while i < rects.len()
        invariant
            i <= rects@.len(),
            entities.friendly@ == spec_below_cursor(rects@.take(i as int), mouse_x, mouse_y, true),
            entities.enemy@ == spec_below_cursor(rects@.take(i as int), mouse_x, mouse_y, false),
        decreases rects@.len() - i,
    {
        let (id, r, is_ally) = rects[i];
        proof {
            assert(rects@.take(i + 1).drop_last() =~= rects@.take(i as int));
        }
        let mx = mouse_x as i32;
        let my = mouse_y as i32;
        if mx >= r.bottom_left[0] && mx <= r.top_right[0] && my <= r.bottom_left[1] && my >= r.top_right[1] {
            if is_ally {
                entities.add_friend(id);
            } else {
                entities.add_enemy(id);
            }
        }
        i = i + 1;
    }
    assert(rects@.take(rects@.len() as int) =~= rects@);
}

} // verus!
