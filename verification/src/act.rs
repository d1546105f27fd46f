//! Decoding of ACT sprite-animation files: per action, its frames; per
//! frame, its sprite layers, sound and anchor positions; then the sound
//! names and the frame delays.
//!
//! File versions are handled in tenths ("2.3" is 23). Positions are scaled
//! by the factor sprites are upscaled with. Floating-point fields (layer
//! scales, frame delays) are kept as the raw IEEE-754 bits stored in the
//! file, and sound names as their raw 40-byte fields.
use vstd::prelude::*;
use crate::binary_reader::{le16, BinaryReader};
use crate::rsw::{i32_at, u32_at};

verus! {

/// The bits of the float 1.0, the scale of layers in files before 2.0.
pub const ONE_F32_BITS: u32 = 0x3F80_0000;

/// One sprite drawn as part of a frame.
#[derive(Clone, Copy, Debug, PartialEq, Eq)]
pub struct Layer {
    pub pos: (i32, i32),
    pub sprite_frame_index: i32,
    pub is_mirror: bool,
    pub scale: (u32, u32),
    pub color: (u8, u8, u8, u8),
    pub angle: i32,
    pub spr_type: i32,
    pub width: i32,
    pub height: i32,
}

/// A frame as the specification sees it.
pub struct FrameView {
    pub layers: Seq<Layer>,
    pub sound: i32,
    pub positions: Seq<(i32, i32)>,
}

/// A frame of an action.
pub struct ActionFrame {
    pub layers: Vec<Layer>,
    pub sound: i32,
    pub positions: Vec<(i32, i32)>,
}

impl View for ActionFrame {
    type V = FrameView;

    open spec fn view(&self) -> FrameView {
        FrameView { layers: self.layers@, sound: self.sound, positions: self.positions@ }
    }
}

/// Version of the file, in tenths: the minor byte comes first.
pub open spec fn act_version(s: Seq<u8>) -> int {
    10 * s[3] as int + s[2] as int
}

/// `x` scaled by `up`, when the product fits in 32 bits.
pub open spec fn scaled_fits(x: i32, up: i32) -> bool {
    i32::MIN <= x * up <= i32::MAX
}

/// Size of a layer record in a file of version `v`.
pub open spec fn layer_size(v: int) -> int {
    16 + (if v >= 20 { if v <= 23 { 16int } else { 20int } } else { 0int }) + (if v >= 25 { 8int } else { 0int })
}

/// Whether a whole layer record lies at `p` and its position scales.
pub open spec fn layer_ok(s: Seq<u8>, p: int, v: int, up: i32) -> bool {
    &&& 0 <= p
    &&& p + layer_size(v) <= s.len()
    &&& scaled_fits(i32_at(s, p), up)
    &&& scaled_fits(i32_at(s, p + 4), up)
}

/// The layer whose record lies at `p`: position (scaled), sprite frame
/// index, mirroring, then from 2.0 on colour, scale (one value up to 2.3,
/// two after), angle and type, then from 2.5 on width and height.
pub open spec fn spec_layer(s: Seq<u8>, p: int, v: int, up: i32) -> Layer {
    let q = if v <= 23 { p + 24 } else { p + 28 };
    let q2 = if v >= 20 { q + 8 } else { p + 16 };
    Layer {
        pos: ((i32_at(s, p) * up) as i32, (i32_at(s, p + 4) * up) as i32),
        sprite_frame_index: i32_at(s, p + 8),
        is_mirror: i32_at(s, p + 12) != 0,
        color: if v >= 20 { (s[p + 16], s[p + 17], s[p + 18], s[p + 19]) } else { (255u8, 255u8, 255u8, 255u8) },
        scale: if v >= 20 {
            (u32_at(s, p + 20), if v <= 23 { u32_at(s, p + 20) } else { u32_at(s, p + 24) })
        } else {
            (ONE_F32_BITS, ONE_F32_BITS)
        },
        angle: if v >= 20 { i32_at(s, q) } else { 0i32 },
        spr_type: if v >= 20 { i32_at(s, q + 4) } else { 0i32 },
        width: if v >= 25 { i32_at(s, q2) } else { 0i32 },
        height: if v >= 25 { i32_at(s, q2 + 4) } else { 0i32 },
    }
}

/// `done` followed by what was read after it, if that could be read.
pub open spec fn prepend<A>(done: Seq<A>, rest: Option<(Seq<A>, int)>) -> Option<(Seq<A>, int)> {
    match rest {
        Some((xs, e)) => Some((done + xs, e)),
        None => None,
    }
}

/// The `n` layer records from `p`, keeping those that show a sprite (a
/// frame index of at least 0), and where they end; `None` when a record is
/// cut off or its position does not scale.
pub open spec fn spec_layers(s: Seq<u8>, p: int, v: int, up: i32, n: nat) -> Option<(Seq<Layer>, int)>
    decreases n,
{
    if n == 0 {
        Some((Seq::empty(), p))
    } else if !layer_ok(s, p, v, up) {
        None
    } else {
        let l = spec_layer(s, p, v, up);
        let kept: Seq<Layer> = if l.sprite_frame_index >= 0 { seq![l] } else { Seq::empty() };
        prepend(kept, spec_layers(s, p + layer_size(v), v, up, (n - 1) as nat))
    }
}

proof fn lemma_prepend_push<A>(done: Seq<A>, x: Seq<A>, rest: Option<(Seq<A>, int)>)
    ensures
        prepend(done, prepend(x, rest)) == prepend(done + x, rest),
{
    match rest {
        Some((xs, e)) => {
            assert(done + (x + xs) =~= (done + x) + xs);
        },
        None => {},
    }
}

proof fn lemma_prepend_empty<A>(rest: Option<(Seq<A>, int)>)
    ensures
        prepend(Seq::<A>::empty(), rest) == rest,
{
    match rest {
        Some((xs, e)) => {
            assert(Seq::<A>::empty() + xs =~= xs);
        },
        None => {},
    }
}

fn scale(x: i32, up: i32) -> (r: Option<i32>)
    ensures
        r is Some <==> scaled_fits(x, up),
        r matches Some(y) ==> y == x * up,
{
    assert(-0x4000_0000_0000_0000 <= x as i64 * up as i64 <= 0x4000_0000_0000_0000) by (nonlinear_arith)
        requires
            -0x8000_0000 <= x < 0x8000_0000,
            -0x8000_0000 <= up < 0x8000_0000,
    ;
    let p: i64 = x as i64 * up as i64;
    if p < i32::MIN as i64 || p > i32::MAX as i64 {
        None
    } else {
        Some(p as i32)
    }
}

/// Size of a layer record, computed.
fn layer_record_size(version: u32) -> (r: usize)
    ensures
        r == layer_size(version as int),
{
    let base: usize = if version >= 20 {
        if version <= 23 { 32 } else { 36 }
    } else {
        16
    };
    if version >= 25 { base + 8 } else { base }
}

/// Reads the layer record at the position; `None` when its position does
/// not scale.
fn read_layer(buf: &mut BinaryReader, version: u32, up: i32) -> (r: Option<Layer>)
    requires
        0 <= old(buf).pos(),
        old(buf).pos() + layer_size(version as int) <= old(buf).bytes().len(),
    ensures
        r is Some <==> layer_ok(old(buf).bytes(), old(buf).pos(), version as int, up),
        r matches Some(l) ==> l == spec_layer(old(buf).bytes(), old(buf).pos(), version as int, up),
        final(buf).bytes() == old(buf).bytes(),
        r is Some ==> final(buf).pos() == old(buf).pos() + layer_size(version as int),
        old(buf).pos() <= final(buf).pos() <= old(buf).pos() + layer_size(version as int),
{
    let ghost s = buf.bytes();
    let ghost p = buf.pos();
    let ghost v = version as int;
    let x = buf.next_i32();
    let y = buf.next_i32();
    let sx = scale(x, up);
    let sy = scale(y, up);
    match (sx, sy) {
        (Some(px), Some(py)) => {
            let sprite_frame_index = buf.next_i32();
            let is_mirror = buf.next_i32() != 0;
            let mut color: (u8, u8, u8, u8) = (255, 255, 255, 255);
            let mut scale: (u32, u32) = (ONE_F32_BITS, ONE_F32_BITS);
            let mut angle: i32 = 0;
            let mut spr_type: i32 = 0;
            if version >= 20 {
                let c0 = buf.next_u8();
                let c1 = buf.next_u8();
                let c2 = buf.next_u8();
                let c3 = buf.next_u8();
                color = (c0, c1, c2, c3);
                let scale_0 = buf.next_u32();
                let scale_1 = if version <= 23 { scale_0 } else { buf.next_u32() };
                scale = (scale_0, scale_1);
                angle = buf.next_i32();
                spr_type = buf.next_i32();
            }
            let mut width: i32 = 0;
            let mut height: i32 = 0;
            if version >= 25 {
                width = buf.next_i32();
                height = buf.next_i32();
            }
            Some(Layer { pos: (px, py), sprite_frame_index, is_mirror, scale, color, angle, spr_type, width, height })
        },
        _ => None,
    }
}

/// Reads `n` layer records; see `spec_layers`.
fn read_layers(buf: &mut BinaryReader, version: u32, up: i32, n: u32) -> (r: Option<Vec<Layer>>)
    requires
        0 <= old(buf).pos() <= old(buf).bytes().len(),
    ensures
        final(buf).bytes() == old(buf).bytes(),
        0 <= final(buf).pos() <= final(buf).bytes().len(),
        r is Some <==> spec_layers(old(buf).bytes(), old(buf).pos(), version as int, up, n as nat) is Some,
        r matches Some(ls) ==> {
            let (sl, e) = spec_layers(old(buf).bytes(), old(buf).pos(), version as int, up, n as nat).unwrap();
            ls@ == sl && final(buf).pos() == e
        },
{
    let ghost s = buf.bytes();
    let ghost p0 = buf.pos();
    let ghost v = version as int;
    let len = buf.len();
    let size = layer_record_size(version);
    let mut out: Vec<Layer> = Vec::new();
    let mut i: u32 = 0;
    proof {
        lemma_prepend_empty(spec_layers(s, p0, v, up, n as nat));
    }
    while i < n
        invariant
            buf.bytes() == s,
            s == old(buf).bytes(),
            p0 == old(buf).pos(),
            len == s.len(),
            0 <= buf.pos() <= len,
            size == layer_size(v),
            v == version as int,
            i <= n,
            spec_layers(s, p0, v, up, n as nat) == prepend(out@, spec_layers(s, buf.pos(), v, up, (n - i) as nat)),
        decreases n - i,
    {
        let ghost p = buf.pos();
        if size > len - buf.tell() {
            return None;
        }
        match read_layer(buf, version, up) {
            Some(l) => {
                let ghost kept: Seq<Layer> = if l.sprite_frame_index >= 0 { seq![l] } else { Seq::empty() };
                proof {
                    lemma_prepend_push(out@, kept, spec_layers(s, buf.pos(), v, up, (n - i - 1) as nat));
                }
                if l.sprite_frame_index >= 0 {
                    out.push(l);
                } else {
                    assert(out@ + kept =~= out@);
                }
            },
            None => {
                return None;
            },
        }
        i = i + 1;
    }
    Some(out)
}

/// The `n` anchor records from `p` (four ignored bytes, the two
/// coordinates, four ignored bytes), scaled, and where they end; `None`
/// when a record is cut off or does not scale.
pub open spec fn spec_positions(s: Seq<u8>, p: int, up: i32, n: nat) -> Option<(Seq<(i32, i32)>, int)>
    decreases n,
{
    if n == 0 {
        Some((Seq::empty(), p))
    } else if p < 0 || p + 16 > s.len() || !scaled_fits(i32_at(s, p + 4), up) || !scaled_fits(
        i32_at(s, p + 8),
        up,
    ) {
        None
    } else {
        let xy = ((i32_at(s, p + 4) * up) as i32, (i32_at(s, p + 8) * up) as i32);
        prepend(seq![xy], spec_positions(s, p + 16, up, (n - 1) as nat))
    }
}

/// A signed count read from a file; a negative one counts as none.
pub open spec fn count_of(c: i32) -> nat {
    if c < 0 { 0 } else { c as nat }
}

/// The frame whose record lies at `p`, and where it ends: 32 ignored bytes,
/// the layer count and layers, from 2.0 on the sound index (else -1), from
/// 2.3 on the anchor count and anchors.
pub open spec fn spec_frame(s: Seq<u8>, p: int, v: int, up: i32) -> Option<(FrameView, int)> {
    if p < 0 || p + 36 > s.len() {
        None
    } else {
        match spec_layers(s, p + 36, v, up, u32_at(s, p + 32) as nat) {
            None => None,
            Some((ls, q)) => {
                if v >= 20 && q + 4 > s.len() {
                    None
                } else {
                    let sound = if v >= 20 { i32_at(s, q) } else { -1i32 };
                    let q1 = if v >= 20 { q + 4 } else { q };
                    if v >= 23 {
                        if q1 + 4 > s.len() {
                            None
                        } else {
                            match spec_positions(s, q1 + 4, up, count_of(i32_at(s, q1))) {
                                Some((ps, e)) => Some((FrameView { layers: ls, sound, positions: ps }, e)),
                                None => None,
                            }
                        }
                    } else {
                        Some((FrameView { layers: ls, sound, positions: Seq::empty() }, q1))
                    }
                }
            },
        }
    }
}

/// The `n` frames from `p` and where they end.
pub open spec fn spec_frames(s: Seq<u8>, p: int, v: int, up: i32, n: nat) -> Option<(Seq<FrameView>, int)>
    decreases n,
{
    if n == 0 {
        Some((Seq::empty(), p))
    } else {
        match spec_frame(s, p, v, up) {
            None => None,
            Some((f, q)) => prepend(seq![f], spec_frames(s, q, v, up, (n - 1) as nat)),
        }
    }
}

/// The views of a list of frames.
pub open spec fn frame_views(fs: Seq<ActionFrame>) -> Seq<FrameView> {
    fs.map_values(|f: ActionFrame| f@)
}

/// Reads `n` anchor records; see `spec_positions`.
fn read_positions(buf: &mut BinaryReader, up: i32, n: u32) -> (r: Option<Vec<(i32, i32)>>)
    requires
        0 <= old(buf).pos() <= old(buf).bytes().len(),
    ensures
        final(buf).bytes() == old(buf).bytes(),
        0 <= final(buf).pos() <= final(buf).bytes().len(),
        r is Some <==> spec_positions(old(buf).bytes(), old(buf).pos(), up, n as nat) is Some,
        r matches Some(ps) ==> {
            let (sp, e) = spec_positions(old(buf).bytes(), old(buf).pos(), up, n as nat).unwrap();
            ps@ == sp && final(buf).pos() == e
        },
{
    let ghost s = buf.bytes();
    let ghost p0 = buf.pos();
    let len = buf.len();
    let mut out: Vec<(i32, i32)> = Vec::new();
    let mut i: u32 = 0;
    proof {
        lemma_prepend_empty(spec_positions(s, p0, up, n as nat));
    }
    while i < n
        invariant
            buf.bytes() == s,
            s == old(buf).bytes(),
            p0 == old(buf).pos(),
            len == s.len(),
            0 <= buf.pos() <= len,
            i <= n,
            spec_positions(s, p0, up, n as nat) == prepend(out@, spec_positions(s, buf.pos(), up, (n - i) as nat)),
        decreases n - i,
    {
        if 16 > len - buf.tell() {
            return None;
        }
        buf.skip(4);
        let x = buf.next_i32();
        let y = buf.next_i32();
        buf.skip(4);
        match (scale(x, up), scale(y, up)) {
            (Some(px), Some(py)) => {
                proof {
                    lemma_prepend_push(out@, seq![(px, py)], spec_positions(s, buf.pos(), up, (n - i - 1) as nat));
                }
                out.push((px, py));
            },
            _ => {
                return None;
            },
        }
        i = i + 1;
    }
    Some(out)
}

/// Reads the frame record at the position; see `spec_frame`.
fn read_frame(buf: &mut BinaryReader, version: u32, up: i32) -> (r: Option<ActionFrame>)
    requires
        0 <= old(buf).pos() <= old(buf).bytes().len(),
    ensures
        final(buf).bytes() == old(buf).bytes(),
        0 <= final(buf).pos() <= final(buf).bytes().len(),
        r is Some <==> spec_frame(old(buf).bytes(), old(buf).pos(), version as int, up) is Some,
        r matches Some(f) ==> {
            let (sf, e) = spec_frame(old(buf).bytes(), old(buf).pos(), version as int, up).unwrap();
            f@ == sf && final(buf).pos() == e
        },
{
    let ghost s = buf.bytes();
    let ghost p = buf.pos();
    let len = buf.len();
    if 36 > len - buf.tell() {
        return None;
    }
    buf.skip(32);
    let layer_count = buf.next_u32();
    let layers = match read_layers(buf, version, up, layer_count) {
        Some(ls) => ls,
        None => {
            return None;
        },
    };
    let sound = if version >= 20 {
        if 4 > len - buf.tell() {
            return None;
        }
        buf.next_i32()
    } else {
        -1
    };
    let positions = if version >= 23 {
        if 4 > len - buf.tell() {
            return None;
        }
        let c = buf.next_i32();
        let n: u32 = if c < 0 { 0 } else { c as u32 };
        match read_positions(buf, up, n) {
            Some(ps) => ps,
            None => {
                return None;
            },
        }
    } else {
        Vec::new()
    };
    Some(ActionFrame { layers, sound, positions })
}

/// Reads `n` frames; see `spec_frames`.
fn read_frames(buf: &mut BinaryReader, version: u32, up: i32, n: u32) -> (r: Option<Vec<ActionFrame>>)
    requires
        0 <= old(buf).pos() <= old(buf).bytes().len(),
    ensures
        final(buf).bytes() == old(buf).bytes(),
        0 <= final(buf).pos() <= final(buf).bytes().len(),
        r is Some <==> spec_frames(old(buf).bytes(), old(buf).pos(), version as int, up, n as nat) is Some,
        r matches Some(fs) ==> {
            let (sf, e) = spec_frames(old(buf).bytes(), old(buf).pos(), version as int, up, n as nat).unwrap();
            frame_views(fs@) == sf && final(buf).pos() == e
        },
{
    let ghost s = buf.bytes();
    let ghost p0 = buf.pos();
    let ghost v = version as int;
    let len = buf.len();
    let mut out: Vec<ActionFrame> = Vec::new();
    let mut i: u32 = 0;
    proof {
        lemma_prepend_empty(spec_frames(s, p0, v, up, n as nat));
        assert(frame_views(out@) =~= Seq::<FrameView>::empty());
    }
    while i < n
        invariant
            buf.bytes() == s,
            s == old(buf).bytes(),
            p0 == old(buf).pos(),
            v == version as int,
            len == s.len(),
            0 <= buf.pos() <= len,
            i <= n,
            spec_frames(s, p0, v, up, n as nat) == prepend(frame_views(out@), spec_frames(s, buf.pos(), v, up, (n - i) as nat)),
        decreases n - i,
    {
        match read_frame(buf, version, up) {
            Some(f) => {
                proof {
                    lemma_prepend_push(frame_views(out@), seq![f@], spec_frames(s, buf.pos(), v, up, (n - i - 1) as nat));
                    assert(frame_views(out@.push(f)) =~= frame_views(out@) + seq![f@]);
                }
                out.push(f);
            },
            None => {
                return None;
            },
        }
        i = i + 1;
    }
    Some(out)
}

/// An action: its frames and, from version 2.2 on, the raw bits of the
/// float that sets its frame delay (a delay of 150 ms stands otherwise).
pub struct Action {
    pub frames: Vec<ActionFrame>,
    pub delay_bits: Option<u32>,
}

/// A decoded animation file: its actions and the raw 40-byte names of its
/// sounds (from version 2.1 on).
pub struct ActionFile {
    pub actions: Vec<Action>,
    pub sounds: Vec<Vec<u8>>,
}

/// The `n` actions from `p` (each a frame count and frames) and where
/// they end.
pub open spec fn spec_actions(s: Seq<u8>, p: int, v: int, up: i32, n: nat) -> Option<(Seq<Seq<FrameView>>, int)>
    decreases n,
{
    if n == 0 {
        Some((Seq::empty(), p))
    } else if p < 0 || p + 4 > s.len() {
        None
    } else {
        match spec_frames(s, p + 4, v, up, u32_at(s, p) as nat) {
            None => None,
            Some((fs, q)) => prepend(seq![fs], spec_actions(s, q, v, up, (n - 1) as nat)),
        }
    }
}

/// The number of actions the file announces.
pub open spec fn action_count(s: Seq<u8>) -> nat {
    le16(s, 4) as nat
}

/// The actions of the file, read after its 16-byte header.
pub open spec fn file_actions(s: Seq<u8>, up: i32) -> Option<(Seq<Seq<FrameView>>, int)> {
    spec_actions(s, 16, act_version(s), up, action_count(s))
}

/// Where the actions end.
pub open spec fn actions_end(s: Seq<u8>, up: i32) -> int {
    file_actions(s, up).unwrap().1
}

/// The number of sound names (from 2.1 on).
pub open spec fn sound_count(s: Seq<u8>, up: i32) -> nat {
    if act_version(s) >= 21 { count_of(i32_at(s, actions_end(s, up))) } else { 0 }
}

/// Where the sound names start.
pub open spec fn sounds_start(s: Seq<u8>, up: i32) -> int {
    actions_end(s, up) + if act_version(s) >= 21 { 4int } else { 0int }
}

/// Where the delays start (from 2.2 on, one 32-bit float per action).
pub open spec fn delays_start(s: Seq<u8>, up: i32) -> int {
    sounds_start(s, up) + 40 * sound_count(s, up)
}

/// Whether `s` is an animation file that can be decoded with positions
/// scaled by `up`: the magic "AC", the header, every action in full with
/// positions that scale, and the sound names and delays its version has.
pub open spec fn act_ok(s: Seq<u8>, up: i32) -> bool {
    &&& s.len() >= 16
    &&& s[0] == 0x41u8 && s[1] == 0x43u8
    &&& file_actions(s, up) is Some
    &&& (act_version(s) >= 21 ==> actions_end(s, up) + 4 <= s.len())
    &&& delays_start(s, up) <= s.len()
    &&& (act_version(s) >= 22 ==> delays_start(s, up) + 4 * action_count(s) <= s.len())
}

/// Whether `f` is what the file `s` holds.
pub open spec fn act_matches(s: Seq<u8>, up: i32, f: ActionFile) -> bool {
    let acts = file_actions(s, up).unwrap().0;
    &&& f.actions@.len() == action_count(s)
    &&& forall|k: int| 0 <= k < f.actions@.len() ==> frame_views((#[trigger] f.actions@[k]).frames@) == acts[k]
    &&& forall|k: int| 0 <= k < f.actions@.len() ==> (#[trigger] f.actions@[k]).delay_bits == (if act_version(s) >= 22 {
        Some(u32_at(s, delays_start(s, up) + 4 * k))
    } else {
        None
    })
    &&& f.sounds@.len() == sound_count(s, up)
    &&& forall|j: int| 0 <= j < f.sounds@.len() ==> (#[trigger] f.sounds@[j])@ == s.subrange(
        sounds_start(s, up) + 40 * j,
        sounds_start(s, up) + 40 * j + 40,
    )
}

/// Reads `n` actions' frames; see `spec_actions`.
fn read_actions(buf: &mut BinaryReader, version: u32, up: i32, n: u16) -> (r: Option<Vec<Vec<ActionFrame>>>)
    requires
        0 <= old(buf).pos() <= old(buf).bytes().len(),
    ensures
        final(buf).bytes() == old(buf).bytes(),
        0 <= final(buf).pos() <= final(buf).bytes().len(),
        r is Some <==> spec_actions(old(buf).bytes(), old(buf).pos(), version as int, up, n as nat) is Some,
        r matches Some(acts) ==> {
            let (sa, e) = spec_actions(old(buf).bytes(), old(buf).pos(), version as int, up, n as nat).unwrap();
            &&& acts@.len() == sa.len()
            &&& forall|k: int| 0 <= k < acts@.len() ==> frame_views(#[trigger] acts@[k]@) == sa[k]
            &&& final(buf).pos() == e
        },
{
    let ghost s = buf.bytes();
    let ghost p0 = buf.pos();
    let ghost v = version as int;
    let len = buf.len();
    let mut out: Vec<Vec<ActionFrame>> = Vec::new();
    let ghost mut views: Seq<Seq<FrameView>> = Seq::empty();
    let mut i: u16 = 0;
    proof {
        lemma_prepend_empty(spec_actions(s, p0, v, up, n as nat));
    }
    while i < n
        invariant
            buf.bytes() == s,
            s == old(buf).bytes(),
            p0 == old(buf).pos(),
            v == version as int,
            len == s.len(),
            0 <= buf.pos() <= len,
            i <= n,
            out@.len() == views.len(),
            forall|k: int| 0 <= k < out@.len() ==> frame_views(#[trigger] out@[k]@) == views[k],
            spec_actions(s, p0, v, up, n as nat) == prepend(views, spec_actions(s, buf.pos(), v, up, (n - i) as nat)),
        decreases n - i,
    {
        if 4 > len - buf.tell() {
            return None;
        }
        let frame_count = buf.next_u32();
        match read_frames(buf, version, up, frame_count) {
            Some(fs) => {
                proof {
                    lemma_prepend_push(views, seq![frame_views(fs@)], spec_actions(s, buf.pos(), v, up, (n - i - 1) as nat));
                    views = views + seq![frame_views(fs@)];
                }
                out.push(fs);
            },
            None => {
                return None;
            },
        }
        i = i + 1;
    }
    proof {
        assert(views + Seq::<Seq<FrameView>>::empty() =~= views);
    }
    Some(out)
}

proof fn lemma_actions_len(s: Seq<u8>, p: int, v: int, up: i32, n: nat)
    requires
        spec_actions(s, p, v, up, n) is Some,
    ensures
        spec_actions(s, p, v, up, n).unwrap().0.len() == n,
    decreases n,
{
    if n > 0 {
        let (fs, q) = spec_frames(s, p + 4, v, up, u32_at(s, p) as nat).unwrap();
        lemma_actions_len(s, q, v, up, (n - 1) as nat);
    }
}

impl ActionFile {
    /// Decodes an animation file, scaling positions by `upscale`; `None`
    /// exactly when `act_ok` does not hold (see `act_matches` for what the
    /// result holds).
    pub fn try_load(bytes: Vec<u8>, upscale: i32) -> (r: Option<ActionFile>)
        ensures
            r is Some <==> act_ok(bytes@, upscale),
            r matches Some(f) ==> act_matches(bytes@, upscale, f),
    {
        let ghost s = bytes@;
        let mut buf = BinaryReader::new(bytes);
        let len = buf.len();
        if len < 16 {
            return None;
        }
        let a = buf.next_u8();
        let c = buf.next_u8();
        if !(a == 0x41 && c == 0x43) {
            return None;
        }
        let minor = buf.next_u8();
        let major = buf.next_u8();
        let version: u32 = 10 * major as u32 + minor as u32;
        let ghost v = version as int;
        assert(v == act_version(s));
        let action_count = buf.next_u16();
        buf.skip(10);
        let frame_lists = match read_actions(&mut buf, version, upscale, action_count) {
            Some(acts) => acts,
            None => {
                return None;
            },
        };
        let ghost e = buf.pos();
        assert(e == actions_end(s, upscale));
        proof {
            lemma_actions_len(s, 16, v, upscale, action_count as nat);
        }
        let n_sounds: u32 = if version >= 21 {
            if 4 > len - buf.tell() {
                return None;
            }
            let c = buf.next_i32();
            if c < 0 { 0 } else { c as u32 }
        } else {
            0
        };
        assert(n_sounds == sound_count(s, upscale));
        assert(buf.pos() == sounds_start(s, upscale));
        let ghost ss = buf.pos();
        if n_sounds as usize > (len - buf.tell()) / 40 {
            return None;
        }
        let mut sounds: Vec<Vec<u8>> = Vec::new();
        let mut j: u32 = 0;
        while j < n_sounds
            invariant
                buf.bytes() == s,
                len == s.len(),
                j <= n_sounds,
                ss + 40 * n_sounds <= len,
                buf.pos() == ss + 40 * j,
                sounds@.len() == j,
                forall|i: int| 0 <= i < j ==> (#[trigger] sounds@[i])@ == s.subrange(ss + 40 * i, ss + 40 * i + 40),
            decreases n_sounds - j,
        {
            let name = buf.next_bytes(40);
            sounds.push(name);
            j = j + 1;
        }
        assert(buf.pos() == delays_start(s, upscale));
        let ghost ds = buf.pos();
        let mut delays: Vec<Option<u32>> = Vec::new();
        if version >= 22 {
            if action_count as usize > (len - buf.tell()) / 4 {
                return None;
            }
            let mut k: u16 = 0;
            while k < action_count
                invariant
                    buf.bytes() == s,
                    len == s.len(),
                    k <= action_count,
                    ds + 4 * action_count <= len,
                    buf.pos() == ds + 4 * k,
                    delays@.len() == k,
                    forall|i: int| 0 <= i < k ==> #[trigger] delays@[i] == Some(u32_at(s, ds + 4 * i)),
                decreases action_count - k,
            {
                let d = buf.next_u32();
                delays.push(Some(d));
                k = k + 1;
            }
        } else {
            let mut k: u16 = 0;
            while k < action_count
                invariant
                    k <= action_count,
                    delays@.len() == k,
                    forall|i: int| 0 <= i < k ==> #[trigger] delays@[i] == None::<u32>,
                decreases action_count - k,
            {
                delays.push(None);
                k = k + 1;
            }
        }
        let mut lists = frame_lists;
        let ghost all_lists = lists@;
        let mut actions: Vec<Action> = Vec::new();
        let mut k: usize = 0;
        while k < action_count as usize
            invariant
                k <= action_count,
                all_lists.len() == action_count,
                delays@.len() == action_count,
                lists@ == all_lists.skip(k as int),
                actions@.len() == k,
                forall|i: int| 0 <= i < k ==> (#[trigger] actions@[i]).frames@ == all_lists[i]@,
                forall|i: int| 0 <= i < k ==> (#[trigger] actions@[i]).delay_bits == delays@[i],
            decreases action_count - k,
        {
            let frames = lists.remove(0);
            assert(all_lists.skip(k + 1) =~= all_lists.skip(k as int).remove(0));
            actions.push(Action { frames, delay_bits: delays[k] });
            k = k + 1;
        }
        Some(ActionFile { actions, sounds })
    }

    /// Removes the frames `[start, end)` from the eight actions (one per
    /// facing direction) from `action_index` on.
    pub fn remove_frames_in_every_direction(&mut self, action_index: usize, start: usize, end: usize)
        requires
            action_index + 8 <= old(self).actions@.len(),
            forall|i: int| action_index <= i < action_index + 8 ==> start <= end <= (
            #[trigger] old(self).actions@[i]).frames@.len(),
        ensures
            final(self).sounds@ == old(self).sounds@,
            final(self).actions@.len() == old(self).actions@.len(),
            forall|i: int| 0 <= i < old(self).actions@.len() ==> (#[trigger] final(self).actions@[i]).delay_bits
                == old(self).actions@[i].delay_bits,
            forall|i: int| 0 <= i < old(self).actions@.len() ==> (#[trigger] final(self).actions@[i]).frames@
                == if action_index <= i < action_index + 8 {
                old(self).actions@[i].frames@.take(start as int) + old(self).actions@[i].frames@.skip(end as int)
            } else {
                old(self).actions@[i].frames@
            },
    {
        let n_actions = self.actions.len();
        let mut d: usize = 0;
        while d < 8
            invariant
                d <= 8,
                n_actions == old(self).actions@.len(),
                action_index + 8 <= old(self).actions@.len(),
                forall|i: int| action_index <= i < action_index + 8 ==> start <= end <= (
                #[trigger] old(self).actions@[i]).frames@.len(),
                self.sounds@ == old(self).sounds@,
                self.actions@.len() == old(self).actions@.len(),
                forall|i: int| 0 <= i < old(self).actions@.len() ==> (#[trigger] self.actions@[i]).delay_bits
                    == old(self).actions@[i].delay_bits,
                forall|i: int| 0 <= i < old(self).actions@.len() ==> (#[trigger] self.actions@[i]).frames@
                    == if action_index <= i < action_index + d {
                    old(self).actions@[i].frames@.take(start as int) + old(self).actions@[i].frames@.skip(end as int)
                } else {
                    old(self).actions@[i].frames@
                },
            decreases 8 - d,
        {
            let j = action_index + d;
            let ghost before = self.actions@;
            let mut a = self.actions.remove(j);
            assert(a.frames@ == old(self).actions@[j as int].frames@);
            let ghost fs0 = a.frames@;
            let mut frames = a.frames;
            let mut k: usize = start;
            while k < end
                invariant
                    start <= k <= end,
                    end <= fs0.len(),
                    frames@ == fs0.take(start as int) + fs0.skip(k as int),
                decreases end - k,
            {
                assert(fs0.take(start as int) + fs0.skip(k + 1) =~= (fs0.take(start as int) + fs0.skip(k as int)).remove(start as int));
                frames.remove(start);
                k = k + 1;
            }
            a.frames = frames;
            self.actions.insert(j, a);
            proof {
                assert forall|i: int| 0 <= i < old(self).actions@.len() implies (#[trigger] self.actions@[i]).delay_bits
                    == old(self).actions@[i].delay_bits && self.actions@[i].frames@ == if action_index <= i < action_index + d + 1 {
                    old(self).actions@[i].frames@.take(start as int) + old(self).actions@[i].frames@.skip(end as int)
                } else {
                    old(self).actions@[i].frames@
                } by {
                    if i != j {
                        assert(self.actions@[i] == before[i]);
                    }
                }
            }
            d = d + 1;
        }
    }

    /// Decodes an animation file that `act_ok` accepts.
    pub fn load(bytes: Vec<u8>, upscale: i32) -> (r: ActionFile)
        requires
            act_ok(bytes@, upscale),
        ensures
            act_matches(bytes@, upscale, r),
    {
        ActionFile::try_load(bytes, upscale).unwrap()
    }
}

/// Whether every layer of every frame shows a sprite.
pub open spec fn frames_show_sprites(fs: Seq<FrameView>) -> bool {
    forall|i: int, l: int| 0 <= i < fs.len() && 0 <= l < fs[i].layers.len() ==> (#[trigger] fs[i].layers[l]).sprite_frame_index >= 0
}

proof fn lemma_layers_show_sprites(s: Seq<u8>, p: int, v: int, up: i32, n: nat)
    requires
        spec_layers(s, p, v, up, n) is Some,
    ensures
        forall|l: int| 0 <= l < spec_layers(s, p, v, up, n).unwrap().0.len() ==> (
        #[trigger] spec_layers(s, p, v, up, n).unwrap().0[l]).sprite_frame_index >= 0,
    decreases n,
{
    if n > 0 {
        lemma_layers_show_sprites(s, p + layer_size(v), v, up, (n - 1) as nat);
    }
}

proof fn lemma_frames_show_sprites(s: Seq<u8>, p: int, v: int, up: i32, n: nat)
    requires
        spec_frames(s, p, v, up, n) is Some,
    ensures
        frames_show_sprites(spec_frames(s, p, v, up, n).unwrap().0),
    decreases n,
{
    if n > 0 {
        let (f, q) = spec_frame(s, p, v, up).unwrap();
        lemma_layers_show_sprites(s, p + 36, v, up, u32_at(s, p + 32) as nat);
        lemma_frames_show_sprites(s, q, v, up, (n - 1) as nat);
        let all = spec_frames(s, p, v, up, n).unwrap().0;
        let rest = spec_frames(s, q, v, up, (n - 1) as nat).unwrap().0;
        assert(all == seq![f] + rest);
        assert forall|i: int, l: int| 0 <= i < all.len() && 0 <= l < all[i].layers.len() implies (
        #[trigger] all[i].layers[l]).sprite_frame_index >= 0 by {
            if i > 0 {
                assert(all[i] == rest[i - 1]);
            }
        }
    }
}

proof fn lemma_actions_show_sprites(s: Seq<u8>, p: int, v: int, up: i32, n: nat)
    requires
        spec_actions(s, p, v, up, n) is Some,
    ensures
        forall|k: int| 0 <= k < spec_actions(s, p, v, up, n).unwrap().0.len() ==> frames_show_sprites(
            #[trigger] spec_actions(s, p, v, up, n).unwrap().0[k],
        ),
    decreases n,
{
    if n > 0 {
        let (fs, q) = spec_frames(s, p + 4, v, up, u32_at(s, p) as nat).unwrap();
        lemma_frames_show_sprites(s, p + 4, v, up, u32_at(s, p) as nat);
        lemma_actions_show_sprites(s, q, v, up, (n - 1) as nat);
        let all = spec_actions(s, p, v, up, n).unwrap().0;
        let rest = spec_actions(s, q, v, up, (n - 1) as nat).unwrap().0;
        assert(all == seq![fs] + rest);
        assert forall|k: int| 0 <= k < all.len() implies frames_show_sprites(#[trigger] all[k]) by {
            if k > 0 {
                assert(all[k] == rest[k - 1]);
            }
        }
    }
}

/// Law: a decoded file holds only layers that show a sprite; records that
/// refer to no sprite frame (index -1) are dropped while reading.
pub proof fn law_layers_show_sprites(s: Seq<u8>, up: i32, f: ActionFile, k: int, i: int, l: int)
    requires
        act_ok(s, up),
        act_matches(s, up, f),
        0 <= k < f.actions@.len(),
        0 <= i < f.actions@[k].frames@.len(),
        0 <= l < f.actions@[k].frames@[i].layers@.len(),
    ensures
        f.actions@[k].frames@[i].layers@[l].sprite_frame_index >= 0,
{
    lemma_actions_show_sprites(s, 16, act_version(s), up, action_count(s));
    lemma_actions_len(s, 16, act_version(s), up, action_count(s));
    let acts = file_actions(s, up).unwrap().0;
    assert(frame_views(f.actions@[k].frames@) == acts[k]);
    assert(frames_show_sprites(acts[k]));
    assert(frame_views(f.actions@[k].frames@)[i] == f.actions@[k].frames@[i]@);
    assert(acts[k][i].layers[l] == f.actions@[k].frames@[i].layers@[l]);
}

/// Whether a layer record of a file of version `v` lies at `q` and holds
/// the layer `l`: its position (scaled by `up`) and sprite frame index, and
/// its scale: 1.0 on both axes before 2.0, one value at offset 20 used for
/// both axes up to 2.3, the values at offsets 20 and 24 after that.
pub open spec fn scale_record_at(s: Seq<u8>, q: int, v: int, up: i32, l: Layer) -> bool {
    &&& 0 <= q
    &&& q + layer_size(v) <= s.len()
    &&& l.pos == ((i32_at(s, q) * up) as i32, (i32_at(s, q + 4) * up) as i32)
    &&& l.sprite_frame_index == i32_at(s, q + 8)
    &&& l.scale == (if v < 20 {
        (ONE_F32_BITS, ONE_F32_BITS)
    } else if v <= 23 {
        (u32_at(s, q + 20), u32_at(s, q + 20))
    } else {
        (u32_at(s, q + 20), u32_at(s, q + 24))
    })
}

/// Whether the layer `l` comes from such a record somewhere in the file.
pub open spec fn from_scale_record(s: Seq<u8>, v: int, up: i32, l: Layer) -> bool {
    exists|q: int| #[trigger] scale_record_at(s, q, v, up, l)
}

/// Whether every layer of `ls` comes from such a record.
pub open spec fn scale_layers(s: Seq<u8>, v: int, up: i32, ls: Seq<Layer>) -> bool {
    forall|i: int| 0 <= i < ls.len() ==> #[trigger] from_scale_record(s, v, up, ls[i])
}

proof fn lemma_layers_scale(s: Seq<u8>, p: int, v: int, up: i32, n: nat)
    requires
        spec_layers(s, p, v, up, n) is Some,
    ensures
        scale_layers(s, v, up, spec_layers(s, p, v, up, n).unwrap().0),
    decreases n,
{
    if n > 0 {
        let l = spec_layer(s, p, v, up);
        assert(scale_record_at(s, p, v, up, l));
        lemma_layers_scale(s, p + layer_size(v), v, up, (n - 1) as nat);
        let kept: Seq<Layer> = if l.sprite_frame_index >= 0 { seq![l] } else { Seq::empty() };
        let rest = spec_layers(s, p + layer_size(v), v, up, (n - 1) as nat).unwrap().0;
        let all = spec_layers(s, p, v, up, n).unwrap().0;
        assert(all == kept + rest);
        assert forall|i: int| 0 <= i < all.len() implies #[trigger] from_scale_record(s, v, up, all[i]) by {
            if i < kept.len() {
                assert(all[i] == l);
                assert(scale_record_at(s, p, v, up, all[i]));
            } else {
                let j = i - kept.len();
                assert(all[i] == rest[j]);
                assert(from_scale_record(s, v, up, rest[j]));
                let q = choose|q: int| #[trigger] scale_record_at(s, q, v, up, rest[j]);
                assert(scale_record_at(s, q, v, up, all[i]));
            }
        }
        assert(scale_layers(s, v, up, all));
    }
}

proof fn lemma_frames_scale(s: Seq<u8>, p: int, v: int, up: i32, n: nat)
    requires
        spec_frames(s, p, v, up, n) is Some,
    ensures
        forall|i: int| 0 <= i < spec_frames(s, p, v, up, n).unwrap().0.len() ==> scale_layers(s, v, up,
            (#[trigger] spec_frames(s, p, v, up, n).unwrap().0[i]).layers),
    decreases n,
{
    if n > 0 {
        let (f, q) = spec_frame(s, p, v, up).unwrap();
        lemma_layers_scale(s, p + 36, v, up, u32_at(s, p + 32) as nat);
        lemma_frames_scale(s, q, v, up, (n - 1) as nat);
        let all = spec_frames(s, p, v, up, n).unwrap().0;
        let rest = spec_frames(s, q, v, up, (n - 1) as nat).unwrap().0;
        assert(all == seq![f] + rest);
        assert forall|i: int| 0 <= i < all.len() implies scale_layers(s, v, up, (#[trigger] all[i]).layers) by {
            if i > 0 {
                assert(all[i] == rest[i - 1]);
            }
        }
    }
}

proof fn lemma_actions_scale(s: Seq<u8>, p: int, v: int, up: i32, n: nat)
    requires
        spec_actions(s, p, v, up, n) is Some,
    ensures
        forall|k: int, i: int| 0 <= k < spec_actions(s, p, v, up, n).unwrap().0.len() && 0 <= i
            < spec_actions(s, p, v, up, n).unwrap().0[k].len() ==> scale_layers(s, v, up,
            (#[trigger] spec_actions(s, p, v, up, n).unwrap().0[k][i]).layers),
    decreases n,
{
    if n > 0 {
        let (fs, q) = spec_frames(s, p + 4, v, up, u32_at(s, p) as nat).unwrap();
        lemma_frames_scale(s, p + 4, v, up, u32_at(s, p) as nat);
        lemma_actions_scale(s, q, v, up, (n - 1) as nat);
        let all = spec_actions(s, p, v, up, n).unwrap().0;
        let rest = spec_actions(s, q, v, up, (n - 1) as nat).unwrap().0;
        assert(all == seq![fs] + rest);
        assert forall|k: int, i: int| 0 <= k < all.len() && 0 <= i < all[k].len() implies scale_layers(
            s,
            v,
            up,
            (#[trigger] all[k][i]).layers,
        ) by {
            if k > 0 {
                assert(all[k] == rest[k - 1]);
            } else {
                assert(all[k] == fs);
            }
        }
    }
}

/// Every decoded layer comes from a layer record of the file, whose
/// position, sprite frame index and scale it carries (see
/// `scale_record_at`); in particular, in a file of version 2.0 to 2.3 a
/// layer stores one scale, at offset 20 of its record, used for both axes.
pub proof fn law_layer_scale_by_version(s: Seq<u8>, up: i32, f: ActionFile, k: int, i: int, l: int)
    requires
        act_ok(s, up),
        act_matches(s, up, f),
        0 <= k < f.actions@.len(),
        0 <= i < f.actions@[k].frames@.len(),
        0 <= l < f.actions@[k].frames@[i].layers@.len(),
    ensures
        from_scale_record(s, act_version(s), up, f.actions@[k].frames@[i].layers@[l]),
        20 <= act_version(s) <= 23 ==> f.actions@[k].frames@[i].layers@[l].scale.0
            == f.actions@[k].frames@[i].layers@[l].scale.1,
        act_version(s) < 20 ==> f.actions@[k].frames@[i].layers@[l].scale == (ONE_F32_BITS, ONE_F32_BITS),
{
    let v = act_version(s);
    lemma_actions_scale(s, 16, v, up, action_count(s));
    lemma_actions_len(s, 16, v, up, action_count(s));
    let acts = file_actions(s, up).unwrap().0;
    assert(frame_views(f.actions@[k].frames@) == acts[k]);
    assert(frame_views(f.actions@[k].frames@)[i] == f.actions@[k].frames@[i]@);
    assert(scale_layers(s, v, up, acts[k][i].layers));
    let layer = f.actions@[k].frames@[i].layers@[l];
    assert(acts[k][i].layers[l] == layer);
    assert(from_scale_record(s, v, up, layer));
    let q = choose|q: int| #[trigger] scale_record_at(s, q, v, up, layer);
    assert(scale_record_at(s, q, v, up, layer));
}

} // verus!
