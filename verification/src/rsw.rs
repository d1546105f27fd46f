//! Decoding of RSW map-resource files: the names of the map's other files,
//! water, lighting and ground bounds, and the models, lights, sounds and
//! effects placed on the map.
//!
//! File versions are handled in tenths ("1.9" is 19). Floating-point fields
//! are kept as the raw IEEE-754 bits stored in the file, and text fields as
//! their raw fixed-length bytes; scaling them and decoding names is left to
//! the caller.
use vstd::prelude::*;
use crate::binary_reader::{le32, to_i32, BinaryReader};

verus! {

/// Three raw 32-bit float fields.
#[derive(Clone, Copy, Debug, PartialEq, Eq, Structural)]
pub struct Vec3Bits {
    pub x: u32,
    pub y: u32,
    pub z: u32,
}

/// Bounds of the ground.
#[derive(Clone, Copy, Debug, PartialEq, Eq, Structural)]
pub struct GroundData {
    pub top: i32,
    pub bottom: i32,
    pub left: i32,
    pub right: i32,
}

/// Names of the map's other files, as raw 40-byte fields; `src` exists
/// from version 1.4 on.
pub struct FileData {
    pub ini: Vec<u8>,
    pub gnd: Vec<u8>,
    pub gat: Vec<u8>,
    pub src: Option<Vec<u8>>,
}

/// Water settings: stored in full from version 1.8 on (the animation speed
/// from 1.9 on); before that only the level, from version 1.3 on.
#[derive(Clone, Copy, Debug, PartialEq, Eq, Structural)]
pub enum WaterData {
    Stored { level: u32, typ: i32, wave_height: u32, wave_speed: u32, wave_pitch: u32, anim_speed: Option<i32> },
    Default { stored_level: Option<u32> },
}

/// Lighting: stored from version 1.5 on (the opacity from 1.7 on).
#[derive(Clone, Copy, Debug, PartialEq, Eq, Structural)]
pub enum LightData {
    Stored { longitude: i32, latitude: i32, diffuse: Vec3Bits, ambient: Vec3Bits, opacity: Option<u32> },
    Default,
}

/// A placed model. Name, animation and block fields exist from version 1.3 on.
pub struct RswModelInstance {
    pub name: Option<Vec<u8>>,
    pub anim_type: Option<i32>,
    pub anim_speed: Option<u32>,
    pub block_type: Option<i32>,
    pub filename: Vec<u8>,
    pub node_name: Vec<u8>,
    pub pos: Vec3Bits,
    pub rot: Vec3Bits,
    pub scale: Vec3Bits,
}

/// A light source.
pub struct MapLight {
    pub name: Vec<u8>,
    pub pos: Vec3Bits,
    pub color: (i32, i32, i32),
    pub range: u32,
}

/// A sound source. The cycle exists from version 2.0 on.
pub struct MapSound {
    pub name: Vec<u8>,
    pub file: Vec<u8>,
    pub pos: Vec3Bits,
    pub vol: u32,
    pub width: i32,
    pub height: i32,
    pub range: u32,
    pub cycle: Option<u32>,
}

/// An effect emitter.
pub struct MapEffect {
    pub name: Vec<u8>,
    pub pos: Vec3Bits,
    pub id: i32,
    pub delay: u32,
    pub param: (u32, u32, u32, u32),
}

/// A decoded map-resource file.
pub struct Rsw {
    pub ground: GroundData,
    pub water: WaterData,
    pub file: FileData,
    pub light: LightData,
    pub models: Vec<RswModelInstance>,
    pub lights: Vec<MapLight>,
    pub sounds: Vec<MapSound>,
    pub effects: Vec<MapEffect>,
}

pub open spec fn u32_at(s: Seq<u8>, p: int) -> u32 {
    le32(s, p) as u32
}

pub open spec fn i32_at(s: Seq<u8>, p: int) -> i32 {
    to_i32(le32(s, p)) as i32
}

pub open spec fn vec3_at(s: Seq<u8>, p: int) -> Vec3Bits {
    Vec3Bits { x: u32_at(s, p), y: u32_at(s, p + 4), z: u32_at(s, p + 8) }
}

/// Version of the file, in tenths: major byte, then minor byte.
pub open spec fn rsw_version(s: Seq<u8>) -> int {
    10 * s[4] as int + s[5] as int
}

pub open spec fn file_end(v: int) -> int {
    if v >= 14 { 166 } else { 126 }
}

pub open spec fn water_len(v: int) -> int {
    if v >= 19 { 24 } else if v >= 18 { 20 } else if v >= 13 { 4 } else { 0 }
}

pub open spec fn light_len(v: int) -> int {
    if v >= 17 { 36 } else if v >= 15 { 32 } else { 0 }
}

pub open spec fn ground_len(v: int) -> int {
    if v >= 16 { 16 } else { 0 }
}

/// Where the entity count lies.
pub open spec fn count_pos(v: int) -> int {
    file_end(v) + water_len(v) + light_len(v) + ground_len(v)
}

pub open spec fn spec_water(s: Seq<u8>, v: int) -> WaterData {
    let p = file_end(v);
    if v >= 18 {
        WaterData::Stored {
            level: u32_at(s, p),
            typ: i32_at(s, p + 4),
            wave_height: u32_at(s, p + 8),
            wave_speed: u32_at(s, p + 12),
            wave_pitch: u32_at(s, p + 16),
            anim_speed: if v >= 19 { Some(i32_at(s, p + 20)) } else { None },
        }
    } else {
        WaterData::Default { stored_level: if v >= 13 { Some(u32_at(s, p)) } else { None } }
    }
}

pub open spec fn spec_light(s: Seq<u8>, v: int) -> LightData {
    let p = file_end(v) + water_len(v);
    if v >= 15 {
        LightData::Stored {
            longitude: i32_at(s, p),
            latitude: i32_at(s, p + 4),
            diffuse: vec3_at(s, p + 8),
            ambient: vec3_at(s, p + 20),
            opacity: if v >= 17 { Some(u32_at(s, p + 32)) } else { None },
        }
    } else {
        LightData::Default
    }
}

pub open spec fn spec_ground(s: Seq<u8>, v: int) -> GroundData {
    let p = file_end(v) + water_len(v) + light_len(v);
    if v >= 16 {
        GroundData { top: i32_at(s, p), bottom: i32_at(s, p + 4), left: i32_at(s, p + 8), right: i32_at(s, p + 12) }
    } else {
        GroundData { top: -500i32, bottom: 500i32, left: -500i32, right: 500i32 }
    }
}

/// Size of the record of an entity of kind `t` (1 model, 2 light, 3 sound,
/// 4 effect) in a file of version `v`.
pub open spec fn entity_size(t: int, v: int) -> int {
    if t == 1 {
        (if v >= 13 { 52int } else { 0int }) + 196
    } else if t == 2 {
        108
    } else if t == 3 {
        if v >= 20 { 192 } else { 188 }
    } else {
        116
    }
}

/// The kinds and record positions of `n` entities starting at `pos`, and
/// where they end: each is a 32-bit kind, which must be 1 to 4, followed by
/// its record. `None` when one runs past the end or has another kind.
pub open spec fn spec_entities(s: Seq<u8>, pos: int, v: int, n: nat) -> Option<(Seq<(int, int)>, int)>
    decreases n,
{
    if n == 0 {
        Some((Seq::empty(), pos))
    } else if pos < 0 || pos + 4 > s.len() {
        None
    } else {
        let t = to_i32(le32(s, pos));
        let next = pos + 4 + entity_size(t, v);
        if t < 1 || t > 4 || next > s.len() {
            None
        } else {
            match spec_entities(s, next, v, (n - 1) as nat) {
                Some((es, e)) => Some((seq![(t, pos + 4)] + es, e)),
                None => None,
            }
        }
    }
}

/// Record positions, in order, of the entities of kind `t`.
pub open spec fn kind_positions(es: Seq<(int, int)>, t: int) -> Seq<int>
    decreases es.len(),
{
    if es.len() == 0 {
        Seq::empty()
    } else if es.last().0 == t {
        kind_positions(es.drop_last(), t).push(es.last().1)
    } else {
        kind_positions(es.drop_last(), t)
    }
}

/// Whether the bytes at `p` hold the model `m`.
pub open spec fn model_at(s: Seq<u8>, v: int, p: int, m: RswModelInstance) -> bool {
    let base = if v >= 13 { p + 52 } else { p };
    &&& (if v >= 13 {
        &&& m.name matches Some(n) && n@ == s.subrange(p, p + 40)
        &&& m.anim_type == Some(i32_at(s, p + 40))
        &&& m.anim_speed == Some(u32_at(s, p + 44))
        &&& m.block_type == Some(i32_at(s, p + 48))
    } else {
        m.name is None && m.anim_type is None && m.anim_speed is None && m.block_type is None
    })
    &&& m.filename@ == s.subrange(base, base + 80)
    &&& m.node_name@ == s.subrange(base + 80, base + 160)
    &&& m.pos == vec3_at(s, base + 160)
    &&& m.rot == vec3_at(s, base + 172)
    &&& m.scale == vec3_at(s, base + 184)
}

/// Whether the bytes at `p` hold the light `l`.
pub open spec fn light_at(s: Seq<u8>, p: int, l: MapLight) -> bool {
    &&& l.name@ == s.subrange(p, p + 80)
    &&& l.pos == vec3_at(s, p + 80)
    &&& l.color == (i32_at(s, p + 92), i32_at(s, p + 96), i32_at(s, p + 100))
    &&& l.range == u32_at(s, p + 104)
}

/// Whether the bytes at `p` hold the sound `x`.
pub open spec fn sound_at(s: Seq<u8>, v: int, p: int, x: MapSound) -> bool {
    &&& x.name@ == s.subrange(p, p + 80)
    &&& x.file@ == s.subrange(p + 80, p + 160)
    &&& x.pos == vec3_at(s, p + 160)
    &&& x.vol == u32_at(s, p + 172)
    &&& x.width == i32_at(s, p + 176)
    &&& x.height == i32_at(s, p + 180)
    &&& x.range == u32_at(s, p + 184)
    &&& x.cycle == (if v >= 20 { Some(u32_at(s, p + 188)) } else { None })
}

/// Whether the bytes at `p` hold the effect `e`.
pub open spec fn effect_at(s: Seq<u8>, p: int, e: MapEffect) -> bool {
    &&& e.name@ == s.subrange(p, p + 80)
    &&& e.pos == vec3_at(s, p + 80)
    &&& e.id == i32_at(s, p + 92)
    &&& e.delay == u32_at(s, p + 96)
    &&& e.param == (u32_at(s, p + 100), u32_at(s, p + 104), u32_at(s, p + 108), u32_at(s, p + 112))
}

/// Whether the four lists hold, in order, the entities `es` of each kind.
pub open spec fn entities_match(
    s: Seq<u8>,
    v: int,
    es: Seq<(int, int)>,
    models: Seq<RswModelInstance>,
    lights: Seq<MapLight>,
    sounds: Seq<MapSound>,
    effects: Seq<MapEffect>,
) -> bool {
    &&& models.len() == kind_positions(es, 1).len()
    &&& forall|j: int| 0 <= j < models.len() ==> model_at(s, v, kind_positions(es, 1)[j], #[trigger] models[j])
    &&& lights.len() == kind_positions(es, 2).len()
    &&& forall|j: int| 0 <= j < lights.len() ==> light_at(s, kind_positions(es, 2)[j], #[trigger] lights[j])
    &&& sounds.len() == kind_positions(es, 3).len()
    &&& forall|j: int| 0 <= j < sounds.len() ==> sound_at(s, v, kind_positions(es, 3)[j], #[trigger] sounds[j])
    &&& effects.len() == kind_positions(es, 4).len()
    &&& forall|j: int| 0 <= j < effects.len() ==> effect_at(s, kind_positions(es, 4)[j], #[trigger] effects[j])
}

/// The number of entities the file announces.
pub open spec fn entity_count(s: Seq<u8>) -> int {
    to_i32(le32(s, count_pos(rsw_version(s))))
}

/// Whether `s` is a map-resource file that can be decoded: the magic
/// "GRSW", a version, the header fields that version has, a non-negative
/// entity count, and that many well-formed entities.
pub open spec fn rsw_ok(s: Seq<u8>) -> bool {
    &&& s.len() >= 6
    &&& s[0] == 0x47u8 && s[1] == 0x52u8 && s[2] == 0x53u8 && s[3] == 0x57u8
    &&& count_pos(rsw_version(s)) + 4 <= s.len()
    &&& entity_count(s) >= 0
    &&& spec_entities(s, count_pos(rsw_version(s)) + 4, rsw_version(s), entity_count(s) as nat) is Some
}

/// Whether `r` is what the file `s` holds.
pub open spec fn rsw_matches(s: Seq<u8>, r: Rsw) -> bool {
    let v = rsw_version(s);
    &&& r.file.ini@ == s.subrange(6, 46)
    &&& r.file.gnd@ == s.subrange(46, 86)
    &&& r.file.gat@ == s.subrange(86, 126)
    &&& (if v >= 14 { r.file.src matches Some(x) && x@ == s.subrange(126, 166) } else { r.file.src is None })
    &&& r.water == spec_water(s, v)
    &&& r.light == spec_light(s, v)
    &&& r.ground == spec_ground(s, v)
    &&& entities_match(
        s,
        v,
        spec_entities(s, count_pos(v) + 4, v, entity_count(s) as nat).unwrap().0,
        r.models@,
        r.lights@,
        r.sounds@,
        r.effects@,
    )
}

fn read_vec3(buf: &mut BinaryReader) -> (r: Vec3Bits)
    requires
        old(buf).pos() + 12 <= old(buf).bytes().len(),
    ensures
        r == vec3_at(old(buf).bytes(), old(buf).pos()),
        final(buf).bytes() == old(buf).bytes(),
        final(buf).pos() == old(buf).pos() + 12,
{
    let x = buf.next_u32();
    let y = buf.next_u32();
    let z = buf.next_u32();
    Vec3Bits { x, y, z }
}

/// Reads a model record.
fn read_model(buf: &mut BinaryReader, version: u32) -> (r: RswModelInstance)
    requires
        old(buf).pos() + entity_size(1, version as int) <= old(buf).bytes().len(),
    ensures
        model_at(old(buf).bytes(), version as int, old(buf).pos(), r),
        final(buf).bytes() == old(buf).bytes(),
        final(buf).pos() == old(buf).pos() + entity_size(1, version as int),
{
    let (name, anim_type, anim_speed, block_type) = if version >= 13 {
        let name = buf.next_bytes(40);
        let anim_type = buf.next_i32();
        let anim_speed = buf.next_u32();
        let block_type = buf.next_i32();
        (Some(name), Some(anim_type), Some(anim_speed), Some(block_type))
    } else {
        (None, None, None, None)
    };
    let filename = buf.next_bytes(80);
    let node_name = buf.next_bytes(80);
    let pos = read_vec3(buf);
    let rot = read_vec3(buf);
    let scale = read_vec3(buf);
    RswModelInstance { name, anim_type, anim_speed, block_type, filename, node_name, pos, rot, scale }
}

/// Reads a light record.
fn read_light(buf: &mut BinaryReader) -> (r: MapLight)
    requires
        old(buf).pos() + 108 <= old(buf).bytes().len(),
    ensures
        light_at(old(buf).bytes(), old(buf).pos(), r),
        final(buf).bytes() == old(buf).bytes(),
        final(buf).pos() == old(buf).pos() + 108,
{
    let name = buf.next_bytes(80);
    let pos = read_vec3(buf);
    let c0 = buf.next_i32();
    let c1 = buf.next_i32();
    let c2 = buf.next_i32();
    let range = buf.next_u32();
    MapLight { name, pos, color: (c0, c1, c2), range }
}

/// Reads a sound record.
fn read_sound(buf: &mut BinaryReader, version: u32) -> (r: MapSound)
    requires
        old(buf).pos() + entity_size(3, version as int) <= old(buf).bytes().len(),
    ensures
        sound_at(old(buf).bytes(), version as int, old(buf).pos(), r),
        final(buf).bytes() == old(buf).bytes(),
        final(buf).pos() == old(buf).pos() + entity_size(3, version as int),
{
    let name = buf.next_bytes(80);
    let file = buf.next_bytes(80);
    let pos = read_vec3(buf);
    let vol = buf.next_u32();
    let width = buf.next_i32();
    let height = buf.next_i32();
    let range = buf.next_u32();
    let cycle = if version >= 20 {
        Some(buf.next_u32())
    } else {
        None
    };
    MapSound { name, file, pos, vol, width, height, range, cycle }
}

/// Reads an effect record.
fn read_effect(buf: &mut BinaryReader) -> (r: MapEffect)
    requires
        old(buf).pos() + 116 <= old(buf).bytes().len(),
    ensures
        effect_at(old(buf).bytes(), old(buf).pos(), r),
        final(buf).bytes() == old(buf).bytes(),
        final(buf).pos() == old(buf).pos() + 116,
{
    let name = buf.next_bytes(80);
    let pos = read_vec3(buf);
    let id = buf.next_i32();
    let delay = buf.next_u32();
    let p0 = buf.next_u32();
    let p1 = buf.next_u32();
    let p2 = buf.next_u32();
    let p3 = buf.next_u32();
    MapEffect { name, pos, id, delay, param: (p0, p1, p2, p3) }
}

/// Entities `done` followed by those `rest` describes.
pub open spec fn prepend_entities(
    done: Seq<(int, int)>,
    rest: Option<(Seq<(int, int)>, int)>,
) -> Option<(Seq<(int, int)>, int)> {
    match rest {
        Some((es, e)) => Some((done + es, e)),
        None => None,
    }
}

proof fn lemma_kind_positions_push(done: Seq<(int, int)>, x: (int, int), t: int)
    ensures
        kind_positions(done.push(x), t) == (if x.0 == t {
            kind_positions(done, t).push(x.1)
        } else {
            kind_positions(done, t)
        }),
{
    assert(done.push(x).drop_last() =~= done);
}

fn count_position(version: u32) -> (r: usize)
    ensures
        r == count_pos(version as int),
{
    let file_end: usize = if version >= 14 { 166 } else { 126 };
    let water: usize = if version >= 19 { 24 } else if version >= 18 { 20 } else if version >= 13 { 4 } else { 0 };
    let light: usize = if version >= 17 { 36 } else if version >= 15 { 32 } else { 0 };
    let ground: usize = if version >= 16 { 16 } else { 0 };
    file_end + water + light + ground
}

fn entity_record_size(t: i32, version: u32) -> (r: usize)
    requires
        1 <= t <= 4,
    ensures
        r == entity_size(t as int, version as int),
{
    if t == 1 {
        if version >= 13 { 248 } else { 196 }
    } else if t == 2 {
        108
    } else if t == 3 {
        if version >= 20 { 192 } else { 188 }
    } else {
        116
    }
}

impl Rsw {
    /// Decodes a map-resource file; `None` exactly when `rsw_ok` does not
    /// hold (see `rsw_matches` for what the result holds).
    pub fn try_load(bytes: Vec<u8>) -> (r: Option<Rsw>)
        ensures
            r is Some <==> rsw_ok(bytes@),
            r matches Some(x) ==> rsw_matches(bytes@, x),
    {
        let ghost s = bytes@;
        let mut buf = BinaryReader::new(bytes);
        let len = buf.len();
        if len < 6 {
            return None;
        }
        let g = buf.next_u8();
        let r_ = buf.next_u8();
        let s_ = buf.next_u8();
        let w = buf.next_u8();
        if !(g == 0x47 && r_ == 0x52 && s_ == 0x53 && w == 0x57) {
            return None;
        }
        let major = buf.next_u8();
        let minor = buf.next_u8();
        let version: u32 = 10 * major as u32 + minor as u32;
        let ghost v = version as int;
        assert(v == rsw_version(s));
        let count_at = count_position(version);
        if count_at > len - 4 {
            return None;
        }
        let ini = buf.next_bytes(40);
        let gnd = buf.next_bytes(40);
        let gat = buf.next_bytes(40);
        let src = if version >= 14 {
            Some(buf.next_bytes(40))
        } else {
            None
        };
        let file = FileData { ini, gnd, gat, src };
        let water = if version >= 18 {
            let level = buf.next_u32();
            let typ = buf.next_i32();
            let wave_height = buf.next_u32();
            let wave_speed = buf.next_u32();
            let wave_pitch = buf.next_u32();
            let anim_speed = if version >= 19 {
                Some(buf.next_i32())
            } else {
                None
            };
            WaterData::Stored { level, typ, wave_height, wave_speed, wave_pitch, anim_speed }
        } else if version >= 13 {
            WaterData::Default { stored_level: Some(buf.next_u32()) }
        } else {
            WaterData::Default { stored_level: None }
        };
        let light = if version >= 15 {
            let longitude = buf.next_i32();
            let latitude = buf.next_i32();
            let diffuse = read_vec3(&mut buf);
            let ambient = read_vec3(&mut buf);
            let opacity = if version >= 17 {
                Some(buf.next_u32())
            } else {
                None
            };
            LightData::Stored { longitude, latitude, diffuse, ambient, opacity }
        } else {
            LightData::Default
        };
        let ground = if version >= 16 {
            let top = buf.next_i32();
            let bottom = buf.next_i32();
            let left = buf.next_i32();
            let right = buf.next_i32();
            GroundData { top, bottom, left, right }
        } else {
            GroundData { top: -500, bottom: 500, left: -500, right: 500 }
        };
        assert(buf.pos() == count_pos(v));
        let count = buf.next_i32();
        if count < 0 {
            return None;
        }
        let ghost start = buf.pos();
        let ghost n = count as nat;
        let mut models: Vec<RswModelInstance> = Vec::new();
        let mut lights: Vec<MapLight> = Vec::new();
        let mut sounds: Vec<MapSound> = Vec::new();
        let mut effects: Vec<MapEffect> = Vec::new();
        let ghost mut done: Seq<(int, int)> = Seq::empty();
        let mut k: i32 = 0;
        proof {
            assert(Seq::<(int, int)>::empty() + spec_entities(s, start, v, n).unwrap_or((Seq::empty(), 0)).0
                =~= spec_entities(s, start, v, n).unwrap_or((Seq::empty(), 0)).0);
            assert(spec_entities(s, start, v, n) == prepend_entities(done, spec_entities(s, start, v, n)));
        }
        while k < count
            invariant
                buf.bytes() == s,
                s == bytes@,
                len == s.len(),
                len >= 4,
                buf.pos() <= len,
                v == rsw_version(s),
                version == v,
                0 <= k <= count,
                n == count,
                entity_count(s) == count,
                start == count_pos(v) + 4,
                spec_entities(s, start, v, n) == prepend_entities(done, spec_entities(s, buf.pos(), v, (count - k) as nat)),
                entities_match(s, v, done, models@, lights@, sounds@, effects@),
            decreases count - k,
        {
            let ghost p = buf.pos();
            let ghost rest_n = (count - k - 1) as nat;
            if buf.tell() > len - 4 {
                proof {
                    assert(spec_entities(s, p, v, (count - k) as nat) is None);
                    assert(spec_entities(s, start, v, n) is None);
                    assert(entity_count(s) as nat == n);
                    assert(!rsw_ok(s));
                }
                return None;
            }
            let t = buf.next_i32();
            let ghost m = (count - k) as nat;
            assert(t == to_i32(le32(s, p)));
            if t < 1 || t > 4 {
                proof {
                    assert(spec_entities(s, p, v, m) is None);
                    assert(spec_entities(s, start, v, n) is None);
                    assert(entity_count(s) as nat == n);
                    assert(!rsw_ok(s));
                }
                return None;
            }
            let size = entity_record_size(t, version);
            if size > len || buf.tell() > len - size {
                proof {
                    assert(p + 4 + entity_size(t as int, v) > s.len());
                    assert(spec_entities(s, p, v, m) is None);
                    assert(spec_entities(s, start, v, n) is None);
                    assert(entity_count(s) as nat == n);
                    assert(!rsw_ok(s));
                }
                return None;
            }
            let ghost q = p + 4;
            let ghost x = (t as int, q);
            let ghost old_models = models@;
            let ghost old_lights = lights@;
            let ghost old_sounds = sounds@;
            let ghost old_effects = effects@;
            if t == 1 {
                let m = read_model(&mut buf, version);
                models.push(m);
            } else if t == 2 {
                let l = read_light(&mut buf);
                lights.push(l);
            } else if t == 3 {
                let so = read_sound(&mut buf, version);
                sounds.push(so);
            } else {
                let e = read_effect(&mut buf);
                effects.push(e);
            }
            proof {
                lemma_kind_positions_push(done, x, 1);
                lemma_kind_positions_push(done, x, 2);
                lemma_kind_positions_push(done, x, 3);
                lemma_kind_positions_push(done, x, 4);
                let rest = spec_entities(s, buf.pos(), v, rest_n);
                match rest {
                    Some((es, e)) => {
                        assert(done + (seq![x] + es) =~= done.push(x) + es);
                    },
                    None => {},
                }
                assert(spec_entities(s, start, v, n) == prepend_entities(done.push(x), rest));
                let nd = done.push(x);
                assert forall|j: int| 0 <= j < models@.len() implies model_at(s, v, kind_positions(nd, 1)[j], #[trigger] models@[j]) by {
                    if j < old_models.len() {
                        assert(models@[j] == old_models[j]);
                    }
                }
                assert forall|j: int| 0 <= j < lights@.len() implies light_at(s, kind_positions(nd, 2)[j], #[trigger] lights@[j]) by {
                    if j < old_lights.len() {
                        assert(lights@[j] == old_lights[j]);
                    }
                }
                assert forall|j: int| 0 <= j < sounds@.len() implies sound_at(s, v, kind_positions(nd, 3)[j], #[trigger] sounds@[j]) by {
                    if j < old_sounds.len() {
                        assert(sounds@[j] == old_sounds[j]);
                    }
                }
                assert forall|j: int| 0 <= j < effects@.len() implies effect_at(s, kind_positions(nd, 4)[j], #[trigger] effects@[j]) by {
                    if j < old_effects.len() {
                        assert(effects@[j] == old_effects[j]);
                    }
                }
                done = nd;
            }
            k = k + 1;
        }
        proof {
            assert(done + Seq::<(int, int)>::empty() =~= done);
        }
        Some(Rsw { ground, water, file, light, models, lights, sounds, effects })
    }

    /// Decodes a map-resource file that `rsw_ok` accepts.
    pub fn load(bytes: Vec<u8>) -> (r: Rsw)
        requires
            rsw_ok(bytes@),
        ensures
            rsw_matches(bytes@, r),
    {
        Rsw::try_load(bytes).unwrap()
    }
}

proof fn lemma_entities_shape(s: Seq<u8>, pos: int, v: int, n: nat)
    requires
        spec_entities(s, pos, v, n) is Some,
    ensures
        spec_entities(s, pos, v, n).unwrap().0.len() == n,
        forall|i: int| 0 <= i < n ==> 1 <= (#[trigger] spec_entities(s, pos, v, n).unwrap().0[i]).0 <= 4,
    decreases n,
{
    if n > 0 {
        let t = to_i32(le32(s, pos));
        let next = pos + 4 + entity_size(t, v);
        lemma_entities_shape(s, next, v, (n - 1) as nat);
        let rest = spec_entities(s, next, v, (n - 1) as nat).unwrap().0;
        assert forall|i: int| 0 <= i < n implies 1 <= (#[trigger] spec_entities(s, pos, v, n).unwrap().0[i]).0 <= 4 by {
            if i > 0 {
                assert(spec_entities(s, pos, v, n).unwrap().0[i] == rest[i - 1]);
            }
        }
    }
}

proof fn lemma_kinds_partition(es: Seq<(int, int)>)
    requires
        forall|i: int| 0 <= i < es.len() ==> 1 <= (#[trigger] es[i]).0 <= 4,
    ensures
        kind_positions(es, 1).len() + kind_positions(es, 2).len() + kind_positions(es, 3).len()
            + kind_positions(es, 4).len() == es.len(),
    decreases es.len(),
{
    if es.len() > 0 {
        let d = es.drop_last();
        assert forall|i: int| 0 <= i < d.len() implies 1 <= (#[trigger] d[i]).0 <= 4 by {
            assert(d[i] == es[i]);
        }
        lemma_kinds_partition(d);
        assert(1 <= es.last().0 <= 4);
    }
}

/// No entity of a decodable file is lost or duplicated: the four lists
/// together hold as many entities as the file announces.
pub proof fn law_every_entity_kept(s: Seq<u8>, r: Rsw)
    requires
        rsw_ok(s),
        rsw_matches(s, r),
    ensures
        r.models@.len() + r.lights@.len() + r.sounds@.len() + r.effects@.len() == entity_count(s),
{
    let v = rsw_version(s);
    let n = entity_count(s) as nat;
    lemma_entities_shape(s, count_pos(v) + 4, v, n);
    lemma_kinds_partition(spec_entities(s, count_pos(v) + 4, v, n).unwrap().0);
}

/// Whether a model record at `p` of a file of version `v` holds the model
/// `m`: from 1.3 on the record starts with a 40-byte name, the animation
/// type and speed and the block type; then come 80 bytes of file name and
/// 80 of node name, the position (three 32-bit values), the rotation (three
/// more) and the scale (three more).
pub open spec fn model_geometry_at(s: Seq<u8>, v: int, p: int, m: RswModelInstance) -> bool {
    let b = if v >= 13 { p + 52 } else { p };
    &&& (v >= 13 ==> (m.name matches Some(n) && n@ == s.subrange(p, p + 40)))
    &&& (v >= 13 ==> m.anim_type == Some(i32_at(s, p + 40)) && m.anim_speed == Some(u32_at(s, p + 44))
        && m.block_type == Some(i32_at(s, p + 48)))
    &&& m.filename@ == s.subrange(b, b + 80)
    &&& m.node_name@ == s.subrange(b + 80, b + 160)
    &&& m.pos.x == u32_at(s, b + 160) && m.pos.y == u32_at(s, b + 164) && m.pos.z == u32_at(s, b + 168)
    &&& m.rot.x == u32_at(s, b + 172) && m.rot.y == u32_at(s, b + 176) && m.rot.z == u32_at(s, b + 180)
    &&& m.scale.x == u32_at(s, b + 184) && m.scale.y == u32_at(s, b + 188) && m.scale.z == u32_at(s, b + 192)
}

/// Every model of a decoded file comes from a model record of the file:
/// its position is read first, then its rotation, then its scale, right
/// after the file and node names.
pub proof fn law_model_position_then_rotation(s: Seq<u8>, r: Rsw, j: int)
    requires
        rsw_ok(s),
        rsw_matches(s, r),
        0 <= j < r.models@.len(),
    ensures
        exists|p: int| #[trigger] model_geometry_at(s, rsw_version(s), p, r.models@[j]),
{
    let v = rsw_version(s);
    let n = entity_count(s) as nat;
    let es = spec_entities(s, count_pos(v) + 4, v, n).unwrap().0;
    let p = kind_positions(es, 1)[j];
    assert(model_at(s, v, p, r.models@[j]));
    assert(model_geometry_at(s, v, p, r.models@[j]));
}

} // verus!
