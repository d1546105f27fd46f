use rustarok_client::rsw::{GroundData, LightData, Rsw, Vec3Bits, WaterData};

fn i32le(v: i32) -> [u8; 4] {
    v.to_le_bytes()
}

fn name(n: usize, b: u8) -> Vec<u8> {
    vec![b; n]
}

fn header(major: u8, minor: u8) -> Vec<u8> {
    let mut b = b"GRSW".to_vec();
    b.push(major);
    b.push(minor);
    b.extend(name(40, b'i'));
    b.extend(name(40, b'g'));
    b.extend(name(40, b'a'));
    b
}

#[test]
fn old_version_uses_defaults() {
    let mut b = header(1, 2);
    b.extend_from_slice(&i32le(2));
    // a light
    b.extend_from_slice(&i32le(2));
    b.extend(name(80, b'L'));
    for v in [1u32, 2, 3] {
        b.extend_from_slice(&v.to_le_bytes());
    }
    for c in [4, 5, 6] {
        b.extend_from_slice(&i32le(c));
    }
    b.extend_from_slice(&7u32.to_le_bytes());
    // an effect
    b.extend_from_slice(&i32le(4));
    b.extend(name(80, b'E'));
    for v in [1u32, 2, 3] {
        b.extend_from_slice(&v.to_le_bytes());
    }
    b.extend_from_slice(&i32le(-9));
    for v in [10u32, 11, 12, 13, 14] {
        b.extend_from_slice(&v.to_le_bytes());
    }
    let rsw = Rsw::try_load(b).expect("a well-formed file");
    assert_eq!(rsw.file.ini, name(40, b'i'));
    assert!(rsw.file.src.is_none());
    assert_eq!(rsw.water, WaterData::Default { stored_level: None });
    assert_eq!(rsw.light, LightData::Default);
    assert_eq!(rsw.ground, GroundData { top: -500, bottom: 500, left: -500, right: 500 });
    assert!(rsw.models.is_empty() && rsw.sounds.is_empty());
    assert_eq!(rsw.lights.len(), 1);
    assert_eq!(rsw.lights[0].pos, Vec3Bits { x: 1, y: 2, z: 3 });
    assert_eq!(rsw.lights[0].color, (4, 5, 6));
    assert_eq!(rsw.lights[0].range, 7);
    assert_eq!(rsw.effects.len(), 1);
    assert_eq!(rsw.effects[0].id, -9);
    assert_eq!(rsw.effects[0].param, (11, 12, 13, 14));
}

#[test]
fn full_version_reads_everything() {
    let mut b = header(2, 0);
    b.extend(name(40, b's')); // src, since 1.4
    for v in 0..6u32 {
        b.extend_from_slice(&(100 + v).to_le_bytes()); // water, 6 fields since 1.9
    }
    b.extend_from_slice(&i32le(45));
    b.extend_from_slice(&i32le(30));
    for v in 0..7u32 {
        b.extend_from_slice(&(200 + v).to_le_bytes()); // diffuse, ambient, opacity
    }
    for g in [-1, 2, -3, 4] {
        b.extend_from_slice(&i32le(g));
    }
    b.extend_from_slice(&i32le(2));
    // a model, with name fields since 1.3
    b.extend_from_slice(&i32le(1));
    b.extend(name(40, b'n'));
    b.extend_from_slice(&i32le(3));
    b.extend_from_slice(&5u32.to_le_bytes());
    b.extend_from_slice(&i32le(6));
    b.extend(name(80, b'f'));
    b.extend(name(80, b'o'));
    for v in 0..9u32 {
        b.extend_from_slice(&(300 + v).to_le_bytes());
    }
    // a sound, with cycle since 2.0
    b.extend_from_slice(&i32le(3));
    b.extend(name(80, b'S'));
    b.extend(name(80, b'F'));
    for v in 0..8u32 {
        b.extend_from_slice(&(400 + v).to_le_bytes());
    }
    let rsw = Rsw::load(b);
    assert_eq!(rsw.file.src, Some(name(40, b's')));
    assert_eq!(
        rsw.water,
        WaterData::Stored { level: 100, typ: 101, wave_height: 102, wave_speed: 103, wave_pitch: 104, anim_speed: Some(105) }
    );
    assert_eq!(
        rsw.light,
        LightData::Stored {
            longitude: 45,
            latitude: 30,
            diffuse: Vec3Bits { x: 200, y: 201, z: 202 },
            ambient: Vec3Bits { x: 203, y: 204, z: 205 },
            opacity: Some(206),
        }
    );
    assert_eq!(rsw.ground, GroundData { top: -1, bottom: 2, left: -3, right: 4 });
    assert_eq!(rsw.models.len(), 1);
    let m = &rsw.models[0];
    assert_eq!(m.name, Some(name(40, b'n')));
    assert_eq!((m.anim_type, m.anim_speed, m.block_type), (Some(3), Some(5), Some(6)));
    assert_eq!(m.node_name, name(80, b'o'));
    assert_eq!(m.scale, Vec3Bits { x: 306, y: 307, z: 308 });
    assert_eq!(rsw.sounds.len(), 1);
    assert_eq!(rsw.sounds[0].vol, 403);
    assert_eq!(rsw.sounds[0].cycle, Some(407));
}

#[test]
fn bad_files_are_refused() {
    assert!(Rsw::try_load(b"GRSX".to_vec()).is_none());
    assert!(Rsw::try_load(vec![]).is_none());
    let mut b = header(1, 2);
    b.extend_from_slice(&i32le(1));
    b.extend_from_slice(&i32le(5)); // no such entity kind
    b.extend(vec![0; 200]);
    assert!(Rsw::try_load(b).is_none());
    let mut c = header(1, 2);
    c.extend_from_slice(&i32le(-1));
    assert!(Rsw::try_load(c).is_none());
    let mut d = header(1, 2);
    d.extend_from_slice(&i32le(1));
    d.extend_from_slice(&i32le(2));
    d.extend(vec![0; 50]); // light record cut short
    assert!(Rsw::try_load(d).is_none());
}
