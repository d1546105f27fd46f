use rustarok_client::act::{ActionFile, ONE_F32_BITS};

fn i32s(out: &mut Vec<u8>, v: i32) {
    out.extend_from_slice(&v.to_le_bytes());
}

fn u32s(out: &mut Vec<u8>, v: u32) {
    out.extend_from_slice(&v.to_le_bytes());
}

fn header(minor: u8, major: u8, actions: u16) -> Vec<u8> {
    let mut out = vec![b'A', b'C', minor, major];
    out.extend_from_slice(&actions.to_le_bytes());
    out.extend_from_slice(&[0u8; 10]);
    out
}

fn layer_v25(out: &mut Vec<u8>, x: i32, y: i32, idx: i32) {
    i32s(out, x);
    i32s(out, y);
    i32s(out, idx);
    i32s(out, 1); // mirrored
    out.extend_from_slice(&[10, 20, 30, 40]);
    u32s(out, 2.0f32.to_bits());
    u32s(out, 3.0f32.to_bits());
    i32s(out, 45);
    i32s(out, 1);
    i32s(out, 16);
    i32s(out, 32);
}

fn file_v25() -> Vec<u8> {
    let mut out = header(5, 2, 1);
    u32s(&mut out, 1); // frames
    out.extend_from_slice(&[0u8; 32]);
    u32s(&mut out, 2); // layers
    layer_v25(&mut out, -1, 0, -1);
    layer_v25(&mut out, 3, -4, 7);
    i32s(&mut out, 5); // sound
    i32s(&mut out, 1); // anchors
    out.extend_from_slice(&[0u8; 4]);
    i32s(&mut out, 6);
    i32s(&mut out, 7);
    out.extend_from_slice(&[0u8; 4]);
    i32s(&mut out, 1); // sounds
    let mut name = [0u8; 40];
    name[..5].copy_from_slice(b"a.wav");
    out.extend_from_slice(&name);
    u32s(&mut out, 4.0f32.to_bits()); // delay
    out
}

#[test]
fn decodes_a_version_2_5_file() {
    let f = ActionFile::try_load(file_v25(), 2).expect("decodable");
    assert_eq!(f.actions.len(), 1);
    let a = &f.actions[0];
    assert_eq!(a.delay_bits, Some(4.0f32.to_bits()));
    assert_eq!(a.frames.len(), 1);
    let fr = &a.frames[0];
    assert_eq!(fr.sound, 5);
    assert_eq!(fr.positions, vec![(12, 14)]);
    assert_eq!(fr.layers.len(), 1);
    let l = fr.layers[0];
    assert_eq!(l.pos, (6, -8));
    assert_eq!(l.sprite_frame_index, 7);
    assert!(l.is_mirror);
    assert_eq!(l.color, (10, 20, 30, 40));
    assert_eq!(l.scale, (2.0f32.to_bits(), 3.0f32.to_bits()));
    assert_eq!((l.angle, l.spr_type, l.width, l.height), (45, 1, 16, 32));
    assert_eq!(f.sounds.len(), 1);
    assert_eq!(&f.sounds[0][..5], b"a.wav");
    assert_eq!(f.sounds[0].len(), 40);
}

#[test]
fn decodes_an_old_file_with_defaults() {
    let mut out = header(0, 1, 2);
    for _ in 0..2 {
        u32s(&mut out, 1);
        out.extend_from_slice(&[0u8; 32]);
        u32s(&mut out, 1);
        i32s(&mut out, 1);
        i32s(&mut out, 2);
        i32s(&mut out, 0);
        i32s(&mut out, 0);
    }
    let f = ActionFile::load(out, 1);
    assert_eq!(f.actions.len(), 2);
    assert!(f.sounds.is_empty());
    let a = &f.actions[1];
    assert_eq!(a.delay_bits, None);
    let fr = &a.frames[0];
    assert_eq!(fr.sound, -1);
    assert!(fr.positions.is_empty());
    let l = fr.layers[0];
    assert_eq!(l.pos, (1, 2));
    assert!(!l.is_mirror);
    assert_eq!(l.color, (255, 255, 255, 255));
    assert_eq!(l.scale, (ONE_F32_BITS, ONE_F32_BITS));
    assert_eq!((l.angle, l.spr_type, l.width, l.height), (0, 0, 0, 0));
}

#[test]
fn refuses_bad_files() {
    let mut bad_magic = file_v25();
    bad_magic[0] = b'X';
    assert!(ActionFile::try_load(bad_magic, 2).is_none());
    let mut cut = file_v25();
    cut.pop();
    assert!(ActionFile::try_load(cut, 2).is_none());
    assert!(ActionFile::try_load(file_v25(), i32::MAX).is_none());
    assert!(ActionFile::try_load(vec![b'A', b'C'], 1).is_none());
}

#[test]
fn removes_frames_in_every_direction() {
    let mut out = header(0, 1, 9);
    for a in 0..9 {
        u32s(&mut out, 3);
        for fr in 0..3 {
            out.extend_from_slice(&[0u8; 32]);
            u32s(&mut out, 1);
            i32s(&mut out, a);
            i32s(&mut out, fr);
            i32s(&mut out, 0);
            i32s(&mut out, 0);
        }
    }
    let mut f = ActionFile::load(out, 1);
    f.remove_frames_in_every_direction(1, 0, 2);
    assert_eq!(f.actions[0].frames.len(), 3);
    for a in 1..9 {
        assert_eq!(f.actions[a].frames.len(), 1);
        assert_eq!(f.actions[a].frames[0].layers[0].pos, (a as i32, 2));
    }
}
