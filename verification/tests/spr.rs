use rustarok_client::binary_reader::BinaryReader;
use rustarok_client::spr::{SprFrame, SpriteFile, SpriteType};

fn palette(entries: &[(u8, [u8; 4])]) -> Vec<u8> {
    let mut p = vec![0u8; 1024];
    for (i, c) in entries {
        let at = *i as usize * 4;
        p[at..at + 4].copy_from_slice(c);
    }
    p
}

#[test]
fn plain_indexed_and_rgba_frames() {
    // "SP", version 2.0 (minor 0, major 2), 1 indexed frame, 1 rgba frame
    let mut bytes = vec![b'S', b'P', 0, 2, 1, 0, 1, 0];
    bytes.extend_from_slice(&[2, 0, 1, 0, 1, 0]); // 2x1 indices: 1, 0
    bytes.extend_from_slice(&[1, 0, 1, 0, 9, 8, 7, 6]); // 1x1 rgba
    bytes.extend(palette(&[(0, [10, 11, 12, 99]), (1, [20, 21, 22, 99])]));
    let mut reader = BinaryReader::new(bytes);
    let (version, indexed, rgba) = SpriteFile::read_header(&mut reader);
    assert_eq!((version, indexed, rgba), (20, 1, 1));
    assert_eq!(reader.tell(), 8);
    let spr = SpriteFile::load(reader, None, version, indexed, rgba);
    assert_eq!(spr.buffer, vec![20, 21, 22, 255, 10, 11, 12, 0, 9, 8, 7, 6]);
    assert_eq!(
        spr.frames,
        vec![
            SprFrame { typ: SpriteType::ABGR, width: 2, height: 1, data_index: 0 },
            SprFrame { typ: SpriteType::ABGR, width: 1, height: 1, data_index: 8 },
        ]
    );
}

#[test]
fn run_length_encoded_frames() {
    // version 2.1: RLE-encoded indexed frames
    let mut bytes = vec![b'S', b'P', 1, 2, 1, 0, 1, 0];
    // 3x1 frame, 4 encoded bytes: 5, (0 x2), 7
    bytes.extend_from_slice(&[3, 0, 1, 0, 4, 0, 5, 0, 2, 7]);
    bytes.extend_from_slice(&[0, 0, 0, 0]); // empty rgba frame
    bytes.extend(palette(&[(0, [1, 2, 3, 4]), (5, [50, 51, 52, 53]), (7, [70, 71, 72, 73])]));
    let mut reader = BinaryReader::new(bytes);
    let (version, indexed, rgba) = SpriteFile::read_header(&mut reader);
    assert_eq!((version, indexed, rgba), (21, 1, 1));
    let spr = SpriteFile::load(reader, None, version, indexed, rgba);
    // three pixels get their colour, the fourth expanded index stays raw
    assert_eq!(spr.buffer, vec![50, 51, 52, 255, 1, 2, 3, 0, 1, 2, 3, 0, 7, 0, 0, 0]);
    assert_eq!(spr.frames[0], SprFrame { typ: SpriteType::ABGR, width: 3, height: 1, data_index: 0 });
    assert_eq!(spr.frames[1], SprFrame { typ: SpriteType::ABGR, width: 0, height: 0, data_index: 16 });
}

#[test]
fn rle_zero_count_means_two_zeros() {
    let frame = SprFrame { typ: SpriteType::PAL, width: 2, height: 1, data_index: 0 };
    let pal = palette(&[(0, [1, 1, 1, 1])]);
    let mut dst = vec![42u8];
    let src = [2u8, 0, 0, 0];
    let out = SpriteFile::indexed_to_rgba_rle(frame, &pal, &mut dst, &src);
    assert_eq!(dst, vec![42, 1, 1, 1, 0, 1, 1, 1, 0]);
    assert_eq!(out.data_index, 1);
    assert_eq!(out.typ, SpriteType::ABGR);
}

#[test]
fn old_version_has_no_rgba_count_and_uses_given_palette() {
    // version 1.0: no rgba frame count in the header, no palette in the file
    let mut bytes = vec![b'S', b'P', 0, 1, 1, 0];
    bytes.extend_from_slice(&[1, 0, 1, 0, 3]);
    let mut reader = BinaryReader::new(bytes);
    let (version, indexed, rgba) = SpriteFile::read_header(&mut reader);
    assert_eq!((version, indexed, rgba), (10, 1, 0));
    let pal = palette(&[(3, [7, 8, 9, 0])]);
    let spr = SpriteFile::load(reader, Some(&pal), version, indexed, rgba);
    assert_eq!(spr.buffer, vec![7, 8, 9, 255]);
}

#[test]
fn reader_values_are_little_endian() {
    let mut r = BinaryReader::new(vec![0x34, 0x12, 0xFF, 0xFF, 0xFF, 0xFF, 1, 2, 3]);
    assert_eq!(r.next_u16(), 0x1234);
    assert_eq!(r.next_i32(), -1);
    assert_eq!(r.next_bytes(2), vec![1, 2]);
    assert_eq!(r.tell(), 8);
    assert_eq!(r.get_slice(0, 2), &[0x34, 0x12]);
    assert_eq!(r.as_slice_from(7), &[2, 3]);
    r.skip(1);
    assert_eq!(r.tell(), 9);
    assert_eq!(r.len(), 9);
}

#[test]
fn try_load_checks_the_whole_file() {
    let mut bytes = vec![b'S', b'P', 0, 2, 1, 0, 1, 0];
    bytes.extend_from_slice(&[2, 0, 1, 0, 1, 0]);
    bytes.extend_from_slice(&[1, 0, 1, 0, 9, 8, 7, 6]);
    bytes.extend(palette(&[(0, [10, 11, 12, 99]), (1, [20, 21, 22, 99])]));
    let spr = SpriteFile::try_load(bytes.clone(), None).expect("loadable");
    assert_eq!(spr.buffer, vec![20, 21, 22, 255, 10, 11, 12, 0, 9, 8, 7, 6]);
    // a cut-off palette
    let mut cut = bytes.clone();
    cut.truncate(bytes.len() - 1);
    assert!(SpriteFile::try_load(cut, None).is_none());
    // a wrong magic
    let mut bad = bytes.clone();
    bad[0] = b'X';
    assert!(SpriteFile::try_load(bad, None).is_none());
    // too short for a header
    assert!(SpriteFile::try_load(vec![b'S', b'P', 0], None).is_none());
}

#[test]
fn try_load_refuses_an_index_without_colour() {
    // version 1.0 with a given palette of one colour: index 3 has none
    let mut bytes = vec![b'S', b'P', 0, 1, 1, 0];
    bytes.extend_from_slice(&[1, 0, 1, 0, 3]);
    let short_pal = vec![1u8, 2, 3, 4];
    assert!(SpriteFile::try_load(bytes.clone(), Some(&short_pal)).is_none());
    let pal = palette(&[(3, [7, 8, 9, 0])]);
    let spr = SpriteFile::try_load(bytes, Some(&pal)).expect("loadable");
    assert_eq!(spr.buffer, vec![7, 8, 9, 255]);
}

#[test]
fn can_load_tells_whether_load_may_be_called() {
    let mut bytes = vec![b'S', b'P', 1, 2, 1, 0, 0, 0];
    // RLE frame whose encoded size runs past the end
    bytes.extend_from_slice(&[1, 0, 1, 0, 9, 0, 5]);
    let mut reader = BinaryReader::new(bytes);
    let (version, indexed, rgba) = SpriteFile::read_header(&mut reader);
    assert!(!SpriteFile::can_load(&reader, None, version, indexed, rgba));
}
