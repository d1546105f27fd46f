//! Decoding of SPR sprite files: a header, palette-indexed frames (plain or
//! run-length encoded, depending on the version), direct-colour frames, and
//! a trailing 256-colour palette. Every frame ends up as 4-byte pixels in one
//! shared buffer.
//!
//! File versions are handled in tenths: version "2.1" is 21.
use vstd::prelude::*;
use crate::binary_reader::{le16, BinaryReader};

verus! {


/// How a frame's pixels are stored.
#[derive(Clone, Copy, Debug, PartialEq, Eq, Structural)]
pub enum SpriteType {
    /// One palette index per pixel.
    PAL,
    /// Four bytes per pixel.
    ABGR,
}

/// A frame: its pixel format, size, and where its pixels start.
#[derive(Clone, Copy, Debug, PartialEq, Eq, Structural)]
pub struct SprFrame {
    pub typ: SpriteType,
    pub width: usize,
    pub height: usize,
    pub data_index: usize,
}

/// Result of reading a header: the version in tenths, the number of
/// palette-indexed frames and the number of direct-colour frames.
pub open spec fn spec_header(s: Seq<u8>) -> (int, int, int) {
    let version = s[2] as int + 10 * s[3] as int;
    (version, le16(s, 4), if version > 11 { le16(s, 6) } else { 0 })
}

/// Whether `s` starts with a sprite header that can be read: the magic
/// "SP", the version, and the frame counts it announces.
pub open spec fn header_ok(s: Seq<u8>) -> bool {
    &&& s.len() >= 6
    &&& s[0] == 0x53u8 && s[1] == 0x50u8
    &&& (s[2] as int + 10 * s[3] as int > 11 ==> s.len() >= 8)
}

/// Length of the header of a file of the given version.
pub open spec fn header_len(version: int) -> int {
    if version > 11 { 8 } else { 6 }
}

/// The palette-indexed frames of a file older than version 2.1, starting
/// at `pos`: width, height and `width * height` index bytes each. `None`
/// when they run past the end.
pub open spec fn spec_pal_frames(s: Seq<u8>, pos: int, n: nat) -> Option<(Seq<SprFrame>, int)>
    decreases n,
{
    if n == 0 {
        Some((Seq::empty(), pos))
    } else if pos < 0 || pos + 4 > s.len() {
        None
    } else {
        let w = le16(s, pos);
        let h = le16(s, pos + 2);
        let next = pos + 4 + w * h;
        if next > s.len() {
            None
        } else {
            match spec_pal_frames(s, next, (n - 1) as nat) {
                Some((fs, e)) => Some((
                    seq![SprFrame { typ: SpriteType::PAL, width: w as usize, height: h as usize, data_index: (pos + 4) as usize }] + fs,
                    e,
                )),
                None => None,
            }
        }
    }
}

/// The run-length encoded palette-indexed frames of a file of version 2.1
/// or later, starting at `pos`: width, height, a 16-bit encoded size and that
/// many bytes each; a frame's data index is that of its size field.
pub open spec fn spec_rle_frames(s: Seq<u8>, pos: int, n: nat) -> Option<(Seq<SprFrame>, int)>
    decreases n,
{
    if n == 0 {
        Some((Seq::empty(), pos))
    } else if pos < 0 || pos + 6 > s.len() {
        None
    } else {
        let w = le16(s, pos);
        let h = le16(s, pos + 2);
        let next = pos + 6 + le16(s, pos + 4);
        if next > s.len() {
            None
        } else {
            match spec_rle_frames(s, next, (n - 1) as nat) {
                Some((fs, e)) => Some((
                    seq![SprFrame { typ: SpriteType::PAL, width: w as usize, height: h as usize, data_index: (pos + 4) as usize }] + fs,
                    e,
                )),
                None => None,
            }
        }
    }
}

/// The direct-colour frames starting at `pos`: width, height and
/// `width * height * 4` bytes each (a size that must fit in 32 bits).
pub open spec fn spec_rgba_frames(s: Seq<u8>, pos: int, n: nat) -> Option<(Seq<SprFrame>, int)>
    decreases n,
{
    if n == 0 {
        Some((Seq::empty(), pos))
    } else if pos < 0 || pos + 4 > s.len() {
        None
    } else {
        let w = le16(s, pos);
        let h = le16(s, pos + 2);
        let next = pos + 4 + w * h * 4;
        if w * h * 4 > u32::MAX || next > s.len() {
            None
        } else {
            match spec_rgba_frames(s, next, (n - 1) as nat) {
                Some((fs, e)) => Some((
                    seq![SprFrame { typ: SpriteType::ABGR, width: w as usize, height: h as usize, data_index: (pos + 4) as usize }] + fs,
                    e,
                )),
                None => None,
            }
        }
    }
}

proof fn lemma_le16_bound(s: Seq<u8>, i: int)
    requires
        0 <= i && i + 2 <= s.len(),
    ensures
        0 <= le16(s, i) <= 65535,
{
}

proof fn lemma_wh_bound(w: int, h: int)
    requires
        0 <= w <= 65535,
        0 <= h <= 65535,
    ensures
        0 <= w * h <= 65535 * 65535,
{
    assert(w * h <= 65535 * 65535) by (nonlinear_arith)
        requires
            0 <= w <= 65535,
            0 <= h <= 65535,
    ;
    assert(0 <= w * h) by (nonlinear_arith)
        requires
            0 <= w,
            0 <= h,
    ;
}

pub struct SpriteFile {
    pub frames: Vec<SprFrame>,
    pub buffer: Vec<u8>,
}

impl SpriteFile {
    /// Reads the header: checks the magic "SP", reads the version (minor
    /// byte, then major byte) and the frame counts; the count of
    /// direct-colour frames is present only after version 1.1.
    pub fn read_header(buf: &mut BinaryReader) -> (r: (u32, usize, u16))
        requires
            old(buf).pos() == 0,
            header_ok(old(buf).bytes()),
        ensures
            r.0 == spec_header(old(buf).bytes()).0,
            r.1 == spec_header(old(buf).bytes()).1,
            r.2 == spec_header(old(buf).bytes()).2,
            final(buf).bytes() == old(buf).bytes(),
            final(buf).pos() == header_len(r.0 as int),
    {
        let _s = buf.next_u8();
        let _p = buf.next_u8();
        let minor = buf.next_u8();
        let major = buf.next_u8();
        let version: u32 = minor as u32 + 10 * major as u32;
        let indexed_frame_count = buf.next_u16() as usize;
        let rgba_frame_count = if version > 11 {
            buf.next_u16()
        } else {
            0
        };
        (version, indexed_frame_count, rgba_frame_count)
    }

    /// Reads `indexed_frame_count` palette-indexed frames (files before
    /// version 2.1), leaving the position after them.
    pub fn read_indexed_frames(buf: &mut BinaryReader, indexed_frame_count: usize) -> (r: Vec<SprFrame>)
        requires
            spec_pal_frames(old(buf).bytes(), old(buf).pos(), indexed_frame_count as nat) is Some,
        ensures
            r@ == spec_pal_frames(old(buf).bytes(), old(buf).pos(), indexed_frame_count as nat).unwrap().0,
            final(buf).pos() == spec_pal_frames(old(buf).bytes(), old(buf).pos(), indexed_frame_count as nat).unwrap().1,
            final(buf).bytes() == old(buf).bytes(),
    {
        let ghost whole = spec_pal_frames(old(buf).bytes(), old(buf).pos(), indexed_frame_count as nat).unwrap();
        let mut frames: Vec<SprFrame> = Vec::new();
        let mut k: usize = 0;
        while k < indexed_frame_count
            invariant
                k <= indexed_frame_count,
                buf.bytes() == old(buf).bytes(),
                whole == spec_pal_frames(old(buf).bytes(), old(buf).pos(), indexed_frame_count as nat).unwrap(),
                spec_pal_frames(buf.bytes(), buf.pos(), (indexed_frame_count - k) as nat) is Some,
                whole.0 == frames@ + spec_pal_frames(buf.bytes(), buf.pos(), (indexed_frame_count - k) as nat).unwrap().0,
                whole.1 == spec_pal_frames(buf.bytes(), buf.pos(), (indexed_frame_count - k) as nat).unwrap().1,
            decreases indexed_frame_count - k,
        {
            let ghost pos = buf.pos();
            let ghost rest = spec_pal_frames(buf.bytes(), pos, (indexed_frame_count - k - 1) as nat);
            proof {
                lemma_le16_bound(buf.bytes(), pos);
                lemma_le16_bound(buf.bytes(), pos + 2);
                lemma_wh_bound(le16(buf.bytes(), pos), le16(buf.bytes(), pos + 2));
            }
            let width = buf.next_u16();
            let height = buf.next_u16();
            let frame = SprFrame {
                typ: SpriteType::PAL,
                width: width as usize,
                height: height as usize,
                data_index: buf.tell(),
            };
            buf.skip(width as usize * height as usize);
            frames.push(frame);
            proof {
                assert(frames@ + rest.unwrap().0 =~= (frames@.drop_last() + (seq![frame] + rest.unwrap().0)));
            }
            k = k + 1;
        }
        proof {
            assert(frames@ + Seq::<SprFrame>::empty() =~= frames@);
        }
        frames
    }

    /// Reads `indexed_frame_count` run-length encoded palette-indexed frames
    /// (files of version 2.1 or later), leaving the position after them.
    pub fn read_indexed_frames_rle(reader: &mut BinaryReader, indexed_frame_count: usize) -> (r: Vec<SprFrame>)
        requires
            spec_rle_frames(old(reader).bytes(), old(reader).pos(), indexed_frame_count as nat) is Some,
        ensures
            r@ == spec_rle_frames(old(reader).bytes(), old(reader).pos(), indexed_frame_count as nat).unwrap().0,
            final(reader).pos() == spec_rle_frames(old(reader).bytes(), old(reader).pos(), indexed_frame_count as nat).unwrap().1,
            final(reader).bytes() == old(reader).bytes(),
    {
        let ghost whole = spec_rle_frames(old(reader).bytes(), old(reader).pos(), indexed_frame_count as nat).unwrap();
        let mut frames: Vec<SprFrame> = Vec::new();
        let mut k: usize = 0;
        while k < indexed_frame_count
            invariant
                k <= indexed_frame_count,
                reader.bytes() == old(reader).bytes(),
                whole == spec_rle_frames(old(reader).bytes(), old(reader).pos(), indexed_frame_count as nat).unwrap(),
                spec_rle_frames(reader.bytes(), reader.pos(), (indexed_frame_count - k) as nat) is Some,
                whole.0 == frames@ + spec_rle_frames(reader.bytes(), reader.pos(), (indexed_frame_count - k) as nat).unwrap().0,
                whole.1 == spec_rle_frames(reader.bytes(), reader.pos(), (indexed_frame_count - k) as nat).unwrap().1,
            decreases indexed_frame_count - k,
        {
            let ghost pos = reader.pos();
            let ghost rest = spec_rle_frames(reader.bytes(), pos, (indexed_frame_count - k - 1) as nat);
            let width = reader.next_u16();
            let height = reader.next_u16();
            let data_index = reader.tell();
            let size = reader.next_u16();
            reader.skip(size as usize);
            let frame = SprFrame {
                typ: SpriteType::PAL,
                width: width as usize,
                height: height as usize,
                data_index,
            };
            frames.push(frame);
            proof {
                assert(frames@ + rest.unwrap().0 =~= (frames@.drop_last() + (seq![frame] + rest.unwrap().0)));
            }
            k = k + 1;
        }
        proof {
            assert(frames@ + Seq::<SprFrame>::empty() =~= frames@);
        }
        frames
    }

    /// Reads `rgba_frame_count` direct-colour frames, leaving the position
    /// after them.
    pub fn read_rgba_frames(buf: &mut BinaryReader, rgba_frame_count: u16) -> (r: Vec<SprFrame>)
        requires
            spec_rgba_frames(old(buf).bytes(), old(buf).pos(), rgba_frame_count as nat) is Some,
        ensures
            r@ == spec_rgba_frames(old(buf).bytes(), old(buf).pos(), rgba_frame_count as nat).unwrap().0,
            final(buf).pos() == spec_rgba_frames(old(buf).bytes(), old(buf).pos(), rgba_frame_count as nat).unwrap().1,
            final(buf).bytes() == old(buf).bytes(),
    {
        let ghost whole = spec_rgba_frames(old(buf).bytes(), old(buf).pos(), rgba_frame_count as nat).unwrap();
        let mut frames: Vec<SprFrame> = Vec::new();
        let mut k: u16 = 0;
        while k < rgba_frame_count
            invariant
                k <= rgba_frame_count,
                buf.bytes() == old(buf).bytes(),
                whole == spec_rgba_frames(old(buf).bytes(), old(buf).pos(), rgba_frame_count as nat).unwrap(),
                spec_rgba_frames(buf.bytes(), buf.pos(), (rgba_frame_count - k) as nat) is Some,
                whole.0 == frames@ + spec_rgba_frames(buf.bytes(), buf.pos(), (rgba_frame_count - k) as nat).unwrap().0,
                whole.1 == spec_rgba_frames(buf.bytes(), buf.pos(), (rgba_frame_count - k) as nat).unwrap().1,
            decreases rgba_frame_count - k,
        {
            let ghost pos = buf.pos();
            let ghost rest = spec_rgba_frames(buf.bytes(), pos, (rgba_frame_count - k - 1) as nat);
            proof {
                lemma_le16_bound(buf.bytes(), pos);
                lemma_le16_bound(buf.bytes(), pos + 2);
                lemma_wh_bound(le16(buf.bytes(), pos), le16(buf.bytes(), pos + 2));
            }
            let width = buf.next_u16();
            let height = buf.next_u16();
            let frame = SprFrame {
                typ: SpriteType::ABGR,
                width: width as usize,
                height: height as usize,
                data_index: buf.tell(),
            };
            let size: u32 = width as u32 * height as u32 * 4;
            buf.skip(size as usize);
            frames.push(frame);
            proof {
                assert(frames@ + rest.unwrap().0 =~= (frames@.drop_last() + (seq![frame] + rest.unwrap().0)));
            }
            k = k + 1;
        }
        proof {
            assert(frames@ + Seq::<SprFrame>::empty() =~= frames@);
        }
        frames
    }
}

/// The four bytes a palette index becomes: the first three bytes of its
/// palette entry, then an alpha of 255, or 0 for index 0 (transparent).
pub open spec fn rgba_of(pal: Seq<u8>, c: u8) -> Seq<u8> {
    seq![pal[4 * c as int], pal[4 * c as int + 1], pal[4 * c as int + 2], if c != 0 { 255u8 } else { 0u8 }]
}

/// The pixels of a run of palette indices, four bytes each.
pub open spec fn pal_to_rgba(pal: Seq<u8>, idx: Seq<u8>) -> Seq<u8>
    decreases idx.len(),
{
    if idx.len() == 0 {
        Seq::empty()
    } else {
        pal_to_rgba(pal, idx.drop_last()) + rgba_of(pal, idx.last())
    }
}

/// Palette indices laid out as four-byte pixels before the palette is
/// applied: the index, then three zero bytes.
pub open spec fn raw_pixels(idx: Seq<u8>) -> Seq<u8>
    decreases idx.len(),
{
    if idx.len() == 0 {
        Seq::empty()
    } else {
        raw_pixels(idx.drop_last()) + seq![idx.last(), 0u8, 0u8, 0u8]
    }
}

/// Every index of `idx` has a whole colour in the palette.
pub open spec fn palette_covers(pal: Seq<u8>, idx: Seq<u8>) -> bool {
    forall|i: int| 0 <= i < idx.len() ==> 4 * (#[trigger] idx[i]) as int + 2 < pal.len()
}

/// The palette indices that run-length encoded data in `[i, end)` of `s`
/// expands to: a non-zero byte stands for itself; a zero byte is followed by
/// a count `n` and stands for `n` zeros (two when `n` is 0). `None` when the
/// data runs past the end of `s`.
pub open spec fn rle_decode(s: Seq<u8>, i: int, end: int) -> Option<Seq<u8>>
    decreases if end > i { end - i } else { 0 },
{
    if i >= end {
        Some(Seq::empty())
    } else if i < 0 || i >= s.len() {
        None
    } else if s[i] != 0 {
        match rle_decode(s, i + 1, end) {
            Some(rest) => Some(seq![s[i]] + rest),
            None => None,
        }
    } else if i + 1 >= s.len() {
        None
    } else {
        let n: int = if s[i + 1] == 0 { 2 } else { s[i + 1] as int };
        match rle_decode(s, i + 2, end) {
            Some(rest) => Some(Seq::new(n as nat, |j: int| 0u8) + rest),
            None => None,
        }
    }
}

/// The palette indices of a run-length encoded frame whose data starts
/// at `s[0]` with the 16-bit encoded size.
pub open spec fn rle_frame_indices(s: Seq<u8>) -> Option<Seq<u8>> {
    if s.len() < 2 {
        None
    } else {
        rle_decode(s, 2, 2 + le16(s, 0))
    }
}

proof fn lemma_pal_to_rgba_len(pal: Seq<u8>, idx: Seq<u8>)
    ensures
        pal_to_rgba(pal, idx).len() == 4 * idx.len(),
    decreases idx.len(),
{
    if idx.len() > 0 {
        lemma_pal_to_rgba_len(pal, idx.drop_last());
    }
}

proof fn lemma_raw_pixels_len(idx: Seq<u8>)
    ensures
        raw_pixels(idx).len() == 4 * idx.len(),
    decreases idx.len(),
{
    if idx.len() > 0 {
        lemma_raw_pixels_len(idx.drop_last());
    }
}

proof fn lemma_raw_pixels_front(idx: Seq<u8>)
    requires
        idx.len() > 0,
    ensures
        raw_pixels(idx) == seq![idx[0], 0u8, 0u8, 0u8] + raw_pixels(idx.drop_first()),
    decreases idx.len(),
{
    if idx.len() > 1 {
        lemma_raw_pixels_front(idx.drop_last());
        assert(idx.drop_last().drop_first() =~= idx.drop_first().drop_last());
        assert(idx.drop_first().last() == idx.last());
    } else {
        assert(idx.drop_last() =~= Seq::<u8>::empty());
        assert(idx.drop_first() =~= Seq::<u8>::empty());
    }
}

proof fn lemma_raw_pixels_append(a: Seq<u8>, b: Seq<u8>)
    ensures
        raw_pixels(a + b) == raw_pixels(a) + raw_pixels(b),
    decreases b.len(),
{
    if b.len() == 0 {
        assert(a + b =~= a);
    } else {
        lemma_raw_pixels_append(a, b.drop_last());
        assert((a + b).drop_last() =~= a + b.drop_last());
    }
}

proof fn lemma_raw_pixels_zeros(n: nat)
    ensures
        raw_pixels(Seq::new(n, |j: int| 0u8)) == Seq::new(4 * n, |j: int| 0u8),
    decreases n,
{
    if n > 0 {
        lemma_raw_pixels_zeros((n - 1) as nat);
        assert(Seq::new(n, |j: int| 0u8).drop_last() =~= Seq::new((n - 1) as nat, |j: int| 0u8));
        assert(Seq::new((4 * (n - 1)) as nat, |j: int| 0u8) + seq![0u8, 0u8, 0u8, 0u8] =~= Seq::new(4 * n, |j: int| 0u8));
    }
}

/// Appends the four bytes `a, b, c, d` to `dst`.
fn push4(dst: &mut Vec<u8>, a: u8, b: u8, c: u8, d: u8)
    ensures
        final(dst)@ == old(dst)@ + seq![a, b, c, d],
{
    dst.push(a);
    dst.push(b);
    dst.push(c);
    dst.push(d);
    proof {
        assert(dst@ =~= old(dst)@ + seq![a, b, c, d]);
    }
}

impl SpriteFile {
    /// Converts a plain palette-indexed frame, whose `width * height` index
    /// bytes start `reader`, into four-byte pixels appended to `dst_buf`;
    /// returns the frame as a direct-colour frame at its new place.
    pub fn indexed_to_rgba(frame: SprFrame, pal: &[u8], dst_buf: &mut Vec<u8>, reader: &[u8]) -> (r: SprFrame)
        requires
            frame.width * frame.height <= reader@.len(),
            palette_covers(pal@, reader@.subrange(0, frame.width * frame.height)),
        ensures
            final(dst_buf)@ == old(dst_buf)@ + pal_to_rgba(pal@, reader@.subrange(0, frame.width * frame.height)),
            r == (SprFrame { typ: SpriteType::ABGR, data_index: old(dst_buf)@.len() as usize, ..frame }),
    {
        let data_index = dst_buf.len();
        let _len = reader.len();
        let n = frame.width * frame.height;
        let mut i: usize = 0;
        while i < n
            invariant
                n == frame.width * frame.height,
                n <= reader@.len(),
                i <= n,
                palette_covers(pal@, reader@.subrange(0, n as int)),
                dst_buf@ == old(dst_buf)@ + pal_to_rgba(pal@, reader@.subrange(0, i as int)),
            decreases n - i,
        {
            let c = reader[i];
            proof {
                assert(reader@.subrange(0, n as int)[i as int] == c);
            }
            let idx1 = c as usize * 4;
            let alpha: u8 = if idx1 != 0 { 255 } else { 0 };
            push4(dst_buf, pal[idx1], pal[idx1 + 1], pal[idx1 + 2], alpha);
            proof {
                assert(reader@.subrange(0, i + 1).drop_last() =~= reader@.subrange(0, i as int));
            }
            i = i + 1;
        }
        SprFrame { typ: SpriteType::ABGR, data_index, ..frame }
    }

    /// Copies a direct-colour frame's `width * height * 4` bytes from the
    /// file to the end of `dst_buf`; returns the frame at its new place.
    pub fn copy_rgba_frames(frame: SprFrame, dst_buf: &mut Vec<u8>, reader: &BinaryReader) -> (r: SprFrame)
        requires
            frame.data_index + frame.width * frame.height * 4 <= reader.bytes().len(),
        ensures
            final(dst_buf)@ == old(dst_buf)@ + reader.bytes().subrange(
                frame.data_index as int,
                frame.data_index + frame.width * frame.height * 4,
            ),
            r == (SprFrame { typ: SpriteType::ABGR, data_index: old(dst_buf)@.len() as usize, ..frame }),
    {
        let data_index = dst_buf.len();
        let _len = reader.len();
        let size = frame.width * frame.height * 4;
        let src = reader.get_slice(frame.data_index, size);
        let mut i: usize = 0;
        while i < size
            invariant
                i <= size,
                src@.len() == size,
                dst_buf@ == old(dst_buf)@ + src@.subrange(0, i as int),
            decreases size - i,
        {
            dst_buf.push(src[i]);
            proof {
                assert(src@.subrange(0, i + 1) =~= src@.subrange(0, i as int).push(src@[i as int]));
            }
            i = i + 1;
        }
        proof {
            assert(src@.subrange(0, size as int) =~= src@);
        }
        SprFrame { typ: SpriteType::ABGR, data_index, ..frame }
    }
}

proof fn lemma_rle_step_literal(s: Seq<u8>, i: int, end: int)
    requires
        0 <= i < end,
        i < s.len(),
        s[i] != 0,
        rle_decode(s, i, end) is Some,
    ensures
        rle_decode(s, i + 1, end) is Some,
        rle_decode(s, i, end).unwrap() == seq![s[i]] + rle_decode(s, i + 1, end).unwrap(),
{
}

proof fn lemma_rle_step_zeros(s: Seq<u8>, i: int, end: int)
    requires
        0 <= i < end,
        i < s.len(),
        s[i] == 0,
        rle_decode(s, i, end) is Some,
    ensures
        i + 1 < s.len(),
        rle_decode(s, i + 2, end) is Some,
        rle_decode(s, i, end).unwrap() == Seq::new(
            (if s[i + 1] == 0 { 2 } else { s[i + 1] as int }) as nat,
            |j: int| 0u8,
        ) + rle_decode(s, i + 2, end).unwrap(),
{
}

impl SpriteFile {
    /// Converts a run-length encoded palette-indexed frame, whose data
    /// (16-bit encoded size, then the encoded indices) starts `src_buf`,
    /// into four-byte pixels appended to `dst_buf`: the indices are expanded
    /// first, then the first `width * height` of them get their palette
    /// colour; any further expanded indices stay as they were expanded.
    /// Returns the frame as a direct-colour frame at its new place.
    pub fn indexed_to_rgba_rle(frame: SprFrame, pal: &[u8], dst_buf: &mut Vec<u8>, src_buf: &[u8]) -> (r: SprFrame)
        requires
            rle_frame_indices(src_buf@) is Some,
            frame.width * frame.height <= rle_frame_indices(src_buf@).unwrap().len(),
            palette_covers(
                pal@,
                rle_frame_indices(src_buf@).unwrap().take(frame.width * frame.height),
            ),
        ensures
            final(dst_buf)@ == old(dst_buf)@ + pal_to_rgba(
                pal@,
                rle_frame_indices(src_buf@).unwrap().take(frame.width * frame.height),
            ) + raw_pixels(rle_frame_indices(src_buf@).unwrap().skip(frame.width * frame.height)),
            r == (SprFrame { typ: SpriteType::ABGR, data_index: old(dst_buf)@.len() as usize, ..frame }),
    {
        let ghost whole = rle_frame_indices(src_buf@).unwrap();
        let mut index: usize = 0;
        let len: usize = (src_buf[0] as u16 + src_buf[1] as u16 * 256) as usize;
        index = index + 2;
        let ghost end: int = 2 + len;
        let start_dst_index = dst_buf.len();
        let ghost mut done: Seq<u8> = Seq::empty();
        proof {
            assert(whole == done + rle_decode(src_buf@, index as int, end).unwrap());
            assert(raw_pixels(done) =~= Seq::<u8>::empty());
            assert(old(dst_buf)@ + Seq::<u8>::empty() =~= old(dst_buf)@);
        }
        while index - 2 < len
            invariant
                2 <= index <= len + 3,
                src_buf@.len() >= 2,
                end == 2 + len,
                len == le16(src_buf@, 0),
                whole == rle_frame_indices(src_buf@).unwrap(),
                rle_decode(src_buf@, index as int, end) is Some,
                whole == done + rle_decode(src_buf@, index as int, end).unwrap(),
                start_dst_index == old(dst_buf)@.len(),
                dst_buf@ == old(dst_buf)@ + raw_pixels(done),
            decreases len + 3 - index,
        {
            let ghost i0 = index as int;
            let c = src_buf[index];
            index = index + 1;
            push4(dst_buf, c, 0, 0, 0);
            if c == 0 {
                proof {
                    lemma_rle_step_zeros(src_buf@, i0, end);
                }
                let count = src_buf[index];
                index = index + 1;
                let ghost n: nat = (if count == 0 { 2 } else { count as int }) as nat;
                let ghost zeros = Seq::new(n, |j: int| 0u8);
                if count == 0 {
                    push4(dst_buf, 0, 0, 0, 0);
                    proof {
                        assert(seq![0u8, 0u8, 0u8, 0u8] + seq![0u8, 0u8, 0u8, 0u8] =~= Seq::new(4 * n, |j: int| 0u8));
                    }
                } else {
                    let mut j: u8 = 1;
                    proof {
                        assert(seq![0u8, 0u8, 0u8, 0u8] =~= Seq::new(4 * (j as nat), |j: int| 0u8));
                    }
                    while j < count
                        invariant
                            1 <= j <= count,
                            c == 0,
                            dst_buf@ == old(dst_buf)@ + raw_pixels(done) + Seq::new(4 * (j as nat), |j: int| 0u8),
                        decreases count - j,
                    {
                        push4(dst_buf, c, 0, 0, 0);
                        proof {
                            assert(Seq::new(4 * (j as nat), |j: int| 0u8) + seq![0u8, 0u8, 0u8, 0u8] =~= Seq::new(
                                4 * ((j + 1) as nat),
                                |j: int| 0u8,
                            ));
                        }
                        j = j + 1;
                    }
                }
                proof {
                    lemma_raw_pixels_zeros(n);
                    lemma_raw_pixels_append(done, zeros);
                    assert(whole =~= (done + zeros) + rle_decode(src_buf@, index as int, end).unwrap());
                    done = done + zeros;
                }
            } else {
                proof {
                    lemma_rle_step_literal(src_buf@, i0, end);
                    assert((done.push(c)).drop_last() =~= done);
                    assert(whole =~= done.push(c) + rle_decode(src_buf@, index as int, end).unwrap());
                    done = done.push(c);
                }
            }
        }
        proof {
            assert(rle_decode(src_buf@, index as int, end).unwrap() =~= Seq::<u8>::empty());
            assert(whole =~= done);
            lemma_raw_pixels_len(whole);
            assert(whole.take(0) =~= Seq::<u8>::empty());
            assert(whole.skip(0) =~= whole);
            assert(pal_to_rgba(pal@, whole.take(0)) =~= Seq::<u8>::empty());
            assert(dst_buf@ =~= old(dst_buf)@ + pal_to_rgba(pal@, whole.take(0)) + raw_pixels(whole.skip(0)));
            assert(dst_buf@.len() == old(dst_buf)@.len() + 4 * whole.len());
        }
        let _dst_len = dst_buf.len();
        let n = frame.width * frame.height;
        let mut i: usize = 0;
        while i < n
            invariant
                dst_buf@.len() == old(dst_buf)@.len() + 4 * whole.len(),
                dst_buf@.len() <= usize::MAX,
                n == frame.width * frame.height,
                n <= whole.len(),
                i <= n,
                palette_covers(pal@, whole.take(n as int)),
                start_dst_index == old(dst_buf)@.len(),
                dst_buf@ == old(dst_buf)@ + pal_to_rgba(pal@, whole.take(i as int)) + raw_pixels(whole.skip(i as int)),
            decreases n - i,
        {
            let ghost c = whole[i as int];
            proof {
                lemma_pal_to_rgba_len(pal@, whole.take(i as int));
                lemma_raw_pixels_front(whole.skip(i as int));
                lemma_raw_pixels_len(whole.skip(i as int + 1));
                assert(whole.skip(i as int).drop_first() =~= whole.skip(i as int + 1));
                assert(whole.take(n as int)[i as int] == c);
            }
            let dst_index = start_dst_index + i * 4;
            let idx1 = dst_buf[dst_index] as usize * 4;
            proof {
                assert(dst_buf@[dst_index as int] == c);
            }
            dst_buf.set(dst_index, pal[idx1]);
            dst_buf.set(dst_index + 1, pal[idx1 + 1]);
            dst_buf.set(dst_index + 2, pal[idx1 + 2]);
            let alpha: u8 = if idx1 != 0 { 255 } else { 0 };
            dst_buf.set(dst_index + 3, alpha);
            proof {
                assert(whole.take(i as int + 1).drop_last() =~= whole.take(i as int));
                assert(whole.take(i as int + 1).last() == c);
                assert(dst_buf@ =~= old(dst_buf)@ + pal_to_rgba(pal@, whole.take(i as int + 1)) + raw_pixels(
                    whole.skip(i as int + 1),
                ));
            }
            i = i + 1;
        }
        SprFrame { typ: SpriteType::ABGR, data_index: start_dst_index, ..frame }
    }
}

/// The palette-indexed frames a file of `version` holds at `pos`.
pub open spec fn spec_indexed_frames(version: int, s: Seq<u8>, pos: int, n: nat) -> Option<(Seq<SprFrame>, int)> {
    if version < 21 {
        spec_pal_frames(s, pos, n)
    } else {
        spec_rle_frames(s, pos, n)
    }
}

/// The palette used: the one given, else the file's last 1024 bytes after
/// version 1.0, else none.
pub open spec fn spec_palette(version: int, s: Seq<u8>, given: Option<Seq<u8>>) -> Seq<u8> {
    match given {
        Some(p) => p,
        None => if version > 10 {
            s.subrange(s.len() - 1024, s.len() as int)
        } else {
            Seq::empty()
        },
    }
}

/// The four-byte pixels a frame read from a file of `version` becomes.
pub open spec fn frame_pixels(version: int, s: Seq<u8>, pal: Seq<u8>, f: SprFrame) -> Seq<u8> {
    let di = f.data_index as int;
    let n = f.width * f.height;
    if f.typ == SpriteType::ABGR {
        s.subrange(di, di + n * 4)
    } else if version < 21 {
        pal_to_rgba(pal, s.subrange(di, di + n))
    } else {
        let idx = rle_frame_indices(s.subrange(di, s.len() as int)).unwrap();
        pal_to_rgba(pal, idx.take(n)) + raw_pixels(idx.skip(n))
    }
}

/// Whether a frame read from a file of `version` can be converted: its data
/// lies in the file and every palette index it uses has a colour.
pub open spec fn frame_convertible(version: int, s: Seq<u8>, pal: Seq<u8>, f: SprFrame) -> bool {
    let di = f.data_index as int;
    let n = f.width * f.height;
    if f.typ == SpriteType::ABGR {
        di + n * 4 <= s.len()
    } else if version < 21 {
        &&& di + n <= s.len()
        &&& palette_covers(pal, s.subrange(di, di + n))
    } else {
        &&& di <= s.len()
        &&& rle_frame_indices(s.subrange(di, s.len() as int)) is Some
        &&& n <= rle_frame_indices(s.subrange(di, s.len() as int)).unwrap().len()
        &&& palette_covers(pal, rle_frame_indices(s.subrange(di, s.len() as int)).unwrap().take(n))
    }
}

/// The pixels of all frames, one after the other.
pub open spec fn all_pixels(version: int, s: Seq<u8>, pal: Seq<u8>, fs: Seq<SprFrame>) -> Seq<u8>
    decreases fs.len(),
{
    if fs.len() == 0 {
        Seq::empty()
    } else {
        all_pixels(version, s, pal, fs.drop_last()) + frame_pixels(version, s, pal, fs.last())
    }
}

/// Whether a file whose header ended at `pos` can be loaded: its frames are
/// all there, the palette (when read from the file) lies after them, and
/// every frame can be converted.
pub open spec fn load_ok(
    s: Seq<u8>,
    pos: int,
    given: Option<Seq<u8>>,
    version: int,
    indexed_count: nat,
    rgba_count: nat,
) -> bool {
    &&& spec_indexed_frames(version, s, pos, indexed_count) is Some
    &&& spec_rgba_frames(s, spec_indexed_frames(version, s, pos, indexed_count).unwrap().1, rgba_count) is Some
    &&& (version > 10 ==> spec_rgba_frames(
        s,
        spec_indexed_frames(version, s, pos, indexed_count).unwrap().1,
        rgba_count,
    ).unwrap().1 + 1024 <= s.len())
    &&& forall|k: int|
        0 <= k < indexed_count ==> frame_convertible(
            version,
            s,
            spec_palette(version, s, given),
            #[trigger] spec_indexed_frames(version, s, pos, indexed_count).unwrap().0[k],
        )
    &&& forall|k: int|
        0 <= k < rgba_count ==> frame_convertible(
            version,
            s,
            spec_palette(version, s, given),
            #[trigger] spec_rgba_frames(
                s,
                spec_indexed_frames(version, s, pos, indexed_count).unwrap().1,
                rgba_count,
            ).unwrap().0[k],
        )
}

/// All frames of a file in their order: palette-indexed ones, then
/// direct-colour ones.
pub open spec fn spec_file_frames(s: Seq<u8>, pos: int, version: int, indexed_count: nat, rgba_count: nat) -> Seq<SprFrame> {
    let ifs = spec_indexed_frames(version, s, pos, indexed_count).unwrap();
    ifs.0 + spec_rgba_frames(s, ifs.1, rgba_count).unwrap().0
}

proof fn lemma_pal_frames_shape(s: Seq<u8>, pos: int, n: nat)
    requires
        spec_pal_frames(s, pos, n) is Some,
    ensures
        spec_pal_frames(s, pos, n).unwrap().0.len() == n,
        pos + 4 * n <= spec_pal_frames(s, pos, n).unwrap().1 <= s.len() || n == 0,
        spec_pal_frames(s, pos, n).unwrap().1 >= pos,
        forall|k: int| 0 <= k < n ==> (#[trigger] spec_pal_frames(s, pos, n).unwrap().0[k]).typ == SpriteType::PAL,
    decreases n,
{
    if n > 0 {
        let w = le16(s, pos);
        let h = le16(s, pos + 2);
        lemma_wh_bound(w, h);
        lemma_pal_frames_shape(s, pos + 4 + w * h, (n - 1) as nat);
        let rest = spec_pal_frames(s, pos + 4 + w * h, (n - 1) as nat).unwrap().0;
        assert forall|k: int| 0 <= k < n implies (#[trigger] spec_pal_frames(s, pos, n).unwrap().0[k]).typ
            == SpriteType::PAL by {
            if k > 0 {
                assert(spec_pal_frames(s, pos, n).unwrap().0[k] == rest[k - 1]);
            }
        }
    }
}

proof fn lemma_rle_frames_shape(s: Seq<u8>, pos: int, n: nat)
    requires
        spec_rle_frames(s, pos, n) is Some,
    ensures
        spec_rle_frames(s, pos, n).unwrap().0.len() == n,
        pos + 4 * n <= spec_rle_frames(s, pos, n).unwrap().1 <= s.len() || n == 0,
        spec_rle_frames(s, pos, n).unwrap().1 >= pos,
        forall|k: int| 0 <= k < n ==> (#[trigger] spec_rle_frames(s, pos, n).unwrap().0[k]).typ == SpriteType::PAL,
    decreases n,
{
    if n > 0 {
        let next = pos + 6 + le16(s, pos + 4);
        lemma_rle_frames_shape(s, next, (n - 1) as nat);
        let rest = spec_rle_frames(s, next, (n - 1) as nat).unwrap().0;
        assert forall|k: int| 0 <= k < n implies (#[trigger] spec_rle_frames(s, pos, n).unwrap().0[k]).typ
            == SpriteType::PAL by {
            if k > 0 {
                assert(spec_rle_frames(s, pos, n).unwrap().0[k] == rest[k - 1]);
            }
        }
    }
}

proof fn lemma_rgba_frames_shape(s: Seq<u8>, pos: int, n: nat)
    requires
        spec_rgba_frames(s, pos, n) is Some,
    ensures
        spec_rgba_frames(s, pos, n).unwrap().0.len() == n,
        pos + 4 * n <= spec_rgba_frames(s, pos, n).unwrap().1 <= s.len() || n == 0,
        spec_rgba_frames(s, pos, n).unwrap().1 >= pos,
        forall|k: int| 0 <= k < n ==> (#[trigger] spec_rgba_frames(s, pos, n).unwrap().0[k]).typ == SpriteType::ABGR,
    decreases n,
{
    if n > 0 {
        let w = le16(s, pos);
        let h = le16(s, pos + 2);
        lemma_wh_bound(w, h);
        lemma_rgba_frames_shape(s, pos + 4 + w * h * 4, (n - 1) as nat);
        let rest = spec_rgba_frames(s, pos + 4 + w * h * 4, (n - 1) as nat).unwrap().0;
        assert forall|k: int| 0 <= k < n implies (#[trigger] spec_rgba_frames(s, pos, n).unwrap().0[k]).typ
            == SpriteType::ABGR by {
            if k > 0 {
                assert(spec_rgba_frames(s, pos, n).unwrap().0[k] == rest[k - 1]);
            }
        }
    }
}

/// `rest` with `done` in front, if there is a rest.
pub open spec fn prepend_frames(done: Seq<SprFrame>, rest: Option<(Seq<SprFrame>, int)>) -> Option<(Seq<SprFrame>, int)> {
    match rest {
        Some((fs, e)) => Some((done + fs, e)),
        None => None,
    }
}

proof fn lemma_prepend_frames_push(done: Seq<SprFrame>, f: SprFrame, rest: Option<(Seq<SprFrame>, int)>)
    ensures
        prepend_frames(done, prepend_frames(seq![f], rest)) == prepend_frames(done.push(f), rest),
{
    match rest {
        Some((fs, e)) => {
            assert(done + (seq![f] + fs) =~= done.push(f) + fs);
        },
        None => {},
    }
}

proof fn lemma_prepend_frames_empty(rest: Option<(Seq<SprFrame>, int)>)
    ensures
        prepend_frames(Seq::empty(), rest) == rest,
{
    match rest {
        Some((fs, e)) => {
            assert(Seq::<SprFrame>::empty() + fs =~= fs);
        },
        None => {},
    }
}

/// The little-endian 16-bit value at `p`.
fn le16_at(s: &[u8], p: usize) -> (r: usize)
    requires
        p + 2 <= s@.len(),
    ensures
        r == le16(s@, p as int),
        r <= 65535,
{
    s[p] as usize + 256 * s[p + 1] as usize
}

/// Which frame layout a frame list has.
#[derive(Clone, Copy, Debug, PartialEq, Eq, Structural)]
pub enum FrameLayout {
    /// Palette indices, one byte per pixel.
    Plain,
    /// Run-length encoded palette indices.
    RunLength,
    /// Four bytes per pixel.
    Direct,
}

/// The frames of a layout starting at `pos`.
pub open spec fn spec_frames_of(layout: FrameLayout, s: Seq<u8>, pos: int, n: nat) -> Option<(Seq<SprFrame>, int)> {
    match layout {
        FrameLayout::Plain => spec_pal_frames(s, pos, n),
        FrameLayout::RunLength => spec_rle_frames(s, pos, n),
        FrameLayout::Direct => spec_rgba_frames(s, pos, n),
    }
}

/// The `n` frame descriptions of `layout` from `pos`, and where they end;
/// `None` when they run past the end.
fn frame_list(layout: FrameLayout, s: &[u8], pos: usize, n: usize) -> (r: Option<(Vec<SprFrame>, usize)>)
    requires
        pos <= s@.len(),
    ensures
        r is Some <==> spec_frames_of(layout, s@, pos as int, n as nat) is Some,
        r matches Some((fs, e)) ==> fs@ == spec_frames_of(layout, s@, pos as int, n as nat).unwrap().0
            && e == spec_frames_of(layout, s@, pos as int, n as nat).unwrap().1,
        r matches Some((fs, e)) ==> forall|k: int| 0 <= k < fs@.len() ==> (#[trigger] fs@[k]).width <= 65535
            && fs@[k].height <= 65535,
{
    let len = s.len();
    let mut frames: Vec<SprFrame> = Vec::new();
    let mut p: usize = pos;
    let mut k: usize = 0;
    proof {
        lemma_prepend_frames_empty(spec_frames_of(layout, s@, pos as int, n as nat));
    }
    while k < n
        invariant
            len == s@.len(),
            p <= len,
            k <= n,
            spec_frames_of(layout, s@, pos as int, n as nat) == prepend_frames(frames@, spec_frames_of(layout, s@, p as int, (n - k) as nat)),
            forall|j: int| 0 <= j < frames@.len() ==> (#[trigger] frames@[j]).width <= 65535 && frames@[j].height <= 65535,
        decreases n - k,
    {
        let head: usize = if layout == FrameLayout::RunLength { 6 } else { 4 };
        if head > len - p {
            return None;
        }
        let w = le16_at(s, p);
        let h = le16_at(s, p + 2);
        proof {
            lemma_wh_bound(w as int, h as int);
        }
        let wh: u64 = w as u64 * h as u64;
        let size: u64 = match layout {
            FrameLayout::Plain => wh,
            FrameLayout::RunLength => le16_at(s, p + 4) as u64,
            FrameLayout::Direct => wh * 4,
        };
        if layout == FrameLayout::Direct && size > 0xFFFF_FFFF {
            return None;
        }
        if size > (len - p - head) as u64 {
            return None;
        }
        let next = p + head + size as usize;
        let typ = if layout == FrameLayout::Direct { SpriteType::ABGR } else { SpriteType::PAL };
        let f = SprFrame { typ, width: w, height: h, data_index: p + 4 };
        proof {
            lemma_prepend_frames_push(frames@, f, spec_frames_of(layout, s@, next as int, (n - k - 1) as nat));
        }
        frames.push(f);
        p = next;
        k = k + 1;
    }
    proof {
        assert(frames@ + Seq::<SprFrame>::empty() =~= frames@);
    }
    Some((frames, p))
}

/// Whether every index in `idx[start, start + n)` has a colour in `pal`.
fn covers_range(pal: &[u8], idx: &[u8], start: usize, n: usize) -> (r: bool)
    requires
        start + n <= idx@.len(),
    ensures
        r == palette_covers(pal@, idx@.subrange(start as int, start + n)),
{
    let plen = pal.len();
    let ilen = idx.len();
    let mut i: usize = 0;
    while i < n
        invariant
            ilen == idx@.len(),
            start + n <= idx@.len(),
            plen == pal@.len(),
            i <= n,
            palette_covers(pal@, idx@.subrange(start as int, start + i)),
        decreases n - i,
    {
        let c = idx[start + i];
        if 4 * (c as usize) + 2 >= plen {
            assert(idx@.subrange(start as int, start + n)[i as int] == c);
            return false;
        }
        proof {
            let sub = idx@.subrange(start as int, start + i + 1);
            assert forall|j: int| 0 <= j < sub.len() implies 4 * (#[trigger] sub[j]) as int + 2 < pal@.len() by {
                if j < i {
                    assert(sub[j] == idx@.subrange(start as int, start + i)[j]);
                }
            }
        }
        i = i + 1;
    }
    true
}

/// `rest` with `done` in front, if there is a rest.
pub open spec fn prepend_bytes(done: Seq<u8>, rest: Option<Seq<u8>>) -> Option<Seq<u8>> {
    match rest {
        Some(r) => Some(done + r),
        None => None,
    }
}

/// The palette indices that the run-length encoded frame data at the start
/// of `src` expands to; see `rle_frame_indices`.
fn rle_indices(src: &[u8]) -> (r: Option<Vec<u8>>)
    ensures
        r is Some <==> rle_frame_indices(src@) is Some,
        r matches Some(v) ==> v@ == rle_frame_indices(src@).unwrap(),
{
    let n = src.len();
    if n < 2 {
        return None;
    }
    let size = le16_at(src, 0);
    let end: usize = 2 + size;
    let mut out: Vec<u8> = Vec::new();
    let mut i: usize = 2;
    assert(Seq::<u8>::empty() + rle_decode(src@, 2, end as int).unwrap_or(Seq::empty()) =~= rle_decode(src@, 2, end as int).unwrap_or(Seq::empty()));
    assert(rle_decode(src@, 2, end as int) == prepend_bytes(out@, rle_decode(src@, i as int, end as int)));
    while i < end
        invariant
            n == src@.len(),
            n >= 2,
            end == 2 + le16(src@, 0),
            2 <= i <= n,
            rle_decode(src@, 2, end as int) == prepend_bytes(out@, rle_decode(src@, i as int, end as int)),
        decreases n - i,
    {
        if i >= n {
            return None;
        }
        let c = src[i];
        if c != 0 {
            proof {
                match rle_decode(src@, i + 1, end as int) {
                    Some(rest) => {
                        assert(out@ + (seq![c] + rest) =~= out@.push(c) + rest);
                    },
                    None => {},
                }
            }
            out.push(c);
            i = i + 1;
        } else {
            if i + 1 >= n {
                return None;
            }
            let count = src[i + 1];
            let zeros: u8 = if count == 0 { 2 } else { count };
            let ghost before = out@;
            let mut z: u8 = 0;
            while z < zeros
                invariant
                    z <= zeros,
                    out@ == before + Seq::new(z as nat, |j: int| 0u8),
                decreases zeros - z,
            {
                out.push(0);
                proof {
                    assert(before + Seq::new((z + 1) as nat, |j: int| 0u8) =~= (before + Seq::new(z as nat, |j: int| 0u8)).push(0u8));
                }
                z = z + 1;
            }
            proof {
                let zs = Seq::new(zeros as nat, |j: int| 0u8);
                match rle_decode(src@, i + 2, end as int) {
                    Some(rest) => {
                        assert(before + (zs + rest) =~= (before + zs) + rest);
                    },
                    None => {},
                }
            }
            i = i + 2;
        }
    }
    assert(out@ + Seq::<u8>::empty() =~= out@);
    Some(out)
}

/// Whether `f` can be converted; see `frame_convertible`.
fn frame_ok(version: u32, s: &[u8], pal: &[u8], f: SprFrame) -> (r: bool)
    requires
        f.width <= 65535,
        f.height <= 65535,
    ensures
        r == frame_convertible(version as int, s@, pal@, f),
{
    let len = s.len();
    proof {
        lemma_wh_bound(f.width as int, f.height as int);
    }
    let n: u64 = f.width as u64 * f.height as u64;
    let di = f.data_index;
    if f.typ == SpriteType::ABGR {
        di as u128 + n as u128 * 4 <= len as u128
    } else if version < 21 {
        if di as u128 + n as u128 > len as u128 {
            false
        } else {
            covers_range(pal, s, di, n as usize)
        }
    } else {
        if di > len {
            return false;
        }
        let src = vstd::slice::slice_subrange(s, di, len);
        match rle_indices(src) {
            None => false,
            Some(idx) => {
                if n > idx.len() as u64 {
                    false
                } else {
                    let ok = covers_range(pal, idx.as_slice(), 0, n as usize);
                    assert(idx@.subrange(0, n as int) =~= idx@.take(n as int));
                    ok
                }
            },
        }
    }
}

/// Whether every frame of `fs` can be converted.
fn all_frames_ok(version: u32, s: &[u8], pal: &[u8], fs: &Vec<SprFrame>) -> (r: bool)
    requires
        forall|k: int| 0 <= k < fs@.len() ==> (#[trigger] fs@[k]).width <= 65535 && fs@[k].height <= 65535,
    ensures
        r == forall|k: int| 0 <= k < fs@.len() ==> frame_convertible(version as int, s@, pal@, #[trigger] fs@[k]),
{
    let mut k: usize = 0;
    while k < fs.len()
        invariant
            k <= fs@.len(),
            forall|j: int| 0 <= j < fs@.len() ==> (#[trigger] fs@[j]).width <= 65535 && fs@[j].height <= 65535,
            forall|j: int| 0 <= j < k ==> frame_convertible(version as int, s@, pal@, #[trigger] fs@[j]),
        decreases fs@.len() - k,
    {
        if !frame_ok(version, s, pal, fs[k]) {
            return false;
        }
        k = k + 1;
    }
    true
}

/// What loading the file `s`, whose header ended at `pos`, gives: all
/// frames' pixels in one buffer, palette-indexed frames first, and each
/// frame as a direct-colour frame pointing to its pixels in that buffer.
pub open spec fn loaded(
    s: Seq<u8>,
    pos: int,
    given: Option<Seq<u8>>,
    version: int,
    indexed_count: nat,
    rgba_count: nat,
    r: SpriteFile,
) -> bool {
    let pal = spec_palette(version, s, given);
    let fs = spec_file_frames(s, pos, version, indexed_count, rgba_count);
    &&& r.buffer@ == all_pixels(version, s, pal, fs)
    &&& r.frames@.len() == fs.len()
    &&& forall|k: int| 0 <= k < fs.len() ==> #[trigger] r.frames@[k] == (SprFrame {
        typ: SpriteType::ABGR,
        width: fs[k].width,
        height: fs[k].height,
        data_index: all_pixels(version, s, pal, fs.take(k)).len() as usize,
    })
}

/// Whether `s` is a sprite file that can be loaded with the palette
/// `given` (or its own): a readable header, and `load_ok` after it.
pub open spec fn sprite_ok(s: Seq<u8>, given: Option<Seq<u8>>) -> bool {
    let h = spec_header(s);
    &&& header_ok(s)
    &&& load_ok(s, header_len(h.0), given, h.0, h.1 as nat, h.2 as nat)
}

/// What loading the whole sprite file `s` gives.
pub open spec fn sprite_loaded(s: Seq<u8>, given: Option<Seq<u8>>, r: SpriteFile) -> bool {
    let h = spec_header(s);
    loaded(s, header_len(h.0), given, h.0, h.1 as nat, h.2 as nat, r)
}

impl SpriteFile {
    /// Loads the frames of a sprite file whose header has been read: reads
    /// the frame descriptions, picks the palette (the given one, else the
    /// file's trailing one after version 1.0), and converts every frame into
    /// four-byte pixels in one buffer, palette-indexed frames first. Each
    /// resulting frame is a direct-colour frame pointing into that buffer.
    pub fn load(
        mut reader: BinaryReader,
        palette: Option<&[u8]>,
        version: u32,
        indexed_frame_count: usize,
        rgba_frame_count: u16,
    ) -> (r: Self)
        requires
            load_ok(
                reader.bytes(),
                reader.pos(),
                match palette { Some(p) => Some(p@), None => None },
                version as int,
                indexed_frame_count as nat,
                rgba_frame_count as nat,
            ),
        ensures
            loaded(
                reader.bytes(),
                reader.pos(),
                match palette { Some(p) => Some(p@), None => None },
                version as int,
                indexed_frame_count as nat,
                rgba_frame_count as nat,
                r,
            ),
    {
        let ghost s = reader.bytes();
        let ghost given = match palette { Some(p) => Some(p@), None => None };
        let ghost pos0 = reader.pos();
        let indexed_frames = if version < 21 {
            SpriteFile::read_indexed_frames(&mut reader, indexed_frame_count)
        } else {
            SpriteFile::read_indexed_frames_rle(&mut reader, indexed_frame_count)
        };
        let rgba_frames = SpriteFile::read_rgba_frames(&mut reader, rgba_frame_count);
        let default_palette: &[u8] = if version > 10 {
            let len = reader.len();
            let here = reader.tell();
            reader.skip((len - 1024) - here);
            reader.get_slice(reader.tell(), 1024)
        } else {
            empty_slice()
        };
        let pal: &[u8] = match palette {
            Some(p) => p,
            None => default_palette,
        };
        let ghost ppal = spec_palette(version as int, s, given);
        proof {
            assert(pal@ == ppal);
        }
        let ghost fs = spec_file_frames(s, pos0, version as int, indexed_frame_count as nat, rgba_frame_count as nat);
        let ghost ifs = spec_indexed_frames(version as int, s, pos0, indexed_frame_count as nat).unwrap();
        let ghost rfs = spec_rgba_frames(s, ifs.1, rgba_frame_count as nat).unwrap();
        proof {
            if version < 21 {
                lemma_pal_frames_shape(s, pos0, indexed_frame_count as nat);
            } else {
                lemma_rle_frames_shape(s, pos0, indexed_frame_count as nat);
            }
            lemma_rgba_frames_shape(s, ifs.1, rgba_frame_count as nat);
            assert(indexed_frames@ == ifs.0);
            assert(rgba_frames@ == rfs.0);
            assert forall|j: int| 0 <= j < fs.len() implies frame_convertible(version as int, s, ppal, #[trigger] fs[j]) by {
                if j < indexed_frame_count {
                    assert(fs[j] == ifs.0[j]);
                } else {
                    assert(fs[j] == rfs.0[j - indexed_frame_count]);
                }
            }
        }
        let mut buffer: Vec<u8> = Vec::new();
        let mut frames: Vec<SprFrame> = Vec::new();
        let _file_len = reader.len();
        let total = indexed_frames.len() + rgba_frames.len();
        let mut k: usize = 0;
        proof {
            assert(fs =~= indexed_frames@ + rgba_frames@);
            assert(fs.take(0) =~= Seq::<SprFrame>::empty());
        }
        while k < total
            invariant
                reader.bytes() == s,
                pal@ == ppal,
                fs == indexed_frames@ + rgba_frames@,
                total == fs.len(),
                k <= total,
                indexed_frames@.len() == indexed_frame_count,
                rgba_frames@.len() == rgba_frame_count,
                forall|j: int| 0 <= j < fs.len() ==> frame_convertible(version as int, s, ppal, #[trigger] fs[j]),
                forall|j: int| 0 <= j < indexed_frames@.len() ==> (#[trigger] indexed_frames@[j]).typ == SpriteType::PAL,
                forall|j: int| 0 <= j < rgba_frames@.len() ==> (#[trigger] rgba_frames@[j]).typ == SpriteType::ABGR,
                buffer@ == all_pixels(version as int, s, ppal, fs.take(k as int)),
                frames@.len() == k,
                forall|j: int| 0 <= j < k ==> #[trigger] frames@[j] == (SprFrame {
                    typ: SpriteType::ABGR,
                    width: fs[j].width,
                    height: fs[j].height,
                    data_index: all_pixels(version as int, s, ppal, fs.take(j)).len() as usize,
                }),
            decreases total - k,
        {
            let ghost before = buffer@;
            let f = if k < indexed_frames.len() { indexed_frames[k] } else { rgba_frames[k - indexed_frames.len()] };
            proof {
                assert(f == fs[k as int]);
                assert(frame_convertible(version as int, s, ppal, f));
            }
            let placed = if k < indexed_frames.len() {
                let src = reader.as_slice_from(f.data_index);
                if version < 21 {
                    SpriteFile::indexed_to_rgba(f, pal, &mut buffer, src)
                } else {
                    SpriteFile::indexed_to_rgba_rle(f, pal, &mut buffer, src)
                }
            } else {
                SpriteFile::copy_rgba_frames(f, &mut buffer, &reader)
            };
            frames.push(placed);
            proof {
                let di = f.data_index as int;
                let n = f.width * f.height;
                if f.typ == SpriteType::PAL && version < 21 {
                    assert(s.subrange(di, s.len() as int).subrange(0, n) =~= s.subrange(di, di + n));
                }
                assert(fs.take(k as int + 1).drop_last() =~= fs.take(k as int));
                assert(buffer@ == all_pixels(version as int, s, ppal, fs.take(k as int + 1)));
            }
            k = k + 1;
        }
        proof {
            assert(fs.take(total as int) =~= fs);
        }
        SpriteFile { buffer, frames }
    }

    /// Whether `load` can be called with these arguments: `load_ok` for the
    /// reader's bytes from its position.
    pub fn can_load(
        reader: &BinaryReader,
        palette: Option<&[u8]>,
        version: u32,
        indexed_frame_count: usize,
        rgba_frame_count: u16,
    ) -> (r: bool)
        requires
            0 <= reader.pos() <= reader.bytes().len(),
        ensures
            r == load_ok(
                reader.bytes(),
                reader.pos(),
                match palette { Some(p) => Some(p@), None => None },
                version as int,
                indexed_frame_count as nat,
                rgba_frame_count as nat,
            ),
    {
        let ghost bytes = reader.bytes();
        let ghost given = match palette { Some(p) => Some(p@), None => None };
        let len = reader.len();
        let s = reader.as_slice_from(0);
        assert(s@ =~= bytes);
        let pos = reader.tell();
        let layout = if version < 21 { FrameLayout::Plain } else { FrameLayout::RunLength };
        assert(spec_frames_of(layout, s@, pos as int, indexed_frame_count as nat) == spec_indexed_frames(
            version as int,
            bytes,
            pos as int,
            indexed_frame_count as nat,
        ));
        let (ifs, e1) = match frame_list(layout, s, pos, indexed_frame_count) {
            Some(x) => x,
            None => {
                return false;
            },
        };
        proof {
            if version < 21 {
                lemma_pal_frames_shape(bytes, pos as int, indexed_frame_count as nat);
            } else {
                lemma_rle_frames_shape(bytes, pos as int, indexed_frame_count as nat);
            }
        }
        let (rfs, e2) = match frame_list(FrameLayout::Direct, s, e1, rgba_frame_count as usize) {
            Some(x) => x,
            None => {
                return false;
            },
        };
        proof {
            lemma_rgba_frames_shape(bytes, e1 as int, rgba_frame_count as nat);
        }
        if version > 10 && 1024 > len - e2 {
            return false;
        }
        let pal: &[u8] = match palette {
            Some(p) => p,
            None => if version > 10 {
                reader.get_slice(len - 1024, 1024)
            } else {
                empty_slice()
            },
        };
        assert(pal@ == spec_palette(version as int, bytes, given));
        let ok_indexed = all_frames_ok(version, s, pal, &ifs);
        let ok_rgba = all_frames_ok(version, s, pal, &rfs);
        ok_indexed && ok_rgba
    }

    /// Loads a whole sprite file, with the palette given or its own; `None`
    /// exactly when `sprite_ok` does not hold.
    pub fn try_load(bytes: Vec<u8>, palette: Option<&[u8]>) -> (r: Option<SpriteFile>)
        ensures
            r is Some <==> sprite_ok(bytes@, match palette { Some(p) => Some(p@), None => None }),
            r matches Some(f) ==> sprite_loaded(bytes@, match palette { Some(p) => Some(p@), None => None }, f),
    {
        let len = bytes.len();
        if len < 6 || bytes[0] != 0x53 || bytes[1] != 0x50 {
            return None;
        }
        let version: u32 = bytes[2] as u32 + 10 * bytes[3] as u32;
        if version > 11 && len < 8 {
            return None;
        }
        let mut reader = BinaryReader::new(bytes);
        let (version, indexed_frame_count, rgba_frame_count) = SpriteFile::read_header(&mut reader);
        if !SpriteFile::can_load(&reader, palette, version, indexed_frame_count, rgba_frame_count) {
            return None;
        }
        Some(SpriteFile::load(reader, palette, version, indexed_frame_count, rgba_frame_count))
    }
}

/// An empty byte slice.
fn empty_slice<'a>() -> (r: &'a [u8])
    ensures
        r@ == Seq::<u8>::empty(),
{
    &[]
}

/// The pixels of the first `j` frames begin the pixels of all of them.
proof fn lemma_all_pixels_prefix(version: int, s: Seq<u8>, pal: Seq<u8>, fs: Seq<SprFrame>, j: int)
    requires
        0 <= j <= fs.len(),
    ensures
        all_pixels(version, s, pal, fs.take(j)).len() <= all_pixels(version, s, pal, fs).len(),
        all_pixels(version, s, pal, fs).take(all_pixels(version, s, pal, fs.take(j)).len() as int)
            == all_pixels(version, s, pal, fs.take(j)),
    decreases fs.len(),
{
    if j == fs.len() {
        assert(fs.take(j) =~= fs);
        assert(all_pixels(version, s, pal, fs).take(all_pixels(version, s, pal, fs).len() as int)
            =~= all_pixels(version, s, pal, fs));
    } else {
        let shorter = fs.drop_last();
        lemma_all_pixels_prefix(version, s, pal, shorter, j);
        assert(shorter.take(j) =~= fs.take(j));
        let a = all_pixels(version, s, pal, shorter);
        let b = frame_pixels(version, s, pal, fs.last());
        let p = all_pixels(version, s, pal, fs.take(j)).len() as int;
        assert((a + b).take(p) =~= a.take(p));
    }
}

/// Law: the loaded frames lie one after the other in the pixel buffer: the
/// block of frame `k` starts where the pixels of the frames before it end,
/// and holds exactly frame `k`'s pixels.
pub proof fn law_frame_block_in_buffer(version: int, s: Seq<u8>, pal: Seq<u8>, fs: Seq<SprFrame>, k: int)
    requires
        0 <= k < fs.len(),
    ensures
        all_pixels(version, s, pal, fs.take(k + 1)).len() == all_pixels(version, s, pal, fs.take(k)).len()
            + frame_pixels(version, s, pal, fs[k]).len(),
        all_pixels(version, s, pal, fs.take(k + 1)).len() <= all_pixels(version, s, pal, fs).len(),
        all_pixels(version, s, pal, fs).subrange(
            all_pixels(version, s, pal, fs.take(k)).len() as int,
            all_pixels(version, s, pal, fs.take(k + 1)).len() as int,
        ) == frame_pixels(version, s, pal, fs[k]),
{
    let before = all_pixels(version, s, pal, fs.take(k));
    let block = frame_pixels(version, s, pal, fs[k]);
    assert(fs.take(k + 1).drop_last() =~= fs.take(k));
    assert(all_pixels(version, s, pal, fs.take(k + 1)) == before + block);
    lemma_all_pixels_prefix(version, s, pal, fs, k + 1);
    let all = all_pixels(version, s, pal, fs);
    assert(all.subrange(before.len() as int, (before.len() + block.len()) as int)
        =~= (before + block).subrange(before.len() as int, (before.len() + block.len()) as int));
    assert((before + block).subrange(before.len() as int, (before.len() + block.len()) as int) =~= block);
}

/// Law: a convertible frame becomes four bytes per pixel: exactly
/// `4 * width * height` bytes, save a run-length encoded frame whose data
/// expands to more indices than it has pixels, which keeps four bytes for
/// each index.
pub proof fn law_frame_pixel_count(version: int, s: Seq<u8>, pal: Seq<u8>, f: SprFrame)
    requires
        frame_convertible(version, s, pal, f),
    ensures
        f.typ == SpriteType::ABGR || version < 21 ==> frame_pixels(version, s, pal, f).len() == 4 * (
        f.width * f.height),
        f.typ != SpriteType::ABGR && version >= 21 ==> frame_pixels(version, s, pal, f).len() == 4
            * rle_frame_indices(s.subrange(f.data_index as int, s.len() as int)).unwrap().len(),
        frame_pixels(version, s, pal, f).len() >= 4 * (f.width * f.height),
{
    let di = f.data_index as int;
    let n = f.width * f.height;
    assert(f.width * f.height >= 0) by (nonlinear_arith)
        requires
            f.width >= 0,
            f.height >= 0,
    ;
    if f.typ == SpriteType::ABGR {
    } else if version < 21 {
        lemma_pal_to_rgba_len(pal, s.subrange(di, di + n));
    } else {
        let idx = rle_frame_indices(s.subrange(di, s.len() as int)).unwrap();
        lemma_pal_to_rgba_len(pal, idx.take(n));
        lemma_raw_pixels_len(idx.skip(n));
    }
}

} // verus!
