//! A cursor over the bytes of a game file, reading little-endian values.
use vstd::prelude::*;

verus! {

/// Little-endian 16-bit value at `i`.
pub open spec fn le16(s: Seq<u8>, i: int) -> int {
    s[i] as int + 256 * s[i + 1] as int
}

/// Little-endian unsigned 32-bit value at `i`.
pub open spec fn le32(s: Seq<u8>, i: int) -> int {
    s[i] as int + 256 * s[i + 1] as int + 65536 * s[i + 2] as int + 16777216 * s[i + 3] as int
}

/// The signed 32-bit value with the two's-complement bits `u`.
pub open spec fn to_i32(u: int) -> int {
    if u < 0x8000_0000 { u } else { u - 0x1_0000_0000 }
}

/// A cursor over a file's bytes.
pub struct BinaryReader {
    buf: Vec<u8>,
    index: usize,
}

impl BinaryReader {
    pub closed spec fn bytes(&self) -> Seq<u8> {
        self.buf@
    }

    pub closed spec fn pos(&self) -> int {
        self.index as int
    }

    /// A cursor at the start of `buf`.
    pub fn new(buf: Vec<u8>) -> (r: BinaryReader)
        ensures
            r.bytes() == buf@,
            r.pos() == 0,
    {
        BinaryReader { buf, index: 0 }
    }

    /// Number of bytes in the file.
    pub fn len(&self) -> (r: usize)
        ensures
            r == self.bytes().len(),
    {
        self.buf.len()
    }

    /// Current position.
    pub fn tell(&self) -> (r: usize)
        ensures
            r == self.pos(),
    {
        self.index
    }

    /// Reads one byte.
    pub fn next_u8(&mut self) -> (r: u8)
        requires
            old(self).pos() < old(self).bytes().len(),
        ensures
            r == old(self).bytes()[old(self).pos()],
            final(self).bytes() == old(self).bytes(),
            final(self).pos() == old(self).pos() + 1,
    {
        let _n = self.buf.len();
        let b = self.buf[self.index];
        self.index = self.index + 1;
        b
    }

    /// Reads a little-endian 16-bit value.
    pub fn next_u16(&mut self) -> (r: u16)
        requires
            old(self).pos() + 2 <= old(self).bytes().len(),
        ensures
            r == le16(old(self).bytes(), old(self).pos()),
            final(self).bytes() == old(self).bytes(),
            final(self).pos() == old(self).pos() + 2,
    {
        let _n = self.buf.len();
        let lo = self.buf[self.index] as u16;
        let hi = self.buf[self.index + 1] as u16;
        self.index = self.index + 2;
        lo + hi * 256
    }

    /// Moves the position `count` bytes on.
    pub fn skip(&mut self, count: usize)
        requires
            old(self).pos() + count <= old(self).bytes().len(),
        ensures
            final(self).bytes() == old(self).bytes(),
            final(self).pos() == old(self).pos() + count,
    {
        let _n = self.buf.len();
        self.index = self.index + count;
    }

    /// The `len` bytes from `start`.
    pub fn get_slice(&self, start: usize, len: usize) -> (r: &[u8])
        requires
            start + len <= self.bytes().len(),
        ensures
            r@ == self.bytes().subrange(start as int, start + len),
    {
        let _n = self.buf.len();
        vstd::slice::slice_subrange(self.buf.as_slice(), start, start + len)
    }

    /// The bytes from `start` to the end.
    pub fn as_slice_from(&self, start: usize) -> (r: &[u8])
        requires
            start <= self.bytes().len(),
        ensures
            r@ == self.bytes().subrange(start as int, self.bytes().len() as int),
    {
        vstd::slice::slice_subrange(self.buf.as_slice(), start, self.buf.len())
    }
}

/// The bytes of a fixed-length text field up to its first zero byte, or all
/// of them where it holds none.
pub fn field_text_bytes(raw: &[u8]) -> (r: Vec<u8>)
    ensures
        r@.len() <= raw@.len(),
        r@ == raw@.subrange(0, r@.len() as int),
        forall|i: int| 0 <= i < r@.len() ==> #[trigger] raw@[i] != 0u8,
        r@.len() < raw@.len() ==> raw@[r@.len() as int] == 0u8,
{
    let mut out: Vec<u8> = Vec::new();
    let mut i: usize = 0;
    while i < raw.len() && raw[i] != 0u8
        invariant
            i <= raw@.len(),
            out@ == raw@.subrange(0, i as int),
            forall|k: int| 0 <= k < i ==> #[trigger] raw@[k] != 0u8,
        decreases raw@.len() - i,
    {
        out.push(raw[i]);
        i = i + 1;
        proof {
            assert(out@ =~= raw@.subrange(0, i as int));
        }
    }
    out
}


impl BinaryReader {
    /// Reads a little-endian unsigned 32-bit value.
    pub fn next_u32(&mut self) -> (r: u32)
        requires
            old(self).pos() + 4 <= old(self).bytes().len(),
        ensures
            r == le32(old(self).bytes(), old(self).pos()),
            final(self).bytes() == old(self).bytes(),
            final(self).pos() == old(self).pos() + 4,
    {
        let _n = self.buf.len();
        let i = self.index;
        let b0 = self.buf[i] as u32;
        let b1 = self.buf[i + 1] as u32;
        let b2 = self.buf[i + 2] as u32;
        let b3 = self.buf[i + 3] as u32;
        self.index = i + 4;
        b0 + b1 * 256 + b2 * 65536 + b3 * 16777216
    }

    /// Reads a little-endian signed 32-bit value.
    pub fn next_i32(&mut self) -> (r: i32)
        requires
            old(self).pos() + 4 <= old(self).bytes().len(),
        ensures
            r == to_i32(le32(old(self).bytes(), old(self).pos())),
            final(self).bytes() == old(self).bytes(),
            final(self).pos() == old(self).pos() + 4,
    {
        let u = self.next_u32();
        if u < 0x8000_0000 {
            u as i32
        } else {
            (u - 0x8000_0000) as i32 + i32::MIN
        }
    }

    /// Reads the next `count` bytes.
    pub fn next_bytes(&mut self, count: usize) -> (r: Vec<u8>)
        requires
            old(self).pos() + count <= old(self).bytes().len(),
        ensures
            r@ == old(self).bytes().subrange(old(self).pos(), old(self).pos() + count),
            final(self).bytes() == old(self).bytes(),
            final(self).pos() == old(self).pos() + count,
    {
        let _n = self.buf.len();
        let start = self.index;
        let mut out: Vec<u8> = Vec::new();
        let mut k: usize = 0;
        while k < count
            invariant
                self.buf@ == old(self).bytes(),
                start == old(self).pos(),
                start + count <= self.buf@.len(),
                self.buf@.len() <= usize::MAX,
                k <= count,
                out@ == self.buf@.subrange(start as int, start + k),
            decreases count - k,
        {
            out.push(self.buf[start + k]);
            proof {
                assert(self.buf@.subrange(start as int, start + k + 1) =~= self.buf@.subrange(
                    start as int,
                    start + k,
                ).push(self.buf@[start + k]));
            }
            k = k + 1;
        }
        self.index = start + count;
        out
    }
}

} // verus!
