//! An in-memory byte source with a read cursor, and the little-endian
//! integer readers that the header decoders are built from.
use vstd::prelude::*;

verus! {

/// The unsigned value of the two bytes at `i`, least significant first.
pub open spec fn le_u16_at(s: Seq<u8>, i: int) -> int {
    s[i] as int + 256 * s[i + 1]
}

/// The unsigned value of the four bytes at `i`, least significant first.
pub open spec fn le_u32_at(s: Seq<u8>, i: int) -> int {
    s[i] as int + 256 * s[i + 1] + 65536 * s[i + 2] + 16777216 * s[i + 3]
}

/// The two's-complement reading of a 32-bit unsigned value.
pub open spec fn signed32(u: int) -> int {
    if u < 0x8000_0000 {
        u
    } else {
        u - 0x1_0000_0000
    }
}

/// The signed value of the four bytes at `i`, least significant first.
pub open spec fn le_i32_at(s: Seq<u8>, i: int) -> int {
    signed32(le_u32_at(s, i))
}

/// The two little-endian bytes of `v`.
pub open spec fn le_u16_bytes(v: u16) -> Seq<u8> {
    seq![(v % 256) as u8, (v / 256) as u8]
}

/// The four little-endian bytes of `v`.
pub open spec fn le_u32_bytes(v: u32) -> Seq<u8> {
    seq![(v % 256) as u8, (v / 256 % 256) as u8, (v / 65536 % 256) as u8, (v / 16777216) as u8]
}

/// Reading back the bytes of a `u16` gives the value.
pub proof fn lemma_le_u16_round_trip(v: u16)
    ensures
        le_u16_at(le_u16_bytes(v), 0) == v,
{
    assert(v % 256 + 256 * (v / 256) == v) by (bit_vector);
}

/// Reading back the bytes of a `u32` gives the value.
pub proof fn lemma_le_u32_round_trip(v: u32)
    ensures
        le_u32_at(le_u32_bytes(v), 0) == v,
{
    assert(v % 256 + 256 * (v / 256 % 256) + 65536 * (v / 65536 % 256) + 16777216 * (v / 16777216) == v)
        by (bit_vector);
}

/// A sequence of bytes positioned at a read cursor. Reading advances the
/// cursor; the bytes themselves never change.
pub struct ByteSource {
    bytes: Vec<u8>,
    pos: usize,
}

impl ByteSource {
    /// All bytes of the source, read or not.
    pub closed spec fn data(&self) -> Seq<u8> {
        self.bytes@
    }

    /// The number of bytes already read.
    pub closed spec fn pos(&self) -> nat {
        self.pos as nat
    }

    pub open spec fn wf(&self) -> bool {
        self.pos() <= self.data().len()
    }

    /// The bytes that are still to be read.
    pub open spec fn remaining(&self) -> Seq<u8> {
        self.data().subrange(self.pos() as int, self.data().len() as int)
    }

    /// The state after `n` more bytes have been read.
    pub open spec fn advanced_from(&self, prev: &ByteSource, n: nat) -> bool {
        &&& self.wf()
        &&& self.data() == prev.data()
        &&& self.pos() == prev.pos() + n
    }

    /// A source positioned at the first of `bytes`.
    pub fn new(bytes: Vec<u8>) -> (r: ByteSource)
        ensures
            r.wf(),
            r.data() == bytes@,
            r.pos() == 0,
            r.remaining() == bytes@,
    {
        let r = ByteSource { bytes, pos: 0 };
        assert(r.remaining() =~= bytes@);
        r
    }

    /// The number of bytes already read.
    pub fn position(&self) -> (r: usize)
        ensures
            r == self.pos(),
    {
        self.pos
    }

    /// The number of bytes that are still to be read.
    pub fn remaining_len(&self) -> (r: usize)
        requires
            self.wf(),
        ensures
            r == self.remaining().len(),
    {
        self.bytes.len() - self.pos
    }

    /// Whether at least `n` bytes are still to be read.
    pub fn has(&self, n: usize) -> (r: bool)
        requires
            self.wf(),
        ensures
            r == (self.remaining().len() >= n),
    {
        self.bytes.len() - self.pos >= n
    }

    /// Moves the cursor over `n` bytes without decoding them.
    pub fn skip(&mut self, n: usize)
        requires
            old(self).wf(),
            old(self).remaining().len() >= n,
        ensures
            final(self).advanced_from(old(self), n as nat),
            final(self).remaining() == old(self).remaining().skip(n as int),
    {
        let len = self.bytes.len();
        assert(self.pos + n <= len);
        self.pos = self.pos + n;
        assert(self.remaining() =~= old(self).remaining().skip(n as int));
    }

    /// Reads one byte.
    pub fn take_u8(&mut self) -> (r: u8)
        requires
            old(self).wf(),
            old(self).remaining().len() >= 1,
        ensures
            r == old(self).remaining()[0],
            final(self).advanced_from(old(self), 1),
            final(self).remaining() == old(self).remaining().skip(1),
    {
        let len = self.bytes.len();
        assert(self.pos + 1 <= len);
        let b = self.bytes[self.pos];
        self.pos = self.pos + 1;
        assert(self.remaining() =~= old(self).remaining().skip(1));
        b
    }

    /// Reads a little-endian `u16`.
    pub fn take_u16_le(&mut self) -> (r: u16)
        requires
            old(self).wf(),
            old(self).remaining().len() >= 2,
        ensures
            r == le_u16_at(old(self).remaining(), 0),
            final(self).advanced_from(old(self), 2),
            final(self).remaining() == old(self).remaining().skip(2),
    {
        let b0 = self.take_u8() as u16;
        let b1 = self.take_u8() as u16;
        b0 + b1 * 256
    }

    /// Reads a little-endian `u32`.
    pub fn take_u32_le(&mut self) -> (r: u32)
        requires
            old(self).wf(),
            old(self).remaining().len() >= 4,
        ensures
            r == le_u32_at(old(self).remaining(), 0),
            final(self).advanced_from(old(self), 4),
            final(self).remaining() == old(self).remaining().skip(4),
    {
        let b0 = self.take_u8() as u32;
        let b1 = self.take_u8() as u32;
        let b2 = self.take_u8() as u32;
        let b3 = self.take_u8() as u32;
        b0 + b1 * 256 + b2 * 65536 + b3 * 16777216
    }

    /// Reads a little-endian two's-complement `i32`.
    pub fn take_i32_le(&mut self) -> (r: i32)
        requires
            old(self).wf(),
            old(self).remaining().len() >= 4,
        ensures
            r == le_i32_at(old(self).remaining(), 0),
            final(self).advanced_from(old(self), 4),
            final(self).remaining() == old(self).remaining().skip(4),
    {
        let u = self.take_u32_le();
        proof {
            lemma_u32_as_i32(u);
        }
        u as i32
    }
}

/// Casting a `u32` to `i32` reinterprets it as two's complement.
pub proof fn lemma_u32_as_i32(u: u32)
    ensures
        (u as i32) as int == signed32(u as int),
{
    if u < 0x8000_0000 {
        assert(u < 0x8000_0000u32 ==> (u as i32) as int == u as int) by (bit_vector);
    } else {
        assert(u >= 0x8000_0000u32 ==> (u as i32) as int == u as int - 0x1_0000_0000) by (bit_vector);
    }
}

} // verus!
