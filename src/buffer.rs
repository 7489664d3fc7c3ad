//! The buffer model: a growable byte vector to write into, and a
//! forward-only read cursor over a byte region. Integers travel in
//! little-endian byte order.
use vstd::prelude::*;
use crate::err::DeError;

verus! {

/// The two bytes of `v`, low byte first.
pub open spec fn le16(v: u16) -> Seq<u8> {
    seq![(v % 256) as u8, (v / 256) as u8]
}

/// The four bytes of `v`, low byte first.
pub open spec fn le32(v: u32) -> Seq<u8> {
    le16((v % 65536) as u16) + le16((v / 65536) as u16)
}

/// The integer whose low byte is `s[0]` and high byte is `s[1]`.
pub open spec fn u16_of(s: Seq<u8>) -> u16 {
    (s[0] as int + 256 * (s[1] as int)) as u16
}

/// The integer whose bytes, low byte first, are `s[0..4]`.
pub open spec fn u32_of(s: Seq<u8>) -> u32 {
    (u16_of(s) as int + 65536 * (u16_of(s.subrange(2, 4)) as int)) as u32
}

/// `n` zero bytes.
pub open spec fn zeros(n: nat) -> Seq<u8> {
    Seq::new(n, |i: int| 0u8)
}

/// Decoding the bytes of a 16-bit integer gives it back.
pub proof fn lemma_u16_round_trip(v: u16)
    ensures
        u16_of(le16(v)) == v,
        le16(v).len() == 2,
{
}

/// Decoding the bytes of a 32-bit integer gives it back.
pub proof fn lemma_u32_round_trip(v: u32)
    ensures
        u32_of(le32(v)) == v,
        le32(v).len() == 4,
{
    assert(le32(v).subrange(2, 4) =~= le16((v / 65536) as u16));
}

/// Appends one byte.
pub fn write_u8(buf: &mut Vec<u8>, v: u8)
    ensures
        final(buf)@ == old(buf)@.push(v),
{
    buf.push(v);
}

/// Appends the bytes of a 16-bit integer, low byte first.
pub fn write_u16(buf: &mut Vec<u8>, v: u16)
    ensures
        final(buf)@ == old(buf)@ + le16(v),
{
    buf.push((v % 256) as u8);
    buf.push((v / 256) as u8);
    assert(buf@ =~= old(buf)@ + le16(v));
}

/// Appends the bytes of a 32-bit integer, low byte first.
pub fn write_u32(buf: &mut Vec<u8>, v: u32)
    ensures
        final(buf)@ == old(buf)@ + le32(v),
{
    write_u16(buf, (v % 65536) as u16);
    write_u16(buf, (v / 65536) as u16);
    assert(buf@ =~= old(buf)@ + le32(v));
}

/// Appends a byte sequence as it is.
pub fn write_bytes(buf: &mut Vec<u8>, bytes: &[u8])
    ensures
        final(buf)@ == old(buf)@ + bytes@,
{
    let mut i: usize = 0;
    while i < bytes.len()
        invariant
            i <= bytes@.len(),
            buf@ == old(buf)@ + bytes@.subrange(0, i as int),
        decreases bytes@.len() - i,
    {
        buf.push(bytes[i]);
        i = i + 1;
        assert(buf@ =~= old(buf)@ + bytes@.subrange(0, i as int));
    }
    assert(bytes@.subrange(0, bytes@.len() as int) =~= bytes@);
}

/// Appends `n` zero bytes.
pub fn write_zeros(buf: &mut Vec<u8>, n: usize)
    ensures
        final(buf)@ == old(buf)@ + zeros(n as nat),
{
    let mut i: usize = 0;
    while i < n
        invariant
            i <= n,
            buf@ == old(buf)@ + zeros(i as nat),
        decreases n - i,
    {
        buf.push(0u8);
        i = i + 1;
        assert(buf@ =~= old(buf)@ + zeros(i as nat));
    }
}

/// A forward-only cursor over a byte region. A read past the end fails
/// with a decoding error and leaves the cursor where it was.
pub struct ReadCursor<'a> {
    bytes: &'a [u8],
    pos: usize,
}

impl<'a> View for ReadCursor<'a> {
    /// The bytes not yet read.
    type V = Seq<u8>;

    closed spec fn view(&self) -> Seq<u8> {
        self.bytes@.subrange(self.pos as int, self.bytes@.len() as int)
    }
}

impl<'a> ReadCursor<'a> {
    /// The cursor stands within its region.
    pub closed spec fn wf(&self) -> bool {
        self.pos <= self.bytes@.len()
    }

    /// A cursor at the start of `bytes`.
    pub fn new(bytes: &'a [u8]) -> (r: Self)
        ensures
            r.wf(),
            r@ == bytes@,
    {
        let r = ReadCursor { bytes, pos: 0 };
        assert(r@ =~= bytes@);
        r
    }

    /// The number of bytes not yet read.
    pub fn remaining(&self) -> (r: usize)
        requires
            self.wf(),
        ensures
            r == self@.len(),
    {
        self.bytes.len() - self.pos
    }

    fn short() -> (e: DeError) {
        DeError::new("Buffer ended before the value was read")
    }

    /// Reads one byte.
    pub fn read_u8(&mut self) -> (r: Result<u8, DeError>)
        requires
            old(self).wf(),
        ensures
            final(self).wf(),
            r is Ok <==> old(self)@.len() >= 1,
            r is Ok ==> r->Ok_0 == old(self)@[0] && final(self)@ == old(self)@.skip(1),
            r is Err ==> final(self)@ == old(self)@,
    {
        if self.pos < self.bytes.len() {
            let v = self.bytes[self.pos];
            self.pos = self.pos + 1;
            assert(self@ =~= old(self)@.skip(1));
            Ok(v)
        } else {
            Err(Self::short())
        }
    }

    /// Reads a 16-bit integer, low byte first.
    pub fn read_u16(&mut self) -> (r: Result<u16, DeError>)
        requires
            old(self).wf(),
        ensures
            final(self).wf(),
            r is Ok <==> old(self)@.len() >= 2,
            r is Ok ==> r->Ok_0 == u16_of(old(self)@) && final(self)@ == old(self)@.skip(2),
            r is Err ==> final(self)@ == old(self)@,
    {
        if self.bytes.len() - self.pos >= 2 {
            let b0 = self.bytes[self.pos];
            let b1 = self.bytes[self.pos + 1];
            self.pos = self.pos + 2;
            assert(self@ =~= old(self)@.skip(2));
            Ok(b0 as u16 + 256 * (b1 as u16))
        } else {
            Err(Self::short())
        }
    }

    /// Reads a 32-bit integer, low byte first.
    pub fn read_u32(&mut self) -> (r: Result<u32, DeError>)
        requires
            old(self).wf(),
        ensures
            final(self).wf(),
            r is Ok <==> old(self)@.len() >= 4,
            r is Ok ==> r->Ok_0 == u32_of(old(self)@) && final(self)@ == old(self)@.skip(4),
            r is Err ==> final(self)@ == old(self)@,
    {
        if self.bytes.len() - self.pos >= 4 {
            let lo = self.read_u16();
            let hi = self.read_u16();
            match (lo, hi) {
                (Ok(lo), Ok(hi)) => {
                    assert(old(self)@.skip(2).subrange(0, 2) =~= old(self)@.subrange(2, 4));
                    assert(self@ =~= old(self)@.skip(4));
                    Ok(lo as u32 + 65536 * (hi as u32))
                },
                _ => Err(Self::short()),
            }
        } else {
            Err(Self::short())
        }
    }

    /// Reads exactly `n` bytes.
    pub fn read_bytes(&mut self, n: usize) -> (r: Result<Vec<u8>, DeError>)
        requires
            old(self).wf(),
        ensures
            final(self).wf(),
            r is Ok <==> old(self)@.len() >= n,
            r is Ok ==> r->Ok_0@ == old(self)@.take(n as int) && final(self)@ == old(self)@.skip(
                n as int,
            ),
            r is Err ==> final(self)@ == old(self)@,
    {
        if self.bytes.len() - self.pos >= n {
            let mut out: Vec<u8> = Vec::with_capacity(n);
            let start = self.pos;
            let mut i: usize = 0;
            let len = self.bytes.len();
            while i < n
                invariant
                    len == self.bytes@.len(),
                    self.bytes == old(self).bytes,
                    start == old(self).pos,
                    self.pos == start,
                    start + n <= self.bytes@.len(),
                    i <= n,
                    out@ == self.bytes@.subrange(start as int, start + i),
                decreases n - i,
            {
                out.push(self.bytes[start + i]);
                i = i + 1;
                assert(out@ =~= self.bytes@.subrange(start as int, start + i));
            }
            self.pos = start + n;
            assert(out@ =~= old(self)@.take(n as int));
            assert(self@ =~= old(self)@.skip(n as int));
            Ok(out)
        } else {
            Err(Self::short())
        }
    }

    /// Reads every byte that is left.
    pub fn read_rest(&mut self) -> (r: Vec<u8>)
        requires
            old(self).wf(),
        ensures
            final(self).wf(),
            r@ == old(self)@,
            final(self)@.len() == 0,
    {
        let n = self.bytes.len() - self.pos;
        let r = self.read_bytes(n);
        match r {
            Ok(v) => {
                assert(old(self)@.take(n as int) =~= old(self)@);
                v
            },
            Err(_) => Vec::new(),
        }
    }

    /// Skips `n` bytes, or every byte that is left where fewer remain.
    pub fn skip(&mut self, n: usize)
        requires
            old(self).wf(),
        ensures
            final(self).wf(),
            final(self)@ == old(self)@.skip(if n <= old(self)@.len() { n as int } else { old(self)@.len() as int }),
    {
        let left = self.bytes.len() - self.pos;
        if n <= left {
            self.pos = self.pos + n;
        } else {
            self.pos = self.bytes.len();
        }
        assert(self@ =~= old(self)@.skip(if n <= old(self)@.len() { n as int } else { old(self)@.len() as int }));
    }
}

} // verus!
