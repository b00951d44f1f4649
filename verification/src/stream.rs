//! The byte accumulator that holds what the transport delivered, and the writer
//! that lays outbound messages out as bytes.

use vstd::prelude::*;
use vstd::string::StringSliceAdditionalSpecFns;
use crate::wire::{be16, be32, be64, be16_bytes, be32_bytes, bits_of_i8, bits_of_i16, bits_of_i32};

verus! {

/// What `String::from_utf8_lossy` makes of a byte sequence.
pub uninterp spec fn utf8_lossy(bytes: Seq<u8>) -> Seq<char>;

/// `String::from_utf8_lossy`, as an owned string: valid UTF-8 is decoded as it
/// stands; for other input std replaces each invalid sequence by U+FFFD, which is
/// not spelled out here but named `utf8_lossy`.
#[verifier::external_body]
pub(crate) fn string_from_utf8_lossy(bytes: &Vec<u8>) -> (s: String)
    ensures
        s@ == utf8_lossy(bytes@),
        vstd::utf8::valid_utf8(bytes@) ==> s@ == vstd::utf8::decode_utf8(bytes@),
{
    String::from_utf8_lossy(bytes.as_slice()).into_owned()
}

/// Bytes received and not yet consumed, oldest first.
pub struct StreamReader {
    inner: Vec<u8>,
    head: usize,
}

impl View for StreamReader {
    type V = Seq<u8>;

    closed spec fn view(&self) -> Seq<u8> {
        if self.head <= self.inner.len() {
            self.inner@.skip(self.head as int)
        } else {
            Seq::empty()
        }
    }
}

impl StreamReader {
    /// A reader that holds the bytes of `bufs`, in order.
    pub fn new(bufs: Vec<Vec<u8>>) -> (r: Self)
        ensures
            r@ == bufs@.map_values(|b: Vec<u8>| b@).flatten(),
    {
        let mut inner: Vec<u8> = Vec::new();
        let mut i: usize = 0;
        while i < bufs.len()
            invariant
                i <= bufs.len(),
                inner@ == bufs@.take(i as int).map_values(|b: Vec<u8>| b@).flatten(),
            decreases bufs.len() - i,
        {
            proof {
                let f = |b: Vec<u8>| b@;
                assert(bufs@.take(i + 1).map_values(f) =~= bufs@.take(i as int).map_values(f).push(
                    bufs@[i as int]@,
                ));
                bufs@.take(i as int).map_values(f).lemma_flatten_push(bufs@[i as int]@);
            }
            inner.extend_from_slice(bufs[i].as_slice());
            i += 1;
        }
        assert(bufs@.take(bufs.len() as int) =~= bufs@);
        let r = StreamReader { inner, head: 0 };
        assert(r@ =~= inner@);
        r
    }

    /// Adds `buf` behind what is already held.
    pub fn append(&mut self, buf: Vec<u8>)
        ensures
            final(self)@ == old(self)@ + buf@,
    {
        if self.head >= self.inner.len() {
            self.inner.clear();
            self.head = 0;
        } else if self.head > 0 {
            let rest = self.inner.split_off(self.head);
            self.head = 0;
            self.inner = rest;
        }
        self.inner.extend_from_slice(buf.as_slice());
        assert(self@ =~= old(self)@ + buf@);
    }

    /// What is held can be counted in a `usize`.
    pub proof fn lemma_fits(&self)
        ensures
            self@.len() <= usize::MAX,
    {
        assert(self.inner@.len() == self.inner.len());
    }

    /// Drops every byte that is held.
    pub fn clear(&mut self)
        ensures
            final(self)@ == Seq::<u8>::empty(),
    {
        self.inner.clear();
        self.head = 0;
        assert(self@ =~= Seq::<u8>::empty());
    }

    /// How many bytes are held.
    pub fn remain(&self) -> (n: usize)
        ensures
            n == self@.len(),
    {
        if self.head <= self.inner.len() {
            self.inner.len() - self.head
        } else {
            0
        }
    }

    /// Takes the first `n` bytes and puts them at the end of `out_vec`.
    pub fn read_exact_vec(&mut self, out_vec: &mut Vec<u8>, n: usize)
        requires
            n <= old(self)@.len(),
        ensures
            final(out_vec)@ == old(out_vec)@ + old(self)@.take(n as int),
            final(self)@ == old(self)@.skip(n as int),
            final(self)@.len() == old(self)@.len() - n,
    {
        let mut i: usize = 0;
        while i < n
            invariant
                i <= n,
                n <= old(self)@.len(),
                *self == *old(self),
                out_vec@ == old(out_vec)@ + old(self)@.take(i as int),
            decreases n - i,
        {
            out_vec.push(self.inner[self.head + i]);
            assert(old(self)@.take(i + 1) =~= old(self)@.take(i as int).push(old(self)@[i as int]));
            i += 1;
        }
        if n > 0 {
            self.head = self.head + n;
        }
        assert(self@ =~= old(self)@.skip(n as int));
    }

    /// Takes the first `n` bytes and puts them at the start of `out_buf`.
    pub fn read_exact(&mut self, out_buf: &mut [u8], n: usize)
        requires
            n <= old(self)@.len(),
            n <= old(out_buf)@.len(),
        ensures
            final(out_buf)@ == old(self)@.take(n as int) + old(out_buf)@.skip(n as int),
            final(self)@ == old(self)@.skip(n as int),
            final(self)@.len() == old(self)@.len() - n,
    {
        let mut i: usize = 0;
        while i < n
            invariant
                i <= n,
                n <= old(self)@.len(),
                n <= old(out_buf)@.len(),
                *self == *old(self),
                out_buf@ == old(self)@.take(i as int) + old(out_buf)@.skip(i as int),
            decreases n - i,
        {
            out_buf[i] = self.inner[self.head + i];
            assert(out_buf@ =~= old(self)@.take(i + 1) + old(out_buf)@.skip(i + 1));
            i += 1;
        }
        if n > 0 {
            self.head = self.head + n;
        }
        assert(self@ =~= old(self)@.skip(n as int));
    }

    /// Takes the first byte.
    pub fn read_u8(&mut self) -> (v: u8)
        requires
            1 <= old(self)@.len(),
        ensures
            v == old(self)@[0],
            final(self)@ == old(self)@.skip(1),
            final(self)@.len() == old(self)@.len() - 1,
    {
        let v = self.inner[self.head];
        self.head = self.head + 1;
        assert(self@ =~= old(self)@.skip(1));
        v
    }

    /// Takes the first two bytes as a big-endian integer.
    pub fn read_u16(&mut self) -> (v: u16)
        requires
            2 <= old(self)@.len(),
        ensures
            v == be16(old(self)@),
            final(self)@ == old(self)@.skip(2),
            final(self)@.len() == old(self)@.len() - 2,
    {
        let hi = self.read_u8();
        let lo = self.read_u8();
        assert(self@ =~= old(self)@.skip(2));
        (hi as u16) * 0x100 + (lo as u16)
    }

    /// Takes the first four bytes as a big-endian integer.
    pub fn read_u32(&mut self) -> (v: u32)
        requires
            4 <= old(self)@.len(),
        ensures
            v == be32(old(self)@),
            final(self)@ == old(self)@.skip(4),
            final(self)@.len() == old(self)@.len() - 4,
    {
        let hi = self.read_u16();
        let lo = self.read_u16();
        assert(self@ =~= old(self)@.skip(4));
        (hi as u32) * 0x1_0000 + (lo as u32)
    }

    /// Takes the first eight bytes as a big-endian integer.
    pub fn read_u64(&mut self) -> (v: u64)
        requires
            8 <= old(self)@.len(),
        ensures
            v == be64(old(self)@),
            final(self)@ == old(self)@.skip(8),
            final(self)@.len() == old(self)@.len() - 8,
    {
        let hi = self.read_u32();
        let lo = self.read_u32();
        assert(self@ =~= old(self)@.skip(8));
        (hi as u64) * 0x1_0000_0000 + (lo as u64)
    }

    /// Takes the first `len` bytes as text. Bytes that are not UTF-8 are
    /// replaced as `String::from_utf8_lossy` replaces them.
    pub fn read_string(&mut self, len: usize) -> (s: String)
        requires
            len <= old(self)@.len(),
        ensures
            s@ == utf8_lossy(old(self)@.take(len as int)),
            vstd::utf8::valid_utf8(old(self)@.take(len as int)) ==> s@ == vstd::utf8::decode_utf8(
                old(self)@.take(len as int),
            ),
            final(self)@ == old(self)@.skip(len as int),
            final(self)@.len() == old(self)@.len() - len,
    {
        let mut buf: Vec<u8> = Vec::new();
        self.read_exact_vec(&mut buf, len);
        assert(buf@ =~= old(self)@.take(len as int));
        string_from_utf8_lossy(&buf)
    }
}

/// Lays values out as bytes at the end of a buffer that it borrows. Integers
/// are written most significant byte first.
pub struct StreamWriter<'a> {
    pub inner: &'a mut Vec<u8>,
}

impl<'a> StreamWriter<'a> {
    /// A writer that adds to `buf`.
    pub fn new(buf: &'a mut Vec<u8>) -> (w: Self)
        ensures
            *w.inner == *old(buf),
            *final(w.inner) == *final(buf),
    {
        Self { inner: buf }
    }

    /// Adds one byte.
    pub fn write_u8(&mut self, b: u8)
        ensures
            final(self).inner@ == old(self).inner@.push(b),
            *final(final(self).inner) == *final(old(self).inner),
    {
        self.inner.push(b);
    }

    /// Adds the two bytes of `b`.
    pub fn write_u16(&mut self, b: u16)
        ensures
            final(self).inner@ == old(self).inner@ + be16_bytes(b),
            *final(final(self).inner) == *final(old(self).inner),
    {
        self.inner.push((b / 0x100) as u8);
        self.inner.push((b % 0x100) as u8);
        assert(self.inner@ =~= old(self).inner@ + be16_bytes(b));
    }

    /// Adds the four bytes of `b`.
    pub fn write_u32(&mut self, b: u32)
        ensures
            final(self).inner@ == old(self).inner@ + be32_bytes(b),
            *final(final(self).inner) == *final(old(self).inner),
    {
        self.write_u16((b / 0x1_0000) as u16);
        self.write_u16((b % 0x1_0000) as u16);
        assert(self.inner@ =~= old(self).inner@ + be32_bytes(b));
    }

    /// Adds the byte that holds `b` in two's complement.
    pub fn write_s8(&mut self, b: i8)
        ensures
            final(self).inner@ == old(self).inner@.push(bits_of_i8(b)),
            *final(final(self).inner) == *final(old(self).inner),
    {
        let bits: u8 = if b < 0 {
            (b as i16 + 0x100) as u8
        } else {
            b as u8
        };
        self.write_u8(bits);
    }

    /// Adds the two bytes that hold `b` in two's complement.
    pub fn write_s16(&mut self, b: i16)
        ensures
            final(self).inner@ == old(self).inner@ + be16_bytes(bits_of_i16(b)),
            *final(final(self).inner) == *final(old(self).inner),
    {
        let bits: u16 = if b < 0 {
            (b as i32 + 0x1_0000) as u16
        } else {
            b as u16
        };
        self.write_u16(bits);
    }

    /// Adds the four bytes that hold `b` in two's complement.
    pub fn write_s32(&mut self, b: i32)
        ensures
            final(self).inner@ == old(self).inner@ + be32_bytes(bits_of_i32(b)),
            *final(final(self).inner) == *final(old(self).inner),
    {
        let bits: u32 = if b < 0 {
            (b as i64 + 0x1_0000_0000) as u32
        } else {
            b as u32
        };
        self.write_u32(bits);
    }

    /// Adds the bytes of `s`.
    pub fn write_string(&mut self, s: &str)
        ensures
            final(self).inner@ == old(self).inner@ + s.spec_bytes(),
            *final(final(self).inner) == *final(old(self).inner),
    {
        self.inner.extend_from_slice(s.as_bytes());
        assert(self.inner@ =~= old(self).inner@ + s.spec_bytes());
    }

    /// Adds the length of `s` in bytes, as 16 bits, and then its bytes. Of a
    /// length that does not fit, the low 16 bits are written.
    pub fn write_string_l16(&mut self, s: &str)
        ensures
            final(self).inner@ == old(self).inner@ + be16_bytes(
                (s.spec_bytes().len() % 0x1_0000) as u16,
            ) + s.spec_bytes(),
            *final(final(self).inner) == *final(old(self).inner),
    {
        let n = s.as_bytes().len();
        self.write_u16((n % 0x1_0000) as u16);
        self.write_string(s);
        assert(self.inner@ =~= old(self).inner@ + be16_bytes(
            (s.spec_bytes().len() % 0x1_0000) as u16,
        ) + s.spec_bytes());
    }

    /// Adds the length of `s` in bytes, as 32 bits, and then its bytes. Of a
    /// length that does not fit, the low 32 bits are written.
    pub fn write_string_l32(&mut self, s: &str)
        ensures
            final(self).inner@ == old(self).inner@ + be32_bytes(
                (s.spec_bytes().len() % 0x1_0000_0000) as u32,
            ) + s.spec_bytes(),
            *final(final(self).inner) == *final(old(self).inner),
    {
        let n = s.as_bytes().len();
        self.write_u32((n as u64 % 0x1_0000_0000) as u32);
        self.write_string(s);
        assert(self.inner@ =~= old(self).inner@ + be32_bytes(
            (s.spec_bytes().len() % 0x1_0000_0000) as u32,
        ) + s.spec_bytes());
    }

    /// Adds the bytes of `s`.
    pub fn write_slice(&mut self, s: &[u8])
        ensures
            final(self).inner@ == old(self).inner@ + s@,
            *final(final(self).inner) == *final(old(self).inner),
    {
        self.inner.extend_from_slice(s);
        assert(self.inner@ =~= old(self).inner@ + s@);
    }
}

} // verus!
