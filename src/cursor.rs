//! A bounds-checked, forward-only reader over a byte slice.
use vstd::prelude::*;
use vstd::slice::slice_subrange;

verus! {

/// The ways a header can fail to yield image dimensions.
#[derive(Clone, Copy, Debug, PartialEq, Eq, Structural)]
pub enum SniffError {
    /// The buffer ends before a required field could be read.
    TruncatedInput,
    /// No known signature matched, or the container is an unsupported variant.
    UnsupportedFormat,
    /// A recognised container breaks its own structural rules.
    ParseError,
}

/// Unsigned 16-bit value stored big-endian at `b[i..i + 2]`.
pub open spec fn be16(b: Seq<u8>, i: int) -> int {
    b[i] * 0x100 + b[i + 1]
}

/// Unsigned 16-bit value stored little-endian at `b[i..i + 2]`.
pub open spec fn le16(b: Seq<u8>, i: int) -> int {
    b[i] + b[i + 1] * 0x100
}

/// Unsigned 32-bit value stored big-endian at `b[i..i + 4]`.
pub open spec fn be32(b: Seq<u8>, i: int) -> int {
    b[i] * 0x100_0000 + b[i + 1] * 0x1_0000 + b[i + 2] * 0x100 + b[i + 3]
}

/// Unsigned 32-bit value stored little-endian at `b[i..i + 4]`.
pub open spec fn le32(b: Seq<u8>, i: int) -> int {
    b[i] + b[i + 1] * 0x100 + b[i + 2] * 0x1_0000 + b[i + 3] * 0x100_0000
}

/// A read position over a borrowed buffer. Every read either succeeds and
/// moves forward by exactly the bytes it consumed, or fails with
/// `TruncatedInput` and leaves the position where it was.
pub struct ByteCursor<'a> {
    buf: &'a [u8],
    pos: usize,
}

impl<'a> ByteCursor<'a> {
    /// The bytes under the cursor.
    pub closed spec fn data(&self) -> Seq<u8> {
        self.buf@
    }

    /// How many bytes have been consumed.
    pub closed spec fn position(&self) -> int {
        self.pos as int
    }

    pub closed spec fn wf(&self) -> bool {
        self.pos <= self.buf@.len()
    }

    /// Bytes not yet consumed.
    pub open spec fn remaining(&self) -> int {
        self.data().len() - self.position()
    }

    pub fn new(buf: &'a [u8]) -> (r: Self)
        ensures
            r.wf(),
            r.data() == buf@,
            r.position() == 0,
    {
        ByteCursor { buf, pos: 0 }
    }

    pub fn pos(&self) -> (r: usize)
        requires
            self.wf(),
        ensures
            r == self.position(),
    {
        self.pos
    }

    /// The next `n` bytes, consumed.
    pub fn read_exact(&mut self, n: usize) -> (r: Result<&'a [u8], SniffError>)
        requires
            old(self).wf(),
        ensures
            final(self).wf(),
            final(self).data() == old(self).data(),
            match r {
                Ok(s) => {
                    &&& n <= old(self).remaining()
                    &&& s@ == old(self).data().subrange(
                        old(self).position(),
                        old(self).position() + n,
                    )
                    &&& final(self).position() == old(self).position() + n
                },
                Err(e) => {
                    &&& e == SniffError::TruncatedInput
                    &&& n > old(self).remaining()
                    &&& final(self).position() == old(self).position()
                },
            },
    {
        if n > self.buf.len() - self.pos {
            return Err(SniffError::TruncatedInput);
        }
        let s = slice_subrange(self.buf, self.pos, self.pos + n);
        self.pos = self.pos + n;
        Ok(s)
    }

    /// Moves past the next `n` bytes without looking at them.
    pub fn skip(&mut self, n: usize) -> (r: Result<(), SniffError>)
        requires
            old(self).wf(),
        ensures
            final(self).wf(),
            final(self).data() == old(self).data(),
            match r {
                Ok(_) => {
                    &&& n <= old(self).remaining()
                    &&& final(self).position() == old(self).position() + n
                },
                Err(e) => {
                    &&& e == SniffError::TruncatedInput
                    &&& n > old(self).remaining()
                    &&& final(self).position() == old(self).position()
                },
            },
    {
        if n > self.buf.len() - self.pos {
            return Err(SniffError::TruncatedInput);
        }
        self.pos = self.pos + n;
        Ok(())
    }

    /// The next byte, consumed.
    pub fn read_u8(&mut self) -> (r: Result<u8, SniffError>)
        requires
            old(self).wf(),
        ensures
            final(self).wf(),
            final(self).data() == old(self).data(),
            match r {
                Ok(v) => {
                    &&& 1 <= old(self).remaining()
                    &&& v == old(self).data()[old(self).position()]
                    &&& final(self).position() == old(self).position() + 1
                },
                Err(e) => {
                    &&& e == SniffError::TruncatedInput
                    &&& old(self).remaining() < 1
                    &&& final(self).position() == old(self).position()
                },
            },
    {
        if self.pos >= self.buf.len() {
            return Err(SniffError::TruncatedInput);
        }
        let v = self.buf[self.pos];
        self.pos = self.pos + 1;
        Ok(v)
    }

    /// The next two bytes as a big-endian integer, consumed.
    pub fn read_u16_be(&mut self) -> (r: Result<u16, SniffError>)
        requires
            old(self).wf(),
        ensures
            final(self).wf(),
            final(self).data() == old(self).data(),
            match r {
                Ok(v) => {
                    &&& 2 <= old(self).remaining()
                    &&& v == be16(old(self).data(), old(self).position())
                    &&& final(self).position() == old(self).position() + 2
                },
                Err(e) => {
                    &&& e == SniffError::TruncatedInput
                    &&& old(self).remaining() < 2
                    &&& final(self).position() == old(self).position()
                },
            },
    {
        let s = self.read_exact(2)?;
        Ok((s[0] as u16) * 0x100 + s[1] as u16)
    }

    /// The next two bytes as a little-endian integer, consumed.
    pub fn read_u16_le(&mut self) -> (r: Result<u16, SniffError>)
        requires
            old(self).wf(),
        ensures
            final(self).wf(),
            final(self).data() == old(self).data(),
            match r {
                Ok(v) => {
                    &&& 2 <= old(self).remaining()
                    &&& v == le16(old(self).data(), old(self).position())
                    &&& final(self).position() == old(self).position() + 2
                },
                Err(e) => {
                    &&& e == SniffError::TruncatedInput
                    &&& old(self).remaining() < 2
                    &&& final(self).position() == old(self).position()
                },
            },
    {
        let s = self.read_exact(2)?;
        Ok(s[0] as u16 + (s[1] as u16) * 0x100)
    }

    /// The next four bytes as a big-endian integer, consumed.
    pub fn read_u32_be(&mut self) -> (r: Result<u32, SniffError>)
        requires
            old(self).wf(),
        ensures
            final(self).wf(),
            final(self).data() == old(self).data(),
            match r {
                Ok(v) => {
                    &&& 4 <= old(self).remaining()
                    &&& v == be32(old(self).data(), old(self).position())
                    &&& final(self).position() == old(self).position() + 4
                },
                Err(e) => {
                    &&& e == SniffError::TruncatedInput
                    &&& old(self).remaining() < 4
                    &&& final(self).position() == old(self).position()
                },
            },
    {
        let s = self.read_exact(4)?;
        Ok((s[0] as u32) * 0x100_0000 + (s[1] as u32) * 0x1_0000 + (s[2] as u32) * 0x100
            + s[3] as u32)
    }

    /// The next four bytes as a little-endian integer, consumed.
    pub fn read_u32_le(&mut self) -> (r: Result<u32, SniffError>)
        requires
            old(self).wf(),
        ensures
            final(self).wf(),
            final(self).data() == old(self).data(),
            match r {
                Ok(v) => {
                    &&& 4 <= old(self).remaining()
                    &&& v == le32(old(self).data(), old(self).position())
                    &&& final(self).position() == old(self).position() + 4
                },
                Err(e) => {
                    &&& e == SniffError::TruncatedInput
                    &&& old(self).remaining() < 4
                    &&& final(self).position() == old(self).position()
                },
            },
    {
        let s = self.read_exact(4)?;
        Ok(s[0] as u32 + (s[1] as u32) * 0x100 + (s[2] as u32) * 0x1_0000 + (s[3] as u32)
            * 0x100_0000)
    }
}

} // verus!
