//! Reading fields off a message.

use crate::error::ParseError;
use vstd::prelude::*;

verus! {

/// The number in the first two bytes, most significant first.
pub open spec fn be16_value(b: Seq<u8>) -> u16 {
    (b[0] * 256 + b[1]) as u16
}

/// The number in the first four bytes, most significant first.
pub open spec fn be32_value(b: Seq<u8>) -> u32 {
    (b[0] * 0x100_0000 + b[1] * 0x1_0000 + b[2] * 256 + b[3]) as u32
}

/// The bytes of a message that are still to be read. A read that fails takes
/// nothing.
pub struct ParseBuffer<'b> {
    pos: usize,
    buffer: &'b [u8],
}

impl<'b> View for ParseBuffer<'b> {
    type V = Seq<u8>;

    closed spec fn view(&self) -> Seq<u8> {
        self.buffer@.skip(self.pos as int)
    }
}

impl<'b> ParseBuffer<'b> {
    #[verifier::type_invariant]
    spec fn in_bounds(self) -> bool {
        self.pos <= self.buffer@.len()
    }

    /// All of `buffer` is to be read.
    pub fn new(buffer: &'b [u8]) -> (r: Self)
        ensures
            r@ == buffer@,
    {
        let r = ParseBuffer { pos: 0, buffer };
        assert(r@ =~= buffer@);
        r
    }

    /// Whether all was read.
    pub fn is_empty(&self) -> (r: bool)
        ensures
            r == (self@.len() == 0),
    {
        proof {
            use_type_invariant(self);
        }
        self.pos == self.buffer.len()
    }

    /// How many bytes are left.
    pub fn remaining(&self) -> (r: usize)
        ensures
            r == self@.len(),
    {
        proof {
            use_type_invariant(self);
        }
        self.buffer.len() - self.pos
    }

    /// The bytes that are left.
    pub fn as_slice(&self) -> (r: &'b [u8])
        ensures
            r@ == self@,
    {
        proof {
            use_type_invariant(self);
        }
        assert(self.buffer@.subrange(self.pos as int, self.buffer@.len() as int) =~= self@);
        vstd::slice::slice_subrange(self.buffer, self.pos, self.buffer.len())
    }

    /// Takes the next `len` bytes.
    pub fn slice(&mut self, len: usize) -> (r: Result<ParseBuffer<'b>, ParseError>)
        ensures
            match r {
                Ok(taken) => {
                    &&& len <= old(self)@.len()
                    &&& taken@ == old(self)@.take(len as int)
                    &&& final(self)@ == old(self)@.skip(len as int)
                },
                Err(e) => {
                    &&& len > old(self)@.len()
                    &&& e == ParseError::InsufficientBytes
                    &&& final(self)@ == old(self)@
                },
            },
    {
        proof {
            use_type_invariant(&*self);
        }
        if len > self.buffer.len() - self.pos {
            return Err(ParseError::InsufficientBytes);
        }
        let taken = ParseBuffer::new(
            vstd::slice::slice_subrange(self.buffer, self.pos, self.pos + len),
        );
        self.pos = self.pos + len;
        assert(taken@ =~= old(self)@.take(len as int));
        assert(self@ =~= old(self)@.skip(len as int));
        Ok(taken)
    }

    /// Takes one byte.
    pub fn read_u8(&mut self) -> (r: Result<u8, ParseError>)
        ensures
            match r {
                Ok(n) => {
                    &&& old(self)@.len() >= 1
                    &&& n == old(self)@[0]
                    &&& final(self)@ == old(self)@.skip(1)
                },
                Err(e) => {
                    &&& old(self)@.len() < 1
                    &&& e == ParseError::InsufficientBytes
                    &&& final(self)@ == old(self)@
                },
            },
    {
        let taken = self.slice(1)?;
        let bytes = taken.as_slice();
        Ok(bytes[0])
    }

    /// Takes a number of two bytes.
    pub fn read_u16(&mut self) -> (r: Result<u16, ParseError>)
        ensures
            match r {
                Ok(n) => {
                    &&& old(self)@.len() >= 2
                    &&& n == be16_value(old(self)@)
                    &&& final(self)@ == old(self)@.skip(2)
                },
                Err(e) => {
                    &&& old(self)@.len() < 2
                    &&& e == ParseError::InsufficientBytes
                    &&& final(self)@ == old(self)@
                },
            },
    {
        let taken = self.slice(2)?;
        let bytes = taken.as_slice();
        Ok(bytes[0] as u16 * 256 + bytes[1] as u16)
    }

    /// Takes a number of four bytes.
    pub fn read_u32(&mut self) -> (r: Result<u32, ParseError>)
        ensures
            match r {
                Ok(n) => {
                    &&& old(self)@.len() >= 4
                    &&& n == be32_value(old(self)@)
                    &&& final(self)@ == old(self)@.skip(4)
                },
                Err(e) => {
                    &&& old(self)@.len() < 4
                    &&& e == ParseError::InsufficientBytes
                    &&& final(self)@ == old(self)@
                },
            },
    {
        let taken = self.slice(4)?;
        let bytes = taken.as_slice();
        Ok(
            bytes[0] as u32 * 0x100_0000 + bytes[1] as u32 * 0x1_0000 + bytes[2] as u32 * 256
                + bytes[3] as u32,
        )
    }
}

} // verus!
