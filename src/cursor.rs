use vstd::prelude::*;

use vstd::slice::slice_subrange;

use crate::model::DecodeError;

verus! {

/// A read position in a borrowed byte stream; it only moves forward.
pub struct Cursor<'a> {
    bytes: &'a [u8],
    pos: usize,
}

impl<'a> Cursor<'a> {
    /// The whole stream.
    pub closed spec fn data(&self) -> Seq<u8> {
        self.bytes@
    }

    /// How many bytes have been consumed.
    pub closed spec fn position(&self) -> int {
        self.pos as int
    }

    /// The position lies within the stream.
    pub open spec fn wf(&self) -> bool {
        0 <= self.position() <= self.data().len()
    }

    /// A cursor at the start of `bytes`.
    pub fn new(bytes: &'a [u8]) -> (r: Cursor<'a>)
        ensures
            r.wf(),
            r.data() == bytes@,
            r.position() == 0,
    {
        Cursor { bytes, pos: 0 }
    }

    /// The number of bytes consumed so far.
    pub fn offset(&self) -> (r: usize)
        ensures
            r == self.position(),
    {
        self.pos
    }

    /// Whether every byte has been consumed.
    pub fn is_empty(&self) -> (r: bool)
        requires
            self.wf(),
        ensures
            r == (self.position() >= self.data().len()),
    {
        self.pos >= self.bytes.len()
    }

    /// The next byte, without consuming it.
    pub fn peek(&self) -> (r: Option<u8>)
        requires
            self.wf(),
        ensures
            self.position() < self.data().len() ==> r == Some(self.data()[self.position()]),
            self.position() >= self.data().len() ==> r.is_none(),
    {
        if self.pos < self.bytes.len() {
            Some(self.bytes[self.pos])
        } else {
            None
        }
    }

    /// Consumes the next `n` bytes and returns them; fails, consuming nothing, when fewer remain.
    pub fn take(&mut self, n: usize) -> (r: Result<&'a [u8], DecodeError>)
        requires
            old(self).wf(),
        ensures
            final(self).wf(),
            final(self).data() == old(self).data(),
            old(self).position() + n <= old(self).data().len() ==> {
                &&& r matches Ok(s)
                &&& s@ == old(self).data().subrange(
                    old(self).position(),
                    old(self).position() + n,
                )
                &&& final(self).position() == old(self).position() + n
            },
            old(self).position() + n > old(self).data().len() ==> {
                &&& r == Err::<&'a [u8], DecodeError>(DecodeError::UnexpectedEndOfStream)
                &&& final(self).position() == old(self).position()
            },
    {
        if n > self.bytes.len() - self.pos {
            Err(DecodeError::UnexpectedEndOfStream)
        } else {
            let s = slice_subrange(self.bytes, self.pos, self.pos + n);
            self.pos = self.pos + n;
            Ok(s)
        }
    }

    /// Consumes one byte.
    pub fn next_byte(&mut self) -> (r: Result<u8, DecodeError>)
        requires
            old(self).wf(),
        ensures
            final(self).wf(),
            final(self).data() == old(self).data(),
            old(self).position() < old(self).data().len() ==> {
                &&& r == Ok::<u8, DecodeError>(old(self).data()[old(self).position()])
                &&& final(self).position() == old(self).position() + 1
            },
            old(self).position() >= old(self).data().len() ==> {
                &&& r == Err::<u8, DecodeError>(DecodeError::UnexpectedEndOfStream)
                &&& final(self).position() == old(self).position()
            },
    {
        let s = self.take(1)?;
        Ok(s[0])
    }

    /// Consumes two bytes and returns them as (low, high).
    pub fn next_pair(&mut self) -> (r: Result<(u8, u8), DecodeError>)
        requires
            old(self).wf(),
        ensures
            final(self).wf(),
            final(self).data() == old(self).data(),
            old(self).position() + 2 <= old(self).data().len() ==> {
                &&& r == Ok::<(u8, u8), DecodeError>(
                    (
                        old(self).data()[old(self).position()],
                        old(self).data()[old(self).position() + 1],
                    ),
                )
                &&& final(self).position() == old(self).position() + 2
            },
            old(self).position() + 2 > old(self).data().len() ==> {
                &&& r == Err::<(u8, u8), DecodeError>(DecodeError::UnexpectedEndOfStream)
                &&& final(self).position() == old(self).position()
            },
    {
        let s = self.take(2)?;
        Ok((s[0], s[1]))
    }
}

} // verus!
