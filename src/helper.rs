use vstd::prelude::*;
use vstd::slice::SliceIndexSpec;
use core::slice::SliceIndex;

use crate::error::{Eoi, Error};

verus! {

/// Whether `e` is a value that `E::eoi` returns.
pub open spec fn is_eoi<E: Eoi>(e: E) -> bool {
    call_ensures(E::eoi, (), e)
}

/// Whether `r` is the unexpected end of the input, noted at position `pos`.
pub open spec fn eoi_at<T, E: Eoi>(r: Result<T, Error<E>>, pos: int) -> bool {
    r matches Err(err) && err.position == pos && is_eoi(err.e)
}

/// Whether `bytes` begins with `prefix`.
pub open spec fn starts_with(bytes: Seq<u8>, prefix: Seq<u8>) -> bool {
    prefix.len() <= bytes.len() && bytes.subrange(0, prefix.len() as int) == prefix
}

/// Wraps a slice of input bytes to advance through it, track the position, signal
/// parse errors and look ahead.
pub struct ParserHelper<'a> {
    input: &'a [u8],
    position: usize,
}

impl<'a> ParserHelper<'a> {
    /// The input, as a slice.
    pub closed spec fn input(&self) -> &'a [u8] {
        self.input
    }

    /// The input bytes.
    pub open spec fn buffer(&self) -> Seq<u8> {
        self.input()@
    }

    /// The current read offset; it may lie past the end of the input.
    pub closed spec fn pos(&self) -> int {
        self.position as int
    }

    /// The bytes from the current offset to the end of the input.
    pub open spec fn remaining(&self) -> Seq<u8> {
        self.buffer().subrange(self.pos(), self.buffer().len() as int)
    }

    /// Whether the cursor has no byte left to read.
    pub open spec fn at_end(&self) -> bool {
        self.pos() >= self.buffer().len()
    }

    /// The same cursor moved to another offset.
    pub open spec fn moved_to(&self, after: &Self, pos: int) -> bool {
        after.buffer() == self.buffer() && after.pos() == pos
    }

    /// Parses from a slice of bytes.
    pub fn new(input: &'a [u8]) -> (r: Self)
        ensures
            r.buffer() == input@,
            r.input() == input,
            r.pos() == 0,
    {
        ParserHelper { input, position: 0 }
    }

    /// Returns the total length of the input.
    pub fn len(&self) -> (r: usize)
        ensures
            r == self.buffer().len(),
    {
        self.input.len()
    }

    /// Obtains a slice into the original input, whatever the current position: what
    /// indexing the input with `i` gives (for `a..b` the bytes from `a` up to `b`, for an
    /// offset the byte there). The index must lie within the input.
    pub fn slice<I: SliceIndex<[u8]>>(&self, i: I) -> (r: &'a I::Output)
        requires
            i.index_req(self.input()),
        ensures
            call_ensures(<I as SliceIndex<[u8]>>::index, (i, self.input()), r),
    {
        &self.input[i]
    }

    /// The part of the input that is yet to be parsed. The position must not lie past
    /// the end of the input.
    pub fn rest(&self) -> (r: &'a [u8])
        requires
            self.pos() <= self.buffer().len(),
        ensures
            r@ == self.remaining(),
    {
        self.slice(self.position()..self.len())
    }

    /// The current byte offset into the input.
    pub fn position(&self) -> (r: usize)
        ensures
            r == self.pos(),
    {
        self.position
    }

    /// Produces an error at the current position.
    pub fn fail<T, E>(&self, reason: E) -> (r: Result<T, Error<E>>)
        ensures
            r == Err::<T, Error<E>>(Error { position: self.pos() as usize, e: reason }),
    {
        self.fail_at_position(reason, self.position())
    }

    /// Produces an error at the given position.
    pub fn fail_at_position<T, E>(&self, reason: E, position: usize) -> (r: Result<T, Error<E>>)
        ensures
            r == Err::<T, Error<E>>(Error { position, e: reason }),
    {
        Err(Error::new(position, reason))
    }

    /// Produces an error that notes the unexpected end of the input at the current position.
    pub fn unexpected_end_of_input<T, E: Eoi>(&self) -> (r: Result<T, Error<E>>)
        ensures
            eoi_at(r, self.pos()),
    {
        self.fail(E::eoi())
    }

    /// Advances the position by some number of bytes, also past the end of the input.
    pub fn advance(&mut self, offset: usize)
        requires
            old(self).pos() + offset <= usize::MAX,
        ensures
            old(self).moved_to(final(self), old(self).pos() + offset),
    {
        self.position += offset;
    }

    /// Advances over the given bytes if the rest of the input starts with them; returns
    /// whether it did advance.
    pub fn advance_over(&mut self, expected: &[u8]) -> (r: bool)
        requires
            old(self).pos() <= old(self).buffer().len(),
        ensures
            r == starts_with(old(self).remaining(), expected@),
            r ==> old(self).moved_to(final(self), old(self).pos() + expected@.len() as int),
            !r ==> *final(self) == *old(self),
    {
        if expected.len() <= self.len() - self.position && bytes_start_with(self.rest(), expected) {
            self.advance(expected.len());
            return true;
        } else {
            return false;
        }
    }

    /// Advances the position by some number of bytes and fails with the given error,
    /// tagged with the position before the advance, if that leaves the position past
    /// the end of the input. The position is not moved back on failure.
    pub fn advance_or<E>(&mut self, offset: usize, e: E) -> (r: Result<(), Error<E>>)
        requires
            old(self).pos() + offset <= usize::MAX,
        ensures
            old(self).moved_to(final(self), old(self).pos() + offset),
            r == if old(self).pos() + offset > old(self).buffer().len() {
                Err(Error { position: old(self).pos() as usize, e })
            } else {
                Ok(())
            },
    {
        let start = self.position;
        self.position += offset;
        if self.len() < self.position {
            return self.fail_at_position(e, start);
        } else {
            return Ok(());
        }
    }

    /// Consumes the next byte and returns it; signals the unexpected end of the input
    /// if no byte is left.
    pub fn next<E: Eoi>(&mut self) -> (r: Result<u8, Error<E>>)
        ensures
            !old(self).at_end() ==> r == Ok::<u8, Error<E>>(old(self).buffer()[old(self).pos() as int])
                && old(self).moved_to(final(self), old(self).pos() + 1),
            old(self).at_end() ==> *final(self) == *old(self) && eoi_at(r, old(self).pos()),
    {
        if self.position < self.input.len() {
            let c = self.input[self.position];
            self.advance(1);
            Ok(c)
        } else {
            self.unexpected_end_of_input()
        }
    }

    /// Consumes the next byte and returns it, or returns `None` at the end of the input.
    pub fn next_or_end(&mut self) -> (r: Option<u8>)
        ensures
            !old(self).at_end() ==> r == Some(old(self).buffer()[old(self).pos() as int])
                && old(self).moved_to(final(self), old(self).pos() + 1),
            old(self).at_end() ==> r is None && *final(self) == *old(self),
    {
        if self.position < self.input.len() {
            let c = self.input[self.position];
            self.advance(1);
            Some(c)
        } else {
            None
        }
    }

    /// Consumes the next byte and fails with `err` if it is not `expected`. The byte is
    /// consumed in either case; the error is tagged with the position it was read at.
    pub fn expect<E: Eoi>(&mut self, expected: u8, err: E) -> (r: Result<(), Error<E>>)
        ensures
            !old(self).at_end() ==> old(self).moved_to(final(self), old(self).pos() + 1) && r == if old(
                self,
            ).buffer()[old(self).pos() as int] == expected {
                Ok(())
            } else {
                Err(Error { position: old(self).pos() as usize, e: err })
            },
            old(self).at_end() ==> *final(self) == *old(self) && eoi_at(r, old(self).pos()),
    {
        let pos = self.position();
        match self.next() {
            Ok(c) => if c == expected {
                Ok(())
            } else {
                self.fail_at_position(err, pos)
            },
            Err(x) => Err(x),
        }
    }

    /// Consumes the expected bytes if the rest of the input starts with them; otherwise
    /// fails with `err` at the current position and consumes nothing.
    pub fn expect_bytes<E>(&mut self, exp: &[u8], err: E) -> (r: Result<(), Error<E>>)
        requires
            old(self).pos() <= old(self).buffer().len(),
        ensures
            starts_with(old(self).remaining(), exp@) ==> r is Ok && old(self).moved_to(
                final(self),
                old(self).pos() + exp@.len() as int,
            ),
            !starts_with(old(self).remaining(), exp@) ==> *final(self) == *old(self) && r == Err::<
                (),
                Error<E>,
            >(Error { position: old(self).pos() as usize, e: err }),
    {
        if self.advance_over(exp) {
            Ok(())
        } else {
            self.fail(err)
        }
    }

    /// Consumes the next byte and fails with `err` if `pred` does not hold of it. The
    /// byte is consumed in either case; the error is tagged with the position it was
    /// read at.
    pub fn expect_pred<E: Eoi, F: Fn(u8) -> bool>(&mut self, pred: F, err: E) -> (r: Result<(), Error<E>>)
        requires
            forall|b: u8| pred.requires((b,)),
        ensures
            !old(self).at_end() ==> old(self).moved_to(final(self), old(self).pos() + 1) && (r is Ok
                || r == Err::<(), Error<E>>(Error { position: old(self).pos() as usize, e: err }))
                && (r is Ok ==> pred.ensures((old(self).buffer()[old(self).pos() as int],), true))
                && (r is Err ==> pred.ensures((old(self).buffer()[old(self).pos() as int],), false)),
            old(self).at_end() ==> *final(self) == *old(self) && eoi_at(r, old(self).pos()),
    {
        let pos = self.position();
        match self.next() {
            Ok(c) => if pred(c) {
                Ok(())
            } else {
                self.fail_at_position(err, pos)
            },
            Err(x) => Err(x),
        }
    }

    /// Returns the next byte without consuming it; signals the unexpected end of the
    /// input if no byte is left.
    pub fn peek<E: Eoi>(&self) -> (r: Result<u8, Error<E>>)
        ensures
            !self.at_end() ==> r == Ok::<u8, Error<E>>(self.buffer()[self.pos() as int]),
            self.at_end() ==> eoi_at(r, self.pos()),
    {
        if self.position < self.input.len() {
            Ok(self.input[self.position])
        } else {
            self.unexpected_end_of_input()
        }
    }

    /// Returns the next byte without consuming it, or `None` at the end of the input.
    pub fn peek_or_end(&self) -> (r: Option<u8>)
        ensures
            !self.at_end() ==> r == Some(self.buffer()[self.pos() as int]),
            self.at_end() ==> r is None,
    {
        if self.position < self.input.len() {
            Some(self.input[self.position])
        } else {
            None
        }
    }

    /// Skips bytes while `pred` holds of them; stops at the first byte of which it does
    /// not, or at the end of the input.
    pub fn skip<F: Fn(u8) -> bool>(&mut self, pred: F)
        requires
            forall|b: u8| pred.requires((b,)),
        ensures
            skipped(*old(self), *final(self), &pred),
    {
        loop
            invariant
                forall|b: u8| pred.requires((b,)),
                self.buffer() == old(self).buffer(),
                old(self).pos() <= self.pos(),
                forall|i: int|
                    old(self).pos() <= i < self.pos() ==> pred.ensures((self.buffer()[i],), true),
                self.pos() > old(self).pos() ==> self.pos() <= self.buffer().len(),
            decreases self.buffer().len() - self.pos(),
        {
            match self.peek_or_end() {
                None => return,
                Some(peeked) => {
                    if pred(peeked) {
                        // the input's length is a `usize`, so the position stays below the bound
                        assert(self.input.len() == self.buffer().len());
                        self.advance(1);
                    } else {
                        return;
                    }
                },
            }
        }
    }
}

/// Whether `after` is what skipping from `before` while `pred` holds leads to: every
/// byte passed over satisfied `pred`, and the cursor stopped at the end of the input or
/// at a byte that did not.
pub open spec fn skipped<F: Fn(u8) -> bool>(before: ParserHelper, after: ParserHelper, pred: &F) -> bool {
    &&& after.buffer() == before.buffer()
    &&& before.pos() <= after.pos()
    &&& after.pos() > before.pos() ==> after.pos() <= after.buffer().len()
    &&& forall|i: int| before.pos() <= i < after.pos() ==> pred.ensures((after.buffer()[i],), true)
    &&& after.at_end() || pred.ensures((after.buffer()[after.pos() as int],), false)
}

/// Whether `bytes` begins with `prefix`.
fn bytes_start_with(bytes: &[u8], prefix: &[u8]) -> (r: bool)
    ensures
        r == starts_with(bytes@, prefix@),
{
    if prefix.len() > bytes.len() {
        return false;
    }
    let mut i: usize = 0;
    while i < prefix.len()
        invariant
            prefix@.len() <= bytes@.len(),
            i <= prefix@.len(),
            forall|j: int| 0 <= j < i ==> bytes@[j] == prefix@[j],
        decreases prefix@.len() - i,
    {
        if bytes[i] != prefix[i] {
            assert(bytes@.subrange(0, prefix@.len() as int)[i as int] != prefix@[i as int]);
            return false;
        }
        i += 1;
    }
    assert(bytes@.subrange(0, prefix@.len() as int) =~= prefix@);
    true
}

} // verus!
