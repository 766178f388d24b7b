//! The private input stream between host and guest.
//!
//! The stream is a length-free sequence of little-endian 32-bit words. The
//! host appends words; the guest consumes them in the order in which they
//! were written.

use crate::base256::{lemma_digits_give_value, spec_digit, spec_from_digits};
use vstd::prelude::*;

verus! {

/// Bytes in one word of the stream.
pub const INPUT_WORD_LEN: usize = 4;

/// The stream held fewer than four unread bytes when a word was asked for.
#[derive(Clone, Copy, Debug, PartialEq, Eq, Structural)]
pub struct InputUnderflow;

/// The four bytes of `value`, least significant first.
pub open spec fn spec_le_bytes(value: u32) -> Seq<u8> {
    seq![spec_digit(value, 0), spec_digit(value, 1), spec_digit(value, 2), spec_digit(value, 3)]
}

/// The number whose little-endian bytes are `b0 b1 b2 b3`.
pub open spec fn spec_from_le_bytes(b0: u8, b1: u8, b2: u8, b3: u8) -> u32 {
    spec_from_digits(b0, b1, b2, b3) as u32
}

/// What reading one word from the unread bytes gives: the word and the bytes
/// that stay unread, or an underflow when fewer than four bytes are left.
pub open spec fn spec_read_u32(unread: Seq<u8>) -> Result<(u32, Seq<u8>), InputUnderflow> {
    if unread.len() < 4 {
        Err(InputUnderflow)
    } else {
        Ok((spec_from_le_bytes(unread[0], unread[1], unread[2], unread[3]), unread.skip(4)))
    }
}

/// A word that was written at the front of the stream is the word that is
/// read, and reading it leaves exactly what was written after it.
pub proof fn lemma_read_after_write(value: u32, rest: Seq<u8>)
    ensures
        spec_read_u32(spec_le_bytes(value) + rest) == Ok::<(u32, Seq<u8>), InputUnderflow>(
            (value, rest),
        ),
{
    let unread = spec_le_bytes(value) + rest;
    lemma_digits_give_value(value);
    assert(unread.skip(4) =~= rest);
}

/// A buffer of input words with a read position.
pub struct InputStream {
    bytes: Vec<u8>,
    cursor: usize,
}

impl View for InputStream {
    type V = Seq<u8>;

    /// The bytes that have been written and not yet read.
    closed spec fn view(&self) -> Seq<u8> {
        self.bytes@.skip(self.cursor as int)
    }
}

impl InputStream {
    /// The read position lies inside what has been written. Every stream
    /// that this module hands out is well formed.
    pub closed spec fn wf(&self) -> bool {
        self.cursor <= self.bytes@.len()
    }

    /// A stream in which nothing has been written.
    pub fn new() -> (stream: InputStream)
        ensures
            stream.wf(),
            stream@ == Seq::<u8>::empty(),
    {
        let stream = InputStream { bytes: Vec::new(), cursor: 0 };
        stream
    }

    /// A stream whose unread bytes are `bytes`.
    pub fn from_bytes(bytes: Vec<u8>) -> (stream: InputStream)
        ensures
            stream.wf(),
            stream@ == bytes@,
    {
        let stream = InputStream { bytes, cursor: 0 };
        stream
    }

    /// A stream that holds the single word `value`, as the host prepares it
    /// for the guest.
    pub fn with_word(value: u32) -> (stream: InputStream)
        ensures
            stream.wf(),
            stream@ == spec_le_bytes(value),
    {
        let mut stream = InputStream::new();
        stream.write_u32(value);
        stream
    }

    /// The number of unread bytes.
    pub fn remaining(&self) -> (count: usize)
        requires
            self.wf(),
        ensures
            count == self@.len(),
    {
        self.bytes.len() - self.cursor
    }

    /// A copy of the unread bytes, in stream order.
    pub fn unread_bytes(&self) -> (copy: Vec<u8>)
        requires
            self.wf(),
        ensures
            copy@ == self@,
    {
        let mut copy: Vec<u8> = Vec::new();
        let mut i: usize = self.cursor;
        while i < self.bytes.len()
            invariant
                self.cursor <= i <= self.bytes@.len(),
                copy@ == self.bytes@.subrange(self.cursor as int, i as int),
            decreases self.bytes@.len() - i,
        {
            copy.push(self.bytes[i]);
            i = i + 1;
        }
        copy
    }

    /// Appends `value` as one little-endian word behind what is unread.
    pub fn write_u32(&mut self, value: u32)
        requires
            old(self).wf(),
        ensures
            final(self).wf(),
            final(self)@ == old(self)@ + spec_le_bytes(value),
    {
        self.bytes.push((value % 0x100) as u8);
        self.bytes.push((value / 0x100 % 0x100) as u8);
        self.bytes.push((value / 0x1_0000 % 0x100) as u8);
        self.bytes.push((value / 0x100_0000) as u8);
    }

    /// Consumes one word. With fewer than four unread bytes nothing is
    /// consumed and the read fails.
    pub fn read_u32(&mut self) -> (word: Result<u32, InputUnderflow>)
        requires
            old(self).wf(),
        ensures
            final(self).wf(),
            match spec_read_u32(old(self)@) {
                Ok((value, rest)) => word == Ok::<u32, InputUnderflow>(value) && final(self)@
                    == rest,
                Err(underflow) => word == Err::<u32, InputUnderflow>(underflow) && final(self)@
                    == old(self)@,
            },
            word is Err <==> old(self)@.len() < 4,
    {
        if self.bytes.len() - self.cursor < INPUT_WORD_LEN {
            return Err(InputUnderflow);
        }
        let at = self.cursor;
        let b0 = self.bytes[at] as u32;
        let b1 = self.bytes[at + 1] as u32;
        let b2 = self.bytes[at + 2] as u32;
        let b3 = self.bytes[at + 3] as u32;
        self.cursor = at + INPUT_WORD_LEN;
        Ok(b0 + b1 * 0x100 + b2 * 0x1_0000 + b3 * 0x100_0000)
    }
}

} // verus!
