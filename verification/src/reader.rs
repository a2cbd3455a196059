//! A forward-only byte cursor.

use vstd::prelude::*;

verus! {

/// A sequential source of bytes that can signal exhaustion. The decoder is
/// a strict forward-only consumer: it never seeks, peeks or rewinds.
#[derive(Debug)]
pub struct ByteReader {
    bytes: Vec<u8>,
    pos: usize,
}

impl ByteReader {
    /// The cursor never stands past the end of its bytes.
    pub closed spec fn wf(self) -> bool {
        self.pos <= self.bytes@.len()
    }

    /// The bytes not yet consumed, in the order they will be read.
    pub closed spec fn remaining(self) -> Seq<u8> {
        self.bytes@.skip(self.pos as int)
    }

    /// A cursor positioned at the start of `bytes`.
    pub fn new(bytes: Vec<u8>) -> (r: ByteReader)
        ensures
            r.wf(),
            r.remaining() == bytes@,
    {
        ByteReader { bytes, pos: 0 }
    }

    /// Reads the next byte, or signals exhaustion and stays put.
    pub fn next(&mut self) -> (r: Option<u8>)
        requires
            old(self).wf(),
        ensures
            final(self).wf(),
            old(self).remaining().len() == 0 ==> r is None && *final(self) == *old(self),
            old(self).remaining().len() > 0 ==> r == Some(old(self).remaining()[0])
                && final(self).remaining() == old(self).remaining().skip(1),
    {
        if self.pos < self.bytes.len() {
            let b = self.bytes[self.pos];
            self.pos = self.pos + 1;
            Some(b)
        } else {
            None
        }
    }
}

} // verus!
