//! The raw input byte stream: a headerless concatenation of raw planar
//! frames, consumed strictly left to right through a cursor.

use vstd::prelude::*;

verus! {

/// An in-memory byte source with a read cursor. The loader consumes frames
/// from it; a frame that does not fit in what remains signals end of input.
pub struct InputStream {
    pub data: Vec<u8>,
    pub pos: usize,
}

impl InputStream {
    /// The cursor never passes the end of the data.
    pub open spec fn wf(self) -> bool {
        self.pos <= self.data@.len()
    }

    /// Bytes not yet consumed.
    pub open spec fn remaining(self) -> int {
        self.data@.len() - self.pos
    }

    /// Wraps a byte buffer as a stream positioned at its start.
    pub fn new(data: Vec<u8>) -> (s: Self)
        ensures
            s.wf(),
            s.data@ == data@,
            s.pos == 0,
    {
        InputStream { data, pos: 0 }
    }

    /// Number of bytes not yet consumed.
    pub fn remaining_len(&self) -> (r: usize)
        requires
            self.wf(),
        ensures
            r == self.remaining(),
    {
        self.data.len() - self.pos
    }
}

} // verus!
