//! The single reusable bitstream buffer the engine fills, and the sink that
//! appends each completed payload to the output stream. The design is
//! strictly serialize-produce / serialize-consume: one payload is pending at
//! a time, and a successful drain resets the window so the buffer can take
//! the next completion.

use crate::error::PipelineError;
use vstd::prelude::*;

verus! {

/// The engine's output buffer: one allocation of `MaxLength` bytes plus the
/// logical `(DataOffset, DataLength)` window describing the currently valid
/// payload.
pub struct mfxBitstream {
    pub reserved: [u32; 6],
    pub DecodeTimeStamp: i64,
    pub TimeStamp: u64,
    pub Data: Vec<u8>,
    pub DataOffset: u32,
    pub DataLength: u32,
    pub MaxLength: u32,
    pub PicStruct: u16,
    pub FrameType: u16,
    pub DataFlag: u16,
    pub reserved2: u16,
}

impl mfxBitstream {
    /// The window lies inside the buffer and the allocation matches the
    /// declared maximum.
    pub open spec fn inv(self) -> bool {
        &&& self.DataOffset + self.DataLength <= self.Data@.len()
        &&& self.Data@.len() == self.MaxLength
    }

    /// The currently valid payload bytes.
    pub open spec fn window(self) -> Seq<u8> {
        self.Data@.subrange(self.DataOffset as int, self.DataOffset + self.DataLength)
    }

    /// An empty buffer with no allocation and an empty window.
    pub fn new() -> (r: Self)
        ensures
            r.inv(),
            r.DataOffset == 0,
            r.DataLength == 0,
            r.MaxLength == 0,
            r.TimeStamp == 0,
            r.DecodeTimeStamp == 0,
            r.PicStruct == 0,
            r.FrameType == 0,
            r.DataFlag == 0,
            r.window() == Seq::<u8>::empty(),
    {
        let r = mfxBitstream {
            reserved: [0; 6],
            DecodeTimeStamp: 0,
            TimeStamp: 0,
            Data: Vec::new(),
            DataOffset: 0,
            DataLength: 0,
            MaxLength: 0,
            PicStruct: 0,
            FrameType: 0,
            DataFlag: 0,
            reserved2: 0,
        };
        proof {
            assert(r.window() =~= Seq::<u8>::empty());
        }
        r
    }

    /// Allocates the reusable buffer at the engine-reported maximum payload
    /// size, with an empty window.
    pub fn with_capacity(max_length: u32) -> (r: Self)
        ensures
            r.inv(),
            r.MaxLength == max_length,
            r.DataOffset == 0,
            r.DataLength == 0,
            r.window() == Seq::<u8>::empty(),
    {
        let mut data: Vec<u8> = Vec::new();
        let total = max_length as usize;
        let mut j: usize = 0;
        while j < total
            invariant
                j <= total,
                data@.len() == j,
            decreases total - j,
        {
            data.push(0);
            j = j + 1;
        }
        let r = mfxBitstream {
            reserved: [0; 6],
            DecodeTimeStamp: 0,
            TimeStamp: 0,
            Data: data,
            DataOffset: 0,
            DataLength: 0,
            MaxLength: max_length,
            PicStruct: 0,
            FrameType: 0,
            DataFlag: 0,
            reserved2: 0,
        };
        proof {
            assert(r.window() =~= Seq::<u8>::empty());
        }
        r
    }

    /// Records a completed payload: `len` bytes of value `fill` at the start
    /// of the buffer. This stands in for the engine writing encoded bytes.
    pub fn fill_payload(&mut self, len: u32, fill: u8)
        requires
            old(self).inv(),
            len <= old(self).MaxLength,
        ensures
            final(self).inv(),
            final(self).Data@.len() == old(self).Data@.len(),
            final(self).MaxLength == old(self).MaxLength,
            final(self).DataOffset == 0,
            final(self).DataLength == len,
            final(self).window() == Seq::new(len as nat, |i: int| fill),
    {
        let total = len as usize;
        let ghost data0 = self.Data@;
        let mut j: usize = 0;
        while j < total
            invariant
                j <= total,
                total <= self.Data@.len(),
                self.Data@.len() == data0.len(),
                self.MaxLength == old(self).MaxLength,
                self.DataOffset == old(self).DataOffset,
                self.DataLength == old(self).DataLength,
                data0.len() == old(self).Data@.len(),
                forall|k: int| 0 <= k < j ==> self.Data@[k] == fill,
            decreases total - j,
        {
            self.Data.set(j, fill);
            j = j + 1;
        }
        self.DataOffset = 0;
        self.DataLength = len;
        proof {
            assert(self.window() =~= Seq::new(len as nat, |i: int| fill));
        }
    }
}

/// Appends completed payloads to the output stream it owns.
pub struct BitstreamSink {
    pub out: Vec<u8>,
}

impl BitstreamSink {
    /// A sink with an empty output stream.
    pub fn new() -> (r: Self)
        ensures
            r.out@ == Seq::<u8>::empty(),
    {
        let r = BitstreamSink { out: Vec::new() };
        proof {
            assert(r.out@ =~= Seq::<u8>::empty());
        }
        r
    }

    /// Writes exactly the buffer's valid window — `DataLength` bytes starting
    /// at `DataOffset` — to the output stream, then resets the length so the
    /// buffer can take the next completion. Draining an empty window appends
    /// nothing: a second drain without a new completion is a no-op, not an
    /// error.
    pub fn drain(&mut self, bs: &mut mfxBitstream)
        requires
            old(bs).inv(),
        ensures
            final(bs).inv(),
            final(self).out@ == old(self).out@ + old(bs).window(),
            final(bs).DataLength == 0,
            final(bs).DataOffset == old(bs).DataOffset,
            final(bs).Data@ == old(bs).Data@,
            final(bs).MaxLength == old(bs).MaxLength,
            final(bs).window() == Seq::<u8>::empty(),
    {
        let off = bs.DataOffset as usize;
        let len = bs.DataLength as usize;
        let dlen = bs.Data.len();
        let ghost out0 = self.out@;
        let mut j: usize = 0;
        while j < len
            invariant
                j <= len,
                dlen == bs.Data@.len(),
                off + len <= bs.Data@.len(),
                self.out@.len() == out0.len() + j,
                forall|k: int| 0 <= k < out0.len() ==> self.out@[k] == out0[k],
                forall|k: int|
                    out0.len() <= k < out0.len() + j ==> self.out@[k] == bs.Data@[off + (k
                        - out0.len())],
            decreases len - j,
        {
            let b = bs.Data[off + j];
            self.out.push(b);
            j = j + 1;
        }
        bs.DataLength = 0;
        proof {
            assert(self.out@ =~= out0 + old(bs).window());
            assert(bs.window() =~= Seq::<u8>::empty());
        }
    }
}

/// A successful drain leaves the buffer's logical length at zero, so a
/// second drain without a new completion appends nothing to the output
/// stream: it is a no-op, not an error.
pub proof fn lemma_second_drain_is_no_op(bs: mfxBitstream, out: Seq<u8>)
    requires
        bs.inv(),
        bs.DataLength == 0,
    ensures
        out + bs.window() == out,
{
    assert(out + bs.window() =~= out);
}

/// Classifies the outcome of handing one drained payload to a real output
/// stream: a write that accepted fewer bytes than the payload holds is the
/// fatal short-write condition.
pub fn check_write(requested: usize, written: usize) -> (r: Result<(), PipelineError>)
    ensures
        r is Ok <==> written >= requested,
        r is Err ==> r == Err::<(), PipelineError>(PipelineError::OutputWriteFailure),
{
    if written < requested {
        Err(PipelineError::OutputWriteFailure)
    } else {
        Ok(())
    }
}

} // verus!
