//! The codec-engine boundary: the raw status codes the engine speaks, the
//! status taxonomy the orchestrator decides by, and a deterministic mock
//! engine that exhibits the status sequencing the pipeline must survive.
//! The real engine is an external collaborator reached from outside the
//! library; the orchestration logic itself is driven here by the mock.

use crate::bitstream::mfxBitstream;
use crate::pool::{Surface, SurfacePool};
use vstd::prelude::*;

verus! {

pub const MFX_ERR_NONE: i32 = 0;

pub const MFX_ERR_UNKNOWN: i32 = -1;

pub const MFX_ERR_NULL_PTR: i32 = -2;

pub const MFX_ERR_UNSUPPORTED: i32 = -3;

pub const MFX_ERR_NOT_ENOUGH_BUFFER: i32 = -5;

pub const MFX_ERR_NOT_FOUND: i32 = -9;

pub const MFX_ERR_MORE_DATA: i32 = -10;

pub const MFX_ERR_INVALID_VIDEO_PARAM: i32 = -15;

pub const MFX_ERR_UNDEFINED_BEHAVIOR: i32 = -16;

pub const MFX_WRN_INCOMPATIBLE_VIDEO_PARAM: i32 = 5;

/// The status taxonomy the orchestrator decides by.
#[derive(Clone, Copy, PartialEq, Eq, Structural, Debug)]
pub enum EngineStatus {
    /// The operation was accepted and completed (or will complete).
    Success,
    /// A positive, non-fatal warning: log and continue.
    Warning,
    /// Resource pressure: continue without waiting, the engine retries
    /// internally.
    NotEnoughBuffer,
    /// Flow control: the engine wants another input frame before producing
    /// output, or has no more buffered output to drain.
    MoreData,
    /// Any other condition; fatal to the pipeline.
    Fatal,
}

/// Maps a raw engine status code onto the taxonomy: zero is success, any
/// positive code is a warning, the two flow/pressure codes keep their
/// meaning, and every other negative code is fatal.
pub fn classify_status(code: i32) -> (r: EngineStatus)
    ensures
        r is Success <==> code == MFX_ERR_NONE,
        r is Warning <==> code > 0,
        r is NotEnoughBuffer <==> code == MFX_ERR_NOT_ENOUGH_BUFFER,
        r is MoreData <==> code == MFX_ERR_MORE_DATA,
        r is Fatal <==> (code < 0 && code != MFX_ERR_NOT_ENOUGH_BUFFER && code
            != MFX_ERR_MORE_DATA),
{
    if code == MFX_ERR_NONE {
        EngineStatus::Success
    } else if code > 0 {
        EngineStatus::Warning
    } else if code == MFX_ERR_NOT_ENOUGH_BUFFER {
        EngineStatus::NotEnoughBuffer
    } else if code == MFX_ERR_MORE_DATA {
        EngineStatus::MoreData
    } else {
        EngineStatus::Fatal
    }
}

/// Opaque handle for one pending asynchronous engine operation, returned by
/// a submission and consumed — moved, so exactly once — by the wait on its
/// completion. It is deliberately neither copyable nor clonable.
pub struct CompletionToken {
    /// The encode surface the pending operation holds, or none for a flush
    /// or a conversion.
    pub surf: Option<usize>,
}

/// A deterministic stand-in for the external codec engine.
///
/// It always accepts submissions, emits one fixed payload per completed
/// frame, and is configurable to the behaviors the pipeline must survive: an
/// engine that never clears the locked flag, a pre-processing stage that
/// buffers input frames before producing output, and an encoder holding
/// frames that only the end-of-stream drain flushes.
pub struct MockEngine {
    /// Bytes of the payload emitted for each completed frame.
    pub payload_len: u32,
    /// Value of every payload byte.
    pub payload_byte: u8,
    /// Whether waiting on a completion clears the surface's locked flag.
    pub unlocks_on_wait: bool,
    /// Frames buffered inside the encoder, flushed one per drain submission.
    pub drain_frames: u32,
    /// Input frames the pre-processing stage absorbs before it starts
    /// producing output.
    pub convert_buffering: u32,
}

impl MockEngine {
    /// Submits one asynchronous encode, obtaining the completion token to
    /// wait on. A real surface is locked by the engine until its completion
    /// is waited on. A null-surface submission asks the engine to flush; it
    /// succeeds while frames are buffered and reports "more data", with no
    /// token, once nothing is left.
    pub fn encode_async(
        &mut self,
        pool: &mut SurfacePool,
        surf: Option<usize>,
        bs: &mut mfxBitstream,
    ) -> (r: (EngineStatus, Option<CompletionToken>))
        requires
            old(pool).wf(),
            surf matches Some(i) ==> i < old(pool).count(),
        ensures
            *final(self) == *old(self),
            *final(bs) == *old(bs),
            final(pool).format == old(pool).format,
            final(pool).per_surface == old(pool).per_surface,
            final(pool).arena == old(pool).arena,
            final(pool).wf(),
            match surf {
                Some(i) => {
                    &&& r.0 == EngineStatus::Success
                    &&& r.1 == Some((CompletionToken { surf: Some(i) }))
                    &&& final(pool).surfaces@ == old(pool).surfaces@.update(
                        i as int,
                        (Surface {
                            offset: old(pool).surfaces@[i as int].offset,
                            len: old(pool).surfaces@[i as int].len,
                            locked: true,
                        }),
                    )
                },
                None => {
                    &&& *final(pool) == *old(pool)
                    &&& (if old(self).drain_frames > 0 {
                        r.0 == EngineStatus::Success && r.1 == Some(
                            (CompletionToken { surf: None }),
                        )
                    } else {
                        r.0 == EngineStatus::MoreData && r.1 is None
                    })
                },
            },
    {
        match surf {
            Some(i) => {
                pool.set_locked(i, true);
                (EngineStatus::Success, Some(CompletionToken { surf: Some(i) }))
            },
            None => {
                if self.drain_frames > 0 {
                    (EngineStatus::Success, Some(CompletionToken { surf: None }))
                } else {
                    (EngineStatus::MoreData, None)
                }
            },
        }
    }

    /// Waits, up to the given bound, on an encode completion token: the
    /// engine writes the completed payload into the bitstream buffer and, if
    /// it honors the unlock contract, clears the surface's locked flag.
    /// Waiting on a flush completion consumes one internally buffered frame.
    /// The token is consumed by the wait.
    pub fn sync_encode(
        &mut self,
        pool: &mut SurfacePool,
        token: CompletionToken,
        bs: &mut mfxBitstream,
        _timeout: u32,
    ) -> (st: EngineStatus)
        requires
            old(pool).wf(),
            token.surf matches Some(i) ==> i < old(pool).count(),
            old(bs).inv(),
            old(self).payload_len <= old(bs).MaxLength,
            token.surf is None ==> old(self).drain_frames > 0,
        ensures
            st == EngineStatus::Success,
            final(self).payload_len == old(self).payload_len,
            final(self).payload_byte == old(self).payload_byte,
            final(self).unlocks_on_wait == old(self).unlocks_on_wait,
            final(self).convert_buffering == old(self).convert_buffering,
            final(self).drain_frames == (if token.surf is None {
                (old(self).drain_frames - 1) as u32
            } else {
                old(self).drain_frames
            }),
            final(bs).inv(),
            final(bs).DataOffset == 0,
            final(bs).DataLength == old(self).payload_len,
            final(bs).MaxLength == old(bs).MaxLength,
            final(bs).Data@.len() == old(bs).Data@.len(),
            final(bs).window() == Seq::new(
                old(self).payload_len as nat,
                |i: int| old(self).payload_byte,
            ),
            final(pool).format == old(pool).format,
            final(pool).per_surface == old(pool).per_surface,
            final(pool).arena == old(pool).arena,
            final(pool).wf(),
            match token.surf {
                Some(i) => {
                    if old(self).unlocks_on_wait {
                        final(pool).surfaces@ == old(pool).surfaces@.update(
                            i as int,
                            (Surface {
                                offset: old(pool).surfaces@[i as int].offset,
                                len: old(pool).surfaces@[i as int].len,
                                locked: false,
                            }),
                        )
                    } else {
                        final(pool).surfaces@ == old(pool).surfaces@
                    }
                },
                None => final(pool).surfaces@ == old(pool).surfaces@,
            },
    {
        match token.surf {
            Some(i) => {
                if self.unlocks_on_wait {
                    pool.set_locked(i, false);
                }
            },
            None => {
                self.drain_frames = self.drain_frames - 1;
            },
        }
        bs.fill_payload(self.payload_len, self.payload_byte);
        EngineStatus::Success
    }

    /// Submits one asynchronous pre-processing conversion. While the stage
    /// is buffering it absorbs the input frame and asks for another before
    /// producing output — a flow-control signal, not an error, and there is
    /// no token to wait on; afterwards every submission succeeds and hands
    /// back its completion token.
    pub fn convert_async(&mut self) -> (r: (EngineStatus, Option<CompletionToken>))
        ensures
            final(self).payload_len == old(self).payload_len,
            final(self).payload_byte == old(self).payload_byte,
            final(self).unlocks_on_wait == old(self).unlocks_on_wait,
            final(self).drain_frames == old(self).drain_frames,
            old(self).convert_buffering > 0 ==> r.0 == EngineStatus::MoreData && r.1 is None
                && final(self).convert_buffering == old(self).convert_buffering - 1,
            old(self).convert_buffering == 0 ==> r.0 == EngineStatus::Success && r.1 == Some(
                (CompletionToken { surf: None }),
            ) && final(self).convert_buffering == 0,
    {
        if self.convert_buffering > 0 {
            self.convert_buffering = self.convert_buffering - 1;
            (EngineStatus::MoreData, None)
        } else {
            (EngineStatus::Success, Some(CompletionToken { surf: None }))
        }
    }

    /// Waits, up to the given bound, on a conversion completion token,
    /// consuming it; the deterministic conversion completes immediately.
    pub fn sync_convert(&mut self, _token: CompletionToken, _timeout: u32) -> (st: EngineStatus)
        ensures
            st == EngineStatus::Success,
            *final(self) == *old(self),
    {
        EngineStatus::Success
    }

    /// Closes the active streams at teardown.
    pub fn close(&mut self) -> (st: EngineStatus)
        ensures
            st == EngineStatus::Success,
            *final(self) == *old(self),
    {
        EngineStatus::Success
    }
}

} // verus!
