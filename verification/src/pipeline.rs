//! The pipeline orchestrator: the state machine that drives frame loading,
//! surface selection, the engine's asynchronous submit/wait calls and the
//! bitstream sink, in the encode-only and the pre-process-then-encode
//! topologies, with the two-phase end-of-stream drain protocol.
//!
//! The orchestrator issues one asynchronous submission at a time and blocks
//! on its completion before the next — no pipelining — and observes, never
//! mutates, the locked flags the engine owns.

use crate::bitstream::{mfxBitstream, BitstreamSink};
use crate::engine::{EngineStatus, MockEngine};
use crate::error::PipelineError;
use crate::loader::load_frame;
use crate::pool::{vpp_to_enc_surface, Surface, SurfacePool};
use crate::stream::InputStream;
use vstd::prelude::*;

verus! {

/// Lifecycle of one pipeline run. `Running` loads and submits frames until
/// the input is exhausted; `Draining` flushes the engine's buffered frames;
/// `Done` and `Failed` are terminal.
#[derive(Clone, Copy, PartialEq, Eq, Structural, Debug)]
pub enum PipelineState {
    Running,
    Draining,
    Done,
    Failed,
}

/// What one pipeline run did: its terminal state, its frame counters and the
/// fatal error if it failed.
#[derive(Clone, Copy, Debug)]
pub struct PipelineReport {
    /// Terminal state: `Done` or `Failed`.
    pub state: PipelineState,
    /// Frames read whole from the input stream.
    pub frames_loaded: u32,
    /// Frames submitted, completed and drained while running.
    pub frames_encoded: u32,
    /// Payloads flushed out of the engine by the end-of-stream drain.
    pub frames_drained: u32,
    /// The fatal condition, when the run failed.
    pub error: Option<PipelineError>,
}

/// The bound, in engine time units, the orchestrator waits on one completion.
pub const SYNC_TIMEOUT: u32 = 6000;

/// Runs the encode-only topology to completion.
///
/// While running, each iteration acquires a free surface (fatally, if the
/// pool is exhausted), loads one raw frame into it (end of input starts the
/// drain), submits it for encoding, waits on the completion and drains the
/// payload to the sink. Draining repeatedly submits a null surface until the
/// engine reports no more data, then the run is done. The report pins the
/// run down: the output stream grows by exactly one payload per counted
/// frame, in order; with an engine that honors the unlock contract every
/// whole input frame is encoded and the run ends in `Done`; with one that
/// never clears a locked flag the pool's size caps the run, which then fails
/// with `PoolExhausted` exactly when more whole frames remain than the pool
/// has surfaces.
pub fn run_encode_pipeline(
    engine: &mut MockEngine,
    pool: &mut SurfacePool,
    bs: &mut mfxBitstream,
    sink: &mut BitstreamSink,
    input: &mut InputStream,
) -> (report: PipelineReport)
    requires
        old(pool).wf(),
        1 <= old(pool).count(),
        forall|i: int| 0 <= i < old(pool).count() ==> !old(pool).locked_at(i),
        old(pool).format.chroma is Yuv420Planar ==> old(pool).format.is_direct(),
        old(input).wf(),
        old(input).remaining() <= u32::MAX,
        old(bs).inv(),
        old(bs).DataLength == 0,
        old(engine).payload_len <= old(bs).MaxLength,
    ensures
        final(pool).wf(),
        final(pool).format == old(pool).format,
        final(pool).count() == old(pool).count(),
        final(input).data@ == old(input).data@,
        final(input).wf(),
        final(bs).inv(),
        final(bs).DataLength == 0,
        final(sink).out@ == old(sink).out@ + Seq::new(
            (((report.frames_encoded + report.frames_drained) as int) * old(
                engine,
            ).payload_len) as nat,
            |i: int| old(engine).payload_byte,
        ),
        report.frames_loaded == report.frames_encoded,
        report.state is Done || report.state is Failed,
        report.error is None <==> report.state is Done,
        report.state is Done ==> {
            &&& report.frames_encoded == old(input).remaining() / old(pool).format.frame_bytes()
            &&& report.frames_drained == old(engine).drain_frames
            &&& final(input).pos == old(input).data@.len()
        },
        report.state is Failed ==> {
            &&& report.error == Some(PipelineError::PoolExhausted)
            &&& !old(engine).unlocks_on_wait
            &&& report.frames_encoded == old(pool).count()
            &&& report.frames_drained == 0
            &&& old(input).remaining() / old(pool).format.frame_bytes() >= old(pool).count()
        },
        old(engine).unlocks_on_wait ==> report.state is Done,
        !old(engine).unlocks_on_wait ==> (report.state is Done <==> old(input).remaining() / old(
            pool,
        ).format.frame_bytes() < old(pool).count()),
{
    let ghost fmt0 = old(pool).format;
    let ghost fb = fmt0.frame_bytes();
    let ghost p0 = old(input).pos as int;
    let ghost rem0 = old(input).remaining();
    let ghost n = rem0 / fb;
    let ghost k = old(pool).count();
    let ghost out0 = old(sink).out@;
    let ghost eng0 = *old(engine);
    proof {
        assert(0 < fmt0.crop_w * fmt0.crop_h) by (nonlinear_arith)
            requires
                0 < fmt0.crop_w,
                0 < fmt0.crop_h,
        ;
        assert(0 <= 2 * (fmt0.crop_w * fmt0.crop_h / 4));
    }
    proof {
        assert forall|i: int| 0 <= i < k implies !(#[trigger] pool.surfaces@[i]).locked by {
            assert(!pool.locked_at(i));
        }
    }
    let mut state = PipelineState::Running;
    let mut frames_loaded: u32 = 0;
    let mut frames_encoded: u32 = 0;
    let mut frames_drained: u32 = 0;
    let mut error: Option<PipelineError> = None;
    while state == PipelineState::Running
        invariant
            pool.wf(),
            pool.format == fmt0,
            pool.count() == k,
            1 <= k,
            fmt0.chroma is Yuv420Planar ==> fmt0.is_direct(),
            input.wf(),
            input.data@ == old(input).data@,
            bs.inv(),
            bs.DataLength == 0,
            bs.MaxLength == old(bs).MaxLength,
            *engine == eng0,
            eng0.payload_len <= bs.MaxLength,
            fb == fmt0.frame_bytes(),
            0 < fb,
            rem0 == old(input).data@.len() - p0,
            n == rem0 / fb,
            rem0 <= u32::MAX,
            frames_loaded == frames_encoded,
            frames_encoded * fb <= rem0,
            state is Running ==> input.pos == p0 + frames_encoded * fb,
            input.pos >= p0 + frames_encoded * fb,
            eng0.unlocks_on_wait ==> forall|i: int|
                0 <= i < k ==> !(#[trigger] pool.surfaces@[i]).locked,
            !eng0.unlocks_on_wait ==> forall|i: int|
                0 <= i < k ==> ((#[trigger] pool.surfaces@[i]).locked <==> i < frames_encoded),
            !eng0.unlocks_on_wait ==> frames_encoded <= k,
            sink.out@ == out0 + Seq::new(
                ((frames_encoded as int) * eng0.payload_len) as nat,
                |i: int| eng0.payload_byte,
            ),
            state is Running || state is Draining || state is Failed,
            state is Draining ==> frames_encoded == n && input.pos == input.data@.len() && (
            !eng0.unlocks_on_wait ==> n < k),
            state is Failed ==> error == Some(PipelineError::PoolExhausted)
                && !eng0.unlocks_on_wait && frames_encoded == k && n >= k,
            (state is Running || state is Draining) ==> error is None,
            frames_drained == 0,
        decreases
            input.data@.len() - input.pos,
            (if state is Running {
                1int
            } else {
                0int
            }),
    {
        let acq = pool.acquire_free();
        match acq {
            Err(e) => {
                state = PipelineState::Failed;
                error = Some(e);
                proof {
                    if eng0.unlocks_on_wait {
                        assert(pool.locked_at(0));
                        assert(false);
                    }
                    if frames_encoded < k {
                        assert(pool.locked_at(frames_encoded as int));
                        assert(false);
                    }
                    assert(frames_encoded == k);
                    assert(k <= rem0 / fb) by (nonlinear_arith)
                        requires
                            k * fb <= rem0,
                            0 < fb,
                            0 <= k,
                    ;
                }
            },
            Ok(idx) => {
                proof {
                    if !eng0.unlocks_on_wait {
                        assert(idx >= frames_encoded);
                        if idx > frames_encoded {
                            assert(pool.locked_at(frames_encoded as int));
                            assert(false);
                        }
                        assert(idx == frames_encoded);
                        assert(frames_encoded < k);
                    }
                }
                let load = load_frame(pool, idx, input);
                match load {
                    Err(_) => {
                        state = PipelineState::Draining;
                        proof {
                            assert(frames_encoded == rem0 / fb) by (nonlinear_arith)
                                requires
                                    frames_encoded * fb <= rem0,
                                    rem0 < frames_encoded * fb + fb,
                                    0 < fb,
                                    0 <= frames_encoded,
                            ;
                        }
                    },
                    Ok(_) => {
                        proof {
                            assert((frames_encoded + 1) * fb == frames_encoded * fb + fb)
                                by (nonlinear_arith);
                            assert(frames_encoded + 1 <= (frames_encoded + 1) * fb)
                                by (nonlinear_arith)
                                requires
                                    1 <= fb,
                                    0 <= frames_encoded,
                            ;
                        }
                        frames_loaded = frames_loaded + 1;
                        let ghost locked_pre = pool.surfaces@;
                        let (st, tok) = engine.encode_async(pool, Some(idx), bs);
                        let ghost locked_mid = pool.surfaces@;
                        match (st, tok) {
                            (EngineStatus::Success, Some(token)) => {
                                let st2 = engine.sync_encode(pool, token, bs, SYNC_TIMEOUT);
                                match st2 {
                                    EngineStatus::Success => {
                                        sink.drain(bs);
                                        frames_encoded = frames_encoded + 1;
                                        proof {
                                            assert((frames_encoded as int) * eng0.payload_len == (
                                            frames_encoded - 1) * eng0.payload_len
                                                + eng0.payload_len) by (nonlinear_arith);
                                            assert(sink.out@ =~= out0 + Seq::new(
                                                ((frames_encoded as int) * eng0.payload_len) as nat,
                                                |i: int| eng0.payload_byte,
                                            ));
                                            assert(locked_pre.len() == k);
                                            assert(locked_mid == locked_pre.update(
                                                idx as int,
                                                (Surface {
                                                    offset: locked_pre[idx as int].offset,
                                                    len: locked_pre[idx as int].len,
                                                    locked: true,
                                                }),
                                            ));
                                            if !eng0.unlocks_on_wait {
                                                assert(idx == frames_encoded - 1);
                                                assert(pool.surfaces@ == locked_mid);
                                                assert forall|i: int| 0 <= i < k implies ((
                                                #[trigger] pool.surfaces@[i]).locked <==> i
                                                    < frames_encoded) by {
                                                    if i != idx {
                                                        assert(locked_mid[i] == locked_pre[i]);
                                                        assert(pool.surfaces@[i]
                                                            == locked_pre[i]);
                                                        assert(locked_pre[i].locked == (i
                                                            < frames_encoded - 1));
                                                    }
                                                }
                                            } else {
                                                assert(pool.surfaces@ == locked_mid.update(
                                                    idx as int,
                                                    (Surface {
                                                        offset: locked_mid[idx as int].offset,
                                                        len: locked_mid[idx as int].len,
                                                        locked: false,
                                                    }),
                                                ));
                                                assert forall|i: int|
                                                    0 <= i < k implies !(
                                                #[trigger] pool.surfaces@[i]).locked by {
                                                    if i != idx {
                                                        assert(locked_mid[i] == locked_pre[i]);
                                                        assert(pool.surfaces@[i]
                                                            == locked_mid[i]);
                                                        assert(!locked_pre[i].locked);
                                                    }
                                                }
                                            }
                                        }
                                    },
                                    _ => {
                                        state = PipelineState::Failed;
                                        error = Some(PipelineError::EncodeFailure);
                                    },
                                }
                            },
                            (EngineStatus::Warning, _) => {},
                            (EngineStatus::NotEnoughBuffer, _) => {},
                            _ => {
                                state = PipelineState::Failed;
                                error = Some(PipelineError::EncodeFailure);
                            },
                        }
                    },
                }
            },
        }
    }
    while state == PipelineState::Draining
        invariant
            pool.wf(),
            pool.format == fmt0,
            pool.count() == k,
            input.wf(),
            input.data@ == old(input).data@,
            bs.inv(),
            bs.DataLength == 0,
            bs.MaxLength == old(bs).MaxLength,
            engine.payload_len == eng0.payload_len,
            engine.payload_byte == eng0.payload_byte,
            engine.unlocks_on_wait == eng0.unlocks_on_wait,
            eng0.payload_len <= bs.MaxLength,
            !(state is Running),
            frames_loaded == frames_encoded,
            frames_drained <= eng0.drain_frames,
            engine.drain_frames == eng0.drain_frames - frames_drained,
            sink.out@ == out0 + Seq::new(
                (((frames_encoded + frames_drained) as int) * eng0.payload_len) as nat,
                |i: int| eng0.payload_byte,
            ),
            (state is Draining || state is Done) ==> {
                &&& error is None
                &&& frames_encoded == n
                &&& input.pos == input.data@.len()
                &&& (!eng0.unlocks_on_wait ==> n < k)
            },
            state is Done ==> frames_drained == eng0.drain_frames,
            state is Failed ==> error == Some(PipelineError::PoolExhausted)
                && !eng0.unlocks_on_wait && frames_encoded == k && n >= k && frames_drained == 0,
        decreases
            engine.drain_frames,
            (if state is Draining {
                1int
            } else {
                0int
            }),
    {
        let (st, tok) = engine.encode_async(pool, None, bs);
        match (st, tok) {
            (EngineStatus::Success, Some(token)) => {
                let st2 = engine.sync_encode(pool, token, bs, SYNC_TIMEOUT);
                match st2 {
                    EngineStatus::Success => {
                        sink.drain(bs);
                        frames_drained = frames_drained + 1;
                        proof {
                            assert(((frames_encoded + frames_drained) as int) * eng0.payload_len
                                == ((frames_encoded + frames_drained - 1) as int)
                                * eng0.payload_len + eng0.payload_len) by (nonlinear_arith);
                            assert(sink.out@ =~= out0 + Seq::new(
                                (((frames_encoded + frames_drained) as int)
                                    * eng0.payload_len) as nat,
                                |i: int| eng0.payload_byte,
                            ));
                        }
                    },
                    _ => {
                        state = PipelineState::Failed;
                        error = Some(PipelineError::EncodeFailure);
                    },
                }
            },
            (EngineStatus::MoreData, _) => {
                state = PipelineState::Done;
            },
            _ => {
                state = PipelineState::Failed;
                error = Some(PipelineError::EncodeFailure);
            },
        }
    }
    engine.close();
    PipelineReport { state, frames_loaded, frames_encoded, frames_drained, error }
}

/// One submit/wait/drain sequence on an encode surface: submits the surface,
/// waits on the completion and drains the completed payload into the sink,
/// leaving the bitstream buffer empty for the next completion. This engine's
/// submissions always succeed, so no status dispatch is needed here; the
/// surface comes out locked exactly when the engine withholds the unlock.
fn submit_wait_drain(
    engine: &mut MockEngine,
    pool: &mut SurfacePool,
    idx: usize,
    bs: &mut mfxBitstream,
    sink: &mut BitstreamSink,
)
    requires
        old(pool).wf(),
        idx < old(pool).count(),
        old(bs).inv(),
        old(engine).payload_len <= old(bs).MaxLength,
    ensures
        *final(engine) == *old(engine),
        final(pool).wf(),
        final(pool).format == old(pool).format,
        final(pool).per_surface == old(pool).per_surface,
        final(pool).arena == old(pool).arena,
        final(pool).count() == old(pool).count(),
        final(bs).inv(),
        final(bs).DataLength == 0,
        final(bs).MaxLength == old(bs).MaxLength,
        final(sink).out@ == old(sink).out@ + Seq::new(
            old(engine).payload_len as nat,
            |i: int| old(engine).payload_byte,
        ),
        forall|i: int|
            0 <= i < old(pool).count() && i != idx ==> final(pool).surfaces@[i] == old(
                pool,
            ).surfaces@[i],
        final(pool).surfaces@[idx as int].offset == old(pool).surfaces@[idx as int].offset,
        final(pool).surfaces@[idx as int].len == old(pool).surfaces@[idx as int].len,
        final(pool).surfaces@[idx as int].locked == !old(engine).unlocks_on_wait,
{
    let ghost locked_pre = pool.surfaces@;
    let (_st, tok) = engine.encode_async(pool, Some(idx), bs);
    let ghost locked_mid = pool.surfaces@;
    match tok {
        Some(token) => {
            engine.sync_encode(pool, token, bs, SYNC_TIMEOUT);
            sink.drain(bs);
            proof {
                assert forall|i: int|
                    0 <= i < old(pool).count() && i != idx implies pool.surfaces@[i]
                    == locked_pre[i] by {
                    assert(locked_mid[i] == locked_pre[i]);
                }
            }
        },
        None => {},
    }
}

/// Runs the pre-process-then-encode topology to completion.
///
/// Per frame: acquire a pre-processing input surface and load a raw frame
/// into it; acquire a pre-processing output surface; submit the conversion.
/// While the engine is buffering input it asks for more data, and the loop
/// skips to the next frame without consuming an encode surface. Otherwise the
/// orchestrator waits on the conversion, acquires an encode surface, copies
/// the converted frame across stages — fatally, with `SizeMismatch`, when the
/// two surfaces' computed byte sizes differ — and then submits, waits and
/// drains exactly as the encode-only topology does.
///
/// This topology ends the run at end of input without a flush: frames the
/// encoder still buffers are not drained. Whether the dual-stage pipeline
/// should flush like the single-stage one is an open design question; the
/// run reports `frames_drained == 0` either way.
pub fn run_transcode_pipeline(
    engine: &mut MockEngine,
    vpp_in: &mut SurfacePool,
    vpp_out: &mut SurfacePool,
    enc: &mut SurfacePool,
    bs: &mut mfxBitstream,
    sink: &mut BitstreamSink,
    input: &mut InputStream,
) -> (report: PipelineReport)
    requires
        old(vpp_in).wf(),
        old(vpp_out).wf(),
        old(enc).wf(),
        1 <= old(vpp_in).count(),
        1 <= old(vpp_out).count(),
        1 <= old(enc).count(),
        forall|i: int| 0 <= i < old(vpp_in).count() ==> !old(vpp_in).locked_at(i),
        forall|i: int| 0 <= i < old(vpp_out).count() ==> !old(vpp_out).locked_at(i),
        forall|i: int| 0 <= i < old(enc).count() ==> !old(enc).locked_at(i),
        old(vpp_in).format.chroma is Yuv420Planar ==> old(vpp_in).format.is_direct(),
        old(vpp_out).format.is_yuv420(),
        old(enc).format.is_yuv420(),
        old(input).wf(),
        old(input).remaining() <= u32::MAX,
        old(bs).inv(),
        old(bs).DataLength == 0,
        old(engine).payload_len <= old(bs).MaxLength,
    ensures
        final(vpp_in).wf(),
        final(vpp_out).wf(),
        final(enc).wf(),
        final(enc).format == old(enc).format,
        final(enc).count() == old(enc).count(),
        final(input).data@ == old(input).data@,
        final(input).wf(),
        final(bs).inv(),
        final(bs).DataLength == 0,
        final(sink).out@ == old(sink).out@ + Seq::new(
            ((report.frames_encoded as int) * old(engine).payload_len) as nat,
            |i: int| old(engine).payload_byte,
        ),
        report.frames_drained == 0,
        report.state is Done || report.state is Failed,
        report.error is None <==> report.state is Done,
        ({
            let n = old(input).remaining() / old(vpp_in).format.frame_bytes();
            let b = old(engine).convert_buffering as int;
            let m = if n >= b {
                n - b
            } else {
                0
            };
            let k = old(enc).count();
            let sz_eq = old(vpp_out).format.spec_computed_size() == old(
                enc,
            ).format.spec_computed_size();
            &&& (m == 0 ==> report.state is Done && report.frames_loaded == n
                && report.frames_encoded == 0)
            &&& (sz_eq && (old(engine).unlocks_on_wait || m <= k) ==> report.state is Done
                && report.frames_loaded == n && report.frames_encoded == m && final(input).pos
                == old(input).data@.len())
            &&& (!sz_eq && m > 0 ==> report.state is Failed && report.error == Some(
                PipelineError::SizeMismatch,
            ) && report.frames_encoded == 0 && report.frames_loaded == b + 1)
            &&& (sz_eq && !old(engine).unlocks_on_wait && m > k ==> report.state is Failed
                && report.error == Some(PipelineError::PoolExhausted) && report.frames_encoded == k
                && report.frames_loaded == b + k + 1)
        }),
{
    let ghost fmt0 = old(vpp_in).format;
    let ghost fb = fmt0.frame_bytes();
    let ghost p0 = old(input).pos as int;
    let ghost rem0 = old(input).remaining();
    let ghost n = rem0 / fb;
    let ghost b = old(engine).convert_buffering as int;
    let ghost k = old(enc).count();
    let ghost out0 = old(sink).out@;
    let ghost eng0 = *old(engine);
    let ghost sz_eq = old(vpp_out).format.spec_computed_size() == old(
        enc,
    ).format.spec_computed_size();
    proof {
        assert(0 < fmt0.crop_w * fmt0.crop_h) by (nonlinear_arith)
            requires
                0 < fmt0.crop_w,
                0 < fmt0.crop_h,
        ;
        assert(0 <= 2 * (fmt0.crop_w * fmt0.crop_h / 4));
        assert forall|i: int| 0 <= i < old(vpp_in).count() implies !(
        #[trigger] vpp_in.surfaces@[i]).locked by {
            assert(!vpp_in.locked_at(i));
        }
        assert forall|i: int| 0 <= i < old(vpp_out).count() implies !(
        #[trigger] vpp_out.surfaces@[i]).locked by {
            assert(!vpp_out.locked_at(i));
        }
        assert forall|i: int| 0 <= i < k implies !(#[trigger] enc.surfaces@[i]).locked by {
            assert(!enc.locked_at(i));
        }
    }
    let mut state = PipelineState::Running;
    let mut frames_loaded: u32 = 0;
    let mut frames_encoded: u32 = 0;
    let mut error: Option<PipelineError> = None;
    while state == PipelineState::Running
        invariant
            vpp_in.wf(),
            vpp_out.wf(),
            enc.wf(),
            vpp_in.format == fmt0,
            vpp_out.format == old(vpp_out).format,
            enc.format == old(enc).format,
            vpp_in.count() == old(vpp_in).count(),
            vpp_out.count() == old(vpp_out).count(),
            enc.count() == k,
            1 <= vpp_in.count(),
            1 <= vpp_out.count(),
            1 <= k,
            fmt0.chroma is Yuv420Planar ==> fmt0.is_direct(),
            vpp_out.format.is_yuv420(),
            enc.format.is_yuv420(),
            sz_eq == (vpp_out.format.spec_computed_size() == enc.format.spec_computed_size()),
            input.wf(),
            input.data@ == old(input).data@,
            bs.inv(),
            bs.DataLength == 0,
            bs.MaxLength == old(bs).MaxLength,
            engine.payload_len == eng0.payload_len,
            engine.payload_byte == eng0.payload_byte,
            engine.unlocks_on_wait == eng0.unlocks_on_wait,
            engine.drain_frames == eng0.drain_frames,
            eng0.payload_len <= bs.MaxLength,
            fb == fmt0.frame_bytes(),
            0 < fb,
            rem0 == old(input).data@.len() - p0,
            n == rem0 / fb,
            b == eng0.convert_buffering as int,
            rem0 <= u32::MAX,
            forall|i: int| 0 <= i < vpp_in.count() ==> !(#[trigger] vpp_in.surfaces@[i]).locked,
            forall|i: int| 0 <= i < vpp_out.count() ==> !(#[trigger] vpp_out.surfaces@[i]).locked,
            engine.convert_buffering as int == (if frames_loaded <= b {
                b - frames_loaded
            } else {
                0
            }),
            !(state is Failed) ==> frames_encoded as int == (if frames_loaded <= b {
                0int
            } else {
                frames_loaded - b
            }),
            frames_loaded * fb <= rem0,
            state is Running ==> input.pos == p0 + frames_loaded * fb,
            input.pos >= p0 + frames_loaded * fb,
            eng0.unlocks_on_wait ==> forall|i: int|
                0 <= i < k ==> !(#[trigger] enc.surfaces@[i]).locked,
            !eng0.unlocks_on_wait ==> forall|i: int|
                0 <= i < k ==> ((#[trigger] enc.surfaces@[i]).locked <==> i < frames_encoded),
            !eng0.unlocks_on_wait ==> frames_encoded <= k,
            state is Running && !sz_eq ==> frames_loaded <= b,
            sink.out@ == out0 + Seq::new(
                ((frames_encoded as int) * eng0.payload_len) as nat,
                |i: int| eng0.payload_byte,
            ),
            state is Running || state is Done || state is Failed,
            state is Done ==> frames_loaded == n && input.pos == input.data@.len() && (!sz_eq
                ==> n <= b),
            state is Failed ==> error == Some(PipelineError::SizeMismatch) || error == Some(
                PipelineError::PoolExhausted,
            ),
            state is Failed && error == Some(PipelineError::SizeMismatch) ==> !sz_eq
                && frames_encoded == 0 && frames_loaded == b + 1 && n >= b + 1,
            state is Failed && error == Some(PipelineError::PoolExhausted) ==> sz_eq
                && !eng0.unlocks_on_wait && frames_encoded == k && frames_loaded == b + k + 1 && n
                >= b + k + 1,
            (state is Running || state is Done) ==> error is None,
        decreases
            input.data@.len() - input.pos,
            (if state is Running {
                1int
            } else {
                0int
            }),
    {
        let acq_in = vpp_in.acquire_free();
        match acq_in {
            Err(_) => {
                state = PipelineState::Failed;
                error = Some(PipelineError::PoolExhausted);
                proof {
                    assert(vpp_in.locked_at(0));
                    assert(false);
                }
            },
            Ok(in_idx) => {
                let load = load_frame(vpp_in, in_idx, input);
                match load {
                    Err(_) => {
                        state = PipelineState::Done;
                        proof {
                            assert(frames_loaded == rem0 / fb) by (nonlinear_arith)
                                requires
                                    frames_loaded * fb <= rem0,
                                    rem0 < frames_loaded * fb + fb,
                                    0 < fb,
                                    0 <= frames_loaded,
                            ;
                        }
                    },
                    Ok(_) => {
                        proof {
                            assert((frames_loaded + 1) * fb == frames_loaded * fb + fb)
                                by (nonlinear_arith);
                            assert(frames_loaded + 1 <= (frames_loaded + 1) * fb)
                                by (nonlinear_arith)
                                requires
                                    1 <= fb,
                                    0 <= frames_loaded,
                            ;
                            assert(frames_loaded + 1 <= rem0 / fb) by (nonlinear_arith)
                                requires
                                    (frames_loaded + 1) * fb <= rem0,
                                    0 < fb,
                                    0 <= frames_loaded,
                            ;
                        }
                        frames_loaded = frames_loaded + 1;
                        let acq_out = vpp_out.acquire_free();
                        match acq_out {
                            Err(_) => {
                                state = PipelineState::Failed;
                                error = Some(PipelineError::PoolExhausted);
                                proof {
                                    assert(vpp_out.locked_at(0));
                                    assert(false);
                                }
                            },
                            Ok(out_idx) => {
                                let (st, ctok) = engine.convert_async();
                                match (st, ctok) {
                                    (EngineStatus::MoreData, _) => {},
                                    (EngineStatus::Success, Some(token)) => {
                                        let st2 = engine.sync_convert(token, SYNC_TIMEOUT);
                                        match st2 {
                                            EngineStatus::Success => {
                                                let acq_enc = enc.acquire_free();
                                                match acq_enc {
                                                    Err(e) => {
                                                        state = PipelineState::Failed;
                                                        error = Some(e);
                                                        proof {
                                                            if eng0.unlocks_on_wait {
                                                                assert(enc.locked_at(0));
                                                                assert(false);
                                                            }
                                                            if frames_encoded < k {
                                                                assert(enc.locked_at(
                                                                    frames_encoded as int,
                                                                ));
                                                                assert(false);
                                                            }
                                                            assert(frames_encoded == k);
                                                            if !sz_eq {
                                                                assert(frames_encoded == 0);
                                                                assert(false);
                                                            }
                                                        }
                                                    },
                                                    Ok(enc_idx) => {
                                                        proof {
                                                            if !eng0.unlocks_on_wait {
                                                                assert(enc_idx >= frames_encoded);
                                                                if enc_idx > frames_encoded {
                                                                    assert(enc.locked_at(
                                                                        frames_encoded as int,
                                                                    ));
                                                                    assert(false);
                                                                }
                                                                assert(enc_idx == frames_encoded);
                                                                assert(frames_encoded < k);
                                                            }
                                                        }
                                                        let copied = vpp_to_enc_surface(
                                                            vpp_out,
                                                            out_idx,
                                                            enc,
                                                            enc_idx,
                                                        );
                                                        match copied {
                                                            Err(_) => {
                                                                state = PipelineState::Failed;
                                                                error = Some(
                                                                    PipelineError::SizeMismatch,
                                                                );
                                                            },
                                                            Ok(_) => {
                                                                let ghost locked_pre = enc.surfaces@;
                                                                submit_wait_drain(engine, enc, enc_idx, bs, sink);
                                                                frames_encoded = frames_encoded + 1;
                                                                proof {
                                                                    assert((frames_encoded as int) * eng0.payload_len
                                                                        == (frames_encoded - 1) * eng0.payload_len
                                                                        + eng0.payload_len) by (nonlinear_arith);
                                                                    assert(sink.out@ =~= out0 + Seq::new(
                                                                        ((frames_encoded as int) * eng0.payload_len) as nat,
                                                                        |i: int| eng0.payload_byte,
                                                                    ));
                                                                    assert(locked_pre.len() == k);
                                                                    if !eng0.unlocks_on_wait {
                                                                        assert(enc_idx == frames_encoded - 1);
                                                                        assert(enc.surfaces@[enc_idx as int].locked);
                                                                        assert forall|i: int|
                                                                            0 <= i < k implies ((#[trigger] enc.surfaces@[i]).locked
                                                                            <==> i < frames_encoded) by {
                                                                            if i != enc_idx {
                                                                                assert(enc.surfaces@[i] == locked_pre[i]);
                                                                                assert(locked_pre[i].locked == (i < frames_encoded - 1));
                                                                            }
                                                                        }
                                                                    } else {
                                                                        assert(!enc.surfaces@[enc_idx as int].locked);
                                                                        assert forall|i: int|
                                                                            0 <= i < k implies !(#[trigger] enc.surfaces@[i]).locked by {
                                                                            if i != enc_idx {
                                                                                assert(enc.surfaces@[i] == locked_pre[i]);
                                                                                assert(!locked_pre[i].locked);
                                                                            }
                                                                        }
                                                                    }
                                                                }
                                                            },
                                                        }
                                                    },
                                                }
                                            },
                                            _ => {
                                                state = PipelineState::Failed;
                                                error = Some(PipelineError::EncodeFailure);
                                            },
                                        }
                                    },
                                    _ => {
                                        state = PipelineState::Failed;
                                        error = Some(PipelineError::EncodeFailure);
                                    },
                                }
                            },
                        }
                    },
                }
            },
        }
    }
    engine.close();
    PipelineReport { state, frames_loaded, frames_encoded, frames_drained: 0, error }
}

} // verus!

