use mfx_pipeline::bitstream::{mfxBitstream, BitstreamSink};
use mfx_pipeline::engine::{
    classify_status, EngineStatus, MockEngine, MFX_ERR_MORE_DATA, MFX_ERR_NONE,
    MFX_ERR_NOT_ENOUGH_BUFFER, MFX_ERR_UNKNOWN, MFX_WRN_INCOMPATIBLE_VIDEO_PARAM,
};
use mfx_pipeline::error::PipelineError;
use mfx_pipeline::format::{ChromaLayout, FrameFormat};
use mfx_pipeline::pipeline::{run_encode_pipeline, run_transcode_pipeline, PipelineState};
use mfx_pipeline::pool::SurfacePool;
use mfx_pipeline::stream::InputStream;

fn nv12(w: u16, h: u16) -> FrameFormat {
    FrameFormat {
        width: w,
        height: h,
        crop_x: 0,
        crop_y: 0,
        crop_w: w,
        crop_h: h,
        pitch: w,
        chroma: ChromaLayout::Yuv420SemiPlanar,
    }
}

fn yv12(w: u16, h: u16) -> FrameFormat {
    FrameFormat {
        width: w,
        height: h,
        crop_x: 0,
        crop_y: 0,
        crop_w: w,
        crop_h: h,
        pitch: w,
        chroma: ChromaLayout::Yuv420Planar,
    }
}

fn pool_of(f: FrameFormat, count: usize) -> SurfacePool {
    let per = f.width as usize * f.height as usize * 3 / 2;
    SurfacePool::create(f, count, per)
}

fn cooperative(payload_len: u32) -> MockEngine {
    MockEngine {
        payload_len,
        payload_byte: 0xAB,
        unlocks_on_wait: true,
        drain_frames: 0,
        convert_buffering: 0,
    }
}

#[test]
fn two_whole_frames_reach_done() {
    // a 32x32 4:2:0 input of exactly 2 frames, 1536 bytes each
    let mut engine = cooperative(100);
    let mut pool = pool_of(nv12(32, 32), 4);
    let mut bs = mfxBitstream::with_capacity(100);
    let mut sink = BitstreamSink::new();
    let mut input = InputStream::new(vec![0u8; 3072]);
    let report = run_encode_pipeline(&mut engine, &mut pool, &mut bs, &mut sink, &mut input);
    assert_eq!(report.state, PipelineState::Done);
    assert_eq!(report.frames_loaded, 2);
    assert_eq!(report.frames_encoded, 2);
    assert_eq!(report.frames_drained, 0);
    assert!(report.error.is_none());
    assert_eq!(sink.out.len(), 200);
    assert!(sink.out.iter().all(|b| *b == 0xAB));
}

#[test]
fn truncated_frame_is_end_of_input_after_whole_frames() {
    // the same input truncated to 1.5 frames: frame 2 signals exhaustion,
    // the drain flushes nothing, and only frame 1's payload is written
    let mut engine = cooperative(100);
    let mut pool = pool_of(nv12(32, 32), 4);
    let mut bs = mfxBitstream::with_capacity(100);
    let mut sink = BitstreamSink::new();
    let mut input = InputStream::new(vec![0u8; 2304]);
    let report = run_encode_pipeline(&mut engine, &mut pool, &mut bs, &mut sink, &mut input);
    assert_eq!(report.state, PipelineState::Done);
    assert_eq!(report.frames_loaded, 1);
    assert_eq!(report.frames_encoded, 1);
    assert_eq!(report.frames_drained, 0);
    assert_eq!(sink.out.len(), 100);
}

#[test]
fn pool_of_one_exhausts_when_locks_never_clear() {
    // an engine that never clears the locked flag: the second acquire fails
    let mut engine = MockEngine { unlocks_on_wait: false, ..cooperative(100) };
    let mut pool = pool_of(nv12(32, 32), 1);
    let mut bs = mfxBitstream::with_capacity(100);
    let mut sink = BitstreamSink::new();
    let mut input = InputStream::new(vec![0u8; 3072]);
    let report = run_encode_pipeline(&mut engine, &mut pool, &mut bs, &mut sink, &mut input);
    assert_eq!(report.state, PipelineState::Failed);
    assert_eq!(report.error, Some(PipelineError::PoolExhausted));
    assert_eq!(report.frames_encoded, 1);
    assert_eq!(sink.out.len(), 100);
}

#[test]
fn drain_flushes_internally_buffered_frames() {
    let mut engine = MockEngine { drain_frames: 3, ..cooperative(50) };
    let mut pool = pool_of(nv12(16, 16), 2);
    let mut bs = mfxBitstream::with_capacity(50);
    let mut sink = BitstreamSink::new();
    let mut input = InputStream::new(vec![0u8; 384]);
    let report = run_encode_pipeline(&mut engine, &mut pool, &mut bs, &mut sink, &mut input);
    assert_eq!(report.state, PipelineState::Done);
    assert_eq!(report.frames_encoded, 1);
    assert_eq!(report.frames_drained, 3);
    assert_eq!(sink.out.len(), 200);
}

#[test]
fn exact_multiple_input_encodes_every_frame() {
    let mut engine = cooperative(10);
    let mut pool = pool_of(nv12(16, 16), 2);
    let mut bs = mfxBitstream::with_capacity(10);
    let mut sink = BitstreamSink::new();
    let mut input = InputStream::new(vec![0u8; 5 * 384]);
    let report = run_encode_pipeline(&mut engine, &mut pool, &mut bs, &mut sink, &mut input);
    assert_eq!(report.state, PipelineState::Done);
    assert_eq!(report.frames_loaded, 5);
    assert_eq!(report.frames_encoded, 5);
    assert_eq!(sink.out.len(), 50);
}

#[test]
fn empty_input_drains_immediately_to_done() {
    let mut engine = cooperative(100);
    let mut pool = pool_of(nv12(32, 32), 1);
    let mut bs = mfxBitstream::with_capacity(100);
    let mut sink = BitstreamSink::new();
    let mut input = InputStream::new(Vec::new());
    let report = run_encode_pipeline(&mut engine, &mut pool, &mut bs, &mut sink, &mut input);
    assert_eq!(report.state, PipelineState::Done);
    assert_eq!(report.frames_encoded, 0);
    assert_eq!(sink.out.len(), 0);
}

#[test]
fn transcode_buffering_absorbs_early_frames() {
    // the pre-processing stage asks for one more frame before producing
    // output: three loaded frames yield two encoded payloads
    let mut engine = MockEngine { convert_buffering: 1, ..cooperative(100) };
    let mut vpp_in = pool_of(yv12(32, 32), 2);
    let mut vpp_out = pool_of(nv12(32, 32), 2);
    let mut enc = pool_of(nv12(32, 32), 2);
    let mut bs = mfxBitstream::with_capacity(100);
    let mut sink = BitstreamSink::new();
    let mut input = InputStream::new(vec![0u8; 3 * 1536]);
    let report = run_transcode_pipeline(
        &mut engine,
        &mut vpp_in,
        &mut vpp_out,
        &mut enc,
        &mut bs,
        &mut sink,
        &mut input,
    );
    assert_eq!(report.state, PipelineState::Done);
    assert_eq!(report.frames_loaded, 3);
    assert_eq!(report.frames_encoded, 2);
    assert_eq!(report.frames_drained, 0);
    assert_eq!(sink.out.len(), 200);
}

#[test]
fn transcode_size_mismatch_is_fatal() {
    // pre-processing output and encode surfaces disagree on computed size
    let mut engine = cooperative(100);
    let mut vpp_in = pool_of(yv12(32, 32), 2);
    let mut vpp_out = pool_of(nv12(32, 32), 2);
    let mut enc = pool_of(nv12(16, 16), 2);
    let mut bs = mfxBitstream::with_capacity(100);
    let mut sink = BitstreamSink::new();
    let mut input = InputStream::new(vec![0u8; 2 * 1536]);
    let report = run_transcode_pipeline(
        &mut engine,
        &mut vpp_in,
        &mut vpp_out,
        &mut enc,
        &mut bs,
        &mut sink,
        &mut input,
    );
    assert_eq!(report.state, PipelineState::Failed);
    assert_eq!(report.error, Some(PipelineError::SizeMismatch));
    assert_eq!(report.frames_encoded, 0);
    assert_eq!(report.frames_loaded, 1);
    assert_eq!(sink.out.len(), 0);
}

#[test]
fn transcode_never_unlocking_exhausts_the_encode_pool() {
    let mut engine = MockEngine { unlocks_on_wait: false, ..cooperative(100) };
    let mut vpp_in = pool_of(yv12(32, 32), 2);
    let mut vpp_out = pool_of(nv12(32, 32), 2);
    let mut enc = pool_of(nv12(32, 32), 1);
    let mut bs = mfxBitstream::with_capacity(100);
    let mut sink = BitstreamSink::new();
    let mut input = InputStream::new(vec![0u8; 3 * 1536]);
    let report = run_transcode_pipeline(
        &mut engine,
        &mut vpp_in,
        &mut vpp_out,
        &mut enc,
        &mut bs,
        &mut sink,
        &mut input,
    );
    assert_eq!(report.state, PipelineState::Failed);
    assert_eq!(report.error, Some(PipelineError::PoolExhausted));
    assert_eq!(report.frames_encoded, 1);
    assert_eq!(report.frames_loaded, 2);
    assert_eq!(sink.out.len(), 100);
}

#[test]
fn engine_locks_surface_until_wait_clears_it() {
    let mut engine = cooperative(8);
    let mut pool = pool_of(nv12(16, 16), 2);
    let mut bs = mfxBitstream::with_capacity(8);
    let (st, tok) = engine.encode_async(&mut pool, Some(0), &mut bs);
    assert_eq!(st, EngineStatus::Success);
    assert!(pool.surfaces[0].locked);
    assert!(!pool.surfaces[1].locked);
    let st2 = engine.sync_encode(&mut pool, tok.unwrap(), &mut bs, 6000);
    assert_eq!(st2, EngineStatus::Success);
    assert!(!pool.surfaces[0].locked);
    assert_eq!(bs.DataLength, 8);
    assert_eq!(bs.DataOffset, 0);
}

#[test]
fn withheld_unlock_keeps_the_flag_set() {
    let mut engine = MockEngine { unlocks_on_wait: false, ..cooperative(8) };
    let mut pool = pool_of(nv12(16, 16), 1);
    let mut bs = mfxBitstream::with_capacity(8);
    let (_, tok) = engine.encode_async(&mut pool, Some(0), &mut bs);
    engine.sync_encode(&mut pool, tok.unwrap(), &mut bs, 6000);
    assert!(pool.surfaces[0].locked);
}

#[test]
fn flush_submission_reports_more_data_once_empty() {
    let mut engine = MockEngine { drain_frames: 1, ..cooperative(8) };
    let mut pool = pool_of(nv12(16, 16), 1);
    let mut bs = mfxBitstream::with_capacity(8);
    let (st, tok) = engine.encode_async(&mut pool, None, &mut bs);
    assert_eq!(st, EngineStatus::Success);
    engine.sync_encode(&mut pool, tok.unwrap(), &mut bs, 6000);
    let (st2, tok2) = engine.encode_async(&mut pool, None, &mut bs);
    assert_eq!(st2, EngineStatus::MoreData);
    assert!(tok2.is_none());
}

#[test]
fn status_codes_classify_onto_the_taxonomy() {
    assert_eq!(classify_status(MFX_ERR_NONE), EngineStatus::Success);
    assert_eq!(classify_status(MFX_WRN_INCOMPATIBLE_VIDEO_PARAM), EngineStatus::Warning);
    assert_eq!(classify_status(7), EngineStatus::Warning);
    assert_eq!(classify_status(MFX_ERR_NOT_ENOUGH_BUFFER), EngineStatus::NotEnoughBuffer);
    assert_eq!(classify_status(MFX_ERR_MORE_DATA), EngineStatus::MoreData);
    assert_eq!(classify_status(MFX_ERR_UNKNOWN), EngineStatus::Fatal);
    assert_eq!(classify_status(-15), EngineStatus::Fatal);
}
