use mfx_pipeline::error::PipelineError;
use mfx_pipeline::format::{ChromaLayout, FrameFormat};
use mfx_pipeline::loader::load_frame;
use mfx_pipeline::pool::SurfacePool;
use mfx_pipeline::stream::InputStream;

fn bytes(n: usize) -> Vec<u8> {
    let mut v = Vec::new();
    for i in 0..n {
        v.push((i + 1) as u8);
    }
    v
}

#[test]
fn direct_load_places_planes_back_to_back() {
    // 4x4 planar with pitch == width: direct full-frame loading.
    let f = FrameFormat {
        width: 4,
        height: 4,
        crop_x: 0,
        crop_y: 0,
        crop_w: 4,
        crop_h: 4,
        pitch: 4,
        chroma: ChromaLayout::Yuv420Planar,
    };
    let mut pool = SurfacePool::create(f, 1, 24);
    let mut input = InputStream::new(bytes(24));
    load_frame(&mut pool, 0, &mut input).unwrap();
    assert_eq!(input.pos, 24);
    // luma block, then the two chroma blocks with no padding between them
    assert_eq!(pool.arena, bytes(24));
}

#[test]
fn strided_load_honors_pitch_crop_and_deinterleaves_chroma() {
    // A 4x2 crop at (2, 2) of an 8x4 semi-planar surface; pitch 8 differs
    // from the crop width, so rows are strided and chroma is de-interleaved.
    let f = FrameFormat {
        width: 8,
        height: 4,
        crop_x: 2,
        crop_y: 2,
        crop_w: 4,
        crop_h: 2,
        pitch: 8,
        chroma: ChromaLayout::Yuv420SemiPlanar,
    };
    let mut pool = SurfacePool::create(f, 1, 48);
    let mut input = InputStream::new(bytes(12));
    load_frame(&mut pool, 0, &mut input).unwrap();
    assert_eq!(input.pos, 12);
    // luma row 0 at (crop_y + 0) * pitch + crop_x = 18
    assert_eq!(&pool.arena[18..22], &[1, 2, 3, 4]);
    // luma row 1 at 3 * 8 + 2 = 26
    assert_eq!(&pool.arena[26..30], &[5, 6, 7, 8]);
    // chroma plane starts at pitch * height = 32; its single crop row starts
    // at 32 + (crop_y / 2) * pitch + crop_x = 42, 2-byte strided
    assert_eq!(pool.arena[42], 9);
    assert_eq!(pool.arena[44], 10);
    assert_eq!(pool.arena[43], 11);
    assert_eq!(pool.arena[45], 12);
    // bytes between the samples stay untouched
    assert_eq!(pool.arena[17], 0);
    assert_eq!(pool.arena[22], 0);
    assert_eq!(pool.arena[41], 0);
    assert_eq!(pool.arena[46], 0);
}

#[test]
fn monochrome_load_reads_luma_only() {
    let f = FrameFormat {
        width: 4,
        height: 4,
        crop_x: 0,
        crop_y: 0,
        crop_w: 4,
        crop_h: 4,
        pitch: 4,
        chroma: ChromaLayout::Monochrome,
    };
    let mut pool = SurfacePool::create(f, 1, 16);
    let mut input = InputStream::new(bytes(20));
    load_frame(&mut pool, 0, &mut input).unwrap();
    assert_eq!(input.pos, 16);
    assert_eq!(pool.arena, bytes(16));
}

#[test]
fn short_input_reports_exhausted_and_consumes_the_rest() {
    let f = FrameFormat {
        width: 4,
        height: 4,
        crop_x: 0,
        crop_y: 0,
        crop_w: 4,
        crop_h: 4,
        pitch: 4,
        chroma: ChromaLayout::Yuv420Planar,
    };
    let mut pool = SurfacePool::create(f, 2, 24);
    // one whole frame plus six stray bytes
    let mut input = InputStream::new(bytes(30));
    load_frame(&mut pool, 0, &mut input).unwrap();
    assert_eq!(input.pos, 24);
    let r = load_frame(&mut pool, 1, &mut input);
    assert_eq!(r.unwrap_err(), PipelineError::InputExhausted);
    assert_eq!(input.pos, 30);
    // the second surface's region stays untouched
    assert!(pool.arena[24..].iter().all(|b| *b == 0));
}

#[test]
fn empty_input_is_a_clean_end_of_stream() {
    let f = FrameFormat {
        width: 4,
        height: 4,
        crop_x: 0,
        crop_y: 0,
        crop_w: 4,
        crop_h: 4,
        pitch: 4,
        chroma: ChromaLayout::Yuv420Planar,
    };
    let mut pool = SurfacePool::create(f, 1, 24);
    let mut input = InputStream::new(Vec::new());
    let r = load_frame(&mut pool, 0, &mut input);
    assert_eq!(r.unwrap_err(), PipelineError::InputExhausted);
}
