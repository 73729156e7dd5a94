use mfx_pipeline::error::PipelineError;
use mfx_pipeline::format::{ChromaLayout, FrameFormat};
use mfx_pipeline::pool::{vpp_to_enc_surface, SurfacePool};

fn nv12(w: u16, h: u16) -> FrameFormat {
    FrameFormat {
        width: w,
        height: h,
        crop_x: 0,
        crop_y: 0,
        crop_w: w,
        crop_h: h,
        pitch: w,
        chroma: ChromaLayout::Yuv420SemiPlanar,
    }
}

fn surface_bytes(w: usize, h: usize) -> usize {
    w * h * 3 / 2
}

#[test]
fn create_carves_zeroed_unlocked_surfaces() {
    let p = SurfacePool::create(nv12(16, 16), 3, surface_bytes(16, 16));
    assert_eq!(p.surfaces.len(), 3);
    assert_eq!(p.arena.len(), 3 * 384);
    for (i, s) in p.surfaces.iter().enumerate() {
        assert_eq!(s.offset, i * 384);
        assert_eq!(s.len, 384);
        assert!(!s.locked);
    }
    assert!(p.arena.iter().all(|b| *b == 0));
}

#[test]
fn acquire_free_picks_lowest_unlocked() {
    let mut p = SurfacePool::create(nv12(16, 16), 3, surface_bytes(16, 16));
    assert_eq!(p.acquire_free().unwrap(), 0);
    p.set_locked(0, true);
    assert_eq!(p.acquire_free().unwrap(), 1);
    p.set_locked(1, true);
    assert_eq!(p.acquire_free().unwrap(), 2);
    p.set_locked(0, false);
    assert_eq!(p.acquire_free().unwrap(), 0);
}

#[test]
fn acquire_free_fails_iff_all_locked() {
    let mut p = SurfacePool::create(nv12(16, 16), 2, surface_bytes(16, 16));
    p.set_locked(0, true);
    assert!(p.acquire_free().is_ok());
    p.set_locked(1, true);
    assert_eq!(p.acquire_free().unwrap_err(), PipelineError::PoolExhausted);
}

#[test]
fn copy_rejects_differing_computed_sizes() {
    // 8x6 gives 72 computed bytes, 8x8 gives 96: a mismatch.
    let src = SurfacePool::create(nv12(8, 6), 1, surface_bytes(8, 6));
    let mut dst = SurfacePool::create(nv12(8, 8), 1, surface_bytes(8, 8));
    let r = vpp_to_enc_surface(&src, 0, &mut dst, 0);
    assert_eq!(r.unwrap_err(), PipelineError::SizeMismatch);
}

#[test]
fn copy_accepts_equal_sizes_of_different_geometry() {
    // 8x6 and 12x4 both hold 48 pixels, so both compute 72 bytes.
    let mut src = SurfacePool::create(nv12(8, 6), 1, surface_bytes(8, 6));
    for i in 0..72 {
        src.arena[i] = (i + 1) as u8;
    }
    let mut dst = SurfacePool::create(nv12(12, 4), 1, surface_bytes(12, 4));
    vpp_to_enc_surface(&src, 0, &mut dst, 0).unwrap();
    for i in 0..72 {
        assert_eq!(dst.arena[i], (i + 1) as u8);
    }
}

#[test]
fn copy_targets_the_selected_surface_only() {
    let mut src = SurfacePool::create(nv12(8, 6), 1, surface_bytes(8, 6));
    for i in 0..72 {
        src.arena[i] = 0x5A;
    }
    let mut dst = SurfacePool::create(nv12(8, 6), 2, surface_bytes(8, 6));
    vpp_to_enc_surface(&src, 0, &mut dst, 1).unwrap();
    assert!(dst.arena[..72].iter().all(|b| *b == 0));
    assert!(dst.arena[72..144].iter().all(|b| *b == 0x5A));
}
