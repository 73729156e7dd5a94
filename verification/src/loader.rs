//! Raw frame loading: fills one surface's region of a pool arena with the
//! next frame of the input stream, honoring the crop, pitch and plane-layout
//! rules of the surface's format.
//!
//! Two layouts are supported. Direct full-frame loading reads each plane as
//! one contiguous block, used when rows carry no pitch padding. Crop/pitch
//! aware loading reads luma row by row into pitch-strided rows offset by the
//! crop origin, and reads each chroma plane in a separate pass that writes a
//! 2-byte-strided sub-layout, de-interleaving the chroma components into the
//! surface's interleaved chroma plane.

use crate::error::PipelineError;
use crate::format::{ChromaLayout, FrameFormat};
use crate::pool::SurfacePool;
use crate::stream::InputStream;
use vstd::prelude::*;

verus! {

/// Arena offset, relative to a surface start, of the luma sample of row `r`
/// and column `c` of the crop rectangle under crop/pitch-aware loading.
pub open spec fn luma_dst(fmt: FrameFormat, r: int, c: int) -> int {
    (fmt.crop_y + r) * fmt.pitch + fmt.crop_x + c
}

/// Arena offset, relative to a surface start, of chroma sample `(r, c)` of
/// read pass `pass` (0 for the first chroma plane, 1 for the second) under
/// crop/pitch-aware loading: the two planes interleave into a 2-byte-strided
/// sub-layout after the luma plane.
pub open spec fn chroma_dst(fmt: FrameFormat, pass: int, r: int, c: int) -> int {
    fmt.chroma_offset() + (fmt.crop_y / 2 + r) * fmt.pitch + fmt.crop_x + 2 * c + pass
}

/// Every luma destination lies inside the luma plane.
pub proof fn lemma_luma_dst_bounds(fmt: FrameFormat)
    requires
        fmt.wf(),
    ensures
        forall|r: int, c: int|
            0 <= r < fmt.crop_h && 0 <= c < fmt.crop_w ==> 0 <= #[trigger] luma_dst(fmt, r, c)
                < fmt.chroma_offset(),
{
    assert forall|r: int, c: int|
        0 <= r < fmt.crop_h && 0 <= c < fmt.crop_w implies 0 <= #[trigger] luma_dst(fmt, r, c)
        < fmt.chroma_offset() by {
        assert((fmt.crop_y + r) * fmt.pitch + fmt.crop_x + c < fmt.pitch * fmt.height)
            by (nonlinear_arith)
            requires
                0 <= r,
                0 <= c,
                0 <= fmt.crop_y,
                0 <= fmt.crop_x,
                c < fmt.crop_w,
                fmt.crop_x + fmt.crop_w <= fmt.pitch,
                fmt.crop_y + r + 1 <= fmt.height,
                0 < fmt.pitch,
        ;
    }
}

/// Every chroma destination of either pass lies inside the chroma half-plane
/// and carries the parity of its pass.
pub proof fn lemma_chroma_dst_bounds(fmt: FrameFormat, pass: int)
    requires
        fmt.wf(),
        fmt.is_yuv420(),
        0 <= pass < 2,
    ensures
        forall|r: int, c: int|
            0 <= r < fmt.crop_h / 2 && 0 <= c < fmt.crop_w / 2 ==> fmt.chroma_offset()
                <= #[trigger] chroma_dst(fmt, pass, r, c) < fmt.min_surface_bytes()
                && (chroma_dst(fmt, pass, r, c) - (fmt.chroma_offset() + pass)) % 2 == 0,
{
    assert forall|r: int, c: int|
        0 <= r < fmt.crop_h / 2 && 0 <= c < fmt.crop_w / 2 implies fmt.chroma_offset()
        <= #[trigger] chroma_dst(fmt, pass, r, c) < fmt.min_surface_bytes() && (chroma_dst(
        fmt,
        pass,
        r,
        c,
    ) - (fmt.chroma_offset() + pass)) % 2 == 0 by {
        let p = fmt.pitch as int;
        let cx = fmt.crop_x as int;
        let cy2 = fmt.crop_y as int / 2;
        let h2 = fmt.height as int / 2;
        assert(2 * c + pass < fmt.crop_w);
        assert(cy2 + r + 1 <= h2);
        assert((cy2 + r) * p + cx + 2 * c + pass < (cy2 + r + 1) * p) by (nonlinear_arith)
            requires
                cx + 2 * c + pass < p,
        ;
        assert((cy2 + r + 1) * p <= h2 * p) by (nonlinear_arith)
            requires
                cy2 + r + 1 <= h2,
                0 <= p,
        ;
        assert(h2 * p == p * fmt.height / 2) by (nonlinear_arith)
            requires
                fmt.height % 2 == 0,
                h2 == fmt.height as int / 2,
        ;
        assert(0 <= (cy2 + r) * p + cx + 2 * c) by (nonlinear_arith)
            requires
                0 <= cy2 + r,
                0 <= p,
                0 <= cx,
                0 <= c,
        ;
        let m = p / 2;
        let t = (cy2 + r) * m + cx / 2 + c;
        assert((cy2 + r) * p + cx + 2 * c == 2 * t) by (nonlinear_arith)
            requires
                p == 2 * m,
                cx == 2 * (cx / 2),
                t == (cy2 + r) * m + cx / 2 + c,
        ;
        assert((2 * t) % 2 == 0) by (nonlinear_arith);
    }
}

/// The surface region at `s0` holds the frame read at `p0` in the direct
/// full-frame layout: a contiguous luma block at the region start, then the
/// two chroma blocks back to back at the chroma plane offset.
pub open spec fn direct_loaded(
    fmt: FrameFormat,
    arena: Seq<u8>,
    s0: int,
    data: Seq<u8>,
    p0: int,
) -> bool {
    let lb = fmt.luma_frame_bytes();
    let q = fmt.chroma_frame_bytes();
    let co = fmt.chroma_offset();
    &&& forall|k: int| s0 <= k < s0 + lb ==> arena[k] == data[p0 + (k - s0)]
    &&& (fmt.is_yuv420() ==> forall|k: int|
        s0 + co <= k < s0 + co + q ==> arena[k] == data[p0 + lb + (k - (s0 + co))])
    &&& (fmt.is_yuv420() ==> forall|k: int|
        s0 + co + q <= k < s0 + co + 2 * q ==> arena[k] == data[p0 + lb + q + (k - (s0 + co + q))])
}

/// The surface region at `s0` holds the frame read at `p0` in the
/// crop/pitch-aware layout: pitch-strided luma rows at the crop origin, and
/// the two chroma planes de-interleaved into the 2-byte-strided sub-layout.
pub open spec fn strided_loaded(
    fmt: FrameFormat,
    arena: Seq<u8>,
    s0: int,
    data: Seq<u8>,
    p0: int,
) -> bool {
    let cw = fmt.crop_w as int;
    let ch = fmt.crop_h as int;
    let lb = fmt.luma_frame_bytes();
    let q = fmt.chroma_frame_bytes();
    &&& forall|r: int, c: int|
        0 <= r < ch && 0 <= c < cw ==> arena[s0 + #[trigger] luma_dst(fmt, r, c)] == data[p0 + r
            * cw + c]
    &&& (fmt.is_yuv420() ==> forall|r: int, c: int|
        0 <= r < ch / 2 && 0 <= c < cw / 2 ==> arena[s0 + #[trigger] chroma_dst(fmt, 0, r, c)]
            == data[p0 + lb + r * (cw / 2) + c])
    &&& (fmt.is_yuv420() ==> forall|r: int, c: int|
        0 <= r < ch / 2 && 0 <= c < cw / 2 ==> arena[s0 + #[trigger] chroma_dst(fmt, 1, r, c)]
            == data[p0 + lb + q + r * (cw / 2) + c])
}

/// Reads the luma plane row by row into pitch-strided rows offset by the
/// crop origin: row `r` of the crop rectangle lands `r` pitches below it.
fn load_luma_strided(pool: &mut SurfacePool, s0: usize, src: &Vec<u8>, p0: usize)
    requires
        old(pool).wf(),
        s0 + old(pool).per_surface <= old(pool).arena@.len(),
        p0 + old(pool).format.luma_frame_bytes() <= src@.len(),
    ensures
        final(pool).format == old(pool).format,
        final(pool).per_surface == old(pool).per_surface,
        final(pool).surfaces == old(pool).surfaces,
        final(pool).wf(),
        final(pool).arena@.len() == old(pool).arena@.len(),
        forall|r: int, c: int|
            0 <= r < old(pool).format.crop_h && 0 <= c < old(pool).format.crop_w
                ==> final(pool).arena@[s0 + #[trigger] luma_dst(old(pool).format, r, c)]
                == src@[p0 + r * old(pool).format.crop_w + c],
        forall|k: int|
            0 <= k < old(pool).arena@.len() && !(s0 <= k < s0 + old(pool).format.chroma_offset())
                ==> final(pool).arena@[k] == old(pool).arena@[k],
{
    let fmt = pool.format;
    let ghost arena0 = pool.arena@;
    let arena_len = pool.arena.len();
    let src_len = src.len();
    let cw = fmt.crop_w as usize;
    let ch = fmt.crop_h as usize;
    let p = fmt.pitch as usize;
    let cx = fmt.crop_x as usize;
    let cy = fmt.crop_y as usize;
    proof {
        assert(0 <= fmt.pitch * fmt.height) by (nonlinear_arith);
    }
    let mut r: usize = 0;
    while r < ch
        invariant
            r <= ch,
            pool.format == fmt,
            fmt.wf(),
            pool.per_surface == old(pool).per_surface,
            pool.surfaces == old(pool).surfaces,
            pool.arena@.len() == arena_len,
            arena_len == arena0.len(),
            src_len == src@.len(),
            cw == fmt.crop_w,
            ch == fmt.crop_h,
            p == fmt.pitch,
            cx == fmt.crop_x,
            cy == fmt.crop_y,
            s0 + pool.per_surface <= arena_len,
            fmt.min_surface_bytes() <= pool.per_surface,
            fmt.chroma_offset() <= fmt.min_surface_bytes(),
            p0 + fmt.luma_frame_bytes() <= src@.len(),
            forall|rr: int, c: int|
                0 <= rr < r && 0 <= c < cw ==> pool.arena@[s0 + #[trigger] luma_dst(fmt, rr, c)]
                    == src@[p0 + rr * cw + c],
            forall|k: int|
                0 <= k < arena_len && !(s0 <= k < s0 + fmt.chroma_offset()) ==> pool.arena@[k]
                    == arena0[k],
        decreases ch - r,
    {
        proof {
            assert((cy + r) * p + cx + cw <= p * fmt.height) by (nonlinear_arith)
                requires
                    cy + r + 1 <= fmt.height,
                    cx + cw <= p,
                    0 < p,
                    0 <= cy + r,
            ;
            assert(r * cw + cw <= ch * cw) by (nonlinear_arith)
                requires
                    r + 1 <= ch,
                    0 <= cw,
            ;
            assert(ch * cw == fmt.crop_w * fmt.crop_h) by (nonlinear_arith)
                requires
                    ch == fmt.crop_h,
                    cw == fmt.crop_w,
            ;
        }
        let dst = s0 + (cy + r) * p + cx;
        let row_src = p0 + r * cw;
        pool.copy_region(dst, src, row_src, cw);
        proof {
            assert forall|rr: int, c: int|
                0 <= rr < r + 1 && 0 <= c < cw implies pool.arena@[s0 + #[trigger] luma_dst(
                fmt,
                rr,
                c,
            )] == src@[p0 + rr * cw + c] by {
                if rr == r {
                    assert(s0 + luma_dst(fmt, rr, c) == dst + c);
                } else {
                    assert((cy + rr) * p + p <= (cy + r) * p) by (nonlinear_arith)
                        requires
                            rr + 1 <= r,
                            0 <= p,
                            0 <= cy,
                    ;
                    assert(s0 + luma_dst(fmt, rr, c) < dst);
                }
            }
        }
        r = r + 1;
    }
}

/// Reads one chroma plane at half resolution, writing each sample into the
/// 2-byte-strided sub-layout after the luma plane; `pass` selects which of
/// the two interleaved components is written. Bytes of the other component
/// are left untouched.
fn load_chroma_strided(pool: &mut SurfacePool, s0: usize, src: &Vec<u8>, p0: usize, pass: usize)
    requires
        old(pool).wf(),
        old(pool).format.is_yuv420(),
        pass < 2,
        s0 + old(pool).per_surface <= old(pool).arena@.len(),
        p0 + old(pool).format.chroma_frame_bytes() <= src@.len(),
    ensures
        final(pool).format == old(pool).format,
        final(pool).per_surface == old(pool).per_surface,
        final(pool).surfaces == old(pool).surfaces,
        final(pool).wf(),
        final(pool).arena@.len() == old(pool).arena@.len(),
        forall|r: int, c: int|
            0 <= r < old(pool).format.crop_h / 2 && 0 <= c < old(pool).format.crop_w / 2
                ==> final(pool).arena@[s0 + #[trigger] chroma_dst(old(pool).format, pass as int, r, c)]
                == src@[p0 + r * (old(pool).format.crop_w / 2) + c],
        forall|k: int|
            0 <= k < old(pool).arena@.len() && !(s0 + old(pool).format.chroma_offset() <= k < s0
                + old(pool).format.min_surface_bytes() && (k - (s0 + old(pool).format.chroma_offset()
                + pass)) % 2 == 0) ==> final(pool).arena@[k] == old(pool).arena@[k],
{
    let fmt = pool.format;
    let ghost arena0 = pool.arena@;
    let arena_len = pool.arena.len();
    let src_len = src.len();
    let cw2 = (fmt.crop_w / 2) as usize;
    let ch2 = (fmt.crop_h / 2) as usize;
    let p = fmt.pitch as usize;
    let cx = fmt.crop_x as usize;
    let cy2 = (fmt.crop_y / 2) as usize;
    proof {
        assert(0 <= fmt.pitch * fmt.height) by (nonlinear_arith);
        assert(fmt.min_surface_bytes() <= pool.per_surface);
    }
    let co = fmt.chroma_off();
    let mut r: usize = 0;
    while r < ch2
        invariant
            r <= ch2,
            pool.format == fmt,
            fmt.wf(),
            fmt.is_yuv420(),
            pass < 2,
            pool.per_surface == old(pool).per_surface,
            pool.surfaces == old(pool).surfaces,
            pool.arena@.len() == arena_len,
            arena_len == arena0.len(),
            src_len == src@.len(),
            cw2 == fmt.crop_w / 2,
            ch2 == fmt.crop_h / 2,
            p == fmt.pitch,
            cx == fmt.crop_x,
            cy2 == fmt.crop_y / 2,
            co == fmt.chroma_offset(),
            s0 + pool.per_surface <= arena_len,
            fmt.min_surface_bytes() <= pool.per_surface,
            p0 + fmt.chroma_frame_bytes() <= src@.len(),
            forall|rr: int, c: int|
                0 <= rr < r && 0 <= c < cw2
                    ==> pool.arena@[s0 + #[trigger] chroma_dst(fmt, pass as int, rr, c)]
                    == src@[p0 + rr * cw2 + c],
            forall|k: int|
                0 <= k < arena_len && !(s0 + co <= k < s0 + fmt.min_surface_bytes() && (k - (s0
                    + co + pass)) % 2 == 0) ==> pool.arena@[k] == arena0[k],
        decreases ch2 - r,
    {
        proof {
            lemma_chroma_dst_bounds(fmt, pass as int);
            assert(0 < cw2 && 0 < ch2);
            assert(chroma_dst(fmt, pass as int, r as int, 0) < fmt.min_surface_bytes());
            assert(chroma_dst(fmt, pass as int, r as int, cw2 - 1) < fmt.min_surface_bytes());
            assert(r * cw2 + cw2 <= ch2 * cw2) by (nonlinear_arith)
                requires
                    r + 1 <= ch2,
                    0 <= cw2,
            ;
            assert(4 * (ch2 as int * cw2 as int) == fmt.crop_w * fmt.crop_h) by (nonlinear_arith)
                requires
                    fmt.crop_w == 2 * (cw2 as int),
                    fmt.crop_h == 2 * (ch2 as int),
            ;
            assert(ch2 * cw2 == fmt.chroma_frame_bytes());
        }
        let dst = s0 + co + (cy2 + r) * p + cx + pass;
        let row_src = p0 + r * cw2;
        assert(dst == s0 + chroma_dst(fmt, pass as int, r as int, 0));
        pool.copy_strided2(dst, src, row_src, cw2);
        proof {
            let ghost d0 = (s0 + co + pass) as int;
            assert((dst - d0) % 2 == 0);
            assert forall|rr: int, c: int|
                0 <= rr < r + 1 && 0 <= c < cw2 implies pool.arena@[s0 + #[trigger] chroma_dst(
                fmt,
                pass as int,
                rr,
                c,
            )] == src@[p0 + rr * cw2 + c] by {
                if rr == r {
                    assert(s0 + chroma_dst(fmt, pass as int, rr, c) == dst + 2 * c);
                } else {
                    assert((cy2 + rr) * p + cx + 2 * c + pass < (cy2 + r) * p + cx + pass)
                        by (nonlinear_arith)
                        requires
                            rr + 1 <= r,
                            0 <= cy2,
                            0 <= p,
                            cx + 2 * c + pass < p,
                    ;
                    assert(s0 + chroma_dst(fmt, pass as int, rr, c) < dst);
                }
            }
            assert forall|k: int|
                0 <= k < arena_len && !(s0 + co <= k < s0 + fmt.min_surface_bytes() && (k - (s0
                    + co + pass)) % 2 == 0) implies pool.arena@[k] == arena0[k] by {
                if dst <= k <= dst + 2 * (cw2 - 1) && (k - dst) % 2 == 0 {
                    assert(k - d0 == (k - dst) + (dst - d0));
                    assert((k - d0) % 2 == 0);
                    assert(s0 + co <= k < s0 + fmt.min_surface_bytes());
                }
            }
        }
        r = r + 1;
    }
}

/// The surface region at `s0` holds the frame read at `p0`, in whichever of
/// the two layouts the format selects.
pub open spec fn frame_loaded(
    fmt: FrameFormat,
    arena: Seq<u8>,
    s0: int,
    data: Seq<u8>,
    p0: int,
) -> bool {
    if fmt.is_direct() {
        direct_loaded(fmt, arena, s0, data, p0)
    } else {
        strided_loaded(fmt, arena, s0, data, p0)
    }
}

/// Fills surface `idx` of the pool with the next raw frame of the input.
///
/// On success exactly one frame's bytes are consumed and the surface holds
/// them in the format's layout. A frame that does not fit in what remains of
/// the input — a clean end of stream and a truncated frame alike — consumes
/// the rest, reports `InputExhausted` and leaves the arena untouched.
/// Formats with separate chroma planes are loaded directly, so their rows
/// must carry no pitch padding.
pub fn load_frame(pool: &mut SurfacePool, idx: usize, input: &mut InputStream) -> (r: Result<
    (),
    PipelineError,
>)
    requires
        old(pool).wf(),
        idx < old(pool).count(),
        old(input).wf(),
        old(pool).format.chroma is Yuv420Planar ==> old(pool).format.is_direct(),
    ensures
        final(pool).format == old(pool).format,
        final(pool).per_surface == old(pool).per_surface,
        final(pool).surfaces == old(pool).surfaces,
        final(pool).wf(),
        final(pool).arena@.len() == old(pool).arena@.len(),
        final(input).data@ == old(input).data@,
        final(input).wf(),
        r is Ok <==> old(pool).format.frame_bytes() <= old(input).remaining(),
        r is Err ==> {
            &&& r == Err::<(), PipelineError>(PipelineError::InputExhausted)
            &&& final(input).pos == old(input).data@.len()
            &&& final(pool).arena@ == old(pool).arena@
        },
        r is Ok ==> {
            &&& final(input).pos == old(input).pos + old(pool).format.frame_bytes()
            &&& frame_loaded(
                old(pool).format,
                final(pool).arena@,
                old(pool).surface_start(idx as int),
                old(input).data@,
                old(input).pos as int,
            )
            &&& forall|k: int|
                0 <= k < old(pool).arena@.len() && !(old(pool).surface_start(idx as int) <= k < old(
                    pool,
                ).surface_start(idx as int) + old(pool).per_surface) ==> final(pool).arena@[k]
                    == old(pool).arena@[k]
        },
{
    let fmt = pool.format;
    let arena_len = pool.arena.len();
    proof {
        assert(pool.per_surface <= pool.count() * pool.per_surface) by (nonlinear_arith)
            requires
                1 <= pool.count(),
                0 <= pool.per_surface,
        ;
    }
    let fb = fmt.frame_size();
    let rem = input.remaining_len();
    if rem < fb {
        let end = input.data.len();
        input.pos = end;
        return Err(PipelineError::InputExhausted);
    }
    let s0 = pool.start_of(idx);
    let lb = fmt.luma_size();
    let q = fmt.chroma_size();
    let p0 = input.pos;
    let dlen = input.data.len();
    assert(p0 + fb <= dlen);
    let is420 = match fmt.chroma {
        ChromaLayout::Monochrome => false,
        ChromaLayout::Yuv420Planar => true,
        ChromaLayout::Yuv420SemiPlanar => true,
    };
    let direct = fmt.pitch == fmt.crop_w && fmt.crop_x == 0 && fmt.crop_y == 0;
    proof {
        assert(direct == fmt.is_direct());
        assert(fmt.crop_w * fmt.crop_h <= fmt.pitch * fmt.height) by (nonlinear_arith)
            requires
                0 <= fmt.crop_w <= fmt.pitch,
                0 <= fmt.crop_h <= fmt.height,
        ;
        assert(2 * (fmt.crop_w * fmt.crop_h / 4) <= fmt.crop_w * fmt.crop_h / 2)
            by (nonlinear_arith)
            requires
                0 <= fmt.crop_w * fmt.crop_h,
        ;
        assert(fmt.crop_w * fmt.crop_h / 2 <= fmt.pitch * fmt.height / 2) by (nonlinear_arith)
            requires
                0 <= fmt.crop_w * fmt.crop_h <= fmt.pitch * fmt.height,
        ;
        assert(0 <= fmt.pitch * fmt.height) by (nonlinear_arith);
    }
    if direct {
        pool.copy_region(s0, &input.data, p0, lb);
        if is420 {
            let co = fmt.chroma_off();
            let ghost a_luma = pool.arena@;
            pool.copy_region(s0 + co, &input.data, p0 + lb, q);
            let ghost a_u = pool.arena@;
            pool.copy_region(s0 + co + q, &input.data, p0 + lb + q, q);
            proof {
                assert forall|k: int| s0 <= k < s0 + lb implies pool.arena@[k] == input.data@[p0 + (
                k - s0)] by {
                    assert(a_u[k] == a_luma[k]);
                }
                assert forall|k: int| s0 + co <= k < s0 + co + q implies pool.arena@[k]
                    == input.data@[p0 + lb + (k - (s0 + co))] by {
                    assert(a_u[k] == input.data@[p0 + lb + (k - (s0 + co))]);
                }
            }
        }
    } else {
        load_luma_strided(pool, s0, &input.data, p0);
        if is420 {
            let ghost a_luma = pool.arena@;
            load_chroma_strided(pool, s0, &input.data, p0 + lb, 0);
            let ghost a_u = pool.arena@;
            load_chroma_strided(pool, s0, &input.data, p0 + lb + q, 1);
            proof {
                lemma_luma_dst_bounds(fmt);
                lemma_chroma_dst_bounds(fmt, 0);
                assert forall|r: int, c: int|
                    0 <= r < fmt.crop_h && 0 <= c < fmt.crop_w implies pool.arena@[s0
                    + #[trigger] luma_dst(fmt, r, c)] == input.data@[p0 + r * fmt.crop_w + c] by {
                    let k = s0 + luma_dst(fmt, r, c);
                    assert(k < s0 + fmt.chroma_offset());
                    assert(a_u[k] == a_luma[k]);
                    assert(pool.arena@[k] == a_u[k]);
                }
                assert forall|r: int, c: int|
                    0 <= r < fmt.crop_h / 2 && 0 <= c < fmt.crop_w / 2 implies pool.arena@[s0
                    + #[trigger] chroma_dst(fmt, 0, r, c)] == input.data@[p0 + fmt.luma_frame_bytes()
                    + r * (fmt.crop_w / 2) + c] by {
                    let k = s0 + chroma_dst(fmt, 0, r, c);
                    assert((k - (s0 + fmt.chroma_offset())) % 2 == 0);
                    assert((k - (s0 + fmt.chroma_offset() + 1)) % 2 != 0);
                    assert(pool.arena@[k] == a_u[k]);
                }
            }
        }
    }
    input.pos = p0 + fb;
    Ok(())
}

} // verus!
