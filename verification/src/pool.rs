//! Fixed pools of pixel surfaces. A pool owns one contiguous byte arena and
//! carves it into `count` equally sized surfaces; a surface is a bounds-checked
//! (offset, length) view into that arena plus the exclusivity flag the codec
//! engine toggles. The pool only observes the flag; it never blocks waiting
//! for one to clear.

use crate::error::PipelineError;
use crate::format::FrameFormat;
use vstd::prelude::*;

verus! {

/// One surface of a pool: a view into the pool's arena plus the engine-owned
/// exclusivity flag.
#[derive(Clone, Copy, PartialEq, Eq, Structural, Debug)]
pub struct Surface {
    /// Start of this surface's region in the owning pool's arena.
    pub offset: usize,
    /// Length of the region in bytes.
    pub len: usize,
    /// Set while the engine holds the surface; the orchestrator only reads it.
    pub locked: bool,
}

/// An ordered fixed-size collection of surfaces sharing one format and one
/// backing arena, created once per pipeline stage.
pub struct SurfacePool {
    pub format: FrameFormat,
    pub per_surface: usize,
    pub surfaces: Vec<Surface>,
    pub arena: Vec<u8>,
}

impl SurfacePool {
    /// Number of surfaces in the pool.
    pub open spec fn count(self) -> int {
        self.surfaces@.len() as int
    }

    /// Whether surface `i` is currently held by the engine.
    pub open spec fn locked_at(self, i: int) -> bool {
        self.surfaces@[i].locked
    }

    /// Every surface of the pool is locked.
    pub open spec fn all_locked(self) -> bool {
        forall|i: int| 0 <= i < self.count() ==> self.locked_at(i)
    }

    /// Start of surface `i`'s region in the arena.
    pub open spec fn surface_start(self, i: int) -> int {
        i * self.per_surface
    }

    /// Well-formedness: a well-formed format whose layout fits each surface,
    /// and surfaces that tile the arena in order without gaps or overlap.
    pub open spec fn wf(self) -> bool {
        &&& self.format.wf()
        &&& self.format.min_surface_bytes() <= self.per_surface
        &&& self.arena@.len() == self.count() * self.per_surface
        &&& forall|i: int|
            0 <= i < self.count() ==> {
                &&& (#[trigger] self.surfaces@[i]).offset == i * self.per_surface
                &&& self.surfaces@[i].len == self.per_surface
            }
    }

    /// Allocates one zeroed arena of `count * per_surface` bytes and carves
    /// `count` unlocked surfaces out of it.
    pub fn create(format: FrameFormat, count: usize, per_surface: usize) -> (p: SurfacePool)
        requires
            format.wf(),
            format.min_surface_bytes() <= per_surface,
            count * per_surface <= usize::MAX,
        ensures
            p.wf(),
            p.format == format,
            p.per_surface == per_surface,
            p.count() == count,
            forall|i: int| 0 <= i < count ==> !p.locked_at(i),
            p.arena@ == Seq::new((count * per_surface) as nat, |k: int| 0u8),
    {
        let total = count * per_surface;
        let mut arena: Vec<u8> = Vec::new();
        let mut j: usize = 0;
        while j < total
            invariant
                j <= total,
                arena@.len() == j,
                forall|k: int| 0 <= k < j ==> arena@[k] == 0u8,
            decreases total - j,
        {
            arena.push(0);
            j = j + 1;
        }
        let mut surfaces: Vec<Surface> = Vec::new();
        let mut i: usize = 0;
        while i < count
            invariant
                i <= count,
                count * per_surface <= usize::MAX,
                surfaces@.len() == i,
                forall|k: int|
                    0 <= k < i ==> {
                        &&& (#[trigger] surfaces@[k]).offset == k * per_surface
                        &&& surfaces@[k].len == per_surface
                        &&& !surfaces@[k].locked
                    },
            decreases count - i,
        {
            assert(i * per_surface <= count * per_surface) by (nonlinear_arith)
                requires
                    i <= count,
                    0 <= per_surface,
            ;
            surfaces.push(Surface { offset: i * per_surface, len: per_surface, locked: false });
            i = i + 1;
        }
        let p = SurfacePool { format, per_surface, surfaces, arena };
        proof {
            assert(p.arena@ =~= Seq::new((count * per_surface) as nat, |k: int| 0u8));
        }
        p
    }

    /// Linearly scans for the lowest-indexed surface whose locked flag is
    /// clear. A synchronous, non-blocking check: when every surface is
    /// locked the pool reports `PoolExhausted` rather than waiting.
    pub fn acquire_free(&self) -> (r: Result<usize, PipelineError>)
        ensures
            match r {
                Ok(i) => {
                    &&& i < self.count()
                    &&& !self.locked_at(i as int)
                    &&& forall|j: int| 0 <= j < i ==> self.locked_at(j)
                },
                Err(e) => {
                    &&& e == PipelineError::PoolExhausted
                    &&& self.all_locked()
                },
            },
    {
        let n = self.surfaces.len();
        let mut i: usize = 0;
        while i < n
            invariant
                i <= n,
                n == self.count(),
                forall|j: int| 0 <= j < i ==> self.locked_at(j),
            decreases n - i,
        {
            if !self.surfaces[i].locked {
                return Ok(i);
            }
            i = i + 1;
        }
        Err(PipelineError::PoolExhausted)
    }

    /// Records the engine's view of surface `i`'s exclusivity flag.
    pub fn set_locked(&mut self, i: usize, v: bool)
        requires
            i < old(self).count(),
        ensures
            final(self).format == old(self).format,
            final(self).per_surface == old(self).per_surface,
            final(self).arena == old(self).arena,
            final(self).surfaces@ == old(self).surfaces@.update(
                i as int,
                (Surface {
                    offset: old(self).surfaces@[i as int].offset,
                    len: old(self).surfaces@[i as int].len,
                    locked: v,
                }),
            ),
            old(self).wf() ==> final(self).wf(),
    {
        let s = self.surfaces[i];
        self.surfaces.set(i, Surface { offset: s.offset, len: s.len, locked: v });
    }

    /// Start of surface `i`'s region, with the in-arena bound that makes the
    /// region usable.
    pub fn start_of(&self, i: usize) -> (r: usize)
        requires
            self.wf(),
            i < self.count(),
        ensures
            r == self.surface_start(i as int),
            r + self.per_surface <= self.arena@.len(),
    {
        let arena_len = self.arena.len();
        assert(i * self.per_surface + self.per_surface <= self.count() * self.per_surface)
            by (nonlinear_arith)
            requires
                0 <= i,
                i < self.count(),
                0 <= self.per_surface,
        ;
        assert(i * self.per_surface + self.per_surface <= arena_len);
        i * self.per_surface
    }

    /// Copies `n` bytes of `src` starting at `src_at` into the arena at
    /// `dst_at`, leaving every other arena byte unchanged.
    pub fn copy_region(&mut self, dst_at: usize, src: &Vec<u8>, src_at: usize, n: usize)
        requires
            dst_at + n <= old(self).arena@.len(),
            src_at + n <= src@.len(),
        ensures
            final(self).format == old(self).format,
            final(self).per_surface == old(self).per_surface,
            final(self).surfaces == old(self).surfaces,
            final(self).arena@.len() == old(self).arena@.len(),
            forall|k: int|
                dst_at <= k < dst_at + n ==> final(self).arena@[k] == src@[src_at + (k - dst_at)],
            forall|k: int|
                0 <= k < old(self).arena@.len() && !(dst_at <= k < dst_at + n)
                    ==> final(self).arena@[k] == old(self).arena@[k],
    {
        let ghost arena0 = self.arena@;
        let arena_len = self.arena.len();
        let src_len = src.len();
        let mut j: usize = 0;
        while j < n
            invariant
                j <= n,
                arena_len == self.arena@.len(),
                src_len == src@.len(),
                dst_at + n <= self.arena@.len(),
                src_at + n <= src@.len(),
                self.format == old(self).format,
                self.per_surface == old(self).per_surface,
                self.surfaces == old(self).surfaces,
                self.arena@.len() == arena0.len(),
                forall|k: int|
                    dst_at <= k < dst_at + j ==> self.arena@[k] == src@[src_at + (k - dst_at)],
                forall|k: int|
                    0 <= k < arena0.len() && !(dst_at <= k < dst_at + j)
                        ==> self.arena@[k] == arena0[k],
            decreases n - j,
        {
            let b = src[src_at + j];
            self.arena.set(dst_at + j, b);
            j = j + 1;
        }
    }

    /// Copies `n` bytes of `src` starting at `src_at` into every second arena
    /// byte beginning at `dst_at`: the 2-byte-strided sub-layout chroma
    /// components are de-interleaved into.
    pub fn copy_strided2(&mut self, dst_at: usize, src: &Vec<u8>, src_at: usize, n: usize)
        requires
            n > 0 ==> dst_at + 2 * (n - 1) < old(self).arena@.len(),
            src_at + n <= src@.len(),
        ensures
            final(self).format == old(self).format,
            final(self).per_surface == old(self).per_surface,
            final(self).surfaces == old(self).surfaces,
            final(self).arena@.len() == old(self).arena@.len(),
            forall|k: int|
                dst_at <= k <= dst_at + 2 * (n - 1) && n > 0 && (k - dst_at) % 2 == 0
                    ==> final(self).arena@[k] == src@[src_at + (k - dst_at) / 2],
            forall|k: int|
                0 <= k < old(self).arena@.len()
                    && !(dst_at <= k <= dst_at + 2 * (n - 1) && n > 0 && (k - dst_at) % 2 == 0)
                    ==> final(self).arena@[k] == old(self).arena@[k],
    {
        let ghost arena0 = self.arena@;
        let arena_len = self.arena.len();
        let src_len = src.len();
        let mut j: usize = 0;
        while j < n
            invariant
                j <= n,
                arena_len == self.arena@.len(),
                src_len == src@.len(),
                n > 0 ==> dst_at + 2 * (n - 1) < self.arena@.len(),
                src_at + n <= src@.len(),
                self.format == old(self).format,
                self.per_surface == old(self).per_surface,
                self.surfaces == old(self).surfaces,
                self.arena@.len() == arena0.len(),
                forall|k: int|
                    dst_at <= k <= dst_at + 2 * (j - 1) && j > 0 && (k - dst_at) % 2 == 0
                        ==> self.arena@[k] == src@[src_at + (k - dst_at) / 2],
                forall|k: int|
                    0 <= k < arena0.len()
                        && !(dst_at <= k <= dst_at + 2 * (j - 1) && j > 0 && (k - dst_at) % 2 == 0)
                        ==> self.arena@[k] == arena0[k],
            decreases n - j,
        {
            let b = src[src_at + j];
            self.arena.set(dst_at + 2 * j, b);
            j = j + 1;
        }
    }
}

/// Hands a completed pre-processing output on to the encode stage by copying
/// the logical frame's bytes between the two pools' arenas. The copy is
/// refused with `SizeMismatch` exactly when the two surfaces' computed byte
/// sizes differ — the guard against silent format-mismatch corruption; sizes
/// that agree are copied whatever the two geometries are.
pub fn vpp_to_enc_surface(
    src: &SurfacePool,
    src_idx: usize,
    dst: &mut SurfacePool,
    dst_idx: usize,
) -> (r: Result<(), PipelineError>)
    requires
        src.wf(),
        old(dst).wf(),
        src_idx < src.count(),
        dst_idx < old(dst).count(),
        src.format.is_yuv420(),
        old(dst).format.is_yuv420(),
    ensures
        final(dst).format == old(dst).format,
        final(dst).per_surface == old(dst).per_surface,
        final(dst).surfaces == old(dst).surfaces,
        final(dst).wf(),
        final(dst).arena@.len() == old(dst).arena@.len(),
        r is Err <==> src.format.spec_computed_size() != old(dst).format.spec_computed_size(),
        r is Err ==> r == Err::<(), PipelineError>(PipelineError::SizeMismatch) && final(dst).arena@
            == old(dst).arena@,
        r is Ok ==> {
            let sz = src.format.spec_computed_size();
            let d0 = old(dst).surface_start(dst_idx as int);
            let s0 = src.surface_start(src_idx as int);
            &&& forall|k: int| d0 <= k < d0 + sz ==> final(dst).arena@[k] == src.arena@[s0 + (k - d0)]
            &&& forall|k: int|
                0 <= k < old(dst).arena@.len() && !(d0 <= k < d0 + sz) ==> final(dst).arena@[k]
                    == old(dst).arena@[k]
        },
{
    let src_arena_len = src.arena.len();
    let dst_arena_len = dst.arena.len();
    proof {
        src.format.lemma_computed_size_fits();
        dst.format.lemma_computed_size_fits();
        assert(src.per_surface <= src.count() * src.per_surface) by (nonlinear_arith)
            requires
                1 <= src.count(),
                0 <= src.per_surface,
        ;
        assert(dst.per_surface <= dst.count() * dst.per_surface) by (nonlinear_arith)
            requires
                1 <= dst.count(),
                0 <= dst.per_surface,
        ;
    }
    let sz_src = src.format.computed_size();
    let sz_dst = dst.format.computed_size();
    if sz_src != sz_dst {
        return Err(PipelineError::SizeMismatch);
    }
    let s0 = src.start_of(src_idx);
    let d0 = dst.start_of(dst_idx);
    dst.copy_region(d0, &src.arena, s0, sz_src);
    Ok(())
}

} // verus!
