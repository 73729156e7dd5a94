//! The immutable frame descriptor shared by every surface of a pool: surface
//! dimensions, crop rectangle, row pitch and chroma layout, together with the
//! byte-size and plane-offset rules the loader and the pools build on.

use crate::params::{
    mfxFrameInfo, MFX_CHROMAFORMAT_MONOCHROME, MFX_CHROMAFORMAT_YUV420, MFX_FOURCC_NV12,
};
use vstd::prelude::*;

verus! {

/// How chroma samples are arranged in a surface.
#[derive(Clone, Copy, PartialEq, Eq, Structural, Debug)]
pub enum ChromaLayout {
    /// Luma plane only.
    Monochrome,
    /// Two separate quarter-size chroma planes after the luma plane.
    Yuv420Planar,
    /// One interleaved half-size chroma plane immediately after the luma plane.
    Yuv420SemiPlanar,
}

/// Immutable descriptor of a surface's pixel layout. `width` and `height` are
/// the allocated surface dimensions; the crop rectangle is the logical frame
/// inside them; `pitch` is the byte distance between row starts, at least
/// `width`. Produced once when a pool is created and never mutated.
#[derive(Clone, Copy, PartialEq, Eq, Structural, Debug)]
pub struct FrameFormat {
    pub width: u16,
    pub height: u16,
    pub crop_x: u16,
    pub crop_y: u16,
    pub crop_w: u16,
    pub crop_h: u16,
    pub pitch: u16,
    pub chroma: ChromaLayout,
}

impl FrameFormat {
    /// Internal consistency of the descriptor: a non-empty crop rectangle
    /// inside the surface, rows that fit the pitch, and even geometry
    /// wherever 4:2:0 chroma subsampling halves a dimension.
    pub open spec fn wf(self) -> bool {
        &&& 0 < self.crop_w
        &&& 0 < self.crop_h
        &&& self.crop_x + self.crop_w <= self.pitch
        &&& self.crop_y + self.crop_h <= self.height
        &&& self.width <= self.pitch
        &&& self.height % 2 == 0
        &&& self.pitch % 2 == 0
        &&& (self.chroma != ChromaLayout::Monochrome ==> {
            &&& self.crop_x % 2 == 0
            &&& self.crop_y % 2 == 0
            &&& self.crop_w % 2 == 0
            &&& self.crop_h % 2 == 0
        })
    }

    /// Bytes of luma data one raw input frame carries.
    pub open spec fn luma_frame_bytes(self) -> int {
        self.crop_w * self.crop_h
    }

    /// Bytes of one chroma plane of a raw input frame (a quarter of the luma
    /// plane under 4:2:0 subsampling).
    pub open spec fn chroma_frame_bytes(self) -> int {
        if self.chroma is Monochrome {
            0
        } else {
            self.crop_w * self.crop_h / 4
        }
    }

    /// Bytes one raw input frame occupies in the input stream: luma plane
    /// followed by two chroma planes (3/2 of the luma size for 4:2:0).
    pub open spec fn frame_bytes(self) -> int {
        self.luma_frame_bytes() + 2 * self.chroma_frame_bytes()
    }

    /// Offset of the (first) chroma plane inside a surface: right after the
    /// full-pitch luma plane.
    pub open spec fn chroma_offset(self) -> int {
        self.pitch * self.height
    }

    /// Offset of the second chroma plane: a separate quarter-size plane for
    /// the planar layout, the first odd interleaved byte for the semi-planar
    /// layout.
    pub open spec fn chroma2_offset(self) -> int {
        match self.chroma {
            ChromaLayout::Monochrome => self.chroma_offset(),
            ChromaLayout::Yuv420Planar => self.chroma_offset() + self.pitch * self.height / 4,
            ChromaLayout::Yuv420SemiPlanar => self.chroma_offset() + 1,
        }
    }

    /// Least per-surface arena size the layout needs: the luma plane plus
    /// half that again for 4:2:0 chroma.
    pub open spec fn min_surface_bytes(self) -> int {
        if self.chroma is Monochrome {
            self.pitch * self.height
        } else {
            self.pitch * self.height + self.pitch * self.height / 2
        }
    }

    /// The format carries 4:2:0 chroma, in either arrangement.
    pub open spec fn is_yuv420(self) -> bool {
        self.chroma != ChromaLayout::Monochrome
    }

    /// Rows are contiguous and the crop origin sits at the surface origin,
    /// so each plane can be loaded as one full block.
    pub open spec fn is_direct(self) -> bool {
        &&& self.pitch == self.crop_w
        &&& self.crop_x == 0
        &&& self.crop_y == 0
    }

    /// One raw frame fits inside the least surface size the layout demands.
    pub proof fn lemma_frame_fits(self)
        requires
            self.wf(),
        ensures
            self.frame_bytes() <= self.min_surface_bytes(),
    {
        let cw = self.crop_w as int;
        let ch = self.crop_h as int;
        let ph = self.pitch as int * self.height as int;
        assert(cw * ch <= ph) by (nonlinear_arith)
            requires
                0 <= cw <= self.pitch as int,
                0 <= ch <= self.height as int,
                ph == self.pitch as int * self.height as int,
        ;
        if self.is_yuv420() {
            assert(2 * (cw * ch / 4) <= cw * ch / 2) by (nonlinear_arith)
                requires
                    0 <= cw * ch,
            ;
            assert(cw * ch / 2 <= ph / 2) by (nonlinear_arith)
                requires
                    0 <= cw * ch <= ph,
            ;
        }
    }

    /// Computes the bytes one raw frame occupies in the input stream.
    pub fn frame_size(&self) -> (r: usize)
        requires
            self.wf(),
            self.min_surface_bytes() <= usize::MAX,
        ensures
            r == self.frame_bytes(),
    {
        proof {
            self.lemma_frame_fits();
        }
        let cw = self.crop_w as u64;
        let ch = self.crop_h as u64;
        assert(cw * ch <= 0xFFFF * 0xFFFF) by (nonlinear_arith)
            requires
                cw <= 0xFFFF,
                ch <= 0xFFFF,
        ;
        let lb: u64 = cw * ch;
        let fb: u64 = match self.chroma {
            ChromaLayout::Monochrome => lb,
            ChromaLayout::Yuv420Planar => lb + 2 * (lb / 4),
            ChromaLayout::Yuv420SemiPlanar => lb + 2 * (lb / 4),
        };
        fb as usize
    }

    /// Computes the luma plane's share of one raw frame.
    pub fn luma_size(&self) -> (r: usize)
        requires
            self.wf(),
            self.min_surface_bytes() <= usize::MAX,
        ensures
            r == self.luma_frame_bytes(),
    {
        proof {
            self.lemma_frame_fits();
        }
        let cw = self.crop_w as u64;
        let ch = self.crop_h as u64;
        assert(cw * ch <= 0xFFFF * 0xFFFF) by (nonlinear_arith)
            requires
                cw <= 0xFFFF,
                ch <= 0xFFFF,
        ;
        (cw * ch) as usize
    }

    /// Computes one chroma plane's share of one raw frame.
    pub fn chroma_size(&self) -> (r: usize)
        requires
            self.wf(),
            self.min_surface_bytes() <= usize::MAX,
        ensures
            r == self.chroma_frame_bytes(),
    {
        let lb = self.luma_size();
        match self.chroma {
            ChromaLayout::Monochrome => 0,
            ChromaLayout::Yuv420Planar => lb / 4,
            ChromaLayout::Yuv420SemiPlanar => lb / 4,
        }
    }

    /// Computes the offset of the (first) chroma plane inside a surface.
    pub fn chroma_off(&self) -> (r: usize)
        requires
            self.wf(),
            self.min_surface_bytes() <= usize::MAX,
        ensures
            r == self.chroma_offset(),
    {
        let p = self.pitch as u64;
        let h = self.height as u64;
        assert(p * h <= 0xFFFF * 0xFFFF) by (nonlinear_arith)
            requires
                p <= 0xFFFF,
                h <= 0xFFFF,
        ;
        (p * h) as usize
    }

    /// The computed byte size of the logical frame held by a surface of this
    /// format, at 12 bits per pixel: the quantity two surfaces must agree on
    /// before a cross-stage copy.
    pub open spec fn spec_computed_size(self) -> int {
        self.crop_w * self.crop_h * 12 / 8
    }

    /// The logical frame of a 4:2:0 format fits inside the least surface
    /// size its layout demands.
    pub proof fn lemma_computed_size_fits(self)
        requires
            self.wf(),
            self.is_yuv420(),
        ensures
            self.spec_computed_size() <= self.min_surface_bytes(),
    {
        let cw = self.crop_w as int;
        let ch = self.crop_h as int;
        let ph = self.pitch as int * self.height as int;
        assert(cw * ch <= ph) by (nonlinear_arith)
            requires
                0 <= cw <= self.pitch as int,
                0 <= ch <= self.height as int,
                ph == self.pitch as int * self.height as int,
        ;
        assert(cw * ch * 12 / 8 == cw * ch + cw * ch / 2) by (nonlinear_arith)
            requires
                0 <= cw * ch,
        ;
        assert(cw * ch / 2 <= ph / 2) by (nonlinear_arith)
            requires
                0 <= cw * ch <= ph,
        ;
    }

    /// Computes the 12-bits-per-pixel byte size of the logical frame.
    pub fn computed_size(&self) -> (r: usize)
        requires
            self.spec_computed_size() <= usize::MAX,
        ensures
            r == self.spec_computed_size(),
    {
        let w = self.crop_w as u64;
        let h = self.crop_h as u64;
        assert(w * h <= 0xFFFF * 0xFFFF) by (nonlinear_arith)
            requires
                w <= 0xFFFF,
                h <= 0xFFFF,
        ;
        let sz: u64 = w * h * 12 / 8;
        sz as usize
    }

    /// Reads the descriptor out of an engine parameter block. The packing tag
    /// is the block's four-character code: the interleaved-chroma code maps
    /// to the semi-planar layout, every other 4:2:0 code to separate planes.
    /// The surface width doubles as the row pitch, as the pools allocate it.
    pub fn from_info(info: &mfxFrameInfo) -> (r: FrameFormat)
        ensures
            r.width == info.Width,
            r.height == info.Height,
            r.crop_x == info.CropX,
            r.crop_y == info.CropY,
            r.crop_w == info.CropW,
            r.crop_h == info.CropH,
            r.pitch == info.Width,
            r.chroma == (if info.ChromaFormat == MFX_CHROMAFORMAT_MONOCHROME {
                ChromaLayout::Monochrome
            } else if info.FourCC == MFX_FOURCC_NV12 {
                ChromaLayout::Yuv420SemiPlanar
            } else {
                ChromaLayout::Yuv420Planar
            }),
    {
        let chroma = if info.ChromaFormat == MFX_CHROMAFORMAT_MONOCHROME {
            ChromaLayout::Monochrome
        } else if info.FourCC == MFX_FOURCC_NV12 {
            ChromaLayout::Yuv420SemiPlanar
        } else {
            ChromaLayout::Yuv420Planar
        };
        FrameFormat {
            width: info.Width,
            height: info.Height,
            crop_x: info.CropX,
            crop_y: info.CropY,
            crop_w: info.CropW,
            crop_h: info.CropH,
            pitch: info.Width,
            chroma,
        }
    }
}

} // verus!
