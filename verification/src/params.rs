//! Parameter blocks exchanged with the codec engine, and the size-alignment
//! helpers used when sizing surfaces. Only the subset of fields that the
//! orchestrator reads or writes is modeled; hardware-API unions are carried
//! as structs holding their consumed members.

use vstd::prelude::*;

verus! {

/// Rounds `x` up to the next multiple of 16.
pub fn align16(x: u16) -> (r: u16)
    requires
        x <= 0xFFF0,
    ensures
        r % 16 == 0,
        x <= r < x + 16,
{
    let r = ((x + 15) >> 4) << 4;
    proof {
        assert(r % 16 == 0 && x <= r < x + 16) by (bit_vector)
            requires
                x <= 0xFFF0,
                r == ((x + 15) as u16 >> 4) << 4,
        ;
    }
    r
}

/// Rounds `x` up to the next multiple of 32.
pub fn align32(x: u32) -> (r: u32)
    requires
        x <= 0xFFFF_FFE0,
    ensures
        r % 32 == 0,
        x <= r < x + 32,
{
    let r = (x + 31) & !31;
    proof {
        assert(r % 32 == 0 && x <= r < x + 32) by (bit_vector)
            requires
                x <= 0xFFFF_FFE0,
                r == (x + 31) as u32 & !31,
        ;
    }
    r
}

pub const MFX_CODEC_AVC: u32 = 0x20435641;

pub const MFX_FOURCC_NV12: u32 = 0x3231564e;

pub const MFX_FOURCC_YV12: u32 = 0x32315659;

pub const MFX_RATECONTROL_CBR: u16 = 1;

pub const MFX_RATECONTROL_VBR: u16 = 2;

pub const MFX_CHROMAFORMAT_MONOCHROME: u16 = 0;

pub const MFX_CHROMAFORMAT_YUV420: u16 = 1;

pub const MFX_PICSTRUCT_UNKNOWN: u16 = 0;

pub const MFX_PICSTRUCT_PROGRESSIVE: u16 = 1;

pub const MFX_IOPATTERN_IN_VIDEO_MEMORY: u16 = 0x01;

pub const MFX_IOPATTERN_IN_SYSTEM_MEMORY: u16 = 0x02;

pub const MFX_IOPATTERN_OUT_VIDEO_MEMORY: u16 = 0x10;

pub const MFX_IOPATTERN_OUT_SYSTEM_MEMORY: u16 = 0x20;

pub const MFX_TARGETUSAGE_BEST_QUALITY: u16 = 1;

pub const MFX_TARGETUSAGE_BALANCED: u16 = 4;

pub const MFX_TARGETUSAGE_BEST_SPEED: u16 = 7;

pub struct mfxVersion {
    pub Minor: u16,
    pub Major: u16,
}

impl mfxVersion {
    pub fn new(Major: u16, Minor: u16) -> (r: Self)
        ensures
            r.Major == Major,
            r.Minor == Minor,
    {
        mfxVersion { Major, Minor }
    }
}

#[derive(Clone, Copy)]
pub struct mfxFrameIdStruct1 {
    pub DependencyId: u16,
    pub QualityId: u16,
}

impl mfxFrameIdStruct1 {
    pub fn new() -> (r: Self)
        ensures
            r.DependencyId == 0,
            r.QualityId == 0,
    {
        mfxFrameIdStruct1 { DependencyId: 0, QualityId: 0 }
    }
}

#[derive(Clone, Copy)]
pub struct mfxFrameIdStruct2 {
    pub ViewId: u16,
}

impl mfxFrameIdStruct2 {
    pub fn new() -> (r: Self)
        ensures
            r.ViewId == 0,
    {
        mfxFrameIdStruct2 { ViewId: 0 }
    }
}

/// In the engine's API this is a union of the two id layouts; only the
/// scalable-coding member is ever consumed, so it is carried directly.
#[derive(Clone, Copy)]
pub struct mfxFrameIdUnion {
    pub s1: mfxFrameIdStruct1,
}

impl mfxFrameIdUnion {
    pub fn new() -> (r: Self)
        ensures
            r.s1.DependencyId == 0,
            r.s1.QualityId == 0,
    {
        mfxFrameIdUnion { s1: mfxFrameIdStruct1::new() }
    }
}

#[derive(Clone, Copy)]
pub struct mfxFrameId {
    pub TemporalId: u16,
    pub PriorityId: u16,
    pub u: mfxFrameIdUnion,
}

impl mfxFrameId {
    pub fn new() -> (r: Self)
        ensures
            r.TemporalId == 0,
            r.PriorityId == 0,
            r.u.s1.DependencyId == 0,
            r.u.s1.QualityId == 0,
    {
        mfxFrameId { TemporalId: 0, PriorityId: 0, u: mfxFrameIdUnion::new() }
    }
}

#[derive(Clone, Copy)]
pub struct mfxFrameInfo {
    pub reserved: [u32; 4],
    pub reserved4: u16,
    pub BitDepthLuma: u16,
    pub BitDepthChroma: u16,
    pub Shift: u16,
    pub FrameId: mfxFrameId,
    pub FourCC: u32,
    pub Width: u16,
    pub Height: u16,
    pub CropX: u16,
    pub CropY: u16,
    pub CropW: u16,
    pub CropH: u16,
    pub FrameRateExtN: u32,
    pub FrameRateExtD: u32,
    pub reserved3: u16,
    pub AspectRatioW: u16,
    pub AspectRatioH: u16,
    pub PicStruct: u16,
    pub ChromaFormat: u16,
    pub reserved2: u16,
}

impl mfxFrameInfo {
    pub fn new() -> (r: Self)
        ensures
            r.BitDepthLuma == 0,
            r.BitDepthChroma == 0,
            r.Shift == 0,
            r.FourCC == 0,
            r.Width == 0,
            r.Height == 0,
            r.CropX == 0,
            r.CropY == 0,
            r.CropW == 0,
            r.CropH == 0,
            r.FrameRateExtN == 0,
            r.FrameRateExtD == 0,
            r.AspectRatioW == 0,
            r.AspectRatioH == 0,
            r.PicStruct == 0,
            r.ChromaFormat == 0,
    {
        mfxFrameInfo {
            reserved: [0; 4],
            reserved4: 0,
            BitDepthLuma: 0,
            BitDepthChroma: 0,
            Shift: 0,
            FrameId: mfxFrameId::new(),
            FourCC: 0,
            Width: 0,
            Height: 0,
            CropX: 0,
            CropY: 0,
            CropW: 0,
            CropH: 0,
            FrameRateExtN: 0,
            FrameRateExtD: 0,
            reserved3: 0,
            AspectRatioW: 0,
            AspectRatioH: 0,
            PicStruct: 0,
            ChromaFormat: 0,
            reserved2: 0,
        }
    }
}

/// Union of the initial-delay / quantizer / accuracy rate-control members;
/// only the initial-delay member is consumed.
pub struct mfxInfoMFXUnion1 {
    pub InitialDelayInKB: u16,
}

impl mfxInfoMFXUnion1 {
    pub fn new() -> (r: Self)
        ensures
            r.InitialDelayInKB == 0,
    {
        mfxInfoMFXUnion1 { InitialDelayInKB: 0 }
    }
}

/// Union of the target-bitrate / quantizer / quality members; only the
/// target-bitrate member is consumed.
pub struct mfxInfoMFXUnion2 {
    pub TargetKbps: u16,
}

impl mfxInfoMFXUnion2 {
    pub fn new() -> (r: Self)
        ensures
            r.TargetKbps == 0,
    {
        mfxInfoMFXUnion2 { TargetKbps: 0 }
    }
}

/// Union of the max-bitrate / quantizer / convergence members; only the
/// max-bitrate member is consumed.
pub struct mfxInfoMFXUnion3 {
    pub MaxKbps: u16,
}

impl mfxInfoMFXUnion3 {
    pub fn new() -> (r: Self)
        ensures
            r.MaxKbps == 0,
    {
        mfxInfoMFXUnion3 { MaxKbps: 0 }
    }
}

pub struct mfxInfoMFX {
    pub reserved: [u32; 7],
    pub LowPower: u16,
    pub BRCParamMultiplier: u16,
    pub FrameInfo: mfxFrameInfo,
    pub CodecId: u32,
    pub CodecProfile: u16,
    pub CodecLevel: u16,
    pub NumThread: u16,
    pub TargetUsage: u16,
    pub GopPicSize: u16,
    pub GopRefDist: u16,
    pub GopOptFlag: u16,
    pub IdrInterval: u16,
    pub RateControlMethod: u16,
    pub u1: mfxInfoMFXUnion1,
    pub BufferSizeInKB: u16,
    pub u2: mfxInfoMFXUnion2,
    pub u3: mfxInfoMFXUnion3,
    pub NumSlice: u16,
    pub NumRefFrame: u16,
    pub EncodedOrder: u16,
}

impl mfxInfoMFX {
    pub fn new() -> (r: Self)
        ensures
            r.CodecId == 0,
            r.TargetUsage == 0,
            r.RateControlMethod == 0,
            r.u1.InitialDelayInKB == 0,
            r.BufferSizeInKB == 0,
            r.u2.TargetKbps == 0,
            r.u3.MaxKbps == 0,
            r.FrameInfo.Width == 0,
            r.FrameInfo.Height == 0,
            r.FrameInfo.CropW == 0,
            r.FrameInfo.CropH == 0,
    {
        mfxInfoMFX {
            reserved: [0; 7],
            LowPower: 0,
            BRCParamMultiplier: 0,
            FrameInfo: mfxFrameInfo::new(),
            CodecId: 0,
            CodecProfile: 0,
            CodecLevel: 0,
            NumThread: 0,
            TargetUsage: 0,
            GopPicSize: 0,
            GopRefDist: 0,
            GopOptFlag: 0,
            IdrInterval: 0,
            RateControlMethod: 0,
            u1: mfxInfoMFXUnion1::new(),
            BufferSizeInKB: 0,
            u2: mfxInfoMFXUnion2::new(),
            u3: mfxInfoMFXUnion3::new(),
            NumSlice: 0,
            NumRefFrame: 0,
            EncodedOrder: 0,
        }
    }
}

pub struct mfxExtBuffer {
    pub BufferId: u32,
    pub BufferSz: u32,
}

impl mfxExtBuffer {
    pub fn new() -> (r: Self)
        ensures
            r.BufferId == 0,
            r.BufferSz == 0,
    {
        mfxExtBuffer { BufferId: 0, BufferSz: 0 }
    }
}

pub struct mfxInfoVPP {
    pub reserved: [u32; 8],
    pub In: mfxFrameInfo,
    pub Out: mfxFrameInfo,
}

impl mfxInfoVPP {
    pub fn new() -> (r: Self)
        ensures
            r.In.Width == 0 && r.In.Height == 0 && r.In.CropW == 0 && r.In.CropH == 0,
            r.Out.Width == 0 && r.Out.Height == 0 && r.Out.CropW == 0 && r.Out.CropH == 0,
    {
        mfxInfoVPP { reserved: [0; 8], In: mfxFrameInfo::new(), Out: mfxFrameInfo::new() }
    }
}

/// In the engine's API the encode and the pre-processing parameter blocks
/// overlay each other in a union; a session consumes one of the two, so both
/// members are carried side by side.
pub struct mfxVideoParamUnion {
    pub mfx: mfxInfoMFX,
    pub vpp: mfxInfoVPP,
}

impl mfxVideoParamUnion {
    pub fn new() -> (r: Self)
        ensures
            r.mfx.CodecId == 0,
            r.mfx.u2.TargetKbps == 0,
            r.vpp.In.CropW == 0 && r.vpp.Out.CropW == 0,
    {
        mfxVideoParamUnion { mfx: mfxInfoMFX::new(), vpp: mfxInfoVPP::new() }
    }
}

/// The engine's session configuration block. The extension-buffer pointer
/// array of the hardware API is not modeled; no extension buffers are ever
/// attached, which `NumExtParam == 0` records.
pub struct mfxVideoParam {
    pub AllocId: u32,
    pub reserved: [u32; 2],
    pub reserved3: u16,
    pub AsyncDepth: u16,
    pub u: mfxVideoParamUnion,
    pub Protected: u16,
    pub IOPattern: u16,
    pub NumExtParam: u16,
    pub reserved2: u16,
}

impl mfxVideoParam {
    pub fn new() -> (r: Self)
        ensures
            r.AllocId == 0,
            r.AsyncDepth == 0,
            r.Protected == 0,
            r.IOPattern == 0,
            r.NumExtParam == 0,
            r.u.mfx.CodecId == 0,
            r.u.mfx.u2.TargetKbps == 0,
            r.u.vpp.In.CropW == 0 && r.u.vpp.Out.CropW == 0,
    {
        mfxVideoParam {
            AllocId: 0,
            reserved: [0; 2],
            reserved3: 0,
            AsyncDepth: 0,
            u: mfxVideoParamUnion::new(),
            Protected: 0,
            IOPattern: 0,
            NumExtParam: 0,
            reserved2: 0,
        }
    }
}

pub struct mfxFrameAllocRequest {
    pub AllocId: u32,
    pub reserved3: [u32; 3],
    pub Info: mfxFrameInfo,
    pub Type: u16,
    pub NumFrameMin: u16,
    pub NumFrameSuggested: u16,
    pub reserved2: u16,
}

impl mfxFrameAllocRequest {
    pub fn new() -> (r: Self)
        ensures
            r.AllocId == 0,
            r.Type == 0,
            r.NumFrameMin == 0,
            r.NumFrameSuggested == 0,
            r.Info.Width == 0 && r.Info.Height == 0,
    {
        mfxFrameAllocRequest {
            AllocId: 0,
            reserved3: [0; 3],
            Info: mfxFrameInfo::new(),
            Type: 0,
            NumFrameMin: 0,
            NumFrameSuggested: 0,
            reserved2: 0,
        }
    }
}

/// Per-frame encode control block; the payload and extension pointer arrays
/// of the hardware API are not modeled.
pub struct mfxEncodeCtrl {
    pub Header: mfxExtBuffer,
    pub reserved: [u32; 5],
    pub SkipFrame: u16,
    pub QP: u16,
    pub FrameType: u16,
    pub NumExtParam: u16,
    pub NumPayload: u16,
    pub reserved2: u16,
}

/// Descriptor of one inserted bitstream payload; the data pointer of the
/// hardware API is not modeled.
pub struct mfxPayload {
    pub reserved: [u32; 4],
    pub NumBit: u32,
    pub Type: u16,
    pub BufSize: u16,
}

/// Auxiliary statistics block the pre-processing stage can fill.
pub struct mfxExtVppAuxData {
    pub Header: mfxExtBuffer,
    pub SpatialComplexity: u32,
    pub TemporalComplexity: u32,
    pub SceneChangeRate: u16,
    pub RepeatedFrame: u16,
}

} // verus!
