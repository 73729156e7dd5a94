use mfx_pipeline::format::{ChromaLayout, FrameFormat};
use mfx_pipeline::params::{
    align16, align32, mfxFrameInfo, mfxVersion, mfxVideoParam, MFX_CHROMAFORMAT_MONOCHROME,
    MFX_CHROMAFORMAT_YUV420, MFX_FOURCC_NV12, MFX_FOURCC_YV12,
};

#[test]
fn align16_rounds_up_to_sixteen() {
    assert_eq!(align16(0), 0);
    assert_eq!(align16(1), 16);
    assert_eq!(align16(16), 16);
    assert_eq!(align16(17), 32);
    assert_eq!(align16(1920), 1920);
    assert_eq!(align16(1080), 1088);
    assert_eq!(align16(0xFFF0), 0xFFF0);
}

#[test]
fn align32_rounds_up_to_thirty_two() {
    assert_eq!(align32(0), 0);
    assert_eq!(align32(1), 32);
    assert_eq!(align32(32), 32);
    assert_eq!(align32(33), 64);
    assert_eq!(align32(1080), 1088);
}

#[test]
fn version_keeps_its_fields() {
    let v = mfxVersion::new(1, 0);
    assert_eq!(v.Major, 1);
    assert_eq!(v.Minor, 0);
}

#[test]
fn fresh_parameter_blocks_are_zeroed() {
    let p = mfxVideoParam::new();
    assert_eq!(p.AsyncDepth, 0);
    assert_eq!(p.IOPattern, 0);
    assert_eq!(p.NumExtParam, 0);
    assert_eq!(p.u.mfx.CodecId, 0);
    assert_eq!(p.u.mfx.u2.TargetKbps, 0);
    assert_eq!(p.u.vpp.In.CropW, 0);
    let i = mfxFrameInfo::new();
    assert_eq!(i.Width, 0);
    assert_eq!(i.FourCC, 0);
    assert_eq!(i.FrameId.u.s1.DependencyId, 0);
}

#[test]
fn format_reads_the_parameter_block() {
    let mut info = mfxFrameInfo::new();
    info.Width = 32;
    info.Height = 32;
    info.CropW = 30;
    info.CropH = 18;
    info.FourCC = MFX_FOURCC_NV12;
    info.ChromaFormat = MFX_CHROMAFORMAT_YUV420;
    let f = FrameFormat::from_info(&info);
    assert_eq!(f.width, 32);
    assert_eq!(f.pitch, 32);
    assert_eq!(f.crop_w, 30);
    assert_eq!(f.crop_h, 18);
    assert_eq!(f.chroma, ChromaLayout::Yuv420SemiPlanar);

    info.FourCC = MFX_FOURCC_YV12;
    let g = FrameFormat::from_info(&info);
    assert_eq!(g.chroma, ChromaLayout::Yuv420Planar);

    info.ChromaFormat = MFX_CHROMAFORMAT_MONOCHROME;
    let m = FrameFormat::from_info(&info);
    assert_eq!(m.chroma, ChromaLayout::Monochrome);
}

#[test]
fn computed_size_is_twelve_bits_per_pixel() {
    let f = FrameFormat {
        width: 32,
        height: 32,
        crop_x: 0,
        crop_y: 0,
        crop_w: 32,
        crop_h: 32,
        pitch: 32,
        chroma: ChromaLayout::Yuv420SemiPlanar,
    };
    assert_eq!(f.computed_size(), 1536);
    assert_eq!(f.frame_size(), 1536);
    assert_eq!(f.luma_size(), 1024);
    assert_eq!(f.chroma_size(), 256);
    assert_eq!(f.chroma_off(), 1024);
}
