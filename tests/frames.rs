use scapsrc::error::SourceError;
use scapsrc::frame::{
    supported_layouts, translate_tag, BackendPixelTag, FrameInfo, PixelLayout, RawFrame, VideoFormat,
};

fn raw(tag: BackendPixelTag, width: u32, height: u32, ts: u64) -> RawFrame {
    RawFrame { tag, width, height, capture_timestamp: ts, data: vec![1, 2, 3, 4] }
}

#[test]
fn each_supported_tag_maps_to_its_layout() {
    assert_eq!(translate_tag(BackendPixelTag::Rgb), Ok(PixelLayout::Rgb));
    assert_eq!(translate_tag(BackendPixelTag::Rgbx), Ok(PixelLayout::Rgbx));
    assert_eq!(translate_tag(BackendPixelTag::Xbgr), Ok(PixelLayout::Xbgr));
    assert_eq!(translate_tag(BackendPixelTag::Bgrx), Ok(PixelLayout::Bgrx));
    assert_eq!(translate_tag(BackendPixelTag::Bgra), Ok(PixelLayout::Bgra));
}

#[test]
fn bgr0_is_emitted_as_bgrx() {
    assert_eq!(translate_tag(BackendPixelTag::Bgr0), Ok(PixelLayout::Bgrx));
}

#[test]
fn planar_frames_are_unsupported() {
    assert_eq!(translate_tag(BackendPixelTag::Yuv), Err(SourceError::UnsupportedFormat));
    assert_eq!(FrameInfo::new(&raw(BackendPixelTag::Yuv, 640, 480, 7)), None);
}

#[test]
fn frame_info_keeps_size_and_capture_time() {
    let info = FrameInfo::new(&raw(BackendPixelTag::Bgr0, 1920, 1080, 123_456)).unwrap();
    assert_eq!(info.width, 1920);
    assert_eq!(info.height, 1080);
    assert_eq!(info.layout, PixelLayout::Bgrx);
    assert_eq!(info.pts, 123_456);
    let f = info.format();
    assert_eq!((f.layout, f.width, f.height), (PixelLayout::Bgrx, 1920, 1080));
}

#[test]
fn advertised_layouts() {
    assert_eq!(
        supported_layouts(),
        vec![PixelLayout::Rgb, PixelLayout::Rgbx, PixelLayout::Xbgr, PixelLayout::Bgrx, PixelLayout::Bgra]
    );
}

#[test]
fn block_size_is_four_bytes_per_pixel() {
    let f = |width: u32, height: u32| VideoFormat { layout: PixelLayout::Bgrx, width, height };
    assert_eq!(f(1920, 1080).block_size(), 8_294_400);
    assert_eq!(f(0, 1080).block_size(), 0);
    assert_eq!(f(0x3fff_ffff, 1).block_size(), 0xffff_fffc);
    assert_eq!(f(0x4000_0000, 1).block_size(), u32::MAX);
    assert_eq!(f(65_536, 65_536).block_size(), u32::MAX);
    assert_eq!(f(u32::MAX, u32::MAX).block_size(), u32::MAX);
}
