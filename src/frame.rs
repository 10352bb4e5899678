use vstd::prelude::*;

use crate::error::SourceError;

verus! {

/// A pixel layout that the element emits downstream.
#[derive(Clone, Copy, Debug, PartialEq, Eq, Structural)]
pub enum PixelLayout {
    Rgb,
    Rgbx,
    Xbgr,
    Bgrx,
    Bgra,
}

/// Every layout the element can emit, in the order it advertises them.
pub fn supported_layouts() -> (r: Vec<PixelLayout>)
    ensures
        r@ == seq![
            PixelLayout::Rgb,
            PixelLayout::Rgbx,
            PixelLayout::Xbgr,
            PixelLayout::Bgrx,
            PixelLayout::Bgra,
        ],
        forall|t: BackendPixelTag| #[trigger] layout_of_tag(t) is Some ==> r@.contains(
            layout_of_tag(t).unwrap(),
        ),
{
    let r = vec![
        PixelLayout::Rgb,
        PixelLayout::Rgbx,
        PixelLayout::Xbgr,
        PixelLayout::Bgrx,
        PixelLayout::Bgra,
    ];
    assert forall|t: BackendPixelTag| #[trigger] layout_of_tag(t) is Some implies r@.contains(
        layout_of_tag(t).unwrap(),
    ) by {
        match t {
            BackendPixelTag::Rgb => assert(r@[0] == PixelLayout::Rgb),
            BackendPixelTag::Rgbx => assert(r@[1] == PixelLayout::Rgbx),
            BackendPixelTag::Xbgr => assert(r@[2] == PixelLayout::Xbgr),
            BackendPixelTag::Bgrx => assert(r@[3] == PixelLayout::Bgrx),
            BackendPixelTag::Bgr0 => assert(r@[3] == PixelLayout::Bgrx),
            BackendPixelTag::Bgra => assert(r@[4] == PixelLayout::Bgra),
            BackendPixelTag::Yuv => {},
        }
    }
    r
}

/// The pixel layout a backend frame arrives in.
#[derive(Clone, Copy, Debug, PartialEq, Eq, Structural)]
pub enum BackendPixelTag {
    /// Planar, chroma-subsampled frames.
    Yuv,
    Rgb,
    Rgbx,
    Xbgr,
    Bgrx,
    /// Blue, green, red and a zero byte: the same bytes as `Bgrx`.
    Bgr0,
    Bgra,
}

/// The output layout of a backend tag, if it has one.
pub open spec fn layout_of_tag(tag: BackendPixelTag) -> Option<PixelLayout> {
    match tag {
        BackendPixelTag::Yuv => None,
        BackendPixelTag::Rgb => Some(PixelLayout::Rgb),
        BackendPixelTag::Rgbx => Some(PixelLayout::Rgbx),
        BackendPixelTag::Xbgr => Some(PixelLayout::Xbgr),
        BackendPixelTag::Bgrx => Some(PixelLayout::Bgrx),
        BackendPixelTag::Bgr0 => Some(PixelLayout::Bgrx),
        BackendPixelTag::Bgra => Some(PixelLayout::Bgra),
    }
}

/// Maps a backend tag to the layout it is emitted in.
pub fn translate_tag(tag: BackendPixelTag) -> (r: Result<PixelLayout, SourceError>)
    ensures
        r == (match layout_of_tag(tag) {
            Some(l) => Ok(l),
            None => Err(SourceError::UnsupportedFormat),
        }),
{
    match tag {
        BackendPixelTag::Yuv => Err(SourceError::UnsupportedFormat),
        BackendPixelTag::Rgb => Ok(PixelLayout::Rgb),
        BackendPixelTag::Rgbx => Ok(PixelLayout::Rgbx),
        BackendPixelTag::Xbgr => Ok(PixelLayout::Xbgr),
        BackendPixelTag::Bgrx => Ok(PixelLayout::Bgrx),
        BackendPixelTag::Bgr0 => Ok(PixelLayout::Bgrx),
        BackendPixelTag::Bgra => Ok(PixelLayout::Bgra),
    }
}

/// The pixel layout and size of a stream of frames.
#[derive(Clone, Copy, Debug, PartialEq, Eq, Structural)]
pub struct VideoFormat {
    pub layout: PixelLayout,
    pub width: u32,
    pub height: u32,
}

impl VideoFormat {
    /// The number of bytes in one frame of this format at four bytes per
    /// pixel, capped at `u32::MAX`.
    pub fn block_size(&self) -> (r: u32)
        ensures
            r == (if 4 * self.width * self.height <= u32::MAX {
                4 * self.width * self.height
            } else {
                u32::MAX as int
            }),
    {
        let w = self.width as u64;
        let h = self.height as u64;
        assert(w * h <= u32::MAX * u32::MAX) by (nonlinear_arith)
            requires
                w <= u32::MAX,
                h <= u32::MAX,
        ;
        let area: u64 = w * h;
        assert(4 * self.width * self.height == 4 * area) by (nonlinear_arith)
            requires
                area == w * h,
                w == self.width,
                h == self.height,
        ;
        if area <= 0x3fff_ffff {
            (4 * area) as u32
        } else {
            u32::MAX
        }
    }
}

/// A frame as the capture backend delivered it.
#[derive(Debug)]
pub struct RawFrame {
    pub tag: BackendPixelTag,
    pub width: u32,
    pub height: u32,
    /// The backend's own capture time, in nanoseconds.
    pub capture_timestamp: u64,
    pub data: Vec<u8>,
}

/// What the element reads of a frame it can emit.
#[derive(Clone, Copy, Debug, PartialEq, Eq, Structural)]
pub struct FrameInfo {
    pub width: u32,
    pub height: u32,
    pub layout: PixelLayout,
    pub pts: u64,
}

/// The description of a raw frame, if its layout can be emitted.
pub open spec fn info_of(frame: RawFrame) -> Option<FrameInfo> {
    match layout_of_tag(frame.tag) {
        Some(layout) => Some(
            FrameInfo {
                width: frame.width,
                height: frame.height,
                layout,
                pts: frame.capture_timestamp,
            },
        ),
        None => None,
    }
}

impl FrameInfo {
    /// Describes a raw frame; `None` when its layout has no translation.
    pub fn new(frame: &RawFrame) -> (r: Option<FrameInfo>)
        ensures
            r == info_of(*frame),
    {
        match translate_tag(frame.tag) {
            Ok(layout) => Some(
                FrameInfo {
                    width: frame.width,
                    height: frame.height,
                    layout,
                    pts: frame.capture_timestamp,
                },
            ),
            Err(_) => None,
        }
    }

    pub open spec fn format_spec(&self) -> VideoFormat {
        VideoFormat { layout: self.layout, width: self.width, height: self.height }
    }

    /// The format a frame of this description is emitted in.
    #[verifier::when_used_as_spec(format_spec)]
    pub fn format(&self) -> (r: VideoFormat)
        ensures
            r == self.format_spec(),
    {
        VideoFormat { layout: self.layout, width: self.width, height: self.height }
    }
}

} // verus!
