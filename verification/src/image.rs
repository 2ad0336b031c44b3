//! The data captured by a recording: pixel geometry, padding, an owned
//! image payload, and a frame (an image paired with its display delay in
//! centiseconds).

use vstd::prelude::*;

use crate::parse::{chars_of, parse_u32, spec_parse_u64, spec_split, split_char};

verus! {

/// The `u32` a piece of text stands for, or zero when it is not one:
/// the fallback rule of the settings layer.
pub open spec fn spec_u32_or_zero(s: Seq<char>) -> u32 {
    match spec_parse_u64(s) {
        Some(v) => if v <= u32::MAX as u64 {
            v as u32
        } else {
            0
        },
        None => 0,
    }
}

/// Read a `u32` from a character segment, zero when it is not one.
pub fn u32_or_zero(s: &Vec<char>) -> (r: u32)
    ensures
        r == spec_u32_or_zero(s@),
{
    match parse_u32(s) {
        Some(v) => v,
        None => 0,
    }
}

/// Position and size of a captured area.
#[derive(Clone, Copy, PartialEq, Eq, Structural, Debug)]
pub struct Geometry {
    pub x: i32,
    pub y: i32,
    pub width: u32,
    pub height: u32,
}

impl Geometry {
    /// Create a geometry from its coordinates and size.
    pub fn new(x: i32, y: i32, width: u32, height: u32) -> (r: Geometry)
        ensures
            r == (Geometry { x, y, width, height }),
    {
        Geometry { x, y, width, height }
    }

    /// Read a `WxH` size value.
    pub fn parse(s: &str) -> (r: Geometry)
        ensures
            r == spec_parse_geometry(s@),
    {
        let chars = chars_of(s);
        Geometry::from_chars(&chars)
    }

    /// Read a `WxH` size value given as characters.
    pub fn from_chars(s: &Vec<char>) -> (r: Geometry)
        ensures
            r == spec_parse_geometry(s@),
    {
        let parts = split_char(s, 'x');
        if parts.len() == 2 {
            proof {
                assert(spec_split(s@, 'x')[0] == parts@[0]@);
                assert(spec_split(s@, 'x')[1] == parts@[1]@);
            }
            Geometry { x: 0, y: 0, width: u32_or_zero(&parts[0]), height: u32_or_zero(&parts[1]) }
        } else {
            Geometry { x: 0, y: 0, width: 0, height: 0 }
        }
    }
}

/// The geometry a piece of text of the form `WxH` describes: width and
/// height read as decimal numbers, each zero when unreadable, and the
/// whole zero unless there are exactly two segments.
pub open spec fn spec_parse_geometry(s: Seq<char>) -> Geometry {
    let parts = spec_split(s, 'x');
    if parts.len() == 2 {
        Geometry {
            x: 0,
            y: 0,
            width: spec_u32_or_zero(parts[0]),
            height: spec_u32_or_zero(parts[1]),
        }
    } else {
        Geometry { x: 0, y: 0, width: 0, height: 0 }
    }
}

/// The padding a piece of text of the form `T:R:B:L` describes: each edge
/// read as a decimal number, zero when unreadable, and the whole zero
/// unless there are exactly four segments.
pub open spec fn spec_parse_padding(s: Seq<char>) -> Padding {
    let parts = spec_split(s, ':');
    if parts.len() == 4 {
        Padding {
            top: spec_u32_or_zero(parts[0]),
            right: spec_u32_or_zero(parts[1]),
            bottom: spec_u32_or_zero(parts[2]),
            left: spec_u32_or_zero(parts[3]),
        }
    } else {
        Padding { top: 0, right: 0, bottom: 0, left: 0 }
    }
}

impl Default for Geometry {
    /// The zero geometry.
    fn default() -> (r: Geometry)
        ensures
            r == (Geometry { x: 0, y: 0, width: 0, height: 0 }),
    {
        Geometry { x: 0, y: 0, width: 0, height: 0 }
    }
}

/// Padding around a captured area, one value per edge.
#[derive(Clone, Copy, PartialEq, Eq, Structural, Debug)]
pub struct Padding {
    pub top: u32,
    pub right: u32,
    pub bottom: u32,
    pub left: u32,
}

impl Padding {
    /// Create a padding from its four edge values.
    pub fn new(top: u32, right: u32, bottom: u32, left: u32) -> (r: Padding)
        ensures
            r == (Padding { top, right, bottom, left }),
    {
        Padding { top, right, bottom, left }
    }

    /// Read a `T:R:B:L` padding value.
    pub fn parse(s: &str) -> (r: Padding)
        ensures
            r == spec_parse_padding(s@),
    {
        let chars = chars_of(s);
        let parts = split_char(&chars, ':');
        if parts.len() == 4 {
            proof {
                assert(spec_split(s@, ':')[0] == parts@[0]@);
                assert(spec_split(s@, ':')[1] == parts@[1]@);
                assert(spec_split(s@, ':')[2] == parts@[2]@);
                assert(spec_split(s@, ':')[3] == parts@[3]@);
            }
            Padding {
                top: u32_or_zero(&parts[0]),
                right: u32_or_zero(&parts[1]),
                bottom: u32_or_zero(&parts[2]),
                left: u32_or_zero(&parts[3]),
            }
        } else {
            Padding { top: 0, right: 0, bottom: 0, left: 0 }
        }
    }
}

impl Default for Padding {
    /// Zero padding on every edge.
    fn default() -> (r: Padding)
        ensures
            r == (Padding { top: 0, right: 0, bottom: 0, left: 0 }),
    {
        Padding { top: 0, right: 0, bottom: 0, left: 0 }
    }
}

/// Mathematical content of an image: its bytes and its geometry.
#[verifier::ext_equal]
pub struct ImageView {
    pub data: Seq<u8>,
    pub geometry: Geometry,
}

/// An owned image payload together with the geometry it was captured from.
#[derive(Clone, Debug)]
pub struct Image {
    pub data: Vec<u8>,
    pub geometry: Geometry,
}

impl View for Image {
    type V = ImageView;

    open spec fn view(&self) -> ImageView {
        ImageView { data: self.data@, geometry: self.geometry }
    }
}

impl Image {
    /// Create an image from its raw bytes and geometry.
    pub fn new(data: Vec<u8>, geometry: Geometry) -> (r: Image)
        ensures
            r@.data == data@,
            r@.geometry == geometry,
    {
        Image { data, geometry }
    }
}

/// Mathematical content of a frame.
#[verifier::ext_equal]
pub struct FrameView {
    pub image: ImageView,
    /// Display duration in centiseconds.
    pub delay: u16,
}

/// One recorded frame: an image and the duration it should be displayed
/// for, in centiseconds.  The delay is never negative by construction.
#[derive(Clone, Debug)]
pub struct Frame {
    pub image: Image,
    pub delay: u16,
}

impl View for Frame {
    type V = FrameView;

    open spec fn view(&self) -> FrameView {
        FrameView { image: self.image@, delay: self.delay }
    }
}

impl Frame {
    /// Create a frame from an image and its display delay.
    pub fn new(image: Image, delay: u16) -> (r: Frame)
        ensures
            r@ == (FrameView { image: image@, delay }),
    {
        Frame { image, delay }
    }
}

/// The frames of a vector, as their mathematical content, in order.
pub open spec fn frames_model(frames: Seq<Frame>) -> Seq<FrameView> {
    frames.map_values(|f: Frame| f@)
}

/// Mapping a pushed frame commutes with taking the model.
pub proof fn lemma_frames_model_push(frames: Seq<Frame>, f: Frame)
    ensures
        frames_model(frames.push(f)) =~= frames_model(frames).push(f@),
{
}

} // verus!
