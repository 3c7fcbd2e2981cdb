//! Frame shapes and the estimates propagated through a pipeline.

use vstd::prelude::*;

verus! {

/// Pixel layout of a bitmap buffer.
#[derive(Clone, Copy, Debug, PartialEq, Eq, Structural)]
pub enum PixelFormat {
    Bgra32,
    Bgr32,
    Bgr24,
    Gray8,
}

/// Fill colour for a freshly allocated canvas.
#[derive(Clone, Copy, Debug, PartialEq, Eq, Structural)]
pub enum Color {
    Transparent,
    Black,
}

/// Concrete shape of one frame: dimensions, pixel layout, and whether
/// the alpha channel carries meaningful data.
#[derive(Clone, Copy, Debug, PartialEq, Eq, Structural)]
pub struct FrameInfo {
    pub w: u32,
    pub h: u32,
    pub fmt: PixelFormat,
    pub alpha_meaningful: bool,
}

impl FrameInfo {
    /// The same frame with width and height exchanged.
    pub open spec fn spec_swapped(self) -> FrameInfo {
        FrameInfo { w: self.h, h: self.w, fmt: self.fmt, alpha_meaningful: self.alpha_meaningful }
    }

    pub fn swapped(self) -> (r: FrameInfo)
        ensures
            r == self.spec_swapped(),
    {
        FrameInfo { w: self.h, h: self.w, fmt: self.fmt, alpha_meaningful: self.alpha_meaningful }
    }
}

/// What is known of a node's eventual output shape. Estimation never
/// guesses: an unknown upstream shape stays unknown downstream.
#[derive(Clone, Copy, Debug, PartialEq, Eq, Structural)]
pub enum FrameEstimate {
    Unknown,
    Known(FrameInfo),
}

impl FrameEstimate {
    /// The estimate with width and height exchanged, where known.
    pub open spec fn spec_swapped(self) -> FrameEstimate {
        match self {
            FrameEstimate::Unknown => FrameEstimate::Unknown,
            FrameEstimate::Known(info) => FrameEstimate::Known(info.spec_swapped()),
        }
    }

    pub fn swapped(self) -> (r: FrameEstimate)
        ensures
            r == self.spec_swapped(),
    {
        match self {
            FrameEstimate::Unknown => FrameEstimate::Unknown,
            FrameEstimate::Known(info) => FrameEstimate::Known(info.swapped()),
        }
    }
}

} // verus!
