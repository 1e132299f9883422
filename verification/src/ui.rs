//! Colours and sizes of the on-screen overlays.

use vstd::prelude::*;

verus! {

/// The colours of the overlays: each is red, green, blue and opacity, in
/// hundredths.
pub struct OverlayColor;

/// Frame rates under this are shown in red.
pub const SLOW_FPS: u32 = 30;

/// Frame rates from this on are shown in green.
pub const SMOOTH_FPS: u32 = 60;

impl OverlayColor {
    pub const RED: (u8, u8, u8, u8) = (100, 0, 0, 70);

    pub const YELLOW: (u8, u8, u8, u8) = (100, 100, 0, 70);

    pub const GREEN: (u8, u8, u8, u8) = (0, 100, 0, 70);

    pub const BG_COLOR: (u8, u8, u8, u8) = (10, 10, 15, 85);

    /// The colour of the frame-rate readout at a rate of `fps` whole frames
    /// a second.
    pub open spec fn for_frame_rate_spec(fps: u32) -> (u8, u8, u8, u8) {
        if fps < SLOW_FPS {
            Self::RED
        } else if fps < SMOOTH_FPS {
            Self::YELLOW
        } else {
            Self::GREEN
        }
    }

    /// The colour of the frame-rate readout at a rate of `fps` whole frames
    /// a second: red when slow, green when smooth, yellow between.
    pub fn for_frame_rate(fps: u32) -> (colour: (u8, u8, u8, u8))
        ensures
            colour == Self::for_frame_rate_spec(fps),
    {
        if fps < SLOW_FPS {
            Self::RED
        } else if fps < SMOOTH_FPS {
            Self::YELLOW
        } else {
            Self::GREEN
        }
    }
}

/// Sizes of overlay text.
pub struct TextOptions;

impl TextOptions {
    /// Size of the text that shows data, in points.
    pub const DATA_TEXT_SIZE: u32 = 24;
}

} // verus!
