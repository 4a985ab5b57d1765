//! The screen frame: a card with a fixed aspect ratio that mimics a
//! desktop or phone screen.

use vstd::prelude::*;

verus! {

/// The device a screen frame mimics.
#[derive(Clone, Copy, Debug, PartialEq, Eq, Structural)]
pub enum Mode {
    /// 16:9, no width cap (the default).
    Desktop,
    /// 20:9, no width cap.
    MobileLandscape,
    /// 9:20, at most 360 pixels wide.
    MobilePortrait,
}

impl Default for Mode {
    fn default() -> (res: Mode)
        ensures
            res == Mode::Desktop,
    {
        Mode::Desktop
    }
}

impl Mode {
    /// The aspect ratio of the mode, as `(width, height)`.
    pub open spec fn spec_aspect(self) -> (u32, u32) {
        match self {
            Mode::Desktop => (16, 9),
            Mode::MobileLandscape => (20, 9),
            Mode::MobilePortrait => (9, 20),
        }
    }

    /// The width cap of the mode in logical pixels.
    pub open spec fn spec_max_width(self) -> Option<u32> {
        match self {
            Mode::MobilePortrait => Some(360),
            _ => None,
        }
    }

    /// The aspect ratio of the mode, as `(width, height)`.
    pub fn default_aspect(self) -> (res: (u32, u32))
        ensures
            res == self.spec_aspect(),
    {
        match self {
            Mode::Desktop => (16, 9),
            Mode::MobileLandscape => (20, 9),
            Mode::MobilePortrait => (9, 20),
        }
    }

    /// The width cap of the mode in logical pixels, if any.
    pub fn default_max_width(self) -> (res: Option<u32>)
        ensures
            res == self.spec_max_width(),
    {
        match self {
            Mode::MobilePortrait => Some(360),
            _ => None,
        }
    }
}

/// The proportions of a screen frame: its aspect ratio and width cap
/// (`None`: unbounded).
#[derive(Clone, Copy, Debug)]
pub struct Screen {
    /// The aspect ratio, `(width, height)`, both non-zero.
    pub aspect: (u32, u32),
    /// The largest width in logical pixels.
    pub max_width: Option<u32>,
}

impl Screen {
    /// The proportions of a desktop screen.
    pub fn new() -> (res: Screen)
        ensures
            res.aspect == Mode::Desktop.spec_aspect(),
            res.max_width == Mode::Desktop.spec_max_width(),
    {
        Screen { aspect: Mode::Desktop.default_aspect(), max_width: Mode::Desktop.default_max_width() }
    }

    /// Takes the aspect ratio and width cap of a device mode.
    pub fn mode(self, mode: Mode) -> (res: Screen)
        ensures
            res.aspect == mode.spec_aspect(),
            res.max_width == mode.spec_max_width(),
    {
        Screen { aspect: mode.default_aspect(), max_width: mode.default_max_width() }
    }

    /// Sets a custom aspect ratio; both sides must be non-zero.
    pub fn aspect(self, width: u32, height: u32) -> (res: Screen)
        requires
            width > 0 && height > 0,
        ensures
            res == (Screen { aspect: (width, height), ..self }),
    {
        Screen { aspect: (width, height), ..self }
    }

    /// Sets the width cap.
    pub fn max_width(self, max_width: u32) -> (res: Screen)
        ensures
            res == (Screen { max_width: Some(max_width), ..self }),
    {
        Screen { max_width: Some(max_width), ..self }
    }
}

} // verus!
