use vstd::prelude::*;

verus! {

pub const DEFAULT_WIDTH: u32 = 1024;

pub const DEFAULT_HEIGHT: u32 = 786;

/// How the presentation surface is to be made.
#[derive(Clone, Copy, Debug, PartialEq, Eq, Structural)]
pub enum SurfaceMode {
    /// Covering the first monitor, at its own size.
    Fullscreen,
    /// A window of the given size, with or without decorations.
    Windowed { width: u32, height: u32, decorated: bool },
}

/// The settings of the window that shows the shader.
pub struct Window {
    pub resolution: [u32; 2],
    pub title: String,
    pub vsync: bool,
    pub msaa: u16,
    pub borderless: bool,
    pub fullscreen: bool,
}

impl Window {
    pub fn new(resolution: [u32; 2], title: String, vsync: bool, msaa: u16, borderless: bool, fullscreen: bool) -> (r:
        Window)
        ensures
            r.resolution == resolution,
            r.title@ == title@,
            r.vsync == vsync,
            r.msaa == msaa,
            r.borderless == borderless,
            r.fullscreen == fullscreen,
    {
        Window { resolution, title, vsync, msaa, borderless, fullscreen }
    }

    pub open spec fn spec_surface_mode(&self) -> SurfaceMode {
        if self.fullscreen {
            SurfaceMode::Fullscreen
        } else {
            SurfaceMode::Windowed {
                width: self.resolution[0],
                height: self.resolution[1],
                decorated: !self.borderless,
            }
        }
    }

    /// Fullscreen wins over the window's size; otherwise a borderless window
    /// has no decorations.
    pub fn surface_mode(&self) -> (r: SurfaceMode)
        ensures
            r == self.spec_surface_mode(),
    {
        if self.fullscreen {
            SurfaceMode::Fullscreen
        } else {
            SurfaceMode::Windowed {
                width: self.resolution[0],
                height: self.resolution[1],
                decorated: !self.borderless,
            }
        }
    }
}

} // verus!
