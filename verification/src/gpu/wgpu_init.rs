//! The presentable surface, as far as the host decides about it.

use vstd::prelude::*;

verus! {

/// Frames the presentation engine may queue ahead of the display.
pub const MAXIMUM_FRAME_LATENCY: u32 = 60;

/// A size in physical pixels.
#[derive(Clone, Copy, Debug, PartialEq, Eq, Structural)]
pub struct PhysicalSize {
    pub width: u32,
    pub height: u32,
}

/// How the surface is configured. Format, usage, presentation and alpha mode
/// never change and are not kept here.
#[derive(Clone, Copy, Debug, PartialEq, Eq, Structural)]
pub struct SurfaceConfiguration {
    pub width: u32,
    pub height: u32,
    pub desired_maximum_frame_latency: u32,
}

/// The surface's size and the configuration that goes with it.
#[derive(Clone, Copy, Debug, PartialEq, Eq, Structural)]
pub struct Init {
    pub config: SurfaceConfiguration,
    pub size: PhysicalSize,
}

impl Init {
    /// The configuration of a surface of `size`.
    pub open spec fn configured(size: PhysicalSize) -> Init {
        Init {
            config: SurfaceConfiguration {
                width: size.width,
                height: size.height,
                desired_maximum_frame_latency: MAXIMUM_FRAME_LATENCY,
            },
            size,
        }
    }

    /// The configuration covers the surface exactly.
    pub open spec fn wf(self) -> bool {
        &&& self.config.width == self.size.width
        &&& self.config.height == self.size.height
    }

    pub fn new(size: PhysicalSize) -> (init: Init)
        ensures
            init == Init::configured(size),
            init.wf(),
    {
        Init {
            config: SurfaceConfiguration {
                width: size.width,
                height: size.height,
                desired_maximum_frame_latency: MAXIMUM_FRAME_LATENCY,
            },
            size,
        }
    }

    /// Takes the new size of the window. The surface is then configured
    /// again with `config`.
    pub fn resize(&mut self, new_size: PhysicalSize)
        ensures
            final(self).size == new_size,
            final(self).config == (SurfaceConfiguration {
                width: new_size.width,
                height: new_size.height,
                ..old(self).config
            }),
            final(self).wf(),
    {
        self.size = new_size;
        self.config.width = new_size.width;
        self.config.height = new_size.height;
    }
}

} // verus!
