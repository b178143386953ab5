//! The window geometry a headless embedder reports to the engine, in plain
//! device pixels.

use vstd::prelude::*;

verus! {

/// A size in device pixels.
#[derive(Clone, Copy, Debug, PartialEq, Eq, Structural)]
pub struct DeviceSize {
    pub width: i32,
    pub height: i32,
}

/// A point in device pixels.
#[derive(Clone, Copy, Debug, PartialEq, Eq, Structural)]
pub struct DevicePoint {
    pub x: i32,
    pub y: i32,
}

/// An axis-aligned box in device pixels, given by its two corners.
#[derive(Clone, Copy, Debug, PartialEq, Eq, Structural)]
pub struct DeviceBox {
    pub min: DevicePoint,
    pub max: DevicePoint,
}

/// Everything the embedder reports about the host window: the screen and its
/// usable part, the framebuffer, the window's size and placement, and the
/// viewport box. The display scale is kept in hundredths, so a scale of one
/// is written 100.
#[derive(Clone, Copy, Debug, PartialEq, Eq, Structural)]
pub struct EmbedderGeometry {
    pub hidpi_percent: u32,
    pub screen: DeviceSize,
    pub screen_avail: DeviceSize,
    pub framebuffer: DeviceSize,
    pub window_size: DeviceSize,
    pub window_origin: DevicePoint,
    pub viewport: DeviceBox,
}

impl EmbedderGeometry {
    /// The geometry is consistent: a positive scale, positive dimensions,
    /// the usable screen area no larger than the screen, and a viewport box
    /// that spans exactly the window.
    pub open spec fn well_formed(self) -> bool {
        &&& 0 < self.hidpi_percent
        &&& 0 < self.screen.width && 0 < self.screen.height
        &&& 0 < self.screen_avail.width <= self.screen.width
        &&& 0 < self.screen_avail.height <= self.screen.height
        &&& 0 < self.framebuffer.width && 0 < self.framebuffer.height
        &&& 0 < self.window_size.width && 0 < self.window_size.height
        &&& self.viewport.min == self.window_origin
        &&& self.viewport.max.x == self.window_origin.x + self.window_size.width
        &&& self.viewport.max.y == self.window_origin.y + self.window_size.height
    }

    /// Width and height of the viewport box; for a well-formed geometry they
    /// are exactly the window size.
    pub fn viewport_size(&self) -> (s: DeviceSize)
        requires
            self.well_formed(),
        ensures
            s.width == self.viewport.max.x - self.viewport.min.x,
            s.height == self.viewport.max.y - self.viewport.min.y,
            s == self.window_size,
    {
        DeviceSize {
            width: self.viewport.max.x - self.viewport.min.x,
            height: self.viewport.max.y - self.viewport.min.y,
        }
    }
}

/// The geometry a windowless embedder answers with.
pub open spec fn spec_default_coordinates() -> EmbedderGeometry {
    EmbedderGeometry {
        hidpi_percent: 100,
        screen: DeviceSize { width: 1920, height: 1080 },
        screen_avail: DeviceSize { width: 1920, height: 1040 },
        framebuffer: DeviceSize { width: 800, height: 600 },
        window_size: DeviceSize { width: 800, height: 600 },
        window_origin: DevicePoint { x: 0, y: 0 },
        viewport: DeviceBox {
            min: DevicePoint { x: 0, y: 0 },
            max: DevicePoint { x: 800, y: 600 },
        },
    }
}

/// The fixed geometry the embedder reports: a 1920 by 1080 screen with a
/// 40-pixel strip reserved, an 800 by 600 window at the origin, and a
/// display scale of one.
pub fn default_coordinates() -> (g: EmbedderGeometry)
    ensures
        g == spec_default_coordinates(),
        g.well_formed(),
{
    EmbedderGeometry {
        hidpi_percent: 100,
        screen: DeviceSize { width: 1920, height: 1080 },
        screen_avail: DeviceSize { width: 1920, height: 1040 },
        framebuffer: DeviceSize { width: 800, height: 600 },
        window_size: DeviceSize { width: 800, height: 600 },
        window_origin: DevicePoint { x: 0, y: 0 },
        viewport: DeviceBox {
            min: DevicePoint { x: 0, y: 0 },
            max: DevicePoint { x: 800, y: 600 },
        },
    }
}

} // verus!
