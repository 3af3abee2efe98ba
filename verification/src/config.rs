//! Surface configuration: the presentation surface's stored dimensions,
//! always clamped to at least one in each direction before use.

use vstd::prelude::*;

verus! {

/// A requested dimension, clamped so that it is never zero.
pub open spec fn clamp_dim_spec(d: u32) -> u32 {
    if d == 0 {
        1u32
    } else {
        d
    }
}

/// Clamps one requested dimension to at least one.
pub fn clamp_dim(d: u32) -> (r: u32)
    ensures
        r == clamp_dim_spec(d),
        r >= 1,
{
    if d == 0 {
        1
    } else {
        d
    }
}

/// The stored configuration of the presentation surface.
///
/// Its dimensions are the only mutable part; they are set once at
/// startup and again on every resize event, clamped to at least one.
#[derive(Clone, Copy, PartialEq, Eq, Structural, Debug)]
pub struct SurfaceConfig {
    pub width: u32,
    pub height: u32,
}

impl SurfaceConfig {
    /// Both stored dimensions are at least one.
    pub open spec fn valid(self) -> bool {
        self.width >= 1 && self.height >= 1
    }

    /// Builds the startup configuration from the window's initial size,
    /// clamping each dimension to at least one.
    pub fn new(width: u32, height: u32) -> (c: Self)
        ensures
            c.width == clamp_dim_spec(width),
            c.height == clamp_dim_spec(height),
            c.valid(),
    {
        SurfaceConfig { width: clamp_dim(width), height: clamp_dim(height) }
    }

    /// Replaces the stored dimensions on a resize event, clamping each
    /// to at least one. This is the only mutation path after startup.
    pub fn resize(&mut self, width: u32, height: u32)
        ensures
            final(self).width == clamp_dim_spec(width),
            final(self).height == clamp_dim_spec(height),
            final(self).valid(),
    {
        self.width = clamp_dim(width);
        self.height = clamp_dim(height);
    }
}

} // verus!
