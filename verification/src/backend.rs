use crate::commands::Scalar;
use vstd::prelude::*;

verus! {

/// The size of the drawing surface in physical pixels and the display's
/// scale factor (physical pixels per logical pixel), as the backend last
/// configured them.
#[derive(Clone, Copy)]
pub struct SurfaceSize {
    pub width: u32,
    pub height: u32,
    pub scale_factor: Scalar,
}

impl SurfaceSize {
    /// The size the surface is first configured with.
    pub fn new(width: u32, height: u32, scale_factor: Scalar) -> (s: SurfaceSize)
        ensures
            s == (SurfaceSize { width, height, scale_factor }),
    {
        SurfaceSize { width, height, scale_factor }
    }

    /// Takes a new size and scale factor reported by the window. A size with
    /// no area (a minimised window) is ignored and the surface keeps its last
    /// configuration; otherwise the new values are taken and the answer is
    /// `true`: the surface must be configured again.
    pub fn resize(&mut self, width: u32, height: u32, scale_factor: Scalar) -> (reconfigure: bool)
        ensures
            reconfigure == (width > 0 && height > 0),
            reconfigure ==> *final(self) == (SurfaceSize { width, height, scale_factor }),
            !reconfigure ==> *final(self) == *old(self),
    {
        if width > 0 && height > 0 {
            self.width = width;
            self.height = height;
            self.scale_factor = scale_factor;
            true
        } else {
            false
        }
    }
}

} // verus!
