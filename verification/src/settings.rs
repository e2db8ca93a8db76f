//! What the viewer reads of the user's settings.

use vstd::prelude::*;

verus! {

/// The settings of one frame, as far as the slice's resources depend on them.
#[derive(Debug, Clone, Copy)]
pub struct ViewerSettings {
    /// Width of the slice in world units; any value is taken.
    pub slice_width: i32,
    /// Height of the slice in world units; any value is taken.
    pub slice_height: i32,
    /// Opacity of the slice, normalized: 65535 is opaque.
    pub slice_alpha: u16,
    /// The pressure that the top of the colour ramp stands for, as a
    /// single-precision word.
    pub color_scale: u32,
    /// Wavelength of the sound in world units, as a single-precision word.
    pub wave_length: u32,
}

impl ViewerSettings {
    /// The settings with these values.
    pub fn new(
        slice_width: i32,
        slice_height: i32,
        slice_alpha: u16,
        color_scale: u32,
        wave_length: u32,
    ) -> (s: ViewerSettings)
        ensures
            s.slice_width == slice_width,
            s.slice_height == slice_height,
            s.slice_alpha == slice_alpha,
            s.color_scale == color_scale,
            s.wave_length == wave_length,
    {
        ViewerSettings { slice_width, slice_height, slice_alpha, color_scale, wave_length }
    }
}

} // verus!
