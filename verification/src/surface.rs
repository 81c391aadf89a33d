//! The presentable surface's configuration, as far as the logic reads it:
//! its size, how it reacts to a window resize, and which of the formats
//! the adapter offers is picked.

use vstd::prelude::*;

verus! {

/// The part of the surface configuration that the logic owns: the size in
/// pixels that the surface is configured at.
#[derive(Clone, Copy, Debug, PartialEq, Eq, Structural)]
pub struct SurfaceConfig {
    /// Configured width in pixels.
    pub width: u32,
    /// Configured height in pixels.
    pub height: u32,
}

impl SurfaceConfig {
    /// A configuration at the window's initial size.
    pub fn new(width: u32, height: u32) -> (r: Self)
        ensures
            r.width == width,
            r.height == height,
    {
        SurfaceConfig { width, height }
    }

    /// React to a window resize: a resize to 0 x 0 is ignored, any other
    /// size is taken over. Returns whether the surface must be
    /// reconfigured.
    pub fn resize(&mut self, width: u32, height: u32) -> (reconfigure: bool)
        ensures
            reconfigure == !(width == 0 && height == 0),
            reconfigure ==> final(self).width == width && final(self).height == height,
            !reconfigure ==> *final(self) == *old(self),
    {
        if width == 0 && height == 0 {
            return false;
        }
        self.width = width;
        self.height = height;
        true
    }

    /// The size the surface is configured at.
    pub fn size(&self) -> (r: (u32, u32))
        ensures
            r.0 == self.width,
            r.1 == self.height,
    {
        (self.width, self.height)
    }
}

/// Pick the surface format from the formats the adapter offers, given for
/// each one whether it is an sRGB format: the first sRGB format wins, and
/// with none on offer the adapter's most preferred format, the first one,
/// is kept.
pub fn choose_format_index(srgb: &Vec<bool>) -> (r: usize)
    requires
        srgb@.len() > 0,
    ensures
        r < srgb@.len(),
        forall|i: int| 0 <= i < r ==> !srgb@[i],
        srgb@[r as int] || (r == 0 && forall|i: int| 0 <= i < srgb@.len() ==> !srgb@[i]),
{
    let mut i: usize = 0;
    while i < srgb.len()
        invariant
            i <= srgb@.len(),
            forall|j: int| 0 <= j < i ==> !srgb@[j],
        decreases srgb@.len() - i,
    {
        if srgb[i] {
            return i;
        }
        i += 1;
    }
    0
}

} // verus!
