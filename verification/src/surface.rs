//! Decisions about the drawing surface.

use vstd::prelude::*;

verus! {

/// Samples per pixel of the multisampled render target.
pub const MSAA_SAMPLES: u32 = 4;

/// A multisampled render target is used only with more than one sample per
/// pixel.
pub fn uses_msaa(samples: u32) -> (b: bool)
    ensures
        b == (samples > 1),
{
    samples > 1
}

/// The size the surface is configured with for a window of `width` by
/// `height` pixels: never zero in either direction.
pub fn surface_extent(width: u32, height: u32) -> (r: (u32, u32))
    ensures
        r.0 == (if width == 0 { 1 } else { width }),
        r.1 == (if height == 0 { 1 } else { height }),
{
    (if width == 0 { 1 } else { width }, if height == 0 { 1 } else { height })
}

/// A resize reconfigures the surface only when neither side is zero
/// (a minimized window keeps its surface).
pub fn accepts_resize(width: u32, height: u32) -> (b: bool)
    ensures
        b == (width != 0 && height != 0),
{
    width != 0 && height != 0
}

/// The surface format to use among those offered, `srgb[i]` telling whether
/// format `i` is an sRGB one: the first sRGB format, or else the first
/// format.
pub fn preferred_format(srgb: &[bool]) -> (i: usize)
    requires
        srgb@.len() > 0,
    ensures
        i < srgb@.len(),
        srgb@[i as int] ==> forall|j: int| 0 <= j < i ==> !srgb@[j],
        !srgb@[i as int] ==> i == 0 && forall|j: int| 0 <= j < srgb@.len() ==> !srgb@[j],
{
    let mut k: usize = 0;
    while k < srgb.len()
        invariant
            k <= srgb@.len(),
            forall|j: int| 0 <= j < k ==> !srgb@[j],
        decreases srgb@.len() - k,
    {
        if srgb[k] {
            return k;
        }
        k = k + 1;
    }
    0
}

} // verus!
