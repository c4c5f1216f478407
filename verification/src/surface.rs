use vstd::prelude::*;

verus! {

/// The driver's code for 8-bit-per-channel RGBA with sRGB encoding.
pub const FORMAT_R8G8B8A8_SRGB: u32 = 43;

/// The driver's code for the nonlinear sRGB color space.
pub const COLOR_SPACE_SRGB_NONLINEAR: u32 = 0;

/// One presentation format exposed by a surface: a pixel-format code and a
/// color-space code, numbered as the driver numbers them.
#[derive(Clone, Copy, Debug, PartialEq, Eq, Structural)]
pub struct SurfaceFormat {
    pub format: u32,
    pub color_space: u32,
}

/// The format the bootstrap prefers for later presentation work.
pub open spec fn preferred_format(f: SurfaceFormat) -> bool {
    f.format == FORMAT_R8G8B8A8_SRGB && f.color_space == COLOR_SPACE_SRGB_NONLINEAR
}

/// Scans the surface's supported formats for the preferred one; `None` when
/// the surface does not offer it.
pub fn pick_surface_format(formats: &Vec<SurfaceFormat>) -> (result: Option<SurfaceFormat>)
    ensures
        result is Some <==> exists|i: int|
            0 <= i < formats@.len() && preferred_format(#[trigger] formats@[i]),
        match result {
            Some(f) => preferred_format(f),
            None => true,
        },
{
    let n = formats.len();
    let mut i: usize = 0;
    while i < n
        invariant
            n == formats@.len(),
            i <= n,
            forall|j: int| 0 <= j < i ==> !preferred_format(#[trigger] formats@[j]),
        decreases n - i,
    {
        let f = formats[i];
        if f.format == FORMAT_R8G8B8A8_SRGB && f.color_space == COLOR_SPACE_SRGB_NONLINEAR {
            return Some(f);
        }
        i = i + 1;
    }
    None
}

} // verus!
