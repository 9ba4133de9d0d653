//! The adapter's model of a host-engine image: declared pixel layout,
//! dimensions, usage flags, and the raw pixel buffer.

use vstd::prelude::*;

verus! {

/// The pixel layouts an image may declare for its buffer. The chart backend
/// can draw only into the two 4-byte blue-green-red layouts; every other
/// layout the host engine knows is carried by the remaining variants.
#[derive(Clone, Copy, Debug, PartialEq, Eq, Structural)]
pub enum TextureFormat {
    /// 4 bytes per pixel, blue-green-red-alpha order, unsigned normalized.
    Bgra8Unorm,
    /// 4 bytes per pixel, blue-green-red-alpha order, unsigned normalized,
    /// with sRGB encoding.
    Bgra8UnormSrgb,
    /// 4 bytes per pixel, red-green-blue-alpha order, unsigned normalized.
    Rgba8Unorm,
    /// 4 bytes per pixel, red-green-blue-alpha order, unsigned normalized,
    /// with sRGB encoding.
    Rgba8UnormSrgb,
    /// Any other layout the host engine may declare.
    Other,
}

/// Whether `f` is one of the two 4-byte blue-green-red layouts that the
/// chart backend can draw into.
pub open spec fn format_accepted(f: TextureFormat) -> bool {
    f is Bgra8Unorm || f is Bgra8UnormSrgb
}

/// Whether the declared format admits a chart backend.
pub fn is_supported_format(f: TextureFormat) -> (r: bool)
    ensures
        r == format_accepted(f),
{
    matches!(f, TextureFormat::Bgra8Unorm | TextureFormat::Bgra8UnormSrgb)
}

/// An image as the adapter sees it: the declared layout and dimensions of
/// its pixel buffer, the buffer itself, and the two usage flags the host
/// engine attaches to its textures. A drawable image holds at least
/// `width * height * 4` bytes of pixel data.
#[derive(Clone, Debug)]
pub struct PlotImage {
    /// The pixel layout the image declares for its buffer.
    pub format: TextureFormat,
    /// Width of the image in pixels.
    pub width: u32,
    /// Height of the image in pixels.
    pub height: u32,
    /// The raw pixel buffer, `4` bytes per pixel in the declared layout.
    pub data: Vec<u8>,
    /// Whether the host keeps the image readable in its main-world
    /// resource store.
    pub main_world: bool,
    /// Whether the host makes the image usable by its render world.
    pub render_world: bool,
}

/// Whether the image declares the usages a chart texture needs: readable
/// from the main-world store and usable by the render world, both at once.
///
/// A caller that finds this `false` may still ask for a backend — the image
/// merely may not survive the host's rendering stages — so this is an
/// advisory check, meant to drive a warning at the call site, not an error.
pub fn has_expected_usage(image: &PlotImage) -> (r: bool)
    ensures
        r == (image.main_world && image.render_world),
{
    image.main_world && image.render_world
}

} // verus!
