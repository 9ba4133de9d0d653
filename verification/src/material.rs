//! A UI material that pairs a tint with a chart texture.

use vstd::prelude::*;

verus! {

/// A 4-channel linear tint in unsigned-normalized form: `0` is no
/// intensity, `255` is full intensity.
#[derive(Clone, Copy, Debug, PartialEq, Eq, Structural)]
pub struct Tint {
    /// Red channel.
    pub red: u8,
    /// Green channel.
    pub green: u8,
    /// Blue channel.
    pub blue: u8,
    /// Alpha (opacity) channel.
    pub alpha: u8,
}

/// The fully opaque, colorless (white) tint: every channel at full
/// intensity.
pub open spec fn opaque_white() -> Tint {
    Tint { red: 255, green: 255, blue: 255, alpha: 255 }
}

/// A material that renders a chart texture while ignoring the texture's own
/// alpha channel, so that it stays compatible with the blue-green-red-padding
/// layout the chart backend draws. The tint's red, green and blue multiply
/// the texture's; the tint's alpha stands in for the whole texture's alpha.
///
/// The chart backend does not abstain from overwriting the padding byte,
/// which the host engine reads as the alpha channel, so alpha written once
/// into the pixel data would be lost on every redraw. Keeping alpha in the
/// separate `color` field avoids having to reset it after each render.
#[derive(Clone, Debug)]
pub struct PlotUiMaterial<H> {
    /// The tint: its RGB is multiplied with the texture's RGB, and its
    /// alpha channel is used as the alpha for the whole texture.
    pub color: Tint,
    /// Handle of the image used to represent the plot.
    pub texture: H,
}

impl<H> PlotUiMaterial<H> {
    /// Create a new `PlotUiMaterial` over the given texture handle. Sets
    /// the color to opaque white, so the texture shows unchanged.
    pub fn new(texture: H) -> (r: Self)
        ensures
            r.color == opaque_white(),
            r.texture == texture,
    {
        PlotUiMaterial {
            color: Tint { red: 255, green: 255, blue: 255, alpha: 255 },
            texture,
        }
    }
}

} // verus!
