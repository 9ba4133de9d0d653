//! Adapter between a game engine's UI texture pipeline and the `plotters`
//! drawing library.
//!
//! The crate models the host engine's image as [`PlotImage`] — declared
//! pixel layout, dimensions, usage flags, and the raw byte buffer — and
//! offers [`try_as_backend`], which reinterprets that buffer, zero-copy, as
//! a `plotters` bitmap backend whenever the declared layout is one of the
//! two accepted blue-green-red byte orders and the buffer is large enough.
//! [`PlotUiMaterial`] pairs such a chart texture with a tint whose alpha
//! channel replaces the one the chart backend overwrites as padding.

mod backend;
mod image;
mod material;

pub use backend::{backend_available, try_as_backend, ChartBackend};
pub use backend::{
    lemma_exact_buffer_has_backend, lemma_foreign_format_has_no_backend,
    lemma_short_buffer_has_no_backend,
};
pub use image::{format_accepted, has_expected_usage, is_supported_format};
pub use image::{PlotImage, TextureFormat};
pub use material::{opaque_white, PlotUiMaterial, Tint};
