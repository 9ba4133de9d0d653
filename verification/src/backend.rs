//! The zero-copy bridge from an image's pixel buffer to a `plotters`
//! bitmap backend.

use crate::image::{format_accepted, is_supported_format, PlotImage};
use plotters::backend::{BGRXPixel, BitMapBackend};
use plotters::drawing::IntoDrawingArea;
use plotters::style::RGBColor;
use vstd::prelude::*;

verus! {

/// A chart backend bound to a borrowed pixel buffer: drawing through it
/// writes directly into the buffer it was built over, in the 4-byte
/// blue-green-red-padding layout, with nothing copied or reallocated.
///
/// Verus sees nothing inside this type; it carries the `plotters` backend
/// through verified code.
#[verifier::external_body]
pub struct ChartBackend<'a> {
    inner: BitMapBackend<'a, BGRXPixel>,
}

impl<'a> ChartBackend<'a> {
    /// Fill the whole drawing area with the given opaque color, consuming
    /// the backend and releasing the buffer it drew into. Returns whether
    /// drawing succeeded — with this backend, always.
    ///
    /// Relies on plotters' `DrawingArea::fill`: it paints the blue, green
    /// and red byte of every pixel of the backend's buffer with the color;
    /// the padding byte of each pixel may be overwritten as well. The
    /// in-memory fill path has no failure branch, and it stays within the
    /// buffer because every backend this crate builds keeps its pixel
    /// count within plotters' signed 32-bit coordinate space and its
    /// buffer at least `width * height * 4` bytes long.
    #[verifier::external_body]
    pub fn fill(self, red: u8, green: u8, blue: u8) -> (r: bool)
        ensures
            r == true,
    {
        self.inner.into_drawing_area().fill(&RGBColor(red, green, blue)).is_ok()
    }
}

/// Relies on plotters' `BitMapBackend::with_buffer_and_format`: with the
/// `BGRXPixel` layout (4 bytes per pixel) it builds a backend over the
/// borrowed buffer exactly when the buffer holds at least
/// `width * height * 4` bytes, and writes nothing into the buffer itself.
/// Plotters does its drawing arithmetic in signed 32 bits — the
/// constructor multiplies `width * height` in 32 bits, and the drawing
/// area and the fill loops use `i32` coordinates and offsets — so no
/// backend is built over more than `i32::MAX` pixels, lest a later
/// drawing call overflow those offsets.
#[verifier::external_body]
fn buffer_backend<'a>(buf: &'a mut Vec<u8>, width: u32, height: u32) -> (r: Option<
    ChartBackend<'a>,
>)
    requires
        width * height <= i32::MAX,
    ensures
        r is Some <==> old(buf)@.len() >= 4 * width * height,
        r is None ==> final(buf)@ == old(buf)@,
{
    match BitMapBackend::<BGRXPixel>::with_buffer_and_format(buf.as_mut_slice(), (width, height)) {
        Ok(inner) => Some(ChartBackend { inner }),
        Err(_) => None,
    }
}

/// Whether an image admits a chart backend: it declares one of the two
/// accepted blue-green-red layouts, its pixel count fits the backend's
/// signed 32-bit coordinate space, and its buffer holds at least
/// `width * height * 4` bytes.
pub open spec fn backend_available(image: PlotImage) -> bool {
    &&& format_accepted(image.format)
    &&& image.width * image.height <= i32::MAX
    &&& image.data@.len() >= 4 * image.width * image.height
}

/// Reinterpret the image's pixel buffer as a chart backend, if possible.
///
/// The backend, when one is produced, draws directly into the borrowed
/// buffer — nothing is copied or reallocated — using the image's declared
/// width and height. No backend is produced when the declared format is not
/// a version of the 4-byte blue-green-red layout, when the pixel count
/// exceeds the backend's signed 32-bit coordinate space, or when the
/// buffer is too small for the declared dimensions; the image is then
/// left untouched.
pub fn try_as_backend<'a>(image: &'a mut PlotImage) -> (r: Option<ChartBackend<'a>>)
    ensures
        r is Some <==> backend_available(*old(image)),
        r is None ==> final(image).format == old(image).format
            && final(image).width == old(image).width
            && final(image).height == old(image).height
            && final(image).data@ == old(image).data@
            && final(image).main_world == old(image).main_world
            && final(image).render_world == old(image).render_world,
{
    if !is_supported_format(image.format) {
        return None;
    }
    let width = image.width;
    let height = image.height;
    proof {
        assert((width as int) * (height as int) <= (u32::MAX as int) * (u32::MAX as int))
            by (nonlinear_arith)
            requires
                width <= u32::MAX,
                height <= u32::MAX,
        ;
    }
    if (width as u64) * (height as u64) > (i32::MAX as u64) {
        return None;
    }
    buffer_backend(&mut image.data, width, height)
}

/// Law: an image that declares one of the two accepted blue-green-red
/// layouts, whose pixel count stays within the backend's signed 32-bit
/// coordinate space, and whose buffer holds exactly `width * height * 4`
/// bytes admits a backend, so `try_as_backend` produces one on every such
/// image.
pub proof fn lemma_exact_buffer_has_backend(image: PlotImage)
    requires
        format_accepted(image.format),
        image.width * image.height <= i32::MAX,
        image.data@.len() == 4 * image.width * image.height,
    ensures
        backend_available(image),
{
}

/// Law: an image whose declared format is outside the accepted set admits
/// no backend, whatever its buffer holds.
pub proof fn lemma_foreign_format_has_no_backend(image: PlotImage)
    requires
        !format_accepted(image.format),
    ensures
        !backend_available(image),
{
}

/// Law: a buffer shorter than `width * height * 4` bytes admits no
/// backend, whatever format the image declares.
pub proof fn lemma_short_buffer_has_no_backend(image: PlotImage)
    requires
        image.data@.len() < 4 * image.width * image.height,
    ensures
        !backend_available(image),
{
}

} // verus!
