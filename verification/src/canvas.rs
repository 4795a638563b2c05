//! The image buffer of the `image` crate, as this library sees it.
//!
//! Nothing in this file is proved. Each item states what the `image` crate's
//! own code does, and the assembly in `raster` is verified against these
//! statements.

use vstd::prelude::*;
use crate::color::Color;
use crate::raster::{image_fits, sample_index};

verus! {

/// An 8-bit RGB `image::ImageBuffer` over a `Vec<u8>`, made by
/// `ImageBuffer::new` and so holding exactly the samples of its pixels.
#[verifier::external_body]
pub struct RasterBuffer {
    image: image::ImageBuffer<image::Rgb<u8>, Vec<u8>>,
}

/// The samples of the buffer as the image holds them: row after row from the
/// top, within a row pixel after pixel from the left, within a pixel red,
/// green, blue.
pub uninterp spec fn raster_samples(buffer: RasterBuffer) -> Seq<u8>;

/// The width and the height that the buffer was made with.
pub uninterp spec fn raster_dimensions(buffer: RasterBuffer) -> (u32, u32);

/// `ImageBuffer::new`: an image of the given size in which every sample is
/// zero. The call panics where the sample count overflows `usize` or is more
/// than a `Vec` may hold, so those sizes are left out. As with any
/// allocation, the process ends where the memory cannot be had.
#[verifier::external_body]
pub(crate) fn blank(width: u32, height: u32) -> (buffer: RasterBuffer)
    requires
        image_fits(width as nat, height as nat),
    ensures
        raster_dimensions(buffer) == (width, height),
        raster_samples(buffer) == Seq::new((3 * width * height) as nat, |i: int| 0u8),
{
    RasterBuffer { image: image::ImageBuffer::new(width, height) }
}

/// `ImageBuffer::put_pixel`: writes the three samples of the pixel in column
/// `x` of row `y` and leaves every other sample, and the size, as they were.
/// The call panics outside the image, so those places are left out.
#[verifier::external_body]
pub(crate) fn put_pixel(buffer: &mut RasterBuffer, x: u32, y: u32, color: Color)
    requires
        x < raster_dimensions(*old(buffer)).0,
        y < raster_dimensions(*old(buffer)).1,
    ensures
        raster_dimensions(*final(buffer)) == raster_dimensions(*old(buffer)),
        raster_samples(*final(buffer)) == ({
            let at = sample_index(raster_dimensions(*old(buffer)).0 as nat, x as int, y as int);
            raster_samples(*old(buffer)).update(at, color.r).update(at + 1, color.g).update(
                at + 2,
                color.b,
            )
        }),
{
    buffer.image.put_pixel(x, y, image::Rgb([color.r, color.g, color.b]));
}

/// `ImageBuffer::into_raw`: hands out the sample vector of the image.
#[verifier::external_body]
pub(crate) fn into_samples(buffer: RasterBuffer) -> (samples: Vec<u8>)
    ensures
        samples@ == raster_samples(buffer),
{
    buffer.image.into_raw()
}

} // verus!
