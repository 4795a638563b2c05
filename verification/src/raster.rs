//! The raster assembler: shaded rows in, the samples of an RGB image out.

use vstd::prelude::*;
use crate::canvas::{blank, into_samples, put_pixel, raster_dimensions, raster_samples, RasterBuffer};
use crate::color::Color;

verus! {

/// Why a set of rows cannot be assembled.
#[derive(Clone, Copy, Debug, PartialEq, Eq)]
pub enum RasterError {
    /// The image would hold more samples than one allocation can.
    TooLarge,
    /// There are not `height` rows, or a row does not hold `width` colors.
    NotAGrid,
}

/// Whether an RGB image of this size can be laid out in memory: three
/// samples per pixel, the sample count of one row within `usize`, and the
/// sample count of the whole image within what one `Vec` may hold.
pub open spec fn image_fits(width: nat, height: nat) -> bool {
    &&& 3 * width <= usize::MAX
    &&& 3 * width * height <= isize::MAX
}

/// Where the red sample of the pixel in column `x` of row `y` stands among
/// the samples of an image `width` pixels wide; green and blue follow it.
pub open spec fn sample_index(width: nat, x: int, y: int) -> int {
    3 * (y * width + x)
}

/// Whether `rows` holds `height` rows of `width` colors each.
pub open spec fn is_grid(rows: Seq<Vec<Color>>, width: nat, height: nat) -> bool {
    &&& rows.len() == height
    &&& forall|y: int| 0 <= y < rows.len() ==> (#[trigger] rows[y])@.len() == width
}

/// The pixel in column `x` of row `y`, read from the samples of an image
/// `width` pixels wide.
pub open spec fn pixel_at(samples: Seq<u8>, width: nat, x: int, y: int) -> Color {
    let at = sample_index(width, x, y);
    Color { r: samples[at], g: samples[at + 1], b: samples[at + 2] }
}

/// Whether `samples` is the image of `rows`: three samples for each cell and
/// nothing else, and the pixel at each place the color that `rows` holds
/// there.
pub open spec fn is_image_of(samples: Seq<u8>, rows: Seq<Vec<Color>>, width: nat, height: nat) -> bool {
    &&& samples.len() == 3 * width * height
    &&& forall|x: int, y: int|
        0 <= x < width && 0 <= y < height ==> #[trigger] pixel_at(samples, width, x, y)
            == rows[y]@[x]
}

/// Says whether an image of this size can be laid out in memory.
pub fn fits(width: u32, height: u32) -> (ok: bool)
    ensures
        ok == image_fits(width as nat, height as nat),
{
    let row: u128 = 3 * (width as u128);
    assert(row * height <= 0x3_0000_0000_0000_0000) by (nonlinear_arith)
        requires
            row <= 0x3_0000_0000,
            height <= 0x1_0000_0000,
    ;
    let all: u128 = row * (height as u128);
    row <= usize::MAX as u128 && all <= isize::MAX as u128
}

/// Samples of pixels in reading order: a pixel that comes earlier has its
/// samples earlier, and none of them is past the end of the image.
proof fn lemma_sample_order(width: nat, height: nat, x1: int, y1: int, x2: int, y2: int)
    by (nonlinear_arith)
    requires
        0 <= x1 < width,
        0 <= x2 < width,
        0 <= y1,
        0 <= y2 < height,
        y1 < y2 || (y1 == y2 && x1 <= x2),
    ensures
        y1 == y2 && x1 == x2 ==> sample_index(width, x1, y1) == sample_index(width, x2, y2),
        !(y1 == y2 && x1 == x2) ==> sample_index(width, x1, y1) + 3 <= sample_index(width, x2, y2),
        0 <= sample_index(width, x1, y1),
        sample_index(width, x2, y2) + 3 <= 3 * width * height,
{
}

/// Writes row `y` into the buffer.
fn write_row(buffer: &mut RasterBuffer, width: u32, height: u32, y: u32, rows: &Vec<Vec<Color>>)
    requires
        raster_dimensions(*old(buffer)) == (width, height),
        raster_samples(*old(buffer)).len() == 3 * width * height,
        is_grid(rows@, width as nat, height as nat),
        y < height,
        forall|x: int, v: int|
            0 <= x < width && 0 <= v < y ==> #[trigger] pixel_at(
                raster_samples(*old(buffer)),
                width as nat,
                x,
                v,
            ) == rows@[v]@[x],
    ensures
        raster_dimensions(*final(buffer)) == (width, height),
        raster_samples(*final(buffer)).len() == 3 * width * height,
        forall|x: int, v: int|
            0 <= x < width && 0 <= v <= y ==> #[trigger] pixel_at(
                raster_samples(*final(buffer)),
                width as nat,
                x,
                v,
            ) == rows@[v]@[x],
{
    let row = &rows[y as usize];
    let mut x: u32 = 0;
    while x < width
        invariant
            x <= width,
            y < height,
            raster_dimensions(*buffer) == (width, height),
            raster_samples(*buffer).len() == 3 * width * height,
            is_grid(rows@, width as nat, height as nat),
            *row == rows@[y as int],
            forall|u: int, v: int|
                0 <= u < width && 0 <= v < y ==> #[trigger] pixel_at(
                    raster_samples(*buffer),
                    width as nat,
                    u,
                    v,
                ) == rows@[v]@[u],
            forall|u: int|
                0 <= u < x ==> #[trigger] pixel_at(raster_samples(*buffer), width as nat, u, y as int)
                    == rows@[y as int]@[u],
        decreases width - x,
    {
        let ghost before = raster_samples(*buffer);
        let color = row[x as usize];
        put_pixel(buffer, x, y, color);
        proof {
            let after = raster_samples(*buffer);
            lemma_sample_order(width as nat, height as nat, x as int, y as int, x as int, y as int);
            assert(pixel_at(after, width as nat, x as int, y as int) == color);
            assert forall|u: int, v: int| 0 <= u < width && 0 <= v < y implies #[trigger] pixel_at(
                after,
                width as nat,
                u,
                v,
            ) == rows@[v]@[u] by {
                lemma_sample_order(width as nat, height as nat, u, v, x as int, y as int);
                assert(pixel_at(after, width as nat, u, v) == pixel_at(before, width as nat, u, v));
            }
            assert forall|u: int| 0 <= u < x + 1 implies #[trigger] pixel_at(
                after,
                width as nat,
                u,
                y as int,
            ) == rows@[y as int]@[u] by {
                if u < x {
                    lemma_sample_order(width as nat, height as nat, u, y as int, x as int, y as int);
                    assert(pixel_at(after, width as nat, u, y as int) == pixel_at(
                        before,
                        width as nat,
                        u,
                        y as int,
                    ));
                }
            }
        }
        x = x + 1;
    }
}

/// Lays the rows out as the samples of a `width` by `height` RGB image:
/// row after row from the top, each pixel as red, green, blue.
///
/// Fails with `TooLarge` where no image of that size can be laid out in
/// memory, and otherwise with `NotAGrid` where `rows` is not `height` rows of
/// `width` colors. In every other case each cell of the image is the color
/// that `rows` holds at that place.
pub fn assemble(width: u32, height: u32, rows: &Vec<Vec<Color>>) -> (res: Result<Vec<u8>, RasterError>)
    ensures
        match res {
            Ok(samples) => {
                &&& image_fits(width as nat, height as nat)
                &&& is_grid(rows@, width as nat, height as nat)
                &&& is_image_of(samples@, rows@, width as nat, height as nat)
            },
            Err(RasterError::TooLarge) => !image_fits(width as nat, height as nat),
            Err(RasterError::NotAGrid) => {
                &&& image_fits(width as nat, height as nat)
                &&& !is_grid(rows@, width as nat, height as nat)
            },
        },
{
    if !fits(width, height) {
        return Err(RasterError::TooLarge);
    }
    if rows.len() != height as usize {
        return Err(RasterError::NotAGrid);
    }
    let mut y: u32 = 0;
    while y < height
        invariant
            y <= height,
            image_fits(width as nat, height as nat),
            rows@.len() == height,
            forall|v: int| 0 <= v < y ==> (#[trigger] rows@[v])@.len() == width,
        decreases height - y,
    {
        if rows[y as usize].len() != width as usize {
            assert(rows@[y as int]@.len() != width);
            return Err(RasterError::NotAGrid);
        }
        y = y + 1;
    }
    let mut buffer = blank(width, height);
    let mut y: u32 = 0;
    while y < height
        invariant
            y <= height,
            image_fits(width as nat, height as nat),
            is_grid(rows@, width as nat, height as nat),
            raster_dimensions(buffer) == (width, height),
            raster_samples(buffer).len() == 3 * width * height,
            forall|x: int, v: int|
                0 <= x < width && 0 <= v < y ==> #[trigger] pixel_at(
                    raster_samples(buffer),
                    width as nat,
                    x,
                    v,
                ) == rows@[v]@[x],
        decreases height - y,
    {
        write_row(&mut buffer, width, height, y, rows);
        y = y + 1;
    }
    Ok(into_samples(buffer))
}

/// An image is fixed by the colors of its cells: where two grids hold the
/// same color at every place, their images are the same, sample for sample.
pub proof fn lemma_image_unique(
    a: Seq<u8>,
    b: Seq<u8>,
    rows_a: Seq<Vec<Color>>,
    rows_b: Seq<Vec<Color>>,
    width: nat,
    height: nat,
)
    requires
        is_image_of(a, rows_a, width, height),
        is_image_of(b, rows_b, width, height),
        forall|x: int, y: int|
            0 <= x < width && 0 <= y < height ==> #[trigger] rows_a[y]@[x] == rows_b[y]@[x],
    ensures
        a == b,
{
    assert forall|i: int| 0 <= i < a.len() implies a[i] == b[i] by {
        let cell = i / 3;
        assert(width > 0 && 0 <= cell < width * height) by (nonlinear_arith)
            requires
                0 <= i < 3 * width * height,
                cell == i / 3,
        ;
        let x = cell % (width as int);
        let y = cell / (width as int);
        assert(0 <= x < width && 0 <= y < height && cell == y * width + x) by (nonlinear_arith)
            requires
                0 <= cell < width * height,
                width > 0,
                x == cell % (width as int),
                y == cell / (width as int),
        ;
        assert(rows_a[y]@[x] == rows_b[y]@[x]);
        assert(pixel_at(a, width, x, y) == pixel_at(b, width, x, y));
        assert(sample_index(width, x, y) == 3 * cell);
    }
    assert(a =~= b);
}

} // verus!
