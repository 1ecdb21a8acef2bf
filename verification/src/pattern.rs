//! A synthetic image: a black and white checkerboard.

use vstd::prelude::*;
use crate::error::PngError;
use crate::model::BitDepth;
use crate::model::ColorType;
use crate::model::Header;
use crate::model::ImageModel;
use crate::model::ImageModelView;

verus! {

/// The value of each sample of the pixel in column `x` and row `y` of a
/// board with squares of `square` pixels: white where the column and the row
/// of the square are both even or both odd, black elsewhere.
pub open spec fn board_sample(x: int, y: int, square: int) -> u8 {
    if ((x / square) % 2 + (y / square) % 2) % 2 == 0 {
        255u8
    } else {
        0u8
    }
}

/// The raster of a board: three equal samples per pixel, rows from top to bottom.
pub open spec fn board_pixels(width: int, height: int, square: int) -> Seq<u8> {
    Seq::new(
        (3 * (width * height)) as nat,
        |i: int| board_sample((i / 3) % width, (i / 3) / width, square),
    )
}

/// The header of a board: eight-bit RGB, rows in order.
pub open spec fn board_header(width: u32, height: u32) -> Header {
    Header {
        width,
        height,
        bit_depth: BitDepth::Eight,
        color_type: ColorType::Rgb,
        interlaced: false,
    }
}

/// Whether a board of this size with such squares can be made: squares of
/// at least one pixel, dimensions that a header can hold, a raster that fits
/// in memory.
pub open spec fn board_possible(width: u32, height: u32, square: u32) -> bool {
    &&& square > 0
    &&& board_header(width, height).well_formed()
    &&& 3 * (width * height) <= usize::MAX
}

/// A checkerboard of `width` by `height` pixels with squares of `square`
/// pixels, the top left square white, as an eight-bit RGB image without
/// metadata. Fails with `InvalidModel` where no such board can be made.
pub fn checkerboard(width: u32, height: u32, square: u32) -> (r: Result<ImageModel, PngError>)
    ensures
        match r {
            Ok(model) => board_possible(width, height, square) && model@ == ImageModelView::plain(
                board_header(width, height),
                board_pixels(width as int, height as int, square as int),
            ) && model@.well_formed(),
            Err(e) => e == PngError::InvalidModel && !board_possible(width, height, square),
        },
{
    let header = Header {
        width,
        height,
        bit_depth: BitDepth::Eight,
        color_type: ColorType::Rgb,
        interlaced: false,
    };
    if square == 0 || !header.is_well_formed() {
        return Err(PngError::InvalidModel);
    }
    assert(width * height <= 0x7fff_ffff * 0x7fff_ffff) by (nonlinear_arith)
        requires
            width <= 0x7fff_ffff,
            height <= 0x7fff_ffff,
    ;
    let count: u64 = width as u64 * height as u64;
    if 3 * (count as u128) > usize::MAX as u128 {
        return Err(PngError::InvalidModel);
    }
    let mut pixels: Vec<u8> = Vec::new();
    let mut p: u64 = 0;
    while p < count
        invariant
            p <= count,
            count == width * height,
            3 * count <= usize::MAX,
            width > 0,
            square > 0,
            pixels@.len() == 3 * p,
            forall|i: int|
                0 <= i < 3 * p ==> pixels@[i] == board_sample(
                    (i / 3) % (width as int),
                    (i / 3) / (width as int),
                    square as int,
                ),
        decreases count - p,
    {
        let x: u64 = p % (width as u64);
        let y: u64 = p / (width as u64);
        let value: u8 = if ((x / (square as u64)) % 2 + (y / (square as u64)) % 2) % 2 == 0 {
            255
        } else {
            0
        };
        pixels.push(value);
        pixels.push(value);
        pixels.push(value);
        p += 1;
    }
    assert(pixels@ =~= board_pixels(width as int, height as int, square as int));
    assert(header.color_type.spec_samples() == 3 && header.bit_depth.spec_bits() == 8);
    assert(width * header.spec_bits_per_pixel() == width * 24) by (nonlinear_arith)
        requires
            header.spec_bits_per_pixel() == 24,
    ;
    assert(header.spec_raster_len() == 3 * (width * height)) by (nonlinear_arith)
        requires
            header.spec_raster_len() == height * (3 * width),
    ;
    Ok(ImageModel::new(header, pixels))
}

} // verus!
