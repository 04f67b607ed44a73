use crate::pixel::{Image, PixelBuffer, Rgb};
use vstd::arithmetic::div_mod::{
    lemma_fundamental_div_mod,
    lemma_fundamental_div_mod_converse,
    lemma_mod_bound,
};
use vstd::prelude::*;

verus! {

/// The image that keeps every `factor`-th pixel of every `factor`-th row of
/// `src`, starting with the first. Both dimensions are divided by `factor`
/// and rounded down, and cell `(row, col)` holds the pixel at
/// `(row * factor, col * factor)` of `src`: no averaging takes place.
pub open spec fn downsampled(src: Image, factor: nat) -> Image {
    let width = src.width / factor;
    let height = src.height / factor;
    Image {
        width,
        height,
        pixels: Seq::new(
            width * height,
            |i: int| src.at((i / width as int) * factor, (i % width as int) * factor),
        ),
    }
}

/// The cells of a downsampled image, by row and column. The cell of `src`
/// that each of them is taken from lies within `src`.
pub proof fn lemma_downsampled_cell(src: Image, factor: nat, row: int, col: int)
    requires
        factor >= 1,
        0 <= row < src.height / factor,
        0 <= col < src.width / factor,
    ensures
        row * factor < src.height,
        col * factor < src.width,
        downsampled(src, factor).at(row, col) == src.at(row * factor, col * factor),
{
    let width = (src.width / factor) as int;
    let height = (src.height / factor) as int;
    lemma_strided_index(src.height as int, factor as int, row);
    lemma_strided_index(src.width as int, factor as int, col);
    crate::pixel::lemma_cell_index(width, height, row, col);
    lemma_fundamental_div_mod_converse(row * width + col, width, row, col);
}

/// The `i`-th multiple of `factor` lies below `len` as long as `i` lies
/// below `len / factor`.
proof fn lemma_strided_index(len: int, factor: int, i: int)
    requires
        0 <= len,
        factor >= 1,
        0 <= i < len / factor,
    ensures
        0 <= i * factor < len,
{
    lemma_fundamental_div_mod(len, factor);
    lemma_mod_bound(len, factor);
    assert(0 <= i * factor && i * factor + factor <= factor * (len / factor))
        by (nonlinear_arith)
        requires
            0 <= i,
            i + 1 <= len / factor,
            factor >= 1,
    ;
}

/// Takes every `skip_factor`-th pixel of every `skip_factor`-th row of
/// `orig`. The result has `orig`'s dimensions divided by `skip_factor`,
/// rounded down, so it is empty where `skip_factor` exceeds one of them.
/// Where it is not empty, its first pixel is the first pixel of `orig`.
pub fn downsample(orig: &PixelBuffer, skip_factor: usize) -> (out: PixelBuffer)
    requires
        skip_factor >= 1,
    ensures
        out@ == downsampled(orig@, skip_factor as nat),
        out@.wf(),
        out@.width == orig@.width / skip_factor as nat,
        out@.height == orig@.height / skip_factor as nat,
        forall|row: int, col: int|
            0 <= row < out@.height && 0 <= col < out@.width ==> #[trigger] out@.at(row, col)
                == orig@.at(row * skip_factor, col * skip_factor),
        !out@.is_empty() ==> out@.pixels[0] == orig@.pixels[0],
{
    let orig_width: usize = orig.width();
    let orig_height: usize = orig.height();
    let width: usize = orig_width / skip_factor;
    let height: usize = orig_height / skip_factor;
    let ghost model = downsampled(orig@, skip_factor as nat);
    let mut pixels: Vec<Rgb> = Vec::new();
    let mut row: usize = 0;
    while row < height
        invariant
            skip_factor >= 1,
            orig_width == orig@.width,
            orig_height == orig@.height,
            width == orig_width / skip_factor,
            height == orig_height / skip_factor,
            model == downsampled(orig@, skip_factor as nat),
            row <= height,
            pixels@.len() == row * width,
            forall|i: int| 0 <= i < row * width ==> #[trigger] pixels@[i] == model.pixels[i],
        decreases height - row,
    {
        let mut col: usize = 0;
        while col < width
            invariant
                skip_factor >= 1,
                orig_width == orig@.width,
                orig_height == orig@.height,
                width == orig_width / skip_factor,
                height == orig_height / skip_factor,
                model == downsampled(orig@, skip_factor as nat),
                row < height,
                col <= width,
                pixels@.len() == row * width + col,
                forall|i: int|
                    0 <= i < row * width + col ==> #[trigger] pixels@[i] == model.pixels[i],
            decreases width - col,
        {
            proof {
                lemma_downsampled_cell(orig@, skip_factor as nat, row as int, col as int);
                crate::pixel::lemma_cell_index(
                    width as int,
                    height as int,
                    row as int,
                    col as int,
                );
            }
            pixels.push(orig.pixel(row * skip_factor, col * skip_factor));
            col += 1;
        }
        proof {
            assert(row * width + width == (row + 1) * width) by (nonlinear_arith);
        }
        row += 1;
    }
    proof {
        assert(height * width == width * height) by (nonlinear_arith);
    }
    let out = PixelBuffer::new(width, height, pixels);
    proof {
        assert(out@ =~= model);
        assert forall|row: int, col: int|
            0 <= row < out@.height && 0 <= col < out@.width implies #[trigger] out@.at(row, col)
            == orig@.at(row * skip_factor, col * skip_factor) by {
            lemma_downsampled_cell(orig@, skip_factor as nat, row, col);
        }
        if !out@.is_empty() {
            assert(out@.at(0, 0) == orig@.at(0 * skip_factor, 0 * skip_factor));
        }
    }
    out
}

} // verus!
