use crate::pixel::{Image, PixelBuffer, Rgb};
use vstd::prelude::*;

verus! {

/// The value of `v` limited to the range of one colour channel, `0..=255`.
pub open spec fn clamp_channel(v: int) -> int {
    if v < 0 {
        0
    } else if v > 255 {
        255
    } else {
        v
    }
}

/// A channel after `offset` was added to it: the sum, saturated.
pub open spec fn adjust_channel(v: u8, offset: int) -> u8 {
    clamp_channel(v + offset) as u8
}

/// A pixel after `offset` was added to each of its channels. The channels
/// do not affect one another.
pub open spec fn adjust_pixel(p: Rgb, offset: int) -> Rgb {
    Rgb {
        r: adjust_channel(p.r, offset),
        g: adjust_channel(p.g, offset),
        b: adjust_channel(p.b, offset),
    }
}

/// An image after `offset` was added to every channel of every pixel.
pub open spec fn adjusted(img: Image, offset: int) -> Image {
    Image {
        width: img.width,
        height: img.height,
        pixels: img.pixels.map_values(|p: Rgb| adjust_pixel(p, offset)),
    }
}

/// Adding `offset` to the pixel takes no channel out of `0..=255`.
pub open spec fn unsaturated(p: Rgb, offset: int) -> bool {
    &&& 0 <= p.r + offset <= 255
    &&& 0 <= p.g + offset <= 255
    &&& 0 <= p.b + offset <= 255
}

/// Saturates `v` into a colour channel.
pub fn clamp(v: i32) -> (c: u8)
    ensures
        c as int == clamp_channel(v as int),
{
    if v < 0 {
        0
    } else if v > 255 {
        255
    } else {
        v as u8
    }
}

fn change_channel_brightness(v: u8, brightness: i32) -> (c: u8)
    ensures
        c as int == clamp_channel(v + brightness),
        c == adjust_channel(v, brightness as int),
{
    match (v as i32).checked_add(brightness) {
        Some(sum) => clamp(sum),
        // A channel is never negative, so the sum can only be too large.
        None => 255,
    }
}

/// Adds `brightness` to each channel of `p` and saturates each sum.
pub fn change_pixel_brightness(p: Rgb, brightness: i32) -> (q: Rgb)
    ensures
        q.r as int == clamp_channel(p.r + brightness),
        q.g as int == clamp_channel(p.g + brightness),
        q.b as int == clamp_channel(p.b + brightness),
        q == adjust_pixel(p, brightness as int),
{
    Rgb::new(
        change_channel_brightness(p.r, brightness),
        change_channel_brightness(p.g, brightness),
        change_channel_brightness(p.b, brightness),
    )
}

/// A buffer of the same dimensions in which `brightness` was added to every
/// channel of every pixel, each sum saturated. With a `brightness` of zero
/// the result equals `orig`.
pub fn change_brightness(orig: &PixelBuffer, brightness: i32) -> (out: PixelBuffer)
    ensures
        out@ == adjusted(orig@, brightness as int),
        out@.wf(),
        brightness == 0 ==> out@ == orig@,
{
    let pixels = orig.pixels();
    let n: usize = pixels.len();
    let mut new_pixels: Vec<Rgb> = Vec::new();
    let mut i: usize = 0;
    while i < n
        invariant
            n == pixels@.len(),
            i <= n,
            new_pixels@.len() == i,
            forall|j: int|
                0 <= j < i ==> new_pixels@[j] == adjust_pixel(
                    #[trigger] pixels@[j],
                    brightness as int,
                ),
        decreases n - i,
    {
        new_pixels.push(change_pixel_brightness(pixels[i], brightness));
        i += 1;
    }
    let out = PixelBuffer::new(orig.width(), orig.height(), new_pixels);
    proof {
        assert(out@ =~= adjusted(orig@, brightness as int));
        lemma_adjust_zero(orig@);
    }
    out
}

/// An offset of zero changes nothing.
pub proof fn lemma_adjust_zero(img: Image)
    ensures
        adjusted(img, 0) == img,
{
    assert(adjusted(img, 0) =~= img);
}

/// Where adding `offset` saturates no channel of the image, taking `offset`
/// away again gives the image back.
pub proof fn lemma_adjust_round_trip(img: Image, offset: int)
    requires
        forall|i: int| 0 <= i < img.pixels.len() ==> unsaturated(#[trigger] img.pixels[i], offset),
    ensures
        adjusted(adjusted(img, offset), -offset) == img,
{
    assert(adjusted(adjusted(img, offset), -offset) =~= img);
}

} // verus!
