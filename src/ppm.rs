use vstd::prelude::*;

use crate::dimension::Dimension;
use crate::image::Image;

verus! {

/// One pixel's channel values, red, green and blue, as they are written out.
pub type Triplet = (u16, u16, u16);

/// The ASCII decimal digits of `n`, most significant first, with no leading zeros.
pub open spec fn decimal(n: nat) -> Seq<u8>
    decreases n,
{
    if n < 10 {
        seq![('0' as u8 + n) as u8]
    } else {
        decimal(n / 10).push(('0' as u8 + n % 10) as u8)
    }
}

/// The three header lines: the magic token, width and height, and the largest channel value.
pub open spec fn header_text(width: nat, height: nat) -> Seq<u8> {
    seq!['P' as u8, '3' as u8, '\n' as u8]
        + decimal(width)
        + seq![' ' as u8]
        + decimal(height)
        + seq!['\n' as u8, '2' as u8, '5' as u8, '5' as u8, '\n' as u8]
}

/// One pixel's line: the three channels in decimal, separated by single spaces.
pub open spec fn pixel_text(pixel: Triplet) -> Seq<u8> {
    decimal(pixel.0 as nat)
        + seq![' ' as u8]
        + decimal(pixel.1 as nat)
        + seq![' ' as u8]
        + decimal(pixel.2 as nat)
        + seq!['\n' as u8]
}

/// The lines of all pixels, in the order given.
pub open spec fn pixels_text(pixels: Seq<Triplet>) -> Seq<u8>
    decreases pixels.len(),
{
    if pixels.len() == 0 {
        Seq::empty()
    } else {
        pixels_text(pixels.drop_last()) + pixel_text(pixels.last())
    }
}

/// Appends the decimal digits of `n` to `out`.
fn push_decimal(out: &mut Vec<u8>, n: usize)
    ensures
        final(out)@ == old(out)@ + decimal(n as nat),
    decreases n,
{
    if n >= 10 {
        push_decimal(out, n / 10);
    }
    let digit: u8 = (n % 10) as u8;
    out.push('0' as u8 + digit);
}

/// Appends the line of one pixel to `out`.
fn push_pixel(out: &mut Vec<u8>, pixel: Triplet)
    ensures
        final(out)@ == old(out)@ + pixel_text(pixel),
{
    push_decimal(out, pixel.0 as usize);
    out.push(' ' as u8);
    push_decimal(out, pixel.1 as usize);
    out.push(' ' as u8);
    push_decimal(out, pixel.2 as usize);
    out.push('\n' as u8);
}

/// The header of an image of the given extents.
pub fn header(width: Dimension, height: Dimension) -> (r: Vec<u8>)
    ensures
        r@ == header_text(width@, height@),
{
    let mut out: Vec<u8> = Vec::new();
    out.push('P' as u8);
    out.push('3' as u8);
    out.push('\n' as u8);
    push_decimal(&mut out, width.0);
    out.push(' ' as u8);
    push_decimal(&mut out, height.0);
    out.push('\n' as u8);
    out.push('2' as u8);
    out.push('5' as u8);
    out.push('5' as u8);
    out.push('\n' as u8);
    out
}

/// The line of one pixel, newline included.
pub fn pixel_line(pixel: Triplet) -> (r: Vec<u8>)
    ensures
        r@ == pixel_text(pixel),
{
    let mut out: Vec<u8> = Vec::new();
    push_pixel(&mut out, pixel);
    out
}

/// The whole image: the header for `image`'s extents, then one line per pixel,
/// in the order in which the pixels are given.
pub fn encode(image: &Image, pixels: &Vec<Triplet>) -> (r: Vec<u8>)
    requires
        image.spec_width() <= usize::MAX,
        pixels@.len() == image.spec_width() * image.spec_height(),
    ensures
        r@ == header_text(image.spec_width(), image.spec_height()) + pixels_text(pixels@),
{
    let mut out = header(image._width(), image.height());
    let ghost head = out@;
    let mut i: usize = 0;
    while i < pixels.len()
        invariant
            0 <= i <= pixels@.len(),
            head == header_text(image.spec_width(), image.spec_height()),
            out@ == head + pixels_text(pixels@.subrange(0, i as int)),
        decreases pixels@.len() - i,
    {
        push_pixel(&mut out, pixels[i]);
        proof {
            let done = pixels@.subrange(0, i as int + 1);
            assert(done.drop_last() =~= pixels@.subrange(0, i as int));
            assert(done.last() == pixels@[i as int]);
        }
        i = i + 1;
    }
    assert(pixels@.subrange(0, pixels@.len() as int) =~= pixels@);
    out
}

} // verus!
