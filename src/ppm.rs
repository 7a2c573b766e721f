use vstd::prelude::*;

use crate::image::{Image, Rgb8};

verus! {

/// ASCII `'0'`.
pub const ZERO: u8 = 48;

/// ASCII space, between the numbers of a line.
pub const SPACE: u8 = 32;

/// ASCII line feed, at the end of each line.
pub const NEWLINE: u8 = 10;

/// ASCII `'P'`, the first byte of the magic number of plain-text PPM.
pub const MAGIC: u8 = 80;

/// The digit after `'P'` in the magic number: the plain-text color format.
pub const PLAIN_COLOR_FORMAT: u64 = 3;

/// The largest intensity a PPM file of this library declares.
pub const MAX_LEVEL: u64 = 255;

/// ASCII decimal digits of `n`, most significant first, without leading zeros.
pub open spec fn decimal(n: nat) -> Seq<u8>
    decreases n,
{
    if n < 10 {
        seq![(ZERO + n) as u8]
    } else {
        decimal(n / 10).push((ZERO + n % 10) as u8)
    }
}

/// One pixel as a text line: `"R G B\n"`.
pub open spec fn pixel_line(c: Rgb8) -> Seq<u8> {
    decimal(c.r as nat) + seq![SPACE] + decimal(c.g as nat) + seq![SPACE] + decimal(c.b as nat)
        + seq![NEWLINE]
}

/// The pixel lines of `px`, in order.
pub open spec fn pixel_lines(px: Seq<Rgb8>) -> Seq<u8>
    decreases px.len(),
{
    if px.len() == 0 {
        Seq::empty()
    } else {
        pixel_lines(px.drop_last()) + pixel_line(px.last())
    }
}

/// The PPM header: the magic number (`'P'` then the format digit), a line
/// feed, `"<width> <height>\n"`, then the largest level `"255\n"`.
pub open spec fn ppm_header(width: nat, height: nat) -> Seq<u8> {
    seq![MAGIC] + decimal(PLAIN_COLOR_FORMAT as nat) + seq![NEWLINE] + decimal(width) + seq![SPACE] + decimal(height)
        + seq![NEWLINE] + decimal(MAX_LEVEL as nat) + seq![NEWLINE]
}

/// A plain-text PPM file: the header, then one line per pixel in row-major
/// order from the top-left.
pub open spec fn ppm(width: nat, height: nat, px: Seq<Rgb8>) -> Seq<u8> {
    ppm_header(width, height) + pixel_lines(px)
}

/// Appends the decimal digits of `n`.
pub fn push_decimal(out: &mut Vec<u8>, n: u64)
    ensures
        final(out)@ == old(out)@ + decimal(n as nat),
    decreases n,
{
    if n >= 10 {
        push_decimal(out, n / 10);
    }
    out.push(ZERO + (n % 10) as u8);
    proof {
        if n < 10 {
            assert(n % 10 == n);
        }
        assert(final(out)@ =~= old(out)@ + decimal(n as nat));
    }
}

fn push_pixel_line(out: &mut Vec<u8>, c: Rgb8)
    ensures
        final(out)@ == old(out)@ + pixel_line(c),
{
    push_decimal(out, c.r as u64);
    out.push(SPACE);
    push_decimal(out, c.g as u64);
    out.push(SPACE);
    push_decimal(out, c.b as u64);
    out.push(NEWLINE);
    proof {
        assert(final(out)@ =~= old(out)@ + pixel_line(c));
    }
}

/// The image as a plain-text PPM file.
pub fn draw_image(img: &Image) -> (r: Vec<u8>)
    ensures
        r@ == ppm(img.width_spec(), img.height_spec(), img.pixels_spec()),
{
    let mut out: Vec<u8> = Vec::new();
    out.push(MAGIC);
    push_decimal(&mut out, PLAIN_COLOR_FORMAT);
    out.push(NEWLINE);
    push_decimal(&mut out, img.width());
    out.push(SPACE);
    push_decimal(&mut out, img.height());
    out.push(NEWLINE);
    push_decimal(&mut out, MAX_LEVEL);
    out.push(NEWLINE);
    let header = Ghost(out@);
    assert(header@ =~= ppm_header(img.width_spec(), img.height_spec()));
    let px = img.pixels();
    let mut i: usize = 0;
    while i < px.len()
        invariant
            i <= px@.len(),
            out@ == header@ + pixel_lines(px@.subrange(0, i as int)),
        decreases px@.len() - i,
    {
        let c = px[i];
        proof {
            assert(px@.subrange(0, i + 1).drop_last() =~= px@.subrange(0, i as int));
        }
        push_pixel_line(&mut out, c);
        proof {
            assert(out@ =~= header@ + pixel_lines(px@.subrange(0, i + 1)));
        }
        i = i + 1;
    }
    assert(px@.subrange(0, px@.len() as int) =~= px@);
    out
}

} // verus!
