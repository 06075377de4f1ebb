use vstd::prelude::*;

use crate::color::Pixel;

verus! {

/// ASCII `0`; the digit `d` is written as `DIGIT_ZERO + d`.
pub const DIGIT_ZERO: u8 = 48;

/// ASCII space, between the numbers of a line.
pub const SPACE: u8 = 32;

/// ASCII line feed, at the end of every line.
pub const NEWLINE: u8 = 10;

/// ASCII `P`, the first byte of the format tag `P3`.
pub const TAG_LETTER: u8 = 80;

/// The format tag's digit: `P3` is the plain-text RGB variant of PPM.
pub const TAG_DIGIT: u8 = 51;

/// The largest channel value that the header announces.
pub const MAX_CHANNEL: u64 = 255;

/// The ASCII decimal digits of `n`, most significant first, without
/// leading zeros (`0` is the single digit `0`).
pub open spec fn decimal(n: nat) -> Seq<u8>
    decreases n,
{
    if n < 10 {
        seq![(n + DIGIT_ZERO) as u8]
    } else {
        decimal(n / 10).push((n % 10 + DIGIT_ZERO) as u8)
    }
}

/// The header of a plain-text PPM image: the format tag `P3`, the width and
/// height, and the largest channel value `255`, each on its own line.
pub open spec fn header_text(width: nat, height: nat) -> Seq<u8> {
    seq![TAG_LETTER, TAG_DIGIT, NEWLINE] + decimal(width) + seq![SPACE] + decimal(height) + seq![
        NEWLINE,
    ] + decimal(MAX_CHANNEL as nat) + seq![NEWLINE]
}

/// One pixel of a PPM image: its three channels in decimal, separated by
/// spaces, on a line of their own.
pub open spec fn pixel_text(p: Pixel) -> Seq<u8> {
    decimal(p.r as nat) + seq![SPACE] + decimal(p.g as nat) + seq![SPACE] + decimal(p.b as nat)
        + seq![NEWLINE]
}

/// The pixel lines of `ps`, in order.
pub open spec fn pixels_text(ps: Seq<Pixel>) -> Seq<u8>
    decreases ps.len(),
{
    if ps.len() == 0 {
        Seq::empty()
    } else {
        pixels_text(ps.drop_last()) + pixel_text(ps.last())
    }
}

/// A whole PPM image: the header followed by every pixel line.
pub open spec fn image_text(width: nat, height: nat, ps: Seq<Pixel>) -> Seq<u8> {
    header_text(width, height) + pixels_text(ps)
}

/// Appends the decimal digits of `n` to `buf`.
pub fn write_decimal(buf: &mut Vec<u8>, n: u64)
    ensures
        final(buf)@ == old(buf)@ + decimal(n as nat),
    decreases n,
{
    if n >= 10 {
        write_decimal(buf, n / 10);
    }
    buf.push((n % 10) as u8 + DIGIT_ZERO);
}

/// Appends the PPM header of a `width` × `height` image to `buf`.
pub fn write_header(buf: &mut Vec<u8>, width: u32, height: u32)
    ensures
        final(buf)@ == old(buf)@ + header_text(width as nat, height as nat),
{
    let ghost start = buf@;
    buf.push(TAG_LETTER);
    buf.push(TAG_DIGIT);
    buf.push(NEWLINE);
    write_decimal(buf, width as u64);
    buf.push(SPACE);
    write_decimal(buf, height as u64);
    buf.push(NEWLINE);
    write_decimal(buf, MAX_CHANNEL);
    buf.push(NEWLINE);
    assert(buf@ =~= start + header_text(width as nat, height as nat));
}

/// Appends the line of pixel `p` to `buf`.
pub fn write_pixel(buf: &mut Vec<u8>, p: Pixel)
    ensures
        final(buf)@ == old(buf)@ + pixel_text(p),
{
    let ghost start = buf@;
    write_decimal(buf, p.r);
    buf.push(SPACE);
    write_decimal(buf, p.g);
    buf.push(SPACE);
    write_decimal(buf, p.b);
    buf.push(NEWLINE);
    assert(buf@ =~= start + pixel_text(p));
}

/// Encodes a `width` × `height` image whose pixels are given in scan order
/// (rows top to bottom, each row left to right) as a plain-text PPM file.
///
/// Returns `None` when the number of pixels is not `width * height`.
pub fn encode_image(width: u32, height: u32, pixels: &Vec<Pixel>) -> (r: Option<Vec<u8>>)
    ensures
        r is Some <==> pixels@.len() == width as int * height as int,
        r matches Some(bytes) ==> bytes@ == image_text(width as nat, height as nat, pixels@),
{
    assert(width as int * height as int <= u64::MAX) by (nonlinear_arith)
        requires
            width <= u32::MAX,
            height <= u32::MAX,
    ;
    if pixels.len() as u64 != width as u64 * height as u64 {
        return None;
    }
    let mut buf: Vec<u8> = Vec::new();
    write_header(&mut buf, width, height);
    let mut k: usize = 0;
    while k < pixels.len()
        invariant
            k <= pixels@.len(),
            buf@ == header_text(width as nat, height as nat) + pixels_text(pixels@.take(k as int)),
        decreases pixels@.len() - k,
    {
        let ghost before = buf@;
        write_pixel(&mut buf, pixels[k]);
        proof {
            let done = pixels@.take(k as int + 1);
            assert(done.drop_last() =~= pixels@.take(k as int));
            assert(done.last() == pixels@[k as int]);
            assert(pixels_text(done) == pixels_text(done.drop_last()) + pixel_text(done.last()));
            assert(buf@ =~= header_text(width as nat, height as nat) + pixels_text(done));
        }
        k += 1;
    }
    assert(pixels@.take(k as int) =~= pixels@);
    Some(buf)
}

} // verus!
