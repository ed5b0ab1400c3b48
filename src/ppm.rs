//! The plain-text PPM image encoding: a `P3` header that declares the
//! dimensions and the channel maximum, then one line of three decimal
//! channel values per pixel.
use vstd::prelude::*;

verus! {

/// ASCII code of a decimal digit.
pub open spec fn digit(d: nat) -> u8
    recommends
        d < 10,
{
    (d + 48) as u8
}

/// Decimal digits of `n`, most significant first, with no leading zero.
pub open spec fn decimal(n: nat) -> Seq<u8>
    decreases n,
{
    if n < 10 {
        seq![digit(n)]
    } else {
        decimal(n / 10).push(digit(n % 10))
    }
}

/// Decimal text of a signed integer: a minus sign before the digits of its
/// magnitude when it is negative.
pub open spec fn signed_decimal(n: int) -> Seq<u8> {
    if n < 0 {
        seq![45u8] + decimal((-n) as nat)
    } else {
        decimal(n as nat)
    }
}

/// `P3`, the width and the height separated by a space, and the channel
/// maximum `255`, each on its own line.
pub open spec fn header_text(width: int, height: int) -> Seq<u8> {
    seq![80u8, 51u8, 10u8] + signed_decimal(width) + seq![32u8] + signed_decimal(height) + seq![
        10u8,
        50u8,
        53u8,
        53u8,
        10u8,
    ]
}

/// The three channel values of one pixel, separated by spaces, ending the line.
pub open spec fn pixel_text(r: u8, g: u8, b: u8) -> Seq<u8> {
    decimal(r as nat) + seq![32u8] + decimal(g as nat) + seq![32u8] + decimal(b as nat) + seq![
        10u8,
    ]
}

/// Appends the decimal digits of `n` to `out`.
fn push_decimal(out: &mut Vec<u8>, n: u32)
    ensures
        final(out)@ == old(out)@ + decimal(n as nat),
    decreases n,
{
    if n >= 10 {
        push_decimal(out, n / 10);
    }
    let d: u8 = (n % 10) as u8;
    out.push(d + 48);
    assert(out@ =~= old(out)@ + decimal(n as nat));
}

/// Appends the decimal text of a signed `n` to `out`.
fn push_signed_decimal(out: &mut Vec<u8>, n: i32)
    ensures
        final(out)@ == old(out)@ + signed_decimal(n as int),
{
    if n < 0 {
        out.push(45);
        let magnitude: u32 = (-(n as i64)) as u32;
        push_decimal(out, magnitude);
        assert(final(out)@ =~= old(out)@ + signed_decimal(n as int));
    } else {
        push_decimal(out, n as u32);
    }
}

/// The header of an image of `width` by `height` pixels.
pub fn ppm_header(width: i32, height: i32) -> (r: Vec<u8>)
    ensures
        r@ == header_text(width as int, height as int),
{
    let mut out: Vec<u8> = Vec::new();
    out.push(80);
    out.push(51);
    out.push(10);
    push_signed_decimal(&mut out, width);
    out.push(32);
    push_signed_decimal(&mut out, height);
    out.push(10);
    out.push(50);
    out.push(53);
    out.push(53);
    out.push(10);
    assert(out@ =~= header_text(width as int, height as int));
    out
}

/// The line that holds one pixel with channel values `r`, `g` and `b`.
pub fn pixel_line(r: u8, g: u8, b: u8) -> (line: Vec<u8>)
    ensures
        line@ == pixel_text(r, g, b),
{
    let mut out: Vec<u8> = Vec::new();
    push_decimal(&mut out, r as u32);
    out.push(32);
    push_decimal(&mut out, g as u32);
    out.push(32);
    push_decimal(&mut out, b as u32);
    out.push(10);
    assert(out@ =~= pixel_text(r, g, b));
    out
}

} // verus!
