use vstd::prelude::*;

verus! {

/// ASCII decimal digits of `n`, most significant first, without leading zeros.
pub open spec fn decimal(n: nat) -> Seq<u8>
    decreases n,
{
    if n < 10 {
        seq![(48 + n) as u8]
    } else {
        decimal(n / 10).push((48 + n % 10) as u8)
    }
}

/// The largest value a channel can take in the image.
pub const MAX_CHANNEL: u8 = 255;

/// A channel value scaled to [0, 256) and truncated, brought into [0, 255].
pub open spec fn clamp_channel(scaled: int) -> u8 {
    if scaled < 0 {
        0
    } else if scaled > 255 {
        255
    } else {
        scaled as u8
    }
}

/// The header of a plain-text colour image of the given size with 255 as the largest channel
/// value: `P3`, then the width and height, then `255`, each on a line of its own.
pub open spec fn ppm_header_text(width: nat, height: nat) -> Seq<u8> {
    seq![80u8, 51u8, 10u8] + decimal(width) + seq![32u8] + decimal(height) + seq![10u8]
        + decimal(255) + seq![10u8]
}

/// The line of one pixel: its three channels in decimal, separated by single spaces.
pub open spec fn pixel_text(r: u8, g: u8, b: u8) -> Seq<u8> {
    decimal(r as nat) + seq![32u8] + decimal(g as nat) + seq![32u8] + decimal(b as nat) + seq![
        10u8,
    ]
}

/// Appends the decimal digits of `n` to `out`.
pub fn push_decimal(out: &mut Vec<u8>, n: u32)
    ensures
        final(out)@ == old(out)@ + decimal(n as nat),
    decreases n,
{
    if n >= 10 {
        push_decimal(out, n / 10);
    }
    out.push(48u8 + (n % 10) as u8);
    assert(old(out)@ + decimal(n as nat) =~= out@);
}

/// Brings a channel that was scaled to [0, 256) and truncated into a byte: negative values
/// become 0 and values above 255 become 255.
pub fn channel_byte(scaled: i64) -> (r: u8)
    ensures
        r == clamp_channel(scaled as int),
{
    if scaled < 0 {
        0
    } else if scaled > MAX_CHANNEL as i64 {
        MAX_CHANNEL
    } else {
        scaled as u8
    }
}

/// The header of an image of `width` by `height` pixels.
pub fn ppm_header(width: u32, height: u32) -> (r: Vec<u8>)
    ensures
        r@ == ppm_header_text(width as nat, height as nat),
{
    let mut out: Vec<u8> = Vec::new();
    out.push(80u8);
    out.push(51u8);
    out.push(10u8);
    push_decimal(&mut out, width);
    out.push(32u8);
    push_decimal(&mut out, height);
    out.push(10u8);
    push_decimal(&mut out, MAX_CHANNEL as u32);
    out.push(10u8);
    assert(out@ =~= ppm_header_text(width as nat, height as nat));
    out
}

/// The line of a pixel whose channels, scaled to [0, 256) and truncated, are `r`, `g`, `b`;
/// each is first clamped into [0, 255].
pub fn pixel_line(r: i64, g: i64, b: i64) -> (line: Vec<u8>)
    ensures
        line@ == pixel_text(
            clamp_channel(r as int),
            clamp_channel(g as int),
            clamp_channel(b as int),
        ),
{
    let rb = channel_byte(r);
    let gb = channel_byte(g);
    let bb = channel_byte(b);
    let mut out: Vec<u8> = Vec::new();
    push_decimal(&mut out, rb as u32);
    out.push(32u8);
    push_decimal(&mut out, gb as u32);
    out.push(32u8);
    push_decimal(&mut out, bb as u32);
    out.push(10u8);
    assert(out@ =~= pixel_text(rb, gb, bb));
    out
}

} // verus!
