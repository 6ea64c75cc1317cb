//! Truecolor values and linear interpolation between two of them.

use vstd::prelude::*;

verus! {

/// A 24-bit color.
#[derive(Clone, Copy, Debug, PartialEq, Eq, Structural)]
pub struct ColorRGB {
    pub r: u8,
    pub g: u8,
    pub b: u8,
}

/// The color packed in the low 24 bits of `hex` as `0xRRGGBB`.
pub open spec fn unpack_hex(hex: u32) -> ColorRGB {
    ColorRGB {
        r: ((hex as int / 0x1_0000) % 0x100) as u8,
        g: ((hex as int / 0x100) % 0x100) as u8,
        b: (hex as int % 0x100) as u8,
    }
}

/// `num / den` rounded to the nearest integer, a tie going up.
pub open spec fn round_div(num: int, den: int) -> int {
    (2 * num + den) / (2 * den)
}

/// One channel of the color at step `k` of a gradient of `n` steps that runs from
/// `a` (step 0) to `b` (step `n - 1`): `a + (b - a) * k / (n - 1)`, rounded to the
/// nearest integer. A gradient of a single step shows `a`.
pub open spec fn mix_channel(a: u8, b: u8, k: nat, n: nat) -> int {
    if n <= 1 {
        a as int
    } else {
        round_div(a * (n - 1) + (b - a) * k, n - 1)
    }
}

/// The color at step `k` of a gradient of `n` steps from `start` to `end`.
pub open spec fn mix(start: ColorRGB, end: ColorRGB, k: nat, n: nat) -> ColorRGB {
    ColorRGB {
        r: mix_channel(start.r, end.r, k, n) as u8,
        g: mix_channel(start.g, end.g, k, n) as u8,
        b: mix_channel(start.b, end.b, k, n) as u8,
    }
}

/// An interpolated channel lies between its two ends, so it needs no clamping.
pub proof fn lemma_mix_channel_range(a: u8, b: u8, k: nat, n: nat)
    requires
        k < n,
    ensures
        a <= b ==> a <= mix_channel(a, b, k, n) <= b,
        b <= a ==> b <= mix_channel(a, b, k, n) <= a,
        0 <= mix_channel(a, b, k, n) <= 255,
{
    if n > 1 {
        let den: int = n - 1;
        let num: int = a * den + (b - a) * k;
        let lo: int = if a <= b { a as int } else { b as int };
        let hi: int = if a <= b { b as int } else { a as int };
        assert(lo * den <= num <= hi * den) by (nonlinear_arith)
            requires
                0 <= k <= den,
                num == a * den + (b - a) * k,
                lo == (if a <= b { a as int } else { b as int }),
                hi == (if a <= b { b as int } else { a as int }),
        ;
        lemma_round_div_bounds(num, den, lo, hi);
    }
}

/// A quotient between two integers rounds to a value between them.
pub proof fn lemma_round_div_bounds(num: int, den: int, lo: int, hi: int)
    requires
        den > 0,
        lo * den <= num <= hi * den,
    ensures
        lo <= round_div(num, den) <= hi,
{
    let q: int = round_div(num, den);
    assert(lo <= q <= hi) by (nonlinear_arith)
        requires
            den > 0,
            lo * den <= num <= hi * den,
            q == (2 * num + den) / (2 * den),
    ;
}

/// A gradient between two equal colors shows that color at every step.
pub proof fn lemma_mix_flat(c: ColorRGB, k: nat, n: nat)
    requires
        k < n,
    ensures
        mix(c, c, k, n) == c,
{
    lemma_mix_channel_flat(c.r, k, n);
    lemma_mix_channel_flat(c.g, k, n);
    lemma_mix_channel_flat(c.b, k, n);
}

/// A gradient starts at its first color and, when it has more than one step,
/// ends at its second: both exactly, with no rounding error.
pub proof fn lemma_mix_ends(start: ColorRGB, end: ColorRGB, n: nat)
    requires
        n >= 1,
    ensures
        mix(start, end, 0, n) == start,
        n > 1 ==> mix(start, end, (n - 1) as nat, n) == end,
{
    lemma_mix_channel_ends(start.r, end.r, n);
    lemma_mix_channel_ends(start.g, end.g, n);
    lemma_mix_channel_ends(start.b, end.b, n);
}

proof fn lemma_mix_channel_flat(a: u8, k: nat, n: nat)
    requires
        k < n,
    ensures
        mix_channel(a, a, k, n) == a,
{
    lemma_mix_channel_range(a, a, k, n);
}

proof fn lemma_mix_channel_ends(a: u8, b: u8, n: nat)
    requires
        n >= 1,
    ensures
        mix_channel(a, b, 0, n) == a,
        n > 1 ==> mix_channel(a, b, (n - 1) as nat, n) == b,
{
    if n > 1 {
        let den: int = n - 1;
        assert(a * den + (b - a) * den == b * den) by (nonlinear_arith);
        lemma_round_div_bounds(a * den, den, a as int, a as int);
        lemma_round_div_bounds(b * den, den, b as int, b as int);
    }
}

impl ColorRGB {
    pub fn new(r: u8, g: u8, b: u8) -> (c: ColorRGB)
        ensures
            c == (ColorRGB { r, g, b }),
    {
        ColorRGB { r, g, b }
    }

    /// The color packed as `0xRRGGBB`; bits above the low 24 are ignored.
    pub fn from_hex(hex: u32) -> (c: ColorRGB)
        ensures
            c == unpack_hex(hex),
    {
        let r: u32 = (hex >> 16) & 0xFF;
        let g: u32 = (hex >> 8) & 0xFF;
        let b: u32 = hex & 0xFF;
        assert(r == (hex / 0x1_0000) % 0x100 && g == (hex / 0x100) % 0x100 && b == hex % 0x100)
            by (bit_vector)
            requires
                r == (hex >> 16) & 0xFF,
                g == (hex >> 8) & 0xFF,
                b == hex & 0xFF,
        ;
        ColorRGB { r: r as u8, g: g as u8, b: b as u8 }
    }

    /// The color at step `k` of a gradient of `n` steps from `self` to `end`.
    pub fn mix(&self, end: &ColorRGB, k: u16, n: u16) -> (c: ColorRGB)
        requires
            k < n,
        ensures
            c == mix(*self, *end, k as nat, n as nat),
    {
        ColorRGB {
            r: mix_u8(self.r, end.r, k, n),
            g: mix_u8(self.g, end.g, k, n),
            b: mix_u8(self.b, end.b, k, n),
        }
    }
}

/// One interpolated channel, computed exactly in integers.
pub fn mix_u8(a: u8, b: u8, k: u16, n: u16) -> (v: u8)
    requires
        k < n,
    ensures
        v == mix_channel(a, b, k as nat, n as nat),
{
    if n <= 1 {
        return a;
    }
    let den: u32 = (n - 1) as u32;
    let step: u32 = k as u32;
    proof {
        lemma_mix_channel_range(a, b, k as nat, n as nat);
        assert(a * (den - step) + b * step == a * den + (b - a) * step) by (nonlinear_arith);
        assert(a * (den - step) <= 255 * 65535 && b * step <= 255 * 65535) by (nonlinear_arith)
            requires
                a <= 255,
                b <= 255,
                step <= den <= 65535,
        ;
    }
    let num: u32 = (a as u32) * (den - step) + (b as u32) * step;
    let q: u32 = (2 * num + den) / (2 * den);
    q as u8
}

} // verus!
