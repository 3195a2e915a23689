//! Linear colour, each channel in millionths of full intensity.

use vstd::prelude::*;

verus! {

/// One full channel: a million millionths.
pub const FULL: u32 = 1_000_000;

/// A factor of one, in thousandths.
pub const PER_MILLE: u32 = 1000;

/// A linear RGB colour. A channel may exceed [`FULL`] while contributions
/// accumulate; it saturates at `u32::MAX`.
#[derive(Clone, Copy, Debug, PartialEq, Eq, Structural)]
pub struct Color {
    pub red: u32,
    pub green: u32,
    pub blue: u32,
}

/// A channel multiplied by `factor` thousandths, the factor limited to one.
pub open spec fn faded_channel(c: u32, factor: u32) -> u32 {
    if factor >= PER_MILLE {
        c
    } else {
        ((c * factor) / 1000) as u32
    }
}

/// The sum of two channels, limited to `u32::MAX`.
pub open spec fn summed_channel(a: u32, b: u32) -> u32 {
    if a + b > u32::MAX {
        u32::MAX
    } else {
        (a + b) as u32
    }
}

/// A channel as an eight-bit value: anything at or above [`FULL`] is 255.
pub open spec fn channel_byte(c: u32) -> u8 {
    if c >= FULL {
        255u8
    } else {
        ((c * 255) / 1_000_000) as u8
    }
}

/// A channel divided by a squared distance given in squared millionths of a
/// layout unit, the quotient taken in channel units per squared layout unit
/// and limited to `u32::MAX`. At distance zero a lit channel saturates.
pub open spec fn thinned_channel(c: u32, squared: nat) -> u32 {
    if squared == 0 {
        if c == 0 {
            0u32
        } else {
            u32::MAX
        }
    } else if (c * 1_000_000_000_000) / (squared as int) > u32::MAX {
        u32::MAX
    } else {
        ((c * 1_000_000_000_000) / (squared as int)) as u32
    }
}

fn fade_channel(c: u32, factor: u32) -> (r: u32)
    ensures
        r == faded_channel(c, factor),
        r <= c,
{
    if factor >= PER_MILLE {
        c
    } else {
        assert(c * factor <= 0xffff_ffff * 1000) by (nonlinear_arith)
            requires
                c <= 0xffff_ffff,
                factor < 1000,
        ;
        let wide: u64 = c as u64 * factor as u64;
        assert(wide / 1000 <= c) by (nonlinear_arith)
            requires
                wide == c * factor,
                factor < 1000,
        ;
        (wide / 1000) as u32
    }
}

fn sum_channel(a: u32, b: u32) -> (r: u32)
    ensures
        r == summed_channel(a, b),
{
    let wide: u64 = a as u64 + b as u64;
    if wide > u32::MAX as u64 {
        u32::MAX
    } else {
        wide as u32
    }
}

fn byte_of_channel(c: u32) -> (r: u8)
    ensures
        r == channel_byte(c),
{
    if c >= FULL {
        255
    } else {
        let wide: u64 = c as u64 * 255;
        (wide / 1_000_000) as u8
    }
}

fn thin_channel(c: u32, squared: u128) -> (r: u32)
    ensures
        r == thinned_channel(c, squared as nat),
{
    if squared == 0 {
        if c == 0 {
            0
        } else {
            u32::MAX
        }
    } else {
        assert(c * 1_000_000_000_000 <= 0xffff_ffff * 1_000_000_000_000) by (nonlinear_arith)
            requires
                c <= 0xffff_ffff,
        ;
        let wide: u128 = c as u128 * 1_000_000_000_000u128;
        let q: u128 = wide / squared;
        if q > u32::MAX as u128 {
            u32::MAX
        } else {
            q as u32
        }
    }
}

impl Color {
    pub fn new(red: u32, green: u32, blue: u32) -> (c: Color)
        ensures
            c == (Color { red, green, blue }),
    {
        Color { red, green, blue }
    }

    /// All channels dark.
    pub fn black() -> (c: Color)
        ensures
            c == (Color { red: 0, green: 0, blue: 0 }),
    {
        Color { red: 0, green: 0, blue: 0 }
    }

    /// The colour multiplied by `factor` thousandths.
    pub open spec fn faded(self, factor: u32) -> Color {
        Color {
            red: faded_channel(self.red, factor),
            green: faded_channel(self.green, factor),
            blue: faded_channel(self.blue, factor),
        }
    }

    /// The channel-wise saturating sum.
    pub open spec fn plus(self, other: Color) -> Color {
        Color {
            red: summed_channel(self.red, other.red),
            green: summed_channel(self.green, other.green),
            blue: summed_channel(self.blue, other.blue),
        }
    }

    /// The colour divided by a squared distance.
    pub open spec fn thinned(self, squared: nat) -> Color {
        Color {
            red: thinned_channel(self.red, squared),
            green: thinned_channel(self.green, squared),
            blue: thinned_channel(self.blue, squared),
        }
    }

    /// The colour as three bytes.
    pub open spec fn bytes(self) -> (u8, u8, u8) {
        (channel_byte(self.red), channel_byte(self.green), channel_byte(self.blue))
    }

    /// Multiplies every channel by `factor` thousandths, rounding down. A
    /// factor above one thousand leaves the colour as it is.
    pub fn fade(&self, factor: u32) -> (c: Color)
        ensures
            c == self.faded(factor),
            c.red <= self.red,
            c.green <= self.green,
            c.blue <= self.blue,
    {
        Color {
            red: fade_channel(self.red, factor),
            green: fade_channel(self.green, factor),
            blue: fade_channel(self.blue, factor),
        }
    }

    /// Adds `other` channel by channel, saturating.
    pub fn brighten(&self, other: &Color) -> (c: Color)
        ensures
            c == self.plus(*other),
    {
        Color {
            red: sum_channel(self.red, other.red),
            green: sum_channel(self.green, other.green),
            blue: sum_channel(self.blue, other.blue),
        }
    }

    /// Divides every channel by a squared distance given in squared
    /// millionths of a layout unit.
    pub fn thin(&self, squared: u128) -> (c: Color)
        ensures
            c == self.thinned(squared as nat),
    {
        Color {
            red: thin_channel(self.red, squared),
            green: thin_channel(self.green, squared),
            blue: thin_channel(self.blue, squared),
        }
    }

    /// The colour as the three bytes a strip takes.
    pub fn to_bytes(&self) -> (b: (u8, u8, u8))
        ensures
            b == self.bytes(),
    {
        (byte_of_channel(self.red), byte_of_channel(self.green), byte_of_channel(self.blue))
    }
}

/// The colour after it has been multiplied `n` times by `factor` thousandths.
pub open spec fn faded_times(c: Color, factor: u32, n: nat) -> Color
    decreases n,
{
    if n == 0 {
        c
    } else {
        faded_times(c, factor, (n - 1) as nat).faded(factor)
    }
}

proof fn lemma_fade_step(c: u32, factor: u32)
    ensures
        faded_channel(c, factor) <= c,
        factor < PER_MILLE && c > 0 ==> faded_channel(c, factor) < c,
{
    if factor < PER_MILLE {
        assert((c * factor) / 1000 <= c) by (nonlinear_arith)
            requires
                factor < 1000,
                c >= 0,
        ;
        if c > 0 {
            assert((c * factor) / 1000 < c) by (nonlinear_arith)
                requires
                    factor < 1000,
                    c > 0,
            ;
        }
    }
}

/// Fading never brightens: whatever the factor, each further fade leaves
/// every channel at or below where it was, and so at or below where it
/// began. A channel cannot go below zero.
pub proof fn law_fading_is_monotone(c: Color, factor: u32, n: nat)
    ensures
        faded_times(c, factor, n + 1).red <= faded_times(c, factor, n).red <= c.red,
        faded_times(c, factor, n + 1).green <= faded_times(c, factor, n).green <= c.green,
        faded_times(c, factor, n + 1).blue <= faded_times(c, factor, n).blue <= c.blue,
        0 <= faded_times(c, factor, n + 1).red,
        0 <= faded_times(c, factor, n + 1).green,
        0 <= faded_times(c, factor, n + 1).blue,
    decreases n,
{
    let now = faded_times(c, factor, n);
    lemma_fade_step(now.red, factor);
    lemma_fade_step(now.green, factor);
    lemma_fade_step(now.blue, factor);
    if n > 0 {
        law_fading_is_monotone(c, factor, (n - 1) as nat);
    }
}

/// With a factor below one, fading converges on black: a lit channel loses
/// at least one step with every fade, so after `n` fades it is at most what
/// it was less `n`, and after as many fades as its value it is dark.
pub proof fn law_fading_reaches_black(c: Color, factor: u32, n: nat)
    requires
        factor < PER_MILLE,
    ensures
        faded_times(c, factor, n).red <= (if c.red >= n {
            c.red - n
        } else {
            0
        }),
        faded_times(c, factor, n).green <= (if c.green >= n {
            c.green - n
        } else {
            0
        }),
        faded_times(c, factor, n).blue <= (if c.blue >= n {
            c.blue - n
        } else {
            0
        }),
    decreases n,
{
    if n > 0 {
        law_fading_reaches_black(c, factor, (n - 1) as nat);
        let before = faded_times(c, factor, (n - 1) as nat);
        lemma_fade_step(before.red, factor);
        lemma_fade_step(before.green, factor);
        lemma_fade_step(before.blue, factor);
    }
}

} // verus!
