use vstd::prelude::*;

use crate::error::GradientError;

verus! {

/// The largest packed colour value that `Colour::from_hex` accepts.
pub const MAX_HEX: u32 = 0xFFFFFF;

/// The packed values below this bound are read as three 4-bit channels.
pub const SHORT_HEX_BOUND: u32 = 0xFFF;

/// Three channel values, red, green and blue.
pub type Rgb = (u8, u8, u8);

/// Channel addition that stops at 255 instead of wrapping.
pub open spec fn sat_add(a: u8, b: u8) -> u8 {
    if a + b > 255 {
        255u8
    } else {
        (a + b) as u8
    }
}

/// A channel multiplied by the ratio `num / den`, truncated and clamped to 255.
pub open spec fn scale_channel(c: u8, num: nat, den: nat) -> u8 {
    let v = (c as int) * (num as int) / (den as int);
    if v > 255 {
        255u8
    } else {
        v as u8
    }
}

pub open spec fn add_rgb(a: Rgb, b: Rgb) -> Rgb {
    (sat_add(a.0, b.0), sat_add(a.1, b.1), sat_add(a.2, b.2))
}

pub open spec fn scale_rgb(c: Rgb, num: nat, den: nat) -> Rgb {
    (scale_channel(c.0, num, den), scale_channel(c.1, num, den), scale_channel(c.2, num, den))
}

/// The channels that a packed value stands for. Values below `0xFFF` hold one
/// hexadecimal digit per channel (`0xRGB`); the others one byte per channel
/// (`0xRRGGBB`).
pub open spec fn hex_rgb(v: u32) -> Rgb {
    if v < SHORT_HEX_BOUND {
        (((v / 0x100) % 0x10) as u8, ((v / 0x10) % 0x10) as u8, (v % 0x10) as u8)
    } else {
        (((v / 0x10000) % 0x100) as u8, ((v / 0x100) % 0x100) as u8, (v % 0x100) as u8)
    }
}

/// An RGB colour with one byte per channel.
#[derive(Debug, Clone, Copy, PartialEq, Eq, Structural)]
pub struct Colour {
    r: u8,
    g: u8,
    b: u8,
}

impl View for Colour {
    type V = Rgb;

    closed spec fn view(&self) -> Rgb {
        (self.r, self.g, self.b)
    }
}

/// Two colours with the same channels are the same colour.
pub proof fn lemma_colour_ext(a: Colour, b: Colour)
    ensures
        a@ == b@ <==> a == b,
{
}

impl Colour {
    /// Create a colour from its three channels.
    pub fn new(r: u8, g: u8, b: u8) -> (c: Self)
        ensures
            c@ == (r, g, b),
    {
        Self { r, g, b }
    }

    /// Create a colour from a packed value such as `0x24F26F`. Values below
    /// `0xFFF` are read as `0xRGB`, one hexadecimal digit per channel.
    pub fn from_hex(hex: u32) -> (res: Result<Self, GradientError>)
        ensures
            hex > MAX_HEX ==> res == Err::<Colour, GradientError>(GradientError::InvalidHex),
            hex <= MAX_HEX ==> res is Ok && res->Ok_0@ == hex_rgb(hex),
    {
        if hex > MAX_HEX {
            return Err(GradientError::InvalidHex);
        }
        let r: u8;
        let g: u8;
        let b: u8;
        if hex < SHORT_HEX_BOUND {
            r = ((hex & 0xF00) >> 8) as u8;
            g = ((hex & 0x0F0) >> 4) as u8;
            b = (hex & 0x00F) as u8;
            assert(((hex & 0xF00) >> 8) == (hex / 0x100) % 0x10) by (bit_vector);
            assert(((hex & 0x0F0) >> 4) == (hex / 0x10) % 0x10) by (bit_vector);
            assert((hex & 0x00F) == hex % 0x10) by (bit_vector);
        } else {
            r = ((hex & 0xFF0000) >> 16) as u8;
            g = ((hex & 0x00FF00) >> 8) as u8;
            b = (hex & 0x0000FF) as u8;
            assert(((hex & 0xFF0000) >> 16) == (hex / 0x10000) % 0x100) by (bit_vector);
            assert(((hex & 0x00FF00) >> 8) == (hex / 0x100) % 0x100) by (bit_vector);
            assert((hex & 0x0000FF) == hex % 0x100) by (bit_vector);
        }
        Ok(Self { r, g, b })
    }

    /// The red channel.
    pub fn r(&self) -> (v: u8)
        ensures
            v == self@.0,
    {
        self.r
    }

    /// The green channel.
    pub fn g(&self) -> (v: u8)
        ensures
            v == self@.1,
    {
        self.g
    }

    /// The blue channel.
    pub fn b(&self) -> (v: u8)
        ensures
            v == self@.2,
    {
        self.b
    }

    /// Channel-wise sum, saturating at 255.
    pub fn add(self, other: Colour) -> (c: Colour)
        ensures
            c@ == add_rgb(self@, other@),
    {
        Colour {
            r: self.r.saturating_add(other.r),
            g: self.g.saturating_add(other.g),
            b: self.b.saturating_add(other.b),
        }
    }

    /// Each channel multiplied by the ratio `num / den`, truncated and clamped
    /// to 255.
    pub fn scale(self, num: usize, den: usize) -> (c: Colour)
        requires
            den > 0,
        ensures
            c@ == scale_rgb(self@, num as nat, den as nat),
    {
        Colour {
            r: scale_u8(self.r, num, den),
            g: scale_u8(self.g, num, den),
            b: scale_u8(self.b, num, den),
        }
    }
}

fn scale_u8(c: u8, num: usize, den: usize) -> (v: u8)
    requires
        den > 0,
    ensures
        v == scale_channel(c, num as nat, den as nat),
{
    assert(c as u128 * num as u128 <= 255 * 0xFFFF_FFFF_FFFF_FFFFu128) by (nonlinear_arith);
    let q: u128 = c as u128 * num as u128 / den as u128;
    if q > 255 {
        255
    } else {
        q as u8
    }
}

impl Default for Colour {
    /// Black, `(0, 0, 0)`; a builder uses it to mark a colour as unset.
    fn default() -> (c: Self)
        ensures
            c@ == (0u8, 0u8, 0u8),
    {
        Colour { r: 0, g: 0, b: 0 }
    }
}

/// Scaling by one keeps a colour and scaling by zero gives black.
pub proof fn lemma_scale_identity_and_zero(c: Colour, n: nat)
    requires
        n > 0,
    ensures
        scale_rgb(c@, n, n) == c@,
        scale_rgb(c@, 0, n) == (0u8, 0u8, 0u8),
{
    let k = n;
    assert forall|x: u8| #[trigger] scale_channel(x, k, k) == x by {
        assert((x as int) * (k as int) / (k as int) == x as int) by (nonlinear_arith)
            requires
                k > 0,
        ;
    }
    assert forall|x: u8| #[trigger] scale_channel(x, 0, k) == 0 by {
        assert((x as int) * 0 / (k as int) == 0) by (nonlinear_arith)
            requires
                k > 0,
        ;
    }
    assert(scale_channel(c@.0, k, k) == c@.0);
    assert(scale_channel(c@.1, k, k) == c@.1);
    assert(scale_channel(c@.2, k, k) == c@.2);
    assert(scale_channel(c@.0, 0, k) == 0);
    assert(scale_channel(c@.1, 0, k) == 0);
    assert(scale_channel(c@.2, 0, k) == 0);
}

} // verus!
