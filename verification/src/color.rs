//! Colours as four 8-bit channels, and their packed 32-bit form.
//!
//! A packed pixel is the big-endian number whose bytes are alpha, red, green
//! and blue: alpha is the most significant byte, blue the least.

use vstd::prelude::*;
use vstd::std_specs::convert::FromSpecImpl;

verus! {

/// A pixel colour: alpha, red, green and blue, eight bits each.
#[derive(Clone, Copy, Debug, PartialEq, Eq, Structural)]
pub struct Color {
    pub a: u8,
    pub r: u8,
    pub g: u8,
    pub b: u8,
}

/// The number that the four channels spell as big-endian bytes:
/// `a * 2^24 + r * 2^16 + g * 2^8 + b`.
pub open spec fn pack(c: Color) -> int {
    c.a * 0x100_0000 + c.r * 0x1_0000 + c.g * 0x100 + c.b
}

/// The colour whose channels are the four bytes of `p`, most significant
/// first. Every byte counts, leading zero bytes included.
pub open spec fn unpack(p: u32) -> Color {
    Color {
        a: (p / 0x100_0000) as u8,
        r: (p / 0x1_0000 % 0x100) as u8,
        g: (p / 0x100 % 0x100) as u8,
        b: (p % 0x100) as u8,
    }
}

impl Color {
    /// The colour with the given channels.
    pub fn new(a: u8, r: u8, g: u8, b: u8) -> (c: Color)
        ensures
            c == (Color { a, r, g, b }),
    {
        Color { a, r, g, b }
    }

    /// The packed pixel of this colour.
    pub fn to_packed(&self) -> (p: u32)
        ensures
            p == pack(*self),
            unpack(p) == *self,
    {
        let a: u32 = self.a as u32;
        let r: u32 = self.r as u32;
        let g: u32 = self.g as u32;
        let b: u32 = self.b as u32;
        assert((a << 24 | r << 16 | g << 8 | b) == a * 0x100_0000 + r * 0x1_0000 + g * 0x100 + b)
            by (bit_vector)
            requires
                a < 0x100,
                r < 0x100,
                g < 0x100,
                b < 0x100,
        ;
        proof {
            lemma_unpack_pack(*self);
        }
        a << 24 | r << 16 | g << 8 | b
    }

    /// The colour of a packed pixel.
    pub fn from_packed(p: u32) -> (c: Color)
        ensures
            c == unpack(p),
            pack(c) == p,
    {
        assert((p >> 24) == p / 0x100_0000 && (p >> 24) < 0x100) by (bit_vector);
        assert((p >> 16) & 0xff == p / 0x1_0000 % 0x100 && (p >> 16) & 0xff < 0x100)
            by (bit_vector);
        assert((p >> 8) & 0xff == p / 0x100 % 0x100 && (p >> 8) & 0xff < 0x100) by (bit_vector);
        assert(p & 0xff == p % 0x100 && p & 0xff < 0x100) by (bit_vector);
        proof {
            lemma_pack_unpack(p);
        }
        Color {
            a: (p >> 24) as u8,
            r: ((p >> 16) & 0xff) as u8,
            g: ((p >> 8) & 0xff) as u8,
            b: (p & 0xff) as u8,
        }
    }
}

/// Unpacking a pixel and packing the colour again gives the pixel back, for
/// every one of the 2^32 pixel values.
pub proof fn lemma_pack_unpack(p: u32)
    ensures
        pack(unpack(p)) == p,
{
    let a: int = p as int / 0x100_0000;
    let r: int = p as int / 0x1_0000 % 0x100;
    let g: int = p as int / 0x100 % 0x100;
    let b: int = p as int % 0x100;
    assert(0 <= a < 0x100);
    assert(a * 0x100_0000 + r * 0x1_0000 + g * 0x100 + b == p);
}

/// Packing a colour and unpacking the pixel again gives the colour back, for
/// every quadruple of channels.
pub proof fn lemma_unpack_pack(c: Color)
    ensures
        unpack(pack(c) as u32) == c,
{
    let p: int = pack(c);
    assert(p / 0x100_0000 == c.a);
    assert(p / 0x1_0000 == c.a * 0x100 + c.r);
    assert(p / 0x100 == c.a * 0x1_0000 + c.r * 0x100 + c.g);
}

impl From<Color> for [u8; 4] {
    fn from(value: Color) -> (bytes: [u8; 4]) {
        [value.a, value.r, value.g, value.b]
    }
}

impl FromSpecImpl<Color> for [u8; 4] {
    open spec fn obeys_from_spec() -> bool {
        true
    }

    open spec fn from_spec(value: Color) -> [u8; 4] {
        [value.a, value.r, value.g, value.b]
    }
}

impl From<&Color> for [u8; 4] {
    fn from(value: &Color) -> (bytes: [u8; 4]) {
        [value.a, value.r, value.g, value.b]
    }
}

impl FromSpecImpl<&Color> for [u8; 4] {
    open spec fn obeys_from_spec() -> bool {
        true
    }

    open spec fn from_spec(value: &Color) -> [u8; 4] {
        [value.a, value.r, value.g, value.b]
    }
}

impl From<&Color> for Color {
    fn from(value: &Color) -> (c: Color) {
        *value
    }
}

impl FromSpecImpl<&Color> for Color {
    open spec fn obeys_from_spec() -> bool {
        true
    }

    open spec fn from_spec(value: &Color) -> Color {
        *value
    }
}

impl From<[u8; 4]> for Color {
    fn from(value: [u8; 4]) -> (c: Color) {
        Color::new(value[0], value[1], value[2], value[3])
    }
}

impl FromSpecImpl<[u8; 4]> for Color {
    open spec fn obeys_from_spec() -> bool {
        true
    }

    open spec fn from_spec(value: [u8; 4]) -> Color {
        Color { a: value[0], r: value[1], g: value[2], b: value[3] }
    }
}

impl From<&[u8; 4]> for Color {
    fn from(value: &[u8; 4]) -> (c: Color) {
        Color::new(value[0], value[1], value[2], value[3])
    }
}

impl FromSpecImpl<&[u8; 4]> for Color {
    open spec fn obeys_from_spec() -> bool {
        true
    }

    open spec fn from_spec(value: &[u8; 4]) -> Color {
        Color { a: value[0], r: value[1], g: value[2], b: value[3] }
    }
}

impl From<Color> for u32 {
    fn from(value: Color) -> (p: u32) {
        value.to_packed()
    }
}

impl FromSpecImpl<Color> for u32 {
    open spec fn obeys_from_spec() -> bool {
        true
    }

    open spec fn from_spec(value: Color) -> u32 {
        pack(value) as u32
    }
}

impl From<&Color> for u32 {
    fn from(value: &Color) -> (p: u32) {
        value.to_packed()
    }
}

impl FromSpecImpl<&Color> for u32 {
    open spec fn obeys_from_spec() -> bool {
        true
    }

    open spec fn from_spec(value: &Color) -> u32 {
        pack(*value) as u32
    }
}

impl From<u32> for Color {
    fn from(value: u32) -> (c: Color) {
        Color::from_packed(value)
    }
}

impl FromSpecImpl<u32> for Color {
    open spec fn obeys_from_spec() -> bool {
        true
    }

    open spec fn from_spec(value: u32) -> Color {
        unpack(value)
    }
}

} // verus!
