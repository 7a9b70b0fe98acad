//! Alpha compositing of one packed pixel over another.
//!
//! The source's alpha weighs the two pixels channel by channel: with alpha 0
//! the destination keeps its colour, with alpha 255 it takes the source's.
//! The result is always opaque.

use vstd::prelude::*;
use crate::color::{pack, unpack, Color};

verus! {

/// One channel of the source over the same channel of the destination:
/// `src * alpha / 255 + dst * (1 - alpha / 255)` in exact arithmetic, with
/// the fraction cut off.
pub open spec fn mix(src: u8, dst: u8, alpha: u8) -> int {
    (src * alpha + dst * (255 - alpha)) / 255
}

/// The colour that `src` composited over `dst` leaves: each colour channel
/// mixed by the source's alpha, and alpha forced to 255.
pub open spec fn composite(dst: Color, src: Color) -> Color {
    Color {
        a: 255,
        r: mix(src.r, dst.r, src.a) as u8,
        g: mix(src.g, dst.g, src.a) as u8,
        b: mix(src.b, dst.b, src.a) as u8,
    }
}

/// The packed pixel that `src` composited over `dst` leaves.
pub open spec fn blended(dst: u32, src: u32) -> u32 {
    pack(composite(unpack(dst), unpack(src))) as u32
}

/// A mixed channel lies between the two channels it was mixed from, so it is
/// a channel value again.
pub proof fn lemma_mix_bounds(src: u8, dst: u8, alpha: u8)
    ensures
        0 <= mix(src, dst, alpha) <= 255,
        src <= dst ==> src <= mix(src, dst, alpha) <= dst,
        dst <= src ==> dst <= mix(src, dst, alpha) <= src,
{
    let s: int = src as int;
    let d: int = dst as int;
    let a: int = alpha as int;
    let w: int = s * a + d * (255 - a);
    assert(s <= d ==> s * 255 <= w <= d * 255) by (nonlinear_arith)
        requires
            w == s * a + d * (255 - a),
            0 <= a <= 255,
    ;
    assert(d <= s ==> d * 255 <= w <= s * 255) by (nonlinear_arith)
        requires
            w == s * a + d * (255 - a),
            0 <= a <= 255,
    ;
}

/// With alpha 0 a channel keeps the destination's value.
pub proof fn lemma_mix_transparent(src: u8, dst: u8)
    ensures
        mix(src, dst, 0) == dst,
{
    assert(src * 0 + dst * (255 - 0) == dst * 255);
}

/// With alpha 255 a channel takes the source's value.
pub proof fn lemma_mix_opaque(src: u8, dst: u8)
    ensures
        mix(src, dst, 255) == src,
{
    assert(src * 255 + dst * (255 - 255) == src * 255);
}

/// Compositing a source whose alpha is 0 leaves the destination's colour
/// channels as they were and makes the destination opaque.
pub proof fn lemma_blend_transparent_source(dst: u32, src: u32)
    requires
        unpack(src).a == 0,
    ensures
        unpack(blended(dst, src)) == (Color { a: 255, ..unpack(dst) }),
{
    let d = unpack(dst);
    let s = unpack(src);
    lemma_mix_transparent(s.r, d.r);
    lemma_mix_transparent(s.g, d.g);
    lemma_mix_transparent(s.b, d.b);
    crate::color::lemma_unpack_pack(composite(d, s));
}

/// Compositing a source whose alpha is 255 gives the source's red, green and
/// blue exactly, with alpha 255: the source pixel itself.
pub proof fn lemma_blend_opaque_source(dst: u32, src: u32)
    requires
        unpack(src).a == 255,
    ensures
        unpack(blended(dst, src)) == unpack(src),
        blended(dst, src) == src,
{
    let d = unpack(dst);
    let s = unpack(src);
    lemma_mix_opaque(s.r, d.r);
    lemma_mix_opaque(s.g, d.g);
    lemma_mix_opaque(s.b, d.b);
    assert(composite(d, s) == s);
    crate::color::lemma_pack_unpack(src);
    crate::color::lemma_unpack_pack(s);
}

/// Whatever is composited, the result is opaque.
pub proof fn lemma_blend_is_opaque(dst: u32, src: u32)
    ensures
        unpack(blended(dst, src)).a == 255,
{
    crate::color::lemma_unpack_pack(composite(unpack(dst), unpack(src)));
}

/// One channel of `src` over the same channel of `dst`, weighed by `alpha`.
pub fn mix_channel(src: u8, dst: u8, alpha: u8) -> (c: u8)
    ensures
        c == mix(src, dst, alpha),
{
    if alpha == 255 {
        proof {
            lemma_mix_opaque(src, dst);
        }
        src
    } else {
        let s: u32 = src as u32;
        let d: u32 = dst as u32;
        let a: u32 = alpha as u32;
        proof {
            lemma_mix_bounds(src, dst, alpha);
        }
        assert(s * a <= 255 * 255 && d * (255 - a) <= 255 * 255) by (nonlinear_arith)
            requires
                s <= 255,
                d <= 255,
                a <= 255,
        ;
        ((s * a + d * (255 - a)) / 255) as u8
    }
}

/// Pixels that another pixel can be composited over.
pub trait Blend {
    /// Composites `other_pixel` over this pixel, in place.
    fn blend(&mut self, other_pixel: u32);
}

impl Blend for u32 {
    fn blend(&mut self, other_pixel: u32)
        ensures
            *final(self) == blended(*old(self), other_pixel),
    {
        let mut current_color: Color = Color::from_packed(*self);
        let other_color: Color = Color::from_packed(other_pixel);
        current_color.r = mix_channel(other_color.r, current_color.r, other_color.a);
        current_color.g = mix_channel(other_color.g, current_color.g, other_color.a);
        current_color.b = mix_channel(other_color.b, current_color.b, other_color.a);
        current_color.a = 255;
        *self = current_color.to_packed();
    }
}

} // verus!
