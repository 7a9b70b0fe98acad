//! Drawing into a frame buffer.
//!
//! A frame buffer is a sequence of packed pixels, row after row: the pixel in
//! column `x` of row `y` of a buffer `width` pixels wide stands at index
//! `y * width + x`.

use vstd::prelude::*;
use vstd::arithmetic::div_mod::lemma_fundamental_div_mod;
use vstd::arithmetic::div_mod::lemma_fundamental_div_mod_converse;
use crate::color::{pack, Color};
use crate::geometry::Dimensions;

verus! {

/// Drawing `dims` into a buffer of `width` by `height` pixels writes the
/// pixel at index `i`: its column `i % width` and row `i / width` lie in the
/// rectangle, and the row lies in the buffer. (The column always does.)
pub open spec fn targeted(dims: Dimensions, width: int, height: int, i: int) -> bool {
    &&& width > 0
    &&& i / width < height
    &&& dims.covers(i % width, i / width)
}

/// The buffer after `dims` was drawn into it with `pixel`: the targeted
/// pixels hold `pixel`, all others are as before.
pub open spec fn painted(
    buffer: Seq<u32>,
    dims: Dimensions,
    pixel: u32,
    width: int,
    height: int,
) -> Seq<u32> {
    Seq::new(
        buffer.len(),
        |i: int|
            if targeted(dims, width, height, i) {
                pixel
            } else {
                buffer[i]
            },
    )
}

/// The index `y * width + x` of a pixel inside the buffer names that pixel
/// and no other: it lies below `width * height`, its column is `x` and its
/// row is `y`.
pub proof fn lemma_index_of_pixel(x: int, y: int, width: int, height: int)
    requires
        0 <= x < width,
        0 <= y < height,
    ensures
        0 <= y * width + x < width * height,
        (y * width + x) % width == x,
        (y * width + x) / width == y,
{
    lemma_fundamental_div_mod_converse(y * width + x, width, y, x);
    assert(y * width + x < width * height) by (nonlinear_arith)
        requires
            0 <= x < width,
            0 <= y < height,
    ;
    assert(0 <= y * width) by (nonlinear_arith)
        requires
            0 <= y,
            0 < width,
    ;
}

/// Every index below `width * height` is the index of a pixel inside the
/// buffer: its column is below `width` and its row below `height`.
pub proof fn lemma_pixel_of_index(i: int, width: int, height: int)
    requires
        0 <= i < width * height,
        0 <= width,
        0 <= height,
    ensures
        width > 0,
        0 <= i % width < width,
        0 <= i / width < height,
        i == (i / width) * width + i % width,
{
    assert(width > 0) by (nonlinear_arith)
        requires
            0 <= i < width * height,
            0 <= width,
    ;
    lemma_fundamental_div_mod(i, width);
    let q = i / width;
    assert(width * q == q * width) by (nonlinear_arith);
    assert(0 <= q < height) by (nonlinear_arith)
        requires
            i == q * width + i % width,
            0 <= i % width < width,
            0 <= i < width * height,
            0 <= height,
    ;
}

/// What drawing does to the pixel in column `x` of row `y` of the buffer:
/// it holds `pixel` if the rectangle covers it, and is unchanged if not.
pub proof fn lemma_painted_pixel(
    buffer: Seq<u32>,
    dims: Dimensions,
    pixel: u32,
    width: int,
    height: int,
    x: int,
    y: int,
)
    requires
        0 <= x < width,
        0 <= y < height,
        width * height <= buffer.len(),
    ensures
        0 <= y * width + x < buffer.len(),
        painted(buffer, dims, pixel, width, height)[y * width + x] == if dims.covers(x, y) {
            pixel
        } else {
            buffer[y * width + x]
        },
{
    lemma_index_of_pixel(x, y, width, height);
}

/// Drawing never changes the length of the buffer, and it changes a pixel
/// only inside both the rectangle and the buffer.
pub proof fn lemma_painted_frame(
    buffer: Seq<u32>,
    dims: Dimensions,
    pixel: u32,
    width: int,
    height: int,
    i: int,
)
    requires
        0 <= i < buffer.len(),
        0 <= width,
        0 <= height,
        painted(buffer, dims, pixel, width, height)[i] != buffer[i],
    ensures
        painted(buffer, dims, pixel, width, height).len() == buffer.len(),
        i < width * height,
        0 <= i % width < width,
        0 <= i / width < height,
        dims.covers(i % width, i / width),
{
    lemma_fundamental_div_mod(i, width);
    let q = i / width;
    let r = i % width;
    assert(q * width + r < width * height) by (nonlinear_arith)
        requires
            0 <= r < width,
            0 <= q < height,
    ;
    assert(width * q == q * width) by (nonlinear_arith);
}

/// Drawing the rectangle from the first to the last column and from the
/// first to the last row of a buffer of `width * height` pixels fills every
/// index of the buffer.
pub proof fn lemma_full_rectangle_fills(
    buffer: Seq<u32>,
    dims: Dimensions,
    pixel: u32,
    width: int,
    height: int,
)
    requires
        dims.well_formed(),
        dims.left == 0,
        dims.top == 0,
        dims.right == width - 1,
        dims.bottom == height - 1,
        buffer.len() == width * height,
    ensures
        painted(buffer, dims, pixel, width, height).len() == width * height,
        forall|i: int|
            0 <= i < width * height ==> painted(buffer, dims, pixel, width, height)[i] == pixel,
{
    assert forall|i: int| 0 <= i < width * height implies painted(
        buffer,
        dims,
        pixel,
        width,
        height,
    )[i] == pixel by {
        lemma_pixel_of_index(i, width, height);
    }
}

/// A rectangle whose right edge is `width`, one past the last column, is cut
/// off at the buffer's edge. In every row of the rectangle that lies in the
/// buffer the last column, `width - 1`, is written. The index that column
/// `width` of row `y` would have, `y * width + width`, is beyond the buffer
/// after the last row and is otherwise the first pixel of the next row: that
/// pixel is written only where the rectangle covers it as its own column 0.
pub proof fn lemma_right_edge_clipped(
    buffer: Seq<u32>,
    dims: Dimensions,
    pixel: u32,
    width: int,
    height: int,
    y: int,
)
    requires
        dims.well_formed(),
        dims.right == width,
        buffer.len() == width * height,
        0 <= y < height,
    ensures
        painted(buffer, dims, pixel, width, height).len() == buffer.len(),
        0 <= y * width + (width - 1) < buffer.len(),
        dims.top <= y <= dims.bottom ==> painted(buffer, dims, pixel, width, height)[y * width + (
        width - 1)] == pixel,
        y + 1 == height ==> y * width + width == buffer.len(),
        y + 1 < height ==> painted(buffer, dims, pixel, width, height)[y * width + width]
            == if dims.covers(0, y + 1) {
            pixel
        } else {
            buffer[y * width + width]
        },
{
    lemma_painted_pixel(buffer, dims, pixel, width, height, width - 1, y);
    assert((y + 1) * width + 0 == y * width + width) by (nonlinear_arith);
    assert(height * width == width * height) by (nonlinear_arith);
    if y + 1 < height {
        lemma_painted_pixel(buffer, dims, pixel, width, height, 0, y + 1);
    }
}

/// Overwrites every pixel of the buffer with `pixel`.
pub fn clear(buffer: &mut Vec<u32>, pixel: u32)
    ensures
        final(buffer)@.len() == old(buffer)@.len(),
        forall|i: int| 0 <= i < final(buffer)@.len() ==> final(buffer)@[i] == pixel,
{
    let n: usize = buffer.len();
    let mut i: usize = 0;
    while i < n
        invariant
            i <= n,
            buffer@.len() == n,
            forall|j: int| 0 <= j < i ==> buffer@[j] == pixel,
        decreases n - i,
    {
        buffer[i] = pixel;
        i = i + 1;
    }
}

/// Surfaces that buttons can be drawn on.
pub trait Ui {
    /// The pixels of the surface, row after row.
    spec fn pixels(&self) -> Seq<u32>;

    /// Draws the rectangle `dims` in `color`, which replaces what was there.
    /// The part of the rectangle that lies outside the buffer is left out:
    /// a pixel is written only if its column is below `buffer_width` and its
    /// row below `buffer_height`.
    fn draw_button(
        &mut self,
        dims: &Dimensions,
        color: Color,
        buffer_width: usize,
        buffer_height: usize,
    )
        requires
            dims.well_formed(),
            buffer_width * buffer_height <= old(self).pixels().len(),
        ensures
            final(self).pixels() == painted(
                old(self).pixels(),
                *dims,
                pack(color) as u32,
                buffer_width as int,
                buffer_height as int,
            ),
    ;
}

impl Ui for Vec<u32> {
    open spec fn pixels(&self) -> Seq<u32> {
        self@
    }

    fn draw_button(
        &mut self,
        dims: &Dimensions,
        color: Color,
        buffer_width: usize,
        buffer_height: usize,
    ) {
        let pixel: u32 = u32::from(&color);
        let ghost before: Seq<u32> = self@;
        assert(before.len() == self.len());
        let ghost w: int = buffer_width as int;
        let ghost h: int = buffer_height as int;
        if dims.left >= buffer_width || dims.top >= buffer_height {
            assert forall|i: int| 0 <= i < before.len() implies !targeted(*dims, w, h, i) by {
                if w > 0 {
                    lemma_fundamental_div_mod(i, w);
                }
            }
            assert(self@ =~= painted(before, *dims, pixel, w, h));
            return ;
        }
        let x_end: usize = if dims.right < buffer_width {
            dims.right + 1
        } else {
            buffer_width
        };
        let y_end: usize = if dims.bottom < buffer_height {
            dims.bottom + 1
        } else {
            buffer_height
        };
        let mut x: usize = dims.left;
        while x < x_end
            invariant
                dims.well_formed(),
                dims.left <= x <= x_end <= buffer_width,
                x_end == if dims.right < buffer_width {
                    dims.right + 1
                } else {
                    buffer_width as int
                },
                dims.top < y_end <= buffer_height,
                y_end == if dims.bottom < buffer_height {
                    dims.bottom + 1
                } else {
                    buffer_height as int
                },
                w == buffer_width,
                h == buffer_height,
                w * h <= before.len() <= usize::MAX,
                self@.len() == before.len(),
                forall|i: int|
                    0 <= i < before.len() ==> self@[i] == if targeted(*dims, w, h, i) && i % w
                        < x {
                        pixel
                    } else {
                        before[i]
                    },
            decreases x_end - x,
        {
            let mut y: usize = dims.top;
            while y < y_end
                invariant
                    dims.well_formed(),
                    dims.left <= x < x_end <= buffer_width,
                    x_end == if dims.right < buffer_width {
                        dims.right + 1
                    } else {
                        buffer_width as int
                    },
                    dims.top <= y <= y_end <= buffer_height,
                    y_end == if dims.bottom < buffer_height {
                        dims.bottom + 1
                    } else {
                        buffer_height as int
                    },
                    w == buffer_width,
                    h == buffer_height,
                    w * h <= before.len() <= usize::MAX,
                    self@.len() == before.len(),
                    forall|i: int|
                        0 <= i < before.len() ==> self@[i] == if targeted(*dims, w, h, i) && (i
                            % w < x || (i % w == x && i / w < y)) {
                            pixel
                        } else {
                            before[i]
                        },
                decreases y_end - y,
            {
                proof {
                    lemma_index_of_pixel(x as int, y as int, w, h);
                }
                let ghost row_done: Seq<u32> = self@;
                let index: usize = y * buffer_width + x;
                self[index] = pixel;
                assert forall|i: int| 0 <= i < before.len() implies self@[i] == if targeted(
                    *dims,
                    w,
                    h,
                    i,
                ) && (i % w < x || (i % w == x && i / w < y + 1)) {
                    pixel
                } else {
                    before[i]
                } by {
                    if i == index as int {
                        assert(targeted(*dims, w, h, i));
                    } else {
                        assert(self@[i] == row_done[i]);
                        if i % w == x && i / w == y {
                            lemma_fundamental_div_mod(i, w);
                            assert(w * (i / w) == (i / w) * w) by (nonlinear_arith);
                        }
                    }
                }
                y = y + 1;
            }
            x = x + 1;
        }
        assert(self@ =~= painted(before, *dims, pixel, w, h));
    }
}

} // verus!
