use vstd::prelude::*;

verus! {

/// The slot of pixel `(x, y)` in a row-major frame `width` pixels wide.
pub open spec fn row_major(x: int, y: int, width: int) -> int {
    y * width + x
}

/// Number of pixels of a `width` x `height` frame, or `None` where that number does not fit
/// in `usize`.
pub fn pixel_count(width: usize, height: usize) -> (r: Option<usize>)
    ensures
        r is Some <==> width * height <= usize::MAX,
        r matches Some(n) ==> n == width * height,
{
    width.checked_mul(height)
}

/// Column and row of the pixel stored at slot `index` of a row-major frame.
pub fn pixel_coords(index: usize, width: usize) -> (r: (usize, usize))
    requires
        width > 0,
    ensures
        r.0 < width,
        row_major(r.0 as int, r.1 as int, width as int) == index,
{
    let x = index % width;
    let y = index / width;
    proof {
        lemma_row_major_bijective(index as int, 0, 0, width as int);
    }
    (x, y)
}

/// Slot of pixel `(x, y)` in a row-major frame of `width` x `height` pixels.
pub fn pixel_index(x: usize, y: usize, width: usize, height: usize) -> (r: usize)
    requires
        x < width,
        y < height,
        width * height <= usize::MAX,
    ensures
        r == row_major(x as int, y as int, width as int),
        r < width * height,
{
    proof {
        lemma_row_major_in_frame(x as int, y as int, width as int, height as int);
    }
    y * width + x
}

/// A pixel inside the frame lands on a slot inside the frame.
pub proof fn lemma_row_major_in_frame(x: int, y: int, width: int, height: int)
    requires
        0 <= x < width,
        0 <= y < height,
    ensures
        0 <= row_major(x, y, width) < width * height,
{
    assert(0 <= y * width + x < width * height) by (nonlinear_arith)
        requires
            0 <= x < width,
            0 <= y < height,
    ;
}

/// Every slot of a frame holds exactly one pixel: the row-major position of the pixel found
/// at a slot is that slot, and the pixel found at the slot of `(x, y)` is `(x, y)`.
pub proof fn lemma_row_major_bijective(index: int, x: int, y: int, width: int)
    requires
        width > 0,
        index >= 0,
        0 <= x < width,
        y >= 0,
    ensures
        row_major(index % width, index / width, width) == index,
        row_major(x, y, width) % width == x,
        row_major(x, y, width) / width == y,
{
    vstd::arithmetic::div_mod::lemma_fundamental_div_mod(index, width);
    vstd::arithmetic::mul::lemma_mul_is_commutative(width, index / width);
    vstd::arithmetic::div_mod::lemma_fundamental_div_mod_converse(
        y * width + x,
        width,
        y,
        x,
    );
}

} // verus!
