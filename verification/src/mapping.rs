//! The coordinate-to-register mapping of the 16x8 LED grid.
//!
//! The chip's PWM table is indexed by wiring order, not by row-major
//! screen order; the transform below is fixed by the board's pinout.
//! On the declared grid it is a bijection onto the 128 PWM offsets,
//! which the lemmas in this module prove.

use vstd::prelude::*;

verus! {

/// The declared drawing domain: a 16-wide, 8-tall grid.
pub open spec fn in_grid(x: int, y: int) -> bool {
    0 <= x <= 15 && 0 <= y <= 7
}

/// The PWM-table offset a grid coordinate addresses.
///
/// Right half (x > 7): mirror x, shift y down by 8; left half: flip y.
/// The intermediate pair is then swapped and read as column + 16 * row.
pub open spec fn pixel_offset(x: int, y: int) -> int {
    if x > 7 {
        (y + 8) + (15 - x) * 16
    } else {
        (7 - y) + x * 16
    }
}

/// The PWM register a grid coordinate addresses: the table starts at
/// register 0x24.
pub open spec fn pixel_register(x: int, y: int) -> u8 {
    (0x24 + pixel_offset(x, y)) as u8
}

/// The x coordinate that addresses offset `o`.
pub open spec fn offset_x(o: int) -> int {
    if o % 16 <= 7 {
        o / 16
    } else {
        15 - o / 16
    }
}

/// The y coordinate that addresses offset `o`.
pub open spec fn offset_y(o: int) -> int {
    if o % 16 <= 7 {
        7 - o % 16
    } else {
        o % 16 - 8
    }
}

/// On the declared grid the offset lands in the PWM table: `[0, 127]`.
pub proof fn lemma_pixel_offset_in_range(x: int, y: int)
    requires
        in_grid(x, y),
    ensures
        0 <= pixel_offset(x, y) < 128,
{
}

/// `offset_x`/`offset_y` invert the mapping: no two grid coordinates
/// share an offset.
pub proof fn lemma_pixel_offset_inverse(x: int, y: int)
    requires
        in_grid(x, y),
    ensures
        offset_x(pixel_offset(x, y)) == x,
        offset_y(pixel_offset(x, y)) == y,
{
}

/// The mapping is injective on the declared grid.
pub proof fn lemma_pixel_offset_injective(x1: int, y1: int, x2: int, y2: int)
    requires
        in_grid(x1, y1),
        in_grid(x2, y2),
        pixel_offset(x1, y1) == pixel_offset(x2, y2),
    ensures
        x1 == x2,
        y1 == y2,
{
    lemma_pixel_offset_inverse(x1, y1);
    lemma_pixel_offset_inverse(x2, y2);
}

/// The mapping is surjective: every PWM offset is addressed by some
/// grid coordinate.
pub proof fn lemma_pixel_offset_surjective(o: int)
    requires
        0 <= o < 128,
    ensures
        in_grid(offset_x(o), offset_y(o)),
        pixel_offset(offset_x(o), offset_y(o)) == o,
{
}

} // verus!
