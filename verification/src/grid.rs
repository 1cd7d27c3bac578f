//! Grid addressing: mapping (column, row) coordinates to the device's
//! two-digit cell positions.
//!
//! The device numbers its cells with a top-left origin and row-descending
//! tens digits: row 0 (the top row) occupies positions 81..88, row 7 (the
//! bottom row) positions 11..18. Column grows with the units digit.

use vstd::prelude::*;

verus! {

/// The device position addressed by `(column, row)`, both in `[0, 7]`.
pub open spec fn spec_position_for(column: int, row: int) -> int {
    81 - 10 * row + column
}

/// A byte is a device-valid cell position when both of its decimal digits
/// are in `[1, 8]`.
pub open spec fn spec_valid_position(position: u8) -> bool {
    &&& 1 <= position % 10 <= 8
    &&& 1 <= position / 10 <= 8
}

/// Converts a `(column, row)` coordinate, both in `[0, 7]`, to the device's
/// linear position code.
pub fn position_for(column: u8, row: u8) -> (position: u8)
    requires
        column <= 7,
        row <= 7,
    ensures
        position as int == spec_position_for(column as int, row as int),
        11 <= position <= 88,
        spec_valid_position(position),
{
    let position = 81 - 10 * row + column;
    proof {
        assert(spec_valid_position(position)) by {
            assert(position as int == 10 * (8 - row) + 1 + column);
            assert(position as int % 10 == 1 + column) by (nonlinear_arith)
                requires
                    position as int == 10 * (8 - row) + 1 + column,
                    0 <= column <= 7,
                    0 <= row <= 7,
            ;
            assert(position as int / 10 == 8 - row) by (nonlinear_arith)
                requires
                    position as int == 10 * (8 - row) + 1 + column,
                    0 <= column <= 7,
                    0 <= row <= 7,
            ;
        }
    }
    position
}

/// No two distinct `(column, row)` pairs share a device position: the map is
/// injective over the 64-cell domain (and, with `position_for`'s bounds, a
/// bijection onto its image inside `[11, 88]`).
pub proof fn lemma_position_for_injective(c1: int, r1: int, c2: int, r2: int)
    requires
        0 <= c1 <= 7,
        0 <= r1 <= 7,
        0 <= c2 <= 7,
        0 <= r2 <= 7,
        spec_position_for(c1, r1) == spec_position_for(c2, r2),
    ensures
        c1 == c2,
        r1 == r2,
{
    assert(10 * r1 - c1 == 10 * r2 - c2);
    assert(r1 == r2 && c1 == c2) by (nonlinear_arith)
        requires
            10 * r1 - c1 == 10 * r2 - c2,
            0 <= c1 <= 7,
            0 <= r1 <= 7,
            0 <= c2 <= 7,
            0 <= r2 <= 7,
    ;
}

} // verus!
