//! The scale of every quantity, and the two constants that shape the game.

use vstd::prelude::*;

verus! {

/// Nanounits in one world unit. Positions are whole numbers of nanounits.
pub const NANOS_PER_UNIT: i64 = 1_000_000_000;

/// Microseconds in one second. Time deltas are whole numbers of microseconds.
pub const MICROS_PER_SECOND: u64 = 1_000_000;

/// The speed of one world unit per second. Speeds are whole numbers of
/// nanounits per microsecond, so a distance is a speed times a time, exactly.
pub const UNIT_PER_SECOND: i64 = 1_000;

/// Half the width of the play field: 380 world units. The paddle's `x` is
/// kept within this distance of the origin, on both sides.
pub const FIELD_HALF_WIDTH: i64 = 380_000_000_000;

/// The longest time that one ball update integrates over: 0.2 seconds.
pub const DELTA_CEILING: u64 = 200_000;

/// The scales agree with one another: one unit per second, kept up for one
/// second, covers one unit; the field is 380 units wide on either side; and
/// the ceiling is a fifth of a second.
pub proof fn scales_agree()
    ensures
        UNIT_PER_SECOND * MICROS_PER_SECOND == NANOS_PER_UNIT,
        FIELD_HALF_WIDTH == 380 * NANOS_PER_UNIT,
        5 * DELTA_CEILING == MICROS_PER_SECOND,
{
}

} // verus!
