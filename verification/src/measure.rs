//! Whole-number measures shared by the rest of the library: a vector of the
//! plane and the distance covered at a steady rate.
//!
//! Lengths, scales and speeds are counted in whatever resolution the caller
//! chooses (thousandths, millionths, ...). Only time has a fixed unit, the
//! microsecond, and a rate is always "per second".

use vstd::prelude::*;

verus! {

/// The number of microseconds in one second.
pub const MICROS_PER_SECOND: u64 = 1_000_000;

/// A vector of the plane with whole-number components.
#[derive(Clone, Copy, Debug, PartialEq, Eq, Structural)]
pub struct Vector2 {
    pub x: i64,
    pub y: i64,
}

/// `value` brought into `[min, max]`: a value past a bound comes to rest on it.
pub open spec fn snap(value: int, min: int, max: int) -> int {
    if value > max {
        max
    } else if value < min {
        min
    } else {
        value
    }
}

/// The distance covered in `elapsed_micros` microseconds at `rate` units per
/// second, rounded down to a whole unit.
pub open spec fn travel(rate: u64, elapsed_micros: u64) -> int {
    (rate * elapsed_micros) / 1_000_000
}

/// The longest distance that `travel` can give.
pub const MAX_TRAVEL: i128 = 340_282_366_920_938_463_426_481_119_284_349;

/// The product of two 64-bit numbers fits in 128 bits.
pub proof fn lemma_product_fits(a: u64, b: u64)
    ensures
        0 <= a * b <= 0xffff_ffff_ffff_fffe_0000_0000_0000_0001int,
{
    assert(0 <= a * b <= 0xffff_ffff_ffff_ffff * 0xffff_ffff_ffff_ffff) by (nonlinear_arith)
        requires
            0 <= a <= 0xffff_ffff_ffff_ffff,
            0 <= b <= 0xffff_ffff_ffff_ffff,
    ;
}

/// The distance covered in `elapsed_micros` microseconds at `rate` units per
/// second. No rate and time overflow it.
pub fn distance(rate: u64, elapsed_micros: u64) -> (covered: i128)
    ensures
        covered == travel(rate, elapsed_micros),
        0 <= covered <= MAX_TRAVEL,
{
    proof {
        lemma_product_fits(rate, elapsed_micros);
    }
    let product: u128 = (rate as u128) * (elapsed_micros as u128);
    let covered: u128 = product / (MICROS_PER_SECOND as u128);
    covered as i128
}

} // verus!
