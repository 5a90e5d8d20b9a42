//! Analog stick decoding.
//!
//! One stick reading arrives as three consecutive report bytes holding a pair
//! of packed 12-bit values. Each raw value is normalized against a per-axis
//! calibration range and rescaled to a signed fixed-point axis value, where
//! [`AXIS_ONE`] stands for the full deflection `1.0` and `-AXIS_ONE` for
//! `-1.0`. Values outside the calibration range saturate exactly at the ends
//! of that scale.

use vstd::arithmetic::div_mod::{lemma_div_is_ordered, lemma_div_multiples_vanish};
use vstd::arithmetic::mul::lemma_mul_inequality;
use vstd::prelude::*;

verus! {

/// Lowest raw value of the x axis calibration range.
pub const X_STICK_MIN: u16 = 780;
/// Highest raw value of the x axis calibration range.
pub const X_STICK_MAX: u16 = 3260;
/// Lowest raw value of the y axis calibration range.
pub const Y_STICK_MIN: u16 = 820;
/// Highest raw value of the y axis calibration range.
pub const Y_STICK_MAX: u16 = 3250;

/// The fixed-point unit: an axis value of `AXIS_ONE` stands for `1.0`,
/// `-AXIS_ONE` for `-1.0`.
pub const AXIS_ONE: i16 = 32767;

/// The raw 12-bit x value packed into the first stick byte and the low
/// nibble of the second.
pub open spec fn stick_x_raw(b0: u8, b1: u8) -> int {
    (b1 % 16) * 256 + b0
}

/// The raw 12-bit y value packed into the high nibble of the second stick
/// byte and the third byte.
pub open spec fn stick_y_raw(b1: u8, b2: u8) -> int {
    b2 * 16 + b1 / 16
}

/// Distance of `raw` from the lower calibration bound, clamped to the
/// calibration range `[lo, hi]`.
pub open spec fn clamped_offset(raw: int, lo: int, hi: int) -> int {
    if raw <= lo {
        0
    } else if raw >= hi {
        hi - lo
    } else {
        raw - lo
    }
}

/// The fixed-point axis value a raw reading normalizes to: the clamped
/// offset, scaled onto `[0, 2 * AXIS_ONE]`, shifted down so the calibration
/// range maps onto `[-AXIS_ONE, AXIS_ONE]`.
pub open spec fn axis_value(raw: int, lo: int, hi: int) -> int
    recommends
        lo < hi,
{
    (clamped_offset(raw, lo, hi) * 65534) / (hi - lo) - 32767
}

/// An axis value never leaves `[-AXIS_ONE, AXIS_ONE]`.
pub proof fn lemma_axis_value_in_range(raw: int, lo: int, hi: int)
    requires
        lo < hi,
    ensures
        -32767 <= axis_value(raw, lo, hi) <= 32767,
{
    let off = clamped_offset(raw, lo, hi);
    let range = hi - lo;
    lemma_div_multiples_vanish(0, range);
    lemma_div_is_ordered(0, off * 65534, range);
    lemma_mul_inequality(off, range, 65534);
    lemma_div_is_ordered(off * 65534, range * 65534, range);
    lemma_div_multiples_vanish(65534, range);
}

/// Within and around the calibration range, the axis value is monotonic in
/// the raw reading: a larger raw value never yields a smaller axis value.
pub proof fn lemma_axis_value_monotonic(r1: int, r2: int, lo: int, hi: int)
    requires
        lo < hi,
        r1 <= r2,
    ensures
        axis_value(r1, lo, hi) <= axis_value(r2, lo, hi),
{
    let off1 = clamped_offset(r1, lo, hi);
    let off2 = clamped_offset(r2, lo, hi);
    assert(off1 <= off2);
    lemma_mul_inequality(off1, off2, 65534);
    lemma_div_is_ordered(off1 * 65534, off2 * 65534, hi - lo);
}

/// Outside the calibration range the axis saturates exactly: at or below the
/// lower bound it is exactly `-AXIS_ONE`, at or above the upper bound exactly
/// `AXIS_ONE`.
pub proof fn lemma_axis_value_saturates(raw: int, lo: int, hi: int)
    requires
        lo < hi,
    ensures
        raw <= lo ==> axis_value(raw, lo, hi) == -32767,
        raw >= hi ==> axis_value(raw, lo, hi) == 32767,
{
    let range = hi - lo;
    if raw <= lo {
        lemma_div_multiples_vanish(0, range);
    }
    if raw >= hi {
        lemma_div_multiples_vanish(65534, range);
    }
}

/// Normalize one raw axis reading against the calibration range `[lo, hi]`.
fn normalize_axis(raw: u16, lo: u16, hi: u16) -> (a: i16)
    requires
        lo < hi,
    ensures
        a as int == axis_value(raw as int, lo as int, hi as int),
        -32767 <= a <= 32767,
{
    let offset: u16 = if raw <= lo {
        0
    } else if raw >= hi {
        hi - lo
    } else {
        raw - lo
    };
    let range: u32 = (hi - lo) as u32;
    let scaled: u32 = (offset as u32) * 65534 / range;
    proof {
        lemma_mul_inequality(offset as int, range as int, 65534);
        lemma_div_is_ordered(offset as int * 65534, range as int * 65534, range as int);
        lemma_div_multiples_vanish(65534, range as int);
        assert(scaled <= 65534);
        assert(offset == clamped_offset(raw as int, lo as int, hi as int));
    }
    (scaled as i32 - 32767) as i16
}

/// Decode one three-byte packed stick reading into a fixed-point `(x, y)`
/// pair; both components always lie in `[-AXIS_ONE, AXIS_ONE]`.
pub fn decode_stick(b0: u8, b1: u8, b2: u8) -> (r: (i16, i16))
    ensures
        r.0 as int == axis_value(stick_x_raw(b0, b1), X_STICK_MIN as int, X_STICK_MAX as int),
        r.1 as int == axis_value(stick_y_raw(b1, b2), Y_STICK_MIN as int, Y_STICK_MAX as int),
        -32767 <= r.0 <= 32767,
        -32767 <= r.1 <= 32767,
{
    let x_raw: u16 = (((b1 & 0x0F) as u16) << 8u16) | (b0 as u16);
    let y_raw: u16 = ((b2 as u16) << 4u16) | (((b1 & 0xF0) as u16) >> 4u16);
    proof {
        assert((((b1 & 0x0F) as u16) << 8u16) | (b0 as u16) == (b1 % 16) * 256 + b0)
            by (bit_vector);
        assert(((b2 as u16) << 4u16) | (((b1 & 0xF0) as u16) >> 4u16) == b2 * 16 + b1 / 16)
            by (bit_vector);
    }
    let x = normalize_axis(x_raw, X_STICK_MIN, X_STICK_MAX);
    let y = normalize_axis(y_raw, Y_STICK_MIN, Y_STICK_MAX);
    (x, y)
}

} // verus!
