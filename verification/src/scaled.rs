use vstd::prelude::*;

verus! {

/// The sentinel scale factor: a factor equal to this value is treated as
/// zero instead of being applied.
pub const SCALE_FACTOR_MISSING: i8 = -127;

/// The sentinel scaled integer: a scaled value equal to this value means
/// that no value is present at all.
pub const SCALED_VALUE_MISSING: i32 = -2147483647;

/// An exact fixed-point quantity `value * 10^(-factor)`.
///
/// The pair is kept in integer form so that decoding is lossless; turning it
/// into an approximate real number is left to the caller.
#[derive(PartialEq, Eq, Structural, Clone, Copy, Debug)]
pub struct ScaledValue {
    pub value: i32,
    pub factor: i32,
}

/// Decodes a (scale factor, scaled integer) pair.
///
/// The sentinel scaled integer short-circuits to "no value" regardless of
/// the factor; the sentinel scale factor is replaced by zero rather than
/// being applied.
pub fn scale_value(factor: i8, scaled_value: i32) -> (r: Option<ScaledValue>)
    ensures
        scaled_value == SCALED_VALUE_MISSING ==> r is None,
        scaled_value != SCALED_VALUE_MISSING ==> (r matches Some(v) && v.value == scaled_value
            && v.factor == (if factor == SCALE_FACTOR_MISSING {
            0int
        } else {
            factor as int
        })),
{
    let effective_factor: i32 = if factor == SCALE_FACTOR_MISSING {
        0
    } else {
        factor as i32
    };
    if scaled_value == SCALED_VALUE_MISSING {
        None
    } else {
        Some(ScaledValue { value: scaled_value, factor: effective_factor })
    }
}

} // verus!
