//! Checks shared by all quantity types: the range of canonical storage, and
//! the guards that decide whether a floating-point operand may be used.
//!
//! Floating-point values themselves never reach this module. A caller that
//! holds a float classifies it as a [`FloatClass`] and, where the guards let
//! it through, hands over the scaled value already truncated toward zero and
//! converted to the storage integer (`None` when it did not fit).
use vstd::prelude::*;

use crate::error::QuantityError;

verus! {

/// The class of a floating-point operand, as far as the guards care.
///
/// `Zero` covers both signed zeros; `Negative` and `Positive` are finite and
/// non-zero; an infinity is `Infinite` whatever its sign.
#[derive(Clone, Copy, Debug, PartialEq, Eq, Structural)]
pub enum FloatClass {
    Nan,
    Infinite,
    Negative,
    Zero,
    Positive,
}

/// `v` as a `u64`, or an overflow when it does not fit.
pub open spec fn fit_u64(v: int) -> Result<u64, QuantityError> {
    if 0 <= v <= u64::MAX {
        Ok(v as u64)
    } else {
        Err(QuantityError::Overflow)
    }
}

/// `v` as an `i64`, or an overflow when it does not fit.
pub open spec fn fit_i64(v: int) -> Result<i64, QuantityError> {
    if i64::MIN <= v <= i64::MAX {
        Ok(v as i64)
    } else {
        Err(QuantityError::Overflow)
    }
}

/// Integer division rounded toward zero, as Rust's `/` does.
pub open spec fn trunc_div(a: int, b: int) -> int
    recommends
        b != 0,
{
    if (a >= 0) == (b > 0) || a == 0 {
        abs(a) / abs(b)
    } else {
        -(abs(a) / abs(b))
    }
}

/// The magnitude of an integer.
pub open spec fn abs(a: int) -> int {
    if a >= 0 {
        a
    } else {
        -a
    }
}

/// What the guard on a constructor of a non-negative quantity lets through.
pub open spec fn positive_finite_spec(c: FloatClass) -> Result<(), QuantityError> {
    match c {
        FloatClass::Nan => Err(QuantityError::NanOperand),
        FloatClass::Infinite => Err(QuantityError::InfiniteOperand),
        FloatClass::Negative => Err(QuantityError::NegativeOperand),
        _ => Ok(()),
    }
}

/// What the guard on a constructor of a signed quantity lets through.
pub open spec fn finite_spec(c: FloatClass) -> Result<(), QuantityError> {
    match c {
        FloatClass::Nan => Err(QuantityError::NanOperand),
        FloatClass::Infinite => Err(QuantityError::InfiniteOperand),
        _ => Ok(()),
    }
}

/// The outcome of scaling by a float: the guards in their order (a zero
/// divisor, an infinite operand, a NaN operand, then, where `non_negative`,
/// a negative operand), a zero factor that always gives zero, and otherwise
/// the scaled value the caller computed.
pub open spec fn float_scale_spec<T>(
    c: FloatClass,
    non_negative: bool,
    divide: bool,
    zero: T,
    scaled: Option<T>,
) -> Result<T, QuantityError> {
    match c {
        FloatClass::Zero => if divide {
            Err(QuantityError::DivideByZero)
        } else {
            Ok(zero)
        },
        FloatClass::Infinite => Err(QuantityError::InfiniteOperand),
        FloatClass::Nan => Err(QuantityError::NanOperand),
        FloatClass::Negative if non_negative => Err(QuantityError::NegativeOperand),
        _ => match scaled {
            Some(v) => Ok(v),
            None => Err(QuantityError::Overflow),
        },
    }
}

/// Rejects a NaN, infinite or negative operand.
pub fn validate_positive_finite(c: FloatClass) -> (r: Result<(), QuantityError>)
    ensures
        r == positive_finite_spec(c),
{
    match c {
        FloatClass::Nan => Err(QuantityError::NanOperand),
        FloatClass::Infinite => Err(QuantityError::InfiniteOperand),
        FloatClass::Negative => Err(QuantityError::NegativeOperand),
        _ => Ok(()),
    }
}

/// Rejects a NaN or infinite operand.
pub fn validate_finite(c: FloatClass) -> (r: Result<(), QuantityError>)
    ensures
        r == finite_spec(c),
{
    match c {
        FloatClass::Nan => Err(QuantityError::NanOperand),
        FloatClass::Infinite => Err(QuantityError::InfiniteOperand),
        _ => Ok(()),
    }
}

/// A value converted from a float, for a non-negative quantity: the guard,
/// then the converted value, or an overflow where it did not fit.
pub fn scaled_to_unsigned(c: FloatClass, scaled: Option<u64>) -> (r: Result<u64, QuantityError>)
    ensures
        r == (match positive_finite_spec(c) {
            Err(e) => Err(e),
            Ok(_) => match scaled {
                Some(v) => Ok(v),
                None => Err(QuantityError::Overflow),
            },
        }),
{
    match validate_positive_finite(c) {
        Err(e) => Err(e),
        Ok(_) => match scaled {
            Some(v) => Ok(v),
            None => Err(QuantityError::Overflow),
        },
    }
}

/// A value converted from a float, for a signed quantity: the guard, then
/// the converted value, or an overflow where it did not fit.
pub fn scaled_to_signed(c: FloatClass, scaled: Option<i64>) -> (r: Result<i64, QuantityError>)
    ensures
        r == (match finite_spec(c) {
            Err(e) => Err(e),
            Ok(_) => match scaled {
                Some(v) => Ok(v),
                None => Err(QuantityError::Overflow),
            },
        }),
{
    match validate_finite(c) {
        Err(e) => Err(e),
        Ok(_) => match scaled {
            Some(v) => Ok(v),
            None => Err(QuantityError::Overflow),
        },
    }
}

/// Scaling of a non-negative canonical value by a float factor or divisor.
pub fn float_scale_unsigned(c: FloatClass, divide: bool, scaled: Option<u64>) -> (r: Result<
    u64,
    QuantityError,
>)
    ensures
        r == float_scale_spec(c, true, divide, 0u64, scaled),
{
    match c {
        FloatClass::Zero => if divide {
            Err(QuantityError::DivideByZero)
        } else {
            Ok(0)
        },
        FloatClass::Infinite => Err(QuantityError::InfiniteOperand),
        FloatClass::Nan => Err(QuantityError::NanOperand),
        FloatClass::Negative => Err(QuantityError::NegativeOperand),
        FloatClass::Positive => match scaled {
            Some(v) => Ok(v),
            None => Err(QuantityError::Overflow),
        },
    }
}

/// Scaling of a signed canonical value by a float factor or divisor.
pub fn float_scale_signed(c: FloatClass, divide: bool, scaled: Option<i64>) -> (r: Result<
    i64,
    QuantityError,
>)
    ensures
        r == float_scale_spec(c, false, divide, 0i64, scaled),
{
    match c {
        FloatClass::Zero => if divide {
            Err(QuantityError::DivideByZero)
        } else {
            Ok(0)
        },
        FloatClass::Infinite => Err(QuantityError::InfiniteOperand),
        FloatClass::Nan => Err(QuantityError::NanOperand),
        _ => match scaled {
            Some(v) => Ok(v),
            None => Err(QuantityError::Overflow),
        },
    }
}

/// `value * factor` as a `u64`, or an overflow.
pub fn mul_u64(value: u64, factor: u64) -> (r: Result<u64, QuantityError>)
    ensures
        r == fit_u64(value * factor),
{
    match value.checked_mul(factor) {
        Some(v) => Ok(v),
        None => Err(QuantityError::Overflow),
    }
}

/// `value * factor` as an `i64`, or an overflow.
pub fn mul_i64(value: i64, factor: i64) -> (r: Result<i64, QuantityError>)
    ensures
        r == fit_i64(value * factor),
{
    match value.checked_mul(factor) {
        Some(v) => Ok(v),
        None => Err(QuantityError::Overflow),
    }
}

} // verus!
