use vstd::prelude::*;

use core::cmp::Ordering;

use crate::error::QuantityError;
use crate::guard::{
    FloatClass, fit_u64, float_scale_spec, float_scale_unsigned, mul_u64, positive_finite_spec,
    scaled_to_unsigned,
};

verus! {

/// A current, held as a whole number of microamps (μA). It is never negative.
///
/// `1000 μA = 1 mA`, `1000 mA = 1 A`.
///
/// Every count is a valid value, so the count is a public field; all
/// operations return new values.
#[derive(Clone, Copy, Debug, PartialEq, Eq, Ord, Structural)]
pub struct Current {
    /// The current in whole microamps.
    pub raw: u64,
}

impl View for Current {
    type V = int;

    /// The current in microamps.
    open spec fn view(&self) -> int {
        self.raw as int
    }
}

impl Current {
    /// A checked canonical count as a current.
    pub open spec fn lift(r: Result<u64, QuantityError>) -> Result<Current, QuantityError> {
        match r {
            Ok(v) => Ok(Current { raw: v }),
            Err(e) => Err(e),
        }
    }

    fn wrap(r: Result<u64, QuantityError>) -> (c: Result<Current, QuantityError>)
        ensures
            c == Current::lift(r),
    {
        match r {
            Ok(v) => Ok(Current { raw: v }),
            Err(e) => Err(e),
        }
    }

    /// Creates a current from a number of whole microamps.
    #[verifier::allow_in_spec]
    pub fn from_micro_amps(value: u64) -> (r: Current)
        returns
            (Current { raw: value }),
    {
        Current { raw: value }
    }

    /// Creates a current from a number of whole milliamps.
    #[verifier::allow_in_spec]
    pub fn from_milli_amps(value: u64) -> (r: Result<Current, QuantityError>)
        returns
            Current::lift(fit_u64(value * 1_000)),
    {
        Current::wrap(mul_u64(value, 1_000))
    }

    /// Creates a current from a number of whole amps.
    #[verifier::allow_in_spec]
    pub fn from_amps(value: u64) -> (r: Result<Current, QuantityError>)
        returns
            Current::lift(fit_u64(value * 1_000_000)),
    {
        Current::wrap(mul_u64(value, 1_000_000))
    }

    /// Creates a current from a floating-point amount of some denomination.
    ///
    /// `class` is the class of the amount; `micro_amps` is the amount scaled
    /// to microamps and truncated toward zero, or `None` where it did not fit
    /// a `u64`. A NaN, infinite or negative amount is refused before the
    /// scaled value is looked at.
    #[verifier::allow_in_spec]
    pub fn from_float_parts(class: FloatClass, micro_amps: Option<u64>) -> (r: Result<
        Current,
        QuantityError,
    >)
        returns
            Current::lift(
                match positive_finite_spec(class) {
                    Err(e) => Err(e),
                    Ok(_) => match micro_amps {
                        Some(v) => Ok(v),
                        None => Err(QuantityError::Overflow),
                    },
                },
            ),
    {
        Current::wrap(scaled_to_unsigned(class, micro_amps))
    }

    /// The current in whole microamps.
    #[verifier::allow_in_spec]
    pub fn micro_amps(&self) -> (r: u64)
        returns
            self.raw,
    {
        self.raw
    }

    /// Whether the current is zero.
    #[verifier::allow_in_spec]
    pub fn is_zero(&self) -> (r: bool)
        returns
            self.raw == 0,
    {
        self.raw == 0
    }

    /// A current of zero amps.
    #[verifier::allow_in_spec]
    pub fn zero() -> (r: Current)
        returns
            (Current { raw: 0 }),
    {
        Current { raw: 0 }
    }

    /// Scales the current by a floating-point factor.
    ///
    /// `class` is the class of the factor; `product` is the current in
    /// microamps times the factor, truncated toward zero, or `None` where it
    /// did not fit a `u64`. A zero factor gives zero without looking at
    /// `product`.
    #[verifier::allow_in_spec]
    pub fn mul_float(self, class: FloatClass, product: Option<u64>) -> (r: Result<
        Current,
        QuantityError,
    >)
        returns
            Current::lift(float_scale_spec(class, true, false, 0u64, product)),
    {
        Current::wrap(float_scale_unsigned(class, false, product))
    }

    /// Divides the current by a floating-point divisor.
    ///
    /// `class` is the class of the divisor; `quotient` is the current in
    /// microamps over the divisor, truncated toward zero, or `None` where it
    /// did not fit a `u64`.
    #[verifier::allow_in_spec]
    pub fn div_float(self, class: FloatClass, quotient: Option<u64>) -> (r: Result<
        Current,
        QuantityError,
    >)
        returns
            Current::lift(float_scale_spec(class, true, true, 0u64, quotient)),
    {
        Current::wrap(float_scale_unsigned(class, true, quotient))
    }
}

impl PartialOrd for Current {
    fn partial_cmp(&self, other: &Current) -> (r: Option<Ordering>) {
        if self.raw < other.raw {
            Some(Ordering::Less)
        } else if self.raw == other.raw {
            Some(Ordering::Equal)
        } else {
            Some(Ordering::Greater)
        }
    }
}

impl vstd::std_specs::cmp::PartialOrdSpecImpl for Current {
    open spec fn obeys_partial_cmp_spec() -> bool {
        true
    }

    open spec fn partial_cmp_spec(&self, other: &Current) -> Option<Ordering> {
        if self@ < other@ {
            Some(Ordering::Less)
        } else if self@ == other@ {
            Some(Ordering::Equal)
        } else {
            Some(Ordering::Greater)
        }
    }
}

impl core::ops::Add for Current {
    type Output = Result<Current, QuantityError>;

    fn add(self, other: Current) -> (r: Result<Current, QuantityError>) {
        Current::wrap(
            match self.raw.checked_add(other.raw) {
                Some(v) => Ok(v),
                None => Err(QuantityError::Overflow),
            },
        )
    }
}

impl vstd::std_specs::ops::AddSpecImpl for Current {
    open spec fn obeys_add_spec() -> bool {
        true
    }

    open spec fn add_req(self, rhs: Current) -> bool {
        true
    }

    open spec fn add_spec(self, rhs: Current) -> Result<Current, QuantityError> {
        Current::lift(fit_u64(self@ + rhs@))
    }
}

impl core::ops::Sub for Current {
    type Output = Result<Current, QuantityError>;

    fn sub(self, other: Current) -> (r: Result<Current, QuantityError>) {
        Current::wrap(
            match self.raw.checked_sub(other.raw) {
                Some(v) => Ok(v),
                None => Err(QuantityError::Overflow),
            },
        )
    }
}

impl vstd::std_specs::ops::SubSpecImpl for Current {
    open spec fn obeys_sub_spec() -> bool {
        true
    }

    open spec fn sub_req(self, rhs: Current) -> bool {
        true
    }

    /// A result below zero is out of range like one above the maximum.
    open spec fn sub_spec(self, rhs: Current) -> Result<Current, QuantityError> {
        Current::lift(fit_u64(self@ - rhs@))
    }
}

impl core::ops::Mul<u64> for Current {
    type Output = Result<Current, QuantityError>;

    fn mul(self, factor: u64) -> (r: Result<Current, QuantityError>) {
        Current::wrap(mul_u64(self.raw, factor))
    }
}

impl vstd::std_specs::ops::MulSpecImpl<u64> for Current {
    open spec fn obeys_mul_spec() -> bool {
        true
    }

    open spec fn mul_req(self, rhs: u64) -> bool {
        true
    }

    open spec fn mul_spec(self, rhs: u64) -> Result<Current, QuantityError> {
        Current::lift(fit_u64(self@ * rhs))
    }
}

impl core::ops::Mul<i64> for Current {
    type Output = Result<Current, QuantityError>;

    fn mul(self, factor: i64) -> (r: Result<Current, QuantityError>) {
        if factor < 0 {
            Err(QuantityError::NegativeOperand)
        } else {
            Current::wrap(mul_u64(self.raw, factor as u64))
        }
    }
}

impl vstd::std_specs::ops::MulSpecImpl<i64> for Current {
    open spec fn obeys_mul_spec() -> bool {
        true
    }

    open spec fn mul_req(self, rhs: i64) -> bool {
        true
    }

    /// A negative factor is refused, even on a zero current.
    open spec fn mul_spec(self, rhs: i64) -> Result<Current, QuantityError> {
        if rhs < 0 {
            Err(QuantityError::NegativeOperand)
        } else {
            Current::lift(fit_u64(self@ * rhs))
        }
    }
}

impl core::ops::Div<u64> for Current {
    type Output = Result<Current, QuantityError>;

    fn div(self, divisor: u64) -> (r: Result<Current, QuantityError>) {
        if divisor == 0 {
            Err(QuantityError::DivideByZero)
        } else {
            Ok(Current { raw: self.raw / divisor })
        }
    }
}

impl vstd::std_specs::ops::DivSpecImpl<u64> for Current {
    open spec fn obeys_div_spec() -> bool {
        true
    }

    open spec fn div_req(self, rhs: u64) -> bool {
        true
    }

    /// The quotient is rounded down to a whole microamp.
    open spec fn div_spec(self, rhs: u64) -> Result<Current, QuantityError> {
        if rhs == 0 {
            Err(QuantityError::DivideByZero)
        } else {
            Ok(Current { raw: (self@ / rhs as int) as u64 })
        }
    }
}

impl core::ops::Div<i64> for Current {
    type Output = Result<Current, QuantityError>;

    fn div(self, divisor: i64) -> (r: Result<Current, QuantityError>) {
        if divisor == 0 {
            Err(QuantityError::DivideByZero)
        } else if divisor < 0 {
            Err(QuantityError::NegativeOperand)
        } else {
            Ok(Current { raw: self.raw / (divisor as u64) })
        }
    }
}

impl vstd::std_specs::ops::DivSpecImpl<i64> for Current {
    open spec fn obeys_div_spec() -> bool {
        true
    }

    open spec fn div_req(self, rhs: i64) -> bool {
        true
    }

    /// A zero divisor is refused before a negative one; the quotient is
    /// rounded down to a whole microamp.
    open spec fn div_spec(self, rhs: i64) -> Result<Current, QuantityError> {
        if rhs == 0 {
            Err(QuantityError::DivideByZero)
        } else if rhs < 0 {
            Err(QuantityError::NegativeOperand)
        } else {
            Ok(Current { raw: (self@ / rhs as int) as u64 })
        }
    }
}

impl core::ops::Mul<u8> for Current {
    type Output = Result<Current, QuantityError>;

    fn mul(self, factor: u8) -> (r: Result<Current, QuantityError>) {
        self * (factor as u64)
    }
}

impl vstd::std_specs::ops::MulSpecImpl<u8> for Current {
    open spec fn obeys_mul_spec() -> bool {
        true
    }

    open spec fn mul_req(self, rhs: u8) -> bool {
        true
    }

    open spec fn mul_spec(self, rhs: u8) -> Result<Current, QuantityError> {
        Current::lift(fit_u64(self@ * rhs))
    }
}

impl core::ops::Mul<u16> for Current {
    type Output = Result<Current, QuantityError>;

    fn mul(self, factor: u16) -> (r: Result<Current, QuantityError>) {
        self * (factor as u64)
    }
}

impl vstd::std_specs::ops::MulSpecImpl<u16> for Current {
    open spec fn obeys_mul_spec() -> bool {
        true
    }

    open spec fn mul_req(self, rhs: u16) -> bool {
        true
    }

    open spec fn mul_spec(self, rhs: u16) -> Result<Current, QuantityError> {
        Current::lift(fit_u64(self@ * rhs))
    }
}

impl core::ops::Mul<u32> for Current {
    type Output = Result<Current, QuantityError>;

    fn mul(self, factor: u32) -> (r: Result<Current, QuantityError>) {
        self * (factor as u64)
    }
}

impl vstd::std_specs::ops::MulSpecImpl<u32> for Current {
    open spec fn obeys_mul_spec() -> bool {
        true
    }

    open spec fn mul_req(self, rhs: u32) -> bool {
        true
    }

    open spec fn mul_spec(self, rhs: u32) -> Result<Current, QuantityError> {
        Current::lift(fit_u64(self@ * rhs))
    }
}

impl core::ops::Div<u8> for Current {
    type Output = Result<Current, QuantityError>;

    fn div(self, divisor: u8) -> (r: Result<Current, QuantityError>) {
        self / (divisor as u64)
    }
}

impl vstd::std_specs::ops::DivSpecImpl<u8> for Current {
    open spec fn obeys_div_spec() -> bool {
        true
    }

    open spec fn div_req(self, rhs: u8) -> bool {
        true
    }

    /// The quotient is rounded down to a whole microamp.
    open spec fn div_spec(self, rhs: u8) -> Result<Current, QuantityError> {
        if rhs == 0 {
            Err(QuantityError::DivideByZero)
        } else {
            Ok(Current { raw: (self@ / rhs as int) as u64 })
        }
    }
}

impl core::ops::Div<u16> for Current {
    type Output = Result<Current, QuantityError>;

    fn div(self, divisor: u16) -> (r: Result<Current, QuantityError>) {
        self / (divisor as u64)
    }
}

impl vstd::std_specs::ops::DivSpecImpl<u16> for Current {
    open spec fn obeys_div_spec() -> bool {
        true
    }

    open spec fn div_req(self, rhs: u16) -> bool {
        true
    }

    /// The quotient is rounded down to a whole microamp.
    open spec fn div_spec(self, rhs: u16) -> Result<Current, QuantityError> {
        if rhs == 0 {
            Err(QuantityError::DivideByZero)
        } else {
            Ok(Current { raw: (self@ / rhs as int) as u64 })
        }
    }
}

impl core::ops::Div<u32> for Current {
    type Output = Result<Current, QuantityError>;

    fn div(self, divisor: u32) -> (r: Result<Current, QuantityError>) {
        self / (divisor as u64)
    }
}

impl vstd::std_specs::ops::DivSpecImpl<u32> for Current {
    open spec fn obeys_div_spec() -> bool {
        true
    }

    open spec fn div_req(self, rhs: u32) -> bool {
        true
    }

    /// The quotient is rounded down to a whole microamp.
    open spec fn div_spec(self, rhs: u32) -> Result<Current, QuantityError> {
        if rhs == 0 {
            Err(QuantityError::DivideByZero)
        } else {
            Ok(Current { raw: (self@ / rhs as int) as u64 })
        }
    }
}

impl core::ops::Mul<i8> for Current {
    type Output = Result<Current, QuantityError>;

    fn mul(self, factor: i8) -> (r: Result<Current, QuantityError>) {
        self * (factor as i64)
    }
}

impl vstd::std_specs::ops::MulSpecImpl<i8> for Current {
    open spec fn obeys_mul_spec() -> bool {
        true
    }

    open spec fn mul_req(self, rhs: i8) -> bool {
        true
    }

    /// A negative factor is refused, even on a zero current.
    open spec fn mul_spec(self, rhs: i8) -> Result<Current, QuantityError> {
        if rhs < 0 {
            Err(QuantityError::NegativeOperand)
        } else {
            Current::lift(fit_u64(self@ * rhs))
        }
    }
}

impl core::ops::Mul<i16> for Current {
    type Output = Result<Current, QuantityError>;

    fn mul(self, factor: i16) -> (r: Result<Current, QuantityError>) {
        self * (factor as i64)
    }
}

impl vstd::std_specs::ops::MulSpecImpl<i16> for Current {
    open spec fn obeys_mul_spec() -> bool {
        true
    }

    open spec fn mul_req(self, rhs: i16) -> bool {
        true
    }

    /// A negative factor is refused, even on a zero current.
    open spec fn mul_spec(self, rhs: i16) -> Result<Current, QuantityError> {
        if rhs < 0 {
            Err(QuantityError::NegativeOperand)
        } else {
            Current::lift(fit_u64(self@ * rhs))
        }
    }
}

impl core::ops::Mul<i32> for Current {
    type Output = Result<Current, QuantityError>;

    fn mul(self, factor: i32) -> (r: Result<Current, QuantityError>) {
        self * (factor as i64)
    }
}

impl vstd::std_specs::ops::MulSpecImpl<i32> for Current {
    open spec fn obeys_mul_spec() -> bool {
        true
    }

    open spec fn mul_req(self, rhs: i32) -> bool {
        true
    }

    /// A negative factor is refused, even on a zero current.
    open spec fn mul_spec(self, rhs: i32) -> Result<Current, QuantityError> {
        if rhs < 0 {
            Err(QuantityError::NegativeOperand)
        } else {
            Current::lift(fit_u64(self@ * rhs))
        }
    }
}

impl core::ops::Div<i8> for Current {
    type Output = Result<Current, QuantityError>;

    fn div(self, divisor: i8) -> (r: Result<Current, QuantityError>) {
        self / (divisor as i64)
    }
}

impl vstd::std_specs::ops::DivSpecImpl<i8> for Current {
    open spec fn obeys_div_spec() -> bool {
        true
    }

    open spec fn div_req(self, rhs: i8) -> bool {
        true
    }

    /// A zero divisor is refused before a negative one; the quotient is
    /// rounded down to a whole microamp.
    open spec fn div_spec(self, rhs: i8) -> Result<Current, QuantityError> {
        if rhs == 0 {
            Err(QuantityError::DivideByZero)
        } else if rhs < 0 {
            Err(QuantityError::NegativeOperand)
        } else {
            Ok(Current { raw: (self@ / rhs as int) as u64 })
        }
    }
}

impl core::ops::Div<i16> for Current {
    type Output = Result<Current, QuantityError>;

    fn div(self, divisor: i16) -> (r: Result<Current, QuantityError>) {
        self / (divisor as i64)
    }
}

impl vstd::std_specs::ops::DivSpecImpl<i16> for Current {
    open spec fn obeys_div_spec() -> bool {
        true
    }

    open spec fn div_req(self, rhs: i16) -> bool {
        true
    }

    /// A zero divisor is refused before a negative one; the quotient is
    /// rounded down to a whole microamp.
    open spec fn div_spec(self, rhs: i16) -> Result<Current, QuantityError> {
        if rhs == 0 {
            Err(QuantityError::DivideByZero)
        } else if rhs < 0 {
            Err(QuantityError::NegativeOperand)
        } else {
            Ok(Current { raw: (self@ / rhs as int) as u64 })
        }
    }
}

impl core::ops::Div<i32> for Current {
    type Output = Result<Current, QuantityError>;

    fn div(self, divisor: i32) -> (r: Result<Current, QuantityError>) {
        self / (divisor as i64)
    }
}

impl vstd::std_specs::ops::DivSpecImpl<i32> for Current {
    open spec fn obeys_div_spec() -> bool {
        true
    }

    open spec fn div_req(self, rhs: i32) -> bool {
        true
    }

    /// A zero divisor is refused before a negative one; the quotient is
    /// rounded down to a whole microamp.
    open spec fn div_spec(self, rhs: i32) -> Result<Current, QuantityError> {
        if rhs == 0 {
            Err(QuantityError::DivideByZero)
        } else if rhs < 0 {
            Err(QuantityError::NegativeOperand)
        } else {
            Ok(Current { raw: (self@ / rhs as int) as u64 })
        }
    }
}

/// Short-hands that make a current from an integer amount of a denomination.
pub trait FromInteger {
    /// A current of this many whole microamps.
    fn micro_amps(self) -> Current;

    /// A current of this many whole milliamps.
    fn milli_amps(self) -> Result<Current, QuantityError>;

    /// A current of this many whole amps.
    fn amps(self) -> Result<Current, QuantityError>;
}

impl FromInteger for u64 {
    fn micro_amps(self) -> (r: Current)
        ensures
            r == Current::from_micro_amps(self),
    {
        Current::from_micro_amps(self)
    }

    fn milli_amps(self) -> (r: Result<Current, QuantityError>)
        ensures
            r == Current::from_milli_amps(self),
    {
        Current::from_milli_amps(self)
    }

    fn amps(self) -> (r: Result<Current, QuantityError>)
        ensures
            r == Current::from_amps(self),
    {
        Current::from_amps(self)
    }
}

impl FromInteger for u8 {
    fn micro_amps(self) -> (r: Current)
        ensures
            r == Current::from_micro_amps(self as u64),
    {
        Current::from_micro_amps(self as u64)
    }

    fn milli_amps(self) -> (r: Result<Current, QuantityError>)
        ensures
            r == Current::from_milli_amps(self as u64),
    {
        Current::from_milli_amps(self as u64)
    }

    fn amps(self) -> (r: Result<Current, QuantityError>)
        ensures
            r == Current::from_amps(self as u64),
    {
        Current::from_amps(self as u64)
    }
}

impl FromInteger for u16 {
    fn micro_amps(self) -> (r: Current)
        ensures
            r == Current::from_micro_amps(self as u64),
    {
        Current::from_micro_amps(self as u64)
    }

    fn milli_amps(self) -> (r: Result<Current, QuantityError>)
        ensures
            r == Current::from_milli_amps(self as u64),
    {
        Current::from_milli_amps(self as u64)
    }

    fn amps(self) -> (r: Result<Current, QuantityError>)
        ensures
            r == Current::from_amps(self as u64),
    {
        Current::from_amps(self as u64)
    }
}

impl FromInteger for u32 {
    fn micro_amps(self) -> (r: Current)
        ensures
            r == Current::from_micro_amps(self as u64),
    {
        Current::from_micro_amps(self as u64)
    }

    fn milli_amps(self) -> (r: Result<Current, QuantityError>)
        ensures
            r == Current::from_milli_amps(self as u64),
    {
        Current::from_milli_amps(self as u64)
    }

    fn amps(self) -> (r: Result<Current, QuantityError>)
        ensures
            r == Current::from_amps(self as u64),
    {
        Current::from_amps(self as u64)
    }
}

} // verus!
