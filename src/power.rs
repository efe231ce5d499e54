use vstd::prelude::*;

use core::cmp::Ordering;

use crate::error::QuantityError;
use crate::guard::{
    FloatClass, fit_u64, float_scale_spec, float_scale_unsigned, mul_u64, positive_finite_spec,
    scaled_to_unsigned,
};

verus! {

/// A power, held as a whole number of microwatts (μW). It is never negative.
///
/// `1000 μW = 1 mW`, `1000 mW = 1 W`, `1000 W = 1 kW`.
///
/// Every count is a valid value, so the count is a public field; all
/// operations return new values.
#[derive(Clone, Copy, Debug, PartialEq, Eq, Ord, Structural)]
pub struct Power {
    /// The power in whole microwatts.
    pub raw: u64,
}

impl View for Power {
    type V = int;

    /// The power in microwatts.
    open spec fn view(&self) -> int {
        self.raw as int
    }
}

impl Power {
    /// A checked canonical count as a power.
    pub open spec fn lift(r: Result<u64, QuantityError>) -> Result<Power, QuantityError> {
        match r {
            Ok(v) => Ok(Power { raw: v }),
            Err(e) => Err(e),
        }
    }

    fn wrap(r: Result<u64, QuantityError>) -> (c: Result<Power, QuantityError>)
        ensures
            c == Power::lift(r),
    {
        match r {
            Ok(v) => Ok(Power { raw: v }),
            Err(e) => Err(e),
        }
    }

    /// Creates a power from a number of whole microwatts.
    #[verifier::allow_in_spec]
    pub fn from_micro_watts(value: u64) -> (r: Power)
        returns
            (Power { raw: value }),
    {
        Power { raw: value }
    }

    /// Creates a power from a number of whole milliwatts.
    #[verifier::allow_in_spec]
    pub fn from_milli_watts(value: u64) -> (r: Result<Power, QuantityError>)
        returns
            Power::lift(fit_u64(value * 1_000)),
    {
        Power::wrap(mul_u64(value, 1_000))
    }

    /// Creates a power from a number of whole watts.
    #[verifier::allow_in_spec]
    pub fn from_watts(value: u64) -> (r: Result<Power, QuantityError>)
        returns
            Power::lift(fit_u64(value * 1_000_000)),
    {
        Power::wrap(mul_u64(value, 1_000_000))
    }

    /// Creates a power from a number of whole kilowatts.
    #[verifier::allow_in_spec]
    pub fn from_kilo_watts(value: u64) -> (r: Result<Power, QuantityError>)
        returns
            Power::lift(fit_u64(value * 1_000_000_000)),
    {
        Power::wrap(mul_u64(value, 1_000_000_000))
    }

    /// Creates a power from a floating-point amount of some denomination.
    ///
    /// `class` is the class of the amount; `micro_watts` is the amount scaled
    /// to microwatts and truncated toward zero, or `None` where it did not fit
    /// a `u64`. A NaN, infinite or negative amount is refused before the
    /// scaled value is looked at.
    #[verifier::allow_in_spec]
    pub fn from_float_parts(class: FloatClass, micro_watts: Option<u64>) -> (r: Result<
        Power,
        QuantityError,
    >)
        returns
            Power::lift(
                match positive_finite_spec(class) {
                    Err(e) => Err(e),
                    Ok(_) => match micro_watts {
                        Some(v) => Ok(v),
                        None => Err(QuantityError::Overflow),
                    },
                },
            ),
    {
        Power::wrap(scaled_to_unsigned(class, micro_watts))
    }

    /// The power in whole microwatts.
    #[verifier::allow_in_spec]
    pub fn micro_watts(&self) -> (r: u64)
        returns
            self.raw,
    {
        self.raw
    }

    /// Whether the power is zero.
    #[verifier::allow_in_spec]
    pub fn is_zero(&self) -> (r: bool)
        returns
            self.raw == 0,
    {
        self.raw == 0
    }

    /// A power of zero watts.
    #[verifier::allow_in_spec]
    pub fn zero() -> (r: Power)
        returns
            (Power { raw: 0 }),
    {
        Power { raw: 0 }
    }

    /// Scales the power by a floating-point factor.
    ///
    /// `class` is the class of the factor; `product` is the power in
    /// microwatts times the factor, truncated toward zero, or `None` where it
    /// did not fit a `u64`. A zero factor gives zero without looking at
    /// `product`.
    #[verifier::allow_in_spec]
    pub fn mul_float(self, class: FloatClass, product: Option<u64>) -> (r: Result<
        Power,
        QuantityError,
    >)
        returns
            Power::lift(float_scale_spec(class, true, false, 0u64, product)),
    {
        Power::wrap(float_scale_unsigned(class, false, product))
    }

    /// Divides the power by a floating-point divisor.
    ///
    /// `class` is the class of the divisor; `quotient` is the power in
    /// microwatts over the divisor, truncated toward zero, or `None` where it
    /// did not fit a `u64`.
    #[verifier::allow_in_spec]
    pub fn div_float(self, class: FloatClass, quotient: Option<u64>) -> (r: Result<
        Power,
        QuantityError,
    >)
        returns
            Power::lift(float_scale_spec(class, true, true, 0u64, quotient)),
    {
        Power::wrap(float_scale_unsigned(class, true, quotient))
    }
}

impl PartialOrd for Power {
    fn partial_cmp(&self, other: &Power) -> (r: Option<Ordering>) {
        if self.raw < other.raw {
            Some(Ordering::Less)
        } else if self.raw == other.raw {
            Some(Ordering::Equal)
        } else {
            Some(Ordering::Greater)
        }
    }
}

impl vstd::std_specs::cmp::PartialOrdSpecImpl for Power {
    open spec fn obeys_partial_cmp_spec() -> bool {
        true
    }

    open spec fn partial_cmp_spec(&self, other: &Power) -> Option<Ordering> {
        if self@ < other@ {
            Some(Ordering::Less)
        } else if self@ == other@ {
            Some(Ordering::Equal)
        } else {
            Some(Ordering::Greater)
        }
    }
}

impl core::ops::Add for Power {
    type Output = Result<Power, QuantityError>;

    fn add(self, other: Power) -> (r: Result<Power, QuantityError>) {
        Power::wrap(
            match self.raw.checked_add(other.raw) {
                Some(v) => Ok(v),
                None => Err(QuantityError::Overflow),
            },
        )
    }
}

impl vstd::std_specs::ops::AddSpecImpl for Power {
    open spec fn obeys_add_spec() -> bool {
        true
    }

    open spec fn add_req(self, rhs: Power) -> bool {
        true
    }

    open spec fn add_spec(self, rhs: Power) -> Result<Power, QuantityError> {
        Power::lift(fit_u64(self@ + rhs@))
    }
}

impl core::ops::Sub for Power {
    type Output = Result<Power, QuantityError>;

    fn sub(self, other: Power) -> (r: Result<Power, QuantityError>) {
        Power::wrap(
            match self.raw.checked_sub(other.raw) {
                Some(v) => Ok(v),
                None => Err(QuantityError::Overflow),
            },
        )
    }
}

impl vstd::std_specs::ops::SubSpecImpl for Power {
    open spec fn obeys_sub_spec() -> bool {
        true
    }

    open spec fn sub_req(self, rhs: Power) -> bool {
        true
    }

    /// A result below zero is out of range like one above the maximum.
    open spec fn sub_spec(self, rhs: Power) -> Result<Power, QuantityError> {
        Power::lift(fit_u64(self@ - rhs@))
    }
}

impl core::ops::Mul<u64> for Power {
    type Output = Result<Power, QuantityError>;

    fn mul(self, factor: u64) -> (r: Result<Power, QuantityError>) {
        Power::wrap(mul_u64(self.raw, factor))
    }
}

impl vstd::std_specs::ops::MulSpecImpl<u64> for Power {
    open spec fn obeys_mul_spec() -> bool {
        true
    }

    open spec fn mul_req(self, rhs: u64) -> bool {
        true
    }

    open spec fn mul_spec(self, rhs: u64) -> Result<Power, QuantityError> {
        Power::lift(fit_u64(self@ * rhs))
    }
}

impl core::ops::Mul<i64> for Power {
    type Output = Result<Power, QuantityError>;

    fn mul(self, factor: i64) -> (r: Result<Power, QuantityError>) {
        if factor < 0 {
            Err(QuantityError::NegativeOperand)
        } else {
            Power::wrap(mul_u64(self.raw, factor as u64))
        }
    }
}

impl vstd::std_specs::ops::MulSpecImpl<i64> for Power {
    open spec fn obeys_mul_spec() -> bool {
        true
    }

    open spec fn mul_req(self, rhs: i64) -> bool {
        true
    }

    /// A negative factor is refused, even on a zero power.
    open spec fn mul_spec(self, rhs: i64) -> Result<Power, QuantityError> {
        if rhs < 0 {
            Err(QuantityError::NegativeOperand)
        } else {
            Power::lift(fit_u64(self@ * rhs))
        }
    }
}

impl core::ops::Div<u64> for Power {
    type Output = Result<Power, QuantityError>;

    fn div(self, divisor: u64) -> (r: Result<Power, QuantityError>) {
        if divisor == 0 {
            Err(QuantityError::DivideByZero)
        } else {
            Ok(Power { raw: self.raw / divisor })
        }
    }
}

impl vstd::std_specs::ops::DivSpecImpl<u64> for Power {
    open spec fn obeys_div_spec() -> bool {
        true
    }

    open spec fn div_req(self, rhs: u64) -> bool {
        true
    }

    /// The quotient is rounded down to a whole microwatt.
    open spec fn div_spec(self, rhs: u64) -> Result<Power, QuantityError> {
        if rhs == 0 {
            Err(QuantityError::DivideByZero)
        } else {
            Ok(Power { raw: (self@ / rhs as int) as u64 })
        }
    }
}

impl core::ops::Div<i64> for Power {
    type Output = Result<Power, QuantityError>;

    fn div(self, divisor: i64) -> (r: Result<Power, QuantityError>) {
        if divisor == 0 {
            Err(QuantityError::DivideByZero)
        } else if divisor < 0 {
            Err(QuantityError::NegativeOperand)
        } else {
            Ok(Power { raw: self.raw / (divisor as u64) })
        }
    }
}

impl vstd::std_specs::ops::DivSpecImpl<i64> for Power {
    open spec fn obeys_div_spec() -> bool {
        true
    }

    open spec fn div_req(self, rhs: i64) -> bool {
        true
    }

    /// A zero divisor is refused before a negative one; the quotient is
    /// rounded down to a whole microwatt.
    open spec fn div_spec(self, rhs: i64) -> Result<Power, QuantityError> {
        if rhs == 0 {
            Err(QuantityError::DivideByZero)
        } else if rhs < 0 {
            Err(QuantityError::NegativeOperand)
        } else {
            Ok(Power { raw: (self@ / rhs as int) as u64 })
        }
    }
}

impl core::ops::Mul<u8> for Power {
    type Output = Result<Power, QuantityError>;

    fn mul(self, factor: u8) -> (r: Result<Power, QuantityError>) {
        self * (factor as u64)
    }
}

impl vstd::std_specs::ops::MulSpecImpl<u8> for Power {
    open spec fn obeys_mul_spec() -> bool {
        true
    }

    open spec fn mul_req(self, rhs: u8) -> bool {
        true
    }

    open spec fn mul_spec(self, rhs: u8) -> Result<Power, QuantityError> {
        Power::lift(fit_u64(self@ * rhs))
    }
}

impl core::ops::Mul<u16> for Power {
    type Output = Result<Power, QuantityError>;

    fn mul(self, factor: u16) -> (r: Result<Power, QuantityError>) {
        self * (factor as u64)
    }
}

impl vstd::std_specs::ops::MulSpecImpl<u16> for Power {
    open spec fn obeys_mul_spec() -> bool {
        true
    }

    open spec fn mul_req(self, rhs: u16) -> bool {
        true
    }

    open spec fn mul_spec(self, rhs: u16) -> Result<Power, QuantityError> {
        Power::lift(fit_u64(self@ * rhs))
    }
}

impl core::ops::Mul<u32> for Power {
    type Output = Result<Power, QuantityError>;

    fn mul(self, factor: u32) -> (r: Result<Power, QuantityError>) {
        self * (factor as u64)
    }
}

impl vstd::std_specs::ops::MulSpecImpl<u32> for Power {
    open spec fn obeys_mul_spec() -> bool {
        true
    }

    open spec fn mul_req(self, rhs: u32) -> bool {
        true
    }

    open spec fn mul_spec(self, rhs: u32) -> Result<Power, QuantityError> {
        Power::lift(fit_u64(self@ * rhs))
    }
}

impl core::ops::Div<u8> for Power {
    type Output = Result<Power, QuantityError>;

    fn div(self, divisor: u8) -> (r: Result<Power, QuantityError>) {
        self / (divisor as u64)
    }
}

impl vstd::std_specs::ops::DivSpecImpl<u8> for Power {
    open spec fn obeys_div_spec() -> bool {
        true
    }

    open spec fn div_req(self, rhs: u8) -> bool {
        true
    }

    /// The quotient is rounded down to a whole microwatt.
    open spec fn div_spec(self, rhs: u8) -> Result<Power, QuantityError> {
        if rhs == 0 {
            Err(QuantityError::DivideByZero)
        } else {
            Ok(Power { raw: (self@ / rhs as int) as u64 })
        }
    }
}

impl core::ops::Div<u16> for Power {
    type Output = Result<Power, QuantityError>;

    fn div(self, divisor: u16) -> (r: Result<Power, QuantityError>) {
        self / (divisor as u64)
    }
}

impl vstd::std_specs::ops::DivSpecImpl<u16> for Power {
    open spec fn obeys_div_spec() -> bool {
        true
    }

    open spec fn div_req(self, rhs: u16) -> bool {
        true
    }

    /// The quotient is rounded down to a whole microwatt.
    open spec fn div_spec(self, rhs: u16) -> Result<Power, QuantityError> {
        if rhs == 0 {
            Err(QuantityError::DivideByZero)
        } else {
            Ok(Power { raw: (self@ / rhs as int) as u64 })
        }
    }
}

impl core::ops::Div<u32> for Power {
    type Output = Result<Power, QuantityError>;

    fn div(self, divisor: u32) -> (r: Result<Power, QuantityError>) {
        self / (divisor as u64)
    }
}

impl vstd::std_specs::ops::DivSpecImpl<u32> for Power {
    open spec fn obeys_div_spec() -> bool {
        true
    }

    open spec fn div_req(self, rhs: u32) -> bool {
        true
    }

    /// The quotient is rounded down to a whole microwatt.
    open spec fn div_spec(self, rhs: u32) -> Result<Power, QuantityError> {
        if rhs == 0 {
            Err(QuantityError::DivideByZero)
        } else {
            Ok(Power { raw: (self@ / rhs as int) as u64 })
        }
    }
}

impl core::ops::Mul<i8> for Power {
    type Output = Result<Power, QuantityError>;

    fn mul(self, factor: i8) -> (r: Result<Power, QuantityError>) {
        self * (factor as i64)
    }
}

impl vstd::std_specs::ops::MulSpecImpl<i8> for Power {
    open spec fn obeys_mul_spec() -> bool {
        true
    }

    open spec fn mul_req(self, rhs: i8) -> bool {
        true
    }

    /// A negative factor is refused, even on a zero power.
    open spec fn mul_spec(self, rhs: i8) -> Result<Power, QuantityError> {
        if rhs < 0 {
            Err(QuantityError::NegativeOperand)
        } else {
            Power::lift(fit_u64(self@ * rhs))
        }
    }
}

impl core::ops::Mul<i16> for Power {
    type Output = Result<Power, QuantityError>;

    fn mul(self, factor: i16) -> (r: Result<Power, QuantityError>) {
        self * (factor as i64)
    }
}

impl vstd::std_specs::ops::MulSpecImpl<i16> for Power {
    open spec fn obeys_mul_spec() -> bool {
        true
    }

    open spec fn mul_req(self, rhs: i16) -> bool {
        true
    }

    /// A negative factor is refused, even on a zero power.
    open spec fn mul_spec(self, rhs: i16) -> Result<Power, QuantityError> {
        if rhs < 0 {
            Err(QuantityError::NegativeOperand)
        } else {
            Power::lift(fit_u64(self@ * rhs))
        }
    }
}

impl core::ops::Mul<i32> for Power {
    type Output = Result<Power, QuantityError>;

    fn mul(self, factor: i32) -> (r: Result<Power, QuantityError>) {
        self * (factor as i64)
    }
}

impl vstd::std_specs::ops::MulSpecImpl<i32> for Power {
    open spec fn obeys_mul_spec() -> bool {
        true
    }

    open spec fn mul_req(self, rhs: i32) -> bool {
        true
    }

    /// A negative factor is refused, even on a zero power.
    open spec fn mul_spec(self, rhs: i32) -> Result<Power, QuantityError> {
        if rhs < 0 {
            Err(QuantityError::NegativeOperand)
        } else {
            Power::lift(fit_u64(self@ * rhs))
        }
    }
}

impl core::ops::Div<i8> for Power {
    type Output = Result<Power, QuantityError>;

    fn div(self, divisor: i8) -> (r: Result<Power, QuantityError>) {
        self / (divisor as i64)
    }
}

impl vstd::std_specs::ops::DivSpecImpl<i8> for Power {
    open spec fn obeys_div_spec() -> bool {
        true
    }

    open spec fn div_req(self, rhs: i8) -> bool {
        true
    }

    /// A zero divisor is refused before a negative one; the quotient is
    /// rounded down to a whole microwatt.
    open spec fn div_spec(self, rhs: i8) -> Result<Power, QuantityError> {
        if rhs == 0 {
            Err(QuantityError::DivideByZero)
        } else if rhs < 0 {
            Err(QuantityError::NegativeOperand)
        } else {
            Ok(Power { raw: (self@ / rhs as int) as u64 })
        }
    }
}

impl core::ops::Div<i16> for Power {
    type Output = Result<Power, QuantityError>;

    fn div(self, divisor: i16) -> (r: Result<Power, QuantityError>) {
        self / (divisor as i64)
    }
}

impl vstd::std_specs::ops::DivSpecImpl<i16> for Power {
    open spec fn obeys_div_spec() -> bool {
        true
    }

    open spec fn div_req(self, rhs: i16) -> bool {
        true
    }

    /// A zero divisor is refused before a negative one; the quotient is
    /// rounded down to a whole microwatt.
    open spec fn div_spec(self, rhs: i16) -> Result<Power, QuantityError> {
        if rhs == 0 {
            Err(QuantityError::DivideByZero)
        } else if rhs < 0 {
            Err(QuantityError::NegativeOperand)
        } else {
            Ok(Power { raw: (self@ / rhs as int) as u64 })
        }
    }
}

impl core::ops::Div<i32> for Power {
    type Output = Result<Power, QuantityError>;

    fn div(self, divisor: i32) -> (r: Result<Power, QuantityError>) {
        self / (divisor as i64)
    }
}

impl vstd::std_specs::ops::DivSpecImpl<i32> for Power {
    open spec fn obeys_div_spec() -> bool {
        true
    }

    open spec fn div_req(self, rhs: i32) -> bool {
        true
    }

    /// A zero divisor is refused before a negative one; the quotient is
    /// rounded down to a whole microwatt.
    open spec fn div_spec(self, rhs: i32) -> Result<Power, QuantityError> {
        if rhs == 0 {
            Err(QuantityError::DivideByZero)
        } else if rhs < 0 {
            Err(QuantityError::NegativeOperand)
        } else {
            Ok(Power { raw: (self@ / rhs as int) as u64 })
        }
    }
}

/// Short-hands that make a power from an integer amount of a denomination.
pub trait FromInteger {
    /// A power of this many whole microwatts.
    fn micro_watts(self) -> Power;

    /// A power of this many whole milliwatts.
    fn milli_watts(self) -> Result<Power, QuantityError>;

    /// A power of this many whole watts.
    fn watts(self) -> Result<Power, QuantityError>;

    /// A power of this many whole kilowatts.
    fn kilo_watts(self) -> Result<Power, QuantityError>;
}

impl FromInteger for u64 {
    fn micro_watts(self) -> (r: Power)
        ensures
            r == Power::from_micro_watts(self),
    {
        Power::from_micro_watts(self)
    }

    fn milli_watts(self) -> (r: Result<Power, QuantityError>)
        ensures
            r == Power::from_milli_watts(self),
    {
        Power::from_milli_watts(self)
    }

    fn watts(self) -> (r: Result<Power, QuantityError>)
        ensures
            r == Power::from_watts(self),
    {
        Power::from_watts(self)
    }

    fn kilo_watts(self) -> (r: Result<Power, QuantityError>)
        ensures
            r == Power::from_kilo_watts(self),
    {
        Power::from_kilo_watts(self)
    }
}

impl FromInteger for u8 {
    fn micro_watts(self) -> (r: Power)
        ensures
            r == Power::from_micro_watts(self as u64),
    {
        Power::from_micro_watts(self as u64)
    }

    fn milli_watts(self) -> (r: Result<Power, QuantityError>)
        ensures
            r == Power::from_milli_watts(self as u64),
    {
        Power::from_milli_watts(self as u64)
    }

    fn watts(self) -> (r: Result<Power, QuantityError>)
        ensures
            r == Power::from_watts(self as u64),
    {
        Power::from_watts(self as u64)
    }

    fn kilo_watts(self) -> (r: Result<Power, QuantityError>)
        ensures
            r == Power::from_kilo_watts(self as u64),
    {
        Power::from_kilo_watts(self as u64)
    }
}

impl FromInteger for u16 {
    fn micro_watts(self) -> (r: Power)
        ensures
            r == Power::from_micro_watts(self as u64),
    {
        Power::from_micro_watts(self as u64)
    }

    fn milli_watts(self) -> (r: Result<Power, QuantityError>)
        ensures
            r == Power::from_milli_watts(self as u64),
    {
        Power::from_milli_watts(self as u64)
    }

    fn watts(self) -> (r: Result<Power, QuantityError>)
        ensures
            r == Power::from_watts(self as u64),
    {
        Power::from_watts(self as u64)
    }

    fn kilo_watts(self) -> (r: Result<Power, QuantityError>)
        ensures
            r == Power::from_kilo_watts(self as u64),
    {
        Power::from_kilo_watts(self as u64)
    }
}

impl FromInteger for u32 {
    fn micro_watts(self) -> (r: Power)
        ensures
            r == Power::from_micro_watts(self as u64),
    {
        Power::from_micro_watts(self as u64)
    }

    fn milli_watts(self) -> (r: Result<Power, QuantityError>)
        ensures
            r == Power::from_milli_watts(self as u64),
    {
        Power::from_milli_watts(self as u64)
    }

    fn watts(self) -> (r: Result<Power, QuantityError>)
        ensures
            r == Power::from_watts(self as u64),
    {
        Power::from_watts(self as u64)
    }

    fn kilo_watts(self) -> (r: Result<Power, QuantityError>)
        ensures
            r == Power::from_kilo_watts(self as u64),
    {
        Power::from_kilo_watts(self as u64)
    }
}

} // verus!
