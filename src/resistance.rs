use vstd::prelude::*;

use core::cmp::Ordering;

use crate::error::QuantityError;
use crate::guard::{
    FloatClass, fit_u64, float_scale_spec, float_scale_unsigned, mul_u64, positive_finite_spec,
    scaled_to_unsigned,
};

verus! {

/// A resistance, held as a whole number of milliohms (mΩ). It is never
/// negative.
///
/// `1000 mΩ = 1 Ω`, `1000 Ω = 1 kΩ`, `1000 kΩ = 1 MΩ`.
///
/// Every count is a valid value, so the count is a public field; all
/// operations return new values.
#[derive(Clone, Copy, Debug, PartialEq, Eq, Ord, Structural)]
pub struct Resistance {
    /// The resistance in whole milliohms.
    pub raw: u64,
}

impl View for Resistance {
    type V = int;

    /// The resistance in milliohms.
    open spec fn view(&self) -> int {
        self.raw as int
    }
}

impl Resistance {
    /// A checked canonical count as a resistance.
    pub open spec fn lift(r: Result<u64, QuantityError>) -> Result<Resistance, QuantityError> {
        match r {
            Ok(v) => Ok(Resistance { raw: v }),
            Err(e) => Err(e),
        }
    }

    fn wrap(r: Result<u64, QuantityError>) -> (c: Result<Resistance, QuantityError>)
        ensures
            c == Resistance::lift(r),
    {
        match r {
            Ok(v) => Ok(Resistance { raw: v }),
            Err(e) => Err(e),
        }
    }

    /// Creates a resistance from a number of whole milliohms.
    #[verifier::allow_in_spec]
    pub fn from_milli_ohms(value: u64) -> (r: Resistance)
        returns
            (Resistance { raw: value }),
    {
        Resistance { raw: value }
    }

    /// Creates a resistance from a number of whole ohms.
    #[verifier::allow_in_spec]
    pub fn from_ohms(value: u64) -> (r: Result<Resistance, QuantityError>)
        returns
            Resistance::lift(fit_u64(value * 1_000)),
    {
        Resistance::wrap(mul_u64(value, 1_000))
    }

    /// Creates a resistance from a number of whole kilohms.
    #[verifier::allow_in_spec]
    pub fn from_kilo_ohms(value: u64) -> (r: Result<Resistance, QuantityError>)
        returns
            Resistance::lift(fit_u64(value * 1_000_000)),
    {
        Resistance::wrap(mul_u64(value, 1_000_000))
    }

    /// Creates a resistance from a number of whole megaohms.
    #[verifier::allow_in_spec]
    pub fn from_mega_ohms(value: u64) -> (r: Result<Resistance, QuantityError>)
        returns
            Resistance::lift(fit_u64(value * 1_000_000_000)),
    {
        Resistance::wrap(mul_u64(value, 1_000_000_000))
    }

    /// Creates a resistance from a floating-point amount of some denomination.
    ///
    /// `class` is the class of the amount; `milli_ohms` is the amount scaled
    /// to milliohms and truncated toward zero, or `None` where it did not fit
    /// a `u64`. A NaN, infinite or negative amount is refused before the
    /// scaled value is looked at.
    #[verifier::allow_in_spec]
    pub fn from_float_parts(class: FloatClass, milli_ohms: Option<u64>) -> (r: Result<
        Resistance,
        QuantityError,
    >)
        returns
            Resistance::lift(
                match positive_finite_spec(class) {
                    Err(e) => Err(e),
                    Ok(_) => match milli_ohms {
                        Some(v) => Ok(v),
                        None => Err(QuantityError::Overflow),
                    },
                },
            ),
    {
        Resistance::wrap(scaled_to_unsigned(class, milli_ohms))
    }

    /// The resistance in whole milliohms.
    #[verifier::allow_in_spec]
    pub fn milli_ohms(&self) -> (r: u64)
        returns
            self.raw,
    {
        self.raw
    }

    /// Whether the resistance is zero.
    #[verifier::allow_in_spec]
    pub fn is_zero(&self) -> (r: bool)
        returns
            self.raw == 0,
    {
        self.raw == 0
    }

    /// A resistance of zero ohms.
    #[verifier::allow_in_spec]
    pub fn zero() -> (r: Resistance)
        returns
            (Resistance { raw: 0 }),
    {
        Resistance { raw: 0 }
    }

    /// Scales the resistance by a floating-point factor.
    ///
    /// `class` is the class of the factor; `product` is the resistance in
    /// milliohms times the factor, truncated toward zero, or `None` where it
    /// did not fit a `u64`. A zero factor gives zero without looking at
    /// `product`.
    #[verifier::allow_in_spec]
    pub fn mul_float(self, class: FloatClass, product: Option<u64>) -> (r: Result<
        Resistance,
        QuantityError,
    >)
        returns
            Resistance::lift(float_scale_spec(class, true, false, 0u64, product)),
    {
        Resistance::wrap(float_scale_unsigned(class, false, product))
    }

    /// Divides the resistance by a floating-point divisor.
    ///
    /// `class` is the class of the divisor; `quotient` is the resistance in
    /// milliohms over the divisor, truncated toward zero, or `None` where it
    /// did not fit a `u64`.
    #[verifier::allow_in_spec]
    pub fn div_float(self, class: FloatClass, quotient: Option<u64>) -> (r: Result<
        Resistance,
        QuantityError,
    >)
        returns
            Resistance::lift(float_scale_spec(class, true, true, 0u64, quotient)),
    {
        Resistance::wrap(float_scale_unsigned(class, true, quotient))
    }
}

impl PartialOrd for Resistance {
    fn partial_cmp(&self, other: &Resistance) -> (r: Option<Ordering>) {
        if self.raw < other.raw {
            Some(Ordering::Less)
        } else if self.raw == other.raw {
            Some(Ordering::Equal)
        } else {
            Some(Ordering::Greater)
        }
    }
}

impl vstd::std_specs::cmp::PartialOrdSpecImpl for Resistance {
    open spec fn obeys_partial_cmp_spec() -> bool {
        true
    }

    open spec fn partial_cmp_spec(&self, other: &Resistance) -> Option<Ordering> {
        if self@ < other@ {
            Some(Ordering::Less)
        } else if self@ == other@ {
            Some(Ordering::Equal)
        } else {
            Some(Ordering::Greater)
        }
    }
}

impl core::ops::Add for Resistance {
    type Output = Result<Resistance, QuantityError>;

    fn add(self, other: Resistance) -> (r: Result<Resistance, QuantityError>) {
        Resistance::wrap(
            match self.raw.checked_add(other.raw) {
                Some(v) => Ok(v),
                None => Err(QuantityError::Overflow),
            },
        )
    }
}

impl vstd::std_specs::ops::AddSpecImpl for Resistance {
    open spec fn obeys_add_spec() -> bool {
        true
    }

    open spec fn add_req(self, rhs: Resistance) -> bool {
        true
    }

    open spec fn add_spec(self, rhs: Resistance) -> Result<Resistance, QuantityError> {
        Resistance::lift(fit_u64(self@ + rhs@))
    }
}

impl core::ops::Sub for Resistance {
    type Output = Result<Resistance, QuantityError>;

    fn sub(self, other: Resistance) -> (r: Result<Resistance, QuantityError>) {
        Resistance::wrap(
            match self.raw.checked_sub(other.raw) {
                Some(v) => Ok(v),
                None => Err(QuantityError::Overflow),
            },
        )
    }
}

impl vstd::std_specs::ops::SubSpecImpl for Resistance {
    open spec fn obeys_sub_spec() -> bool {
        true
    }

    open spec fn sub_req(self, rhs: Resistance) -> bool {
        true
    }

    /// A result below zero is out of range like one above the maximum.
    open spec fn sub_spec(self, rhs: Resistance) -> Result<Resistance, QuantityError> {
        Resistance::lift(fit_u64(self@ - rhs@))
    }
}

impl core::ops::Mul<u64> for Resistance {
    type Output = Result<Resistance, QuantityError>;

    fn mul(self, factor: u64) -> (r: Result<Resistance, QuantityError>) {
        Resistance::wrap(mul_u64(self.raw, factor))
    }
}

impl vstd::std_specs::ops::MulSpecImpl<u64> for Resistance {
    open spec fn obeys_mul_spec() -> bool {
        true
    }

    open spec fn mul_req(self, rhs: u64) -> bool {
        true
    }

    open spec fn mul_spec(self, rhs: u64) -> Result<Resistance, QuantityError> {
        Resistance::lift(fit_u64(self@ * rhs))
    }
}

impl core::ops::Mul<i64> for Resistance {
    type Output = Result<Resistance, QuantityError>;

    fn mul(self, factor: i64) -> (r: Result<Resistance, QuantityError>) {
        if factor < 0 {
            Err(QuantityError::NegativeOperand)
        } else {
            Resistance::wrap(mul_u64(self.raw, factor as u64))
        }
    }
}

impl vstd::std_specs::ops::MulSpecImpl<i64> for Resistance {
    open spec fn obeys_mul_spec() -> bool {
        true
    }

    open spec fn mul_req(self, rhs: i64) -> bool {
        true
    }

    /// A negative factor is refused, even on a zero resistance.
    open spec fn mul_spec(self, rhs: i64) -> Result<Resistance, QuantityError> {
        if rhs < 0 {
            Err(QuantityError::NegativeOperand)
        } else {
            Resistance::lift(fit_u64(self@ * rhs))
        }
    }
}

impl core::ops::Div<u64> for Resistance {
    type Output = Result<Resistance, QuantityError>;

    fn div(self, divisor: u64) -> (r: Result<Resistance, QuantityError>) {
        if divisor == 0 {
            Err(QuantityError::DivideByZero)
        } else {
            Ok(Resistance { raw: self.raw / divisor })
        }
    }
}

impl vstd::std_specs::ops::DivSpecImpl<u64> for Resistance {
    open spec fn obeys_div_spec() -> bool {
        true
    }

    open spec fn div_req(self, rhs: u64) -> bool {
        true
    }

    /// The quotient is rounded down to a whole milliohm.
    open spec fn div_spec(self, rhs: u64) -> Result<Resistance, QuantityError> {
        if rhs == 0 {
            Err(QuantityError::DivideByZero)
        } else {
            Ok(Resistance { raw: (self@ / rhs as int) as u64 })
        }
    }
}

impl core::ops::Div<i64> for Resistance {
    type Output = Result<Resistance, QuantityError>;

    fn div(self, divisor: i64) -> (r: Result<Resistance, QuantityError>) {
        if divisor == 0 {
            Err(QuantityError::DivideByZero)
        } else if divisor < 0 {
            Err(QuantityError::NegativeOperand)
        } else {
            Ok(Resistance { raw: self.raw / (divisor as u64) })
        }
    }
}

impl vstd::std_specs::ops::DivSpecImpl<i64> for Resistance {
    open spec fn obeys_div_spec() -> bool {
        true
    }

    open spec fn div_req(self, rhs: i64) -> bool {
        true
    }

    /// A zero divisor is refused before a negative one; the quotient is
    /// rounded down to a whole milliohm.
    open spec fn div_spec(self, rhs: i64) -> Result<Resistance, QuantityError> {
        if rhs == 0 {
            Err(QuantityError::DivideByZero)
        } else if rhs < 0 {
            Err(QuantityError::NegativeOperand)
        } else {
            Ok(Resistance { raw: (self@ / rhs as int) as u64 })
        }
    }
}

impl core::ops::Mul<u8> for Resistance {
    type Output = Result<Resistance, QuantityError>;

    fn mul(self, factor: u8) -> (r: Result<Resistance, QuantityError>) {
        self * (factor as u64)
    }
}

impl vstd::std_specs::ops::MulSpecImpl<u8> for Resistance {
    open spec fn obeys_mul_spec() -> bool {
        true
    }

    open spec fn mul_req(self, rhs: u8) -> bool {
        true
    }

    open spec fn mul_spec(self, rhs: u8) -> Result<Resistance, QuantityError> {
        Resistance::lift(fit_u64(self@ * rhs))
    }
}

impl core::ops::Mul<u16> for Resistance {
    type Output = Result<Resistance, QuantityError>;

    fn mul(self, factor: u16) -> (r: Result<Resistance, QuantityError>) {
        self * (factor as u64)
    }
}

impl vstd::std_specs::ops::MulSpecImpl<u16> for Resistance {
    open spec fn obeys_mul_spec() -> bool {
        true
    }

    open spec fn mul_req(self, rhs: u16) -> bool {
        true
    }

    open spec fn mul_spec(self, rhs: u16) -> Result<Resistance, QuantityError> {
        Resistance::lift(fit_u64(self@ * rhs))
    }
}

impl core::ops::Mul<u32> for Resistance {
    type Output = Result<Resistance, QuantityError>;

    fn mul(self, factor: u32) -> (r: Result<Resistance, QuantityError>) {
        self * (factor as u64)
    }
}

impl vstd::std_specs::ops::MulSpecImpl<u32> for Resistance {
    open spec fn obeys_mul_spec() -> bool {
        true
    }

    open spec fn mul_req(self, rhs: u32) -> bool {
        true
    }

    open spec fn mul_spec(self, rhs: u32) -> Result<Resistance, QuantityError> {
        Resistance::lift(fit_u64(self@ * rhs))
    }
}

impl core::ops::Div<u8> for Resistance {
    type Output = Result<Resistance, QuantityError>;

    fn div(self, divisor: u8) -> (r: Result<Resistance, QuantityError>) {
        self / (divisor as u64)
    }
}

impl vstd::std_specs::ops::DivSpecImpl<u8> for Resistance {
    open spec fn obeys_div_spec() -> bool {
        true
    }

    open spec fn div_req(self, rhs: u8) -> bool {
        true
    }

    /// The quotient is rounded down to a whole milliohm.
    open spec fn div_spec(self, rhs: u8) -> Result<Resistance, QuantityError> {
        if rhs == 0 {
            Err(QuantityError::DivideByZero)
        } else {
            Ok(Resistance { raw: (self@ / rhs as int) as u64 })
        }
    }
}

impl core::ops::Div<u16> for Resistance {
    type Output = Result<Resistance, QuantityError>;

    fn div(self, divisor: u16) -> (r: Result<Resistance, QuantityError>) {
        self / (divisor as u64)
    }
}

impl vstd::std_specs::ops::DivSpecImpl<u16> for Resistance {
    open spec fn obeys_div_spec() -> bool {
        true
    }

    open spec fn div_req(self, rhs: u16) -> bool {
        true
    }

    /// The quotient is rounded down to a whole milliohm.
    open spec fn div_spec(self, rhs: u16) -> Result<Resistance, QuantityError> {
        if rhs == 0 {
            Err(QuantityError::DivideByZero)
        } else {
            Ok(Resistance { raw: (self@ / rhs as int) as u64 })
        }
    }
}

impl core::ops::Div<u32> for Resistance {
    type Output = Result<Resistance, QuantityError>;

    fn div(self, divisor: u32) -> (r: Result<Resistance, QuantityError>) {
        self / (divisor as u64)
    }
}

impl vstd::std_specs::ops::DivSpecImpl<u32> for Resistance {
    open spec fn obeys_div_spec() -> bool {
        true
    }

    open spec fn div_req(self, rhs: u32) -> bool {
        true
    }

    /// The quotient is rounded down to a whole milliohm.
    open spec fn div_spec(self, rhs: u32) -> Result<Resistance, QuantityError> {
        if rhs == 0 {
            Err(QuantityError::DivideByZero)
        } else {
            Ok(Resistance { raw: (self@ / rhs as int) as u64 })
        }
    }
}

impl core::ops::Mul<i8> for Resistance {
    type Output = Result<Resistance, QuantityError>;

    fn mul(self, factor: i8) -> (r: Result<Resistance, QuantityError>) {
        self * (factor as i64)
    }
}

impl vstd::std_specs::ops::MulSpecImpl<i8> for Resistance {
    open spec fn obeys_mul_spec() -> bool {
        true
    }

    open spec fn mul_req(self, rhs: i8) -> bool {
        true
    }

    /// A negative factor is refused, even on a zero resistance.
    open spec fn mul_spec(self, rhs: i8) -> Result<Resistance, QuantityError> {
        if rhs < 0 {
            Err(QuantityError::NegativeOperand)
        } else {
            Resistance::lift(fit_u64(self@ * rhs))
        }
    }
}

impl core::ops::Mul<i16> for Resistance {
    type Output = Result<Resistance, QuantityError>;

    fn mul(self, factor: i16) -> (r: Result<Resistance, QuantityError>) {
        self * (factor as i64)
    }
}

impl vstd::std_specs::ops::MulSpecImpl<i16> for Resistance {
    open spec fn obeys_mul_spec() -> bool {
        true
    }

    open spec fn mul_req(self, rhs: i16) -> bool {
        true
    }

    /// A negative factor is refused, even on a zero resistance.
    open spec fn mul_spec(self, rhs: i16) -> Result<Resistance, QuantityError> {
        if rhs < 0 {
            Err(QuantityError::NegativeOperand)
        } else {
            Resistance::lift(fit_u64(self@ * rhs))
        }
    }
}

impl core::ops::Mul<i32> for Resistance {
    type Output = Result<Resistance, QuantityError>;

    fn mul(self, factor: i32) -> (r: Result<Resistance, QuantityError>) {
        self * (factor as i64)
    }
}

impl vstd::std_specs::ops::MulSpecImpl<i32> for Resistance {
    open spec fn obeys_mul_spec() -> bool {
        true
    }

    open spec fn mul_req(self, rhs: i32) -> bool {
        true
    }

    /// A negative factor is refused, even on a zero resistance.
    open spec fn mul_spec(self, rhs: i32) -> Result<Resistance, QuantityError> {
        if rhs < 0 {
            Err(QuantityError::NegativeOperand)
        } else {
            Resistance::lift(fit_u64(self@ * rhs))
        }
    }
}

impl core::ops::Div<i8> for Resistance {
    type Output = Result<Resistance, QuantityError>;

    fn div(self, divisor: i8) -> (r: Result<Resistance, QuantityError>) {
        self / (divisor as i64)
    }
}

impl vstd::std_specs::ops::DivSpecImpl<i8> for Resistance {
    open spec fn obeys_div_spec() -> bool {
        true
    }

    open spec fn div_req(self, rhs: i8) -> bool {
        true
    }

    /// A zero divisor is refused before a negative one; the quotient is
    /// rounded down to a whole milliohm.
    open spec fn div_spec(self, rhs: i8) -> Result<Resistance, QuantityError> {
        if rhs == 0 {
            Err(QuantityError::DivideByZero)
        } else if rhs < 0 {
            Err(QuantityError::NegativeOperand)
        } else {
            Ok(Resistance { raw: (self@ / rhs as int) as u64 })
        }
    }
}

impl core::ops::Div<i16> for Resistance {
    type Output = Result<Resistance, QuantityError>;

    fn div(self, divisor: i16) -> (r: Result<Resistance, QuantityError>) {
        self / (divisor as i64)
    }
}

impl vstd::std_specs::ops::DivSpecImpl<i16> for Resistance {
    open spec fn obeys_div_spec() -> bool {
        true
    }

    open spec fn div_req(self, rhs: i16) -> bool {
        true
    }

    /// A zero divisor is refused before a negative one; the quotient is
    /// rounded down to a whole milliohm.
    open spec fn div_spec(self, rhs: i16) -> Result<Resistance, QuantityError> {
        if rhs == 0 {
            Err(QuantityError::DivideByZero)
        } else if rhs < 0 {
            Err(QuantityError::NegativeOperand)
        } else {
            Ok(Resistance { raw: (self@ / rhs as int) as u64 })
        }
    }
}

impl core::ops::Div<i32> for Resistance {
    type Output = Result<Resistance, QuantityError>;

    fn div(self, divisor: i32) -> (r: Result<Resistance, QuantityError>) {
        self / (divisor as i64)
    }
}

impl vstd::std_specs::ops::DivSpecImpl<i32> for Resistance {
    open spec fn obeys_div_spec() -> bool {
        true
    }

    open spec fn div_req(self, rhs: i32) -> bool {
        true
    }

    /// A zero divisor is refused before a negative one; the quotient is
    /// rounded down to a whole milliohm.
    open spec fn div_spec(self, rhs: i32) -> Result<Resistance, QuantityError> {
        if rhs == 0 {
            Err(QuantityError::DivideByZero)
        } else if rhs < 0 {
            Err(QuantityError::NegativeOperand)
        } else {
            Ok(Resistance { raw: (self@ / rhs as int) as u64 })
        }
    }
}

/// Short-hands that make a resistance from an integer amount of a denomination.
pub trait FromInteger {
    /// A resistance of this many whole milliohms.
    fn milli_ohms(self) -> Resistance;

    /// A resistance of this many whole ohms.
    fn ohms(self) -> Result<Resistance, QuantityError>;

    /// A resistance of this many whole kilohms.
    fn kilo_ohms(self) -> Result<Resistance, QuantityError>;

    /// A resistance of this many whole megaohms.
    fn mega_ohms(self) -> Result<Resistance, QuantityError>;
}

impl FromInteger for u64 {
    fn milli_ohms(self) -> (r: Resistance)
        ensures
            r == Resistance::from_milli_ohms(self),
    {
        Resistance::from_milli_ohms(self)
    }

    fn ohms(self) -> (r: Result<Resistance, QuantityError>)
        ensures
            r == Resistance::from_ohms(self),
    {
        Resistance::from_ohms(self)
    }

    fn kilo_ohms(self) -> (r: Result<Resistance, QuantityError>)
        ensures
            r == Resistance::from_kilo_ohms(self),
    {
        Resistance::from_kilo_ohms(self)
    }

    fn mega_ohms(self) -> (r: Result<Resistance, QuantityError>)
        ensures
            r == Resistance::from_mega_ohms(self),
    {
        Resistance::from_mega_ohms(self)
    }
}

impl FromInteger for u8 {
    fn milli_ohms(self) -> (r: Resistance)
        ensures
            r == Resistance::from_milli_ohms(self as u64),
    {
        Resistance::from_milli_ohms(self as u64)
    }

    fn ohms(self) -> (r: Result<Resistance, QuantityError>)
        ensures
            r == Resistance::from_ohms(self as u64),
    {
        Resistance::from_ohms(self as u64)
    }

    fn kilo_ohms(self) -> (r: Result<Resistance, QuantityError>)
        ensures
            r == Resistance::from_kilo_ohms(self as u64),
    {
        Resistance::from_kilo_ohms(self as u64)
    }

    fn mega_ohms(self) -> (r: Result<Resistance, QuantityError>)
        ensures
            r == Resistance::from_mega_ohms(self as u64),
    {
        Resistance::from_mega_ohms(self as u64)
    }
}

impl FromInteger for u16 {
    fn milli_ohms(self) -> (r: Resistance)
        ensures
            r == Resistance::from_milli_ohms(self as u64),
    {
        Resistance::from_milli_ohms(self as u64)
    }

    fn ohms(self) -> (r: Result<Resistance, QuantityError>)
        ensures
            r == Resistance::from_ohms(self as u64),
    {
        Resistance::from_ohms(self as u64)
    }

    fn kilo_ohms(self) -> (r: Result<Resistance, QuantityError>)
        ensures
            r == Resistance::from_kilo_ohms(self as u64),
    {
        Resistance::from_kilo_ohms(self as u64)
    }

    fn mega_ohms(self) -> (r: Result<Resistance, QuantityError>)
        ensures
            r == Resistance::from_mega_ohms(self as u64),
    {
        Resistance::from_mega_ohms(self as u64)
    }
}

impl FromInteger for u32 {
    fn milli_ohms(self) -> (r: Resistance)
        ensures
            r == Resistance::from_milli_ohms(self as u64),
    {
        Resistance::from_milli_ohms(self as u64)
    }

    fn ohms(self) -> (r: Result<Resistance, QuantityError>)
        ensures
            r == Resistance::from_ohms(self as u64),
    {
        Resistance::from_ohms(self as u64)
    }

    fn kilo_ohms(self) -> (r: Result<Resistance, QuantityError>)
        ensures
            r == Resistance::from_kilo_ohms(self as u64),
    {
        Resistance::from_kilo_ohms(self as u64)
    }

    fn mega_ohms(self) -> (r: Result<Resistance, QuantityError>)
        ensures
            r == Resistance::from_mega_ohms(self as u64),
    {
        Resistance::from_mega_ohms(self as u64)
    }
}

} // verus!
