use vstd::prelude::*;

use core::cmp::Ordering;

use crate::error::QuantityError;
use crate::guard::{
    FloatClass, abs, finite_spec, fit_i64, float_scale_signed, float_scale_spec, mul_i64,
    scaled_to_signed, trunc_div,
};

verus! {

/// A voltage, held as a whole number of microvolts (μV). It may be negative.
///
/// `1000 μV = 1 mV`, `1000 mV = 1 V`, `1000 V = 1 kV`.
///
/// Every count is a valid value, so the count is a public field; all
/// operations return new values.
#[derive(Clone, Copy, Debug, PartialEq, Eq, Ord, Structural)]
pub struct Voltage {
    /// The voltage in whole microvolts.
    pub raw: i64,
}

impl View for Voltage {
    type V = int;

    /// The voltage in microvolts.
    open spec fn view(&self) -> int {
        self.raw as int
    }
}

impl Voltage {
    /// A checked canonical count as a voltage.
    pub open spec fn lift(r: Result<i64, QuantityError>) -> Result<Voltage, QuantityError> {
        match r {
            Ok(v) => Ok(Voltage { raw: v }),
            Err(e) => Err(e),
        }
    }

    fn wrap(r: Result<i64, QuantityError>) -> (c: Result<Voltage, QuantityError>)
        ensures
            c == Voltage::lift(r),
    {
        match r {
            Ok(v) => Ok(Voltage { raw: v }),
            Err(e) => Err(e),
        }
    }

    /// Creates a voltage from a number of whole microvolts.
    #[verifier::allow_in_spec]
    pub fn from_micro_volts(value: i64) -> (r: Voltage)
        returns
            (Voltage { raw: value }),
    {
        Voltage { raw: value }
    }

    /// Creates a voltage from a number of whole millivolts.
    #[verifier::allow_in_spec]
    pub fn from_milli_volts(value: i64) -> (r: Result<Voltage, QuantityError>)
        returns
            Voltage::lift(fit_i64(value * 1_000)),
    {
        Voltage::wrap(mul_i64(value, 1_000))
    }

    /// Creates a voltage from a number of whole volts.
    #[verifier::allow_in_spec]
    pub fn from_volts(value: i64) -> (r: Result<Voltage, QuantityError>)
        returns
            Voltage::lift(fit_i64(value * 1_000_000)),
    {
        Voltage::wrap(mul_i64(value, 1_000_000))
    }

    /// Creates a voltage from a number of whole kilovolts.
    #[verifier::allow_in_spec]
    pub fn from_kilo_volts(value: i64) -> (r: Result<Voltage, QuantityError>)
        returns
            Voltage::lift(fit_i64(value * 1_000_000_000)),
    {
        Voltage::wrap(mul_i64(value, 1_000_000_000))
    }

    /// Creates a voltage from a floating-point amount of some denomination.
    ///
    /// `class` is the class of the amount; `micro_volts` is the amount scaled
    /// to microvolts and truncated toward zero, or `None` where it did not
    /// fit an `i64`. A NaN or infinite amount is refused; a negative one is
    /// kept with its sign.
    #[verifier::allow_in_spec]
    pub fn from_float_parts(class: FloatClass, micro_volts: Option<i64>) -> (r: Result<
        Voltage,
        QuantityError,
    >)
        returns
            Voltage::lift(
                match finite_spec(class) {
                    Err(e) => Err(e),
                    Ok(_) => match micro_volts {
                        Some(v) => Ok(v),
                        None => Err(QuantityError::Overflow),
                    },
                },
            ),
    {
        Voltage::wrap(scaled_to_signed(class, micro_volts))
    }

    /// The voltage in whole microvolts.
    #[verifier::allow_in_spec]
    pub fn micro_volts(&self) -> (r: i64)
        returns
            self.raw,
    {
        self.raw
    }

    /// Whether the voltage is zero.
    #[verifier::allow_in_spec]
    pub fn is_zero(&self) -> (r: bool)
        returns
            self.raw == 0,
    {
        self.raw == 0
    }

    /// Whether the voltage is zero or above.
    #[verifier::allow_in_spec]
    pub fn is_positive(&self) -> (r: bool)
        returns
            self.raw >= 0,
    {
        self.raw >= 0
    }

    /// Whether the voltage is below zero.
    #[verifier::allow_in_spec]
    pub fn is_negative(&self) -> (r: bool)
        returns
            self.raw < 0,
    {
        self.raw < 0
    }

    /// The magnitude of the voltage. The most negative `i64` count has no
    /// positive counterpart and gives an overflow.
    pub fn abs(&self) -> (r: Result<Voltage, QuantityError>)
        ensures
            r == Voltage::lift(fit_i64(abs(self@))),
    {
        if self.raw >= 0 {
            Ok(*self)
        } else if self.raw == i64::MIN {
            Err(QuantityError::Overflow)
        } else {
            Ok(Voltage { raw: -self.raw })
        }
    }

    /// The voltage with its sign flipped. The most negative `i64` count has
    /// no positive counterpart and gives an overflow.
    pub fn invert(&self) -> (r: Result<Voltage, QuantityError>)
        ensures
            r == Voltage::lift(fit_i64(-self@)),
    {
        if self.raw == i64::MIN {
            Err(QuantityError::Overflow)
        } else {
            Ok(Voltage { raw: -self.raw })
        }
    }

    /// A voltage of zero volts.
    #[verifier::allow_in_spec]
    pub fn zero() -> (r: Voltage)
        returns
            (Voltage { raw: 0 }),
    {
        Voltage { raw: 0 }
    }

    /// Scales the voltage by a floating-point factor.
    ///
    /// `class` is the class of the factor; `product` is the voltage in
    /// microvolts times the factor, truncated toward zero, or `None` where it
    /// did not fit an `i64`. A zero factor gives zero without looking at
    /// `product`; a negative factor flips the sign.
    #[verifier::allow_in_spec]
    pub fn mul_float(self, class: FloatClass, product: Option<i64>) -> (r: Result<
        Voltage,
        QuantityError,
    >)
        returns
            Voltage::lift(float_scale_spec(class, false, false, 0i64, product)),
    {
        Voltage::wrap(float_scale_signed(class, false, product))
    }

    /// Divides the voltage by a floating-point divisor.
    ///
    /// `class` is the class of the divisor; `quotient` is the voltage in
    /// microvolts over the divisor, truncated toward zero, or `None` where it
    /// did not fit an `i64`.
    #[verifier::allow_in_spec]
    pub fn div_float(self, class: FloatClass, quotient: Option<i64>) -> (r: Result<
        Voltage,
        QuantityError,
    >)
        returns
            Voltage::lift(float_scale_spec(class, false, true, 0i64, quotient)),
    {
        Voltage::wrap(float_scale_signed(class, true, quotient))
    }
}

impl PartialOrd for Voltage {
    fn partial_cmp(&self, other: &Voltage) -> (r: Option<Ordering>) {
        if self.raw < other.raw {
            Some(Ordering::Less)
        } else if self.raw == other.raw {
            Some(Ordering::Equal)
        } else {
            Some(Ordering::Greater)
        }
    }
}

impl vstd::std_specs::cmp::PartialOrdSpecImpl for Voltage {
    open spec fn obeys_partial_cmp_spec() -> bool {
        true
    }

    open spec fn partial_cmp_spec(&self, other: &Voltage) -> Option<Ordering> {
        if self@ < other@ {
            Some(Ordering::Less)
        } else if self@ == other@ {
            Some(Ordering::Equal)
        } else {
            Some(Ordering::Greater)
        }
    }
}

impl core::ops::Add for Voltage {
    type Output = Result<Voltage, QuantityError>;

    fn add(self, other: Voltage) -> (r: Result<Voltage, QuantityError>) {
        Voltage::wrap(
            match self.raw.checked_add(other.raw) {
                Some(v) => Ok(v),
                None => Err(QuantityError::Overflow),
            },
        )
    }
}

impl vstd::std_specs::ops::AddSpecImpl for Voltage {
    open spec fn obeys_add_spec() -> bool {
        true
    }

    open spec fn add_req(self, rhs: Voltage) -> bool {
        true
    }

    open spec fn add_spec(self, rhs: Voltage) -> Result<Voltage, QuantityError> {
        Voltage::lift(fit_i64(self@ + rhs@))
    }
}

impl core::ops::Sub for Voltage {
    type Output = Result<Voltage, QuantityError>;

    fn sub(self, other: Voltage) -> (r: Result<Voltage, QuantityError>) {
        Voltage::wrap(
            match self.raw.checked_sub(other.raw) {
                Some(v) => Ok(v),
                None => Err(QuantityError::Overflow),
            },
        )
    }
}

impl vstd::std_specs::ops::SubSpecImpl for Voltage {
    open spec fn obeys_sub_spec() -> bool {
        true
    }

    open spec fn sub_req(self, rhs: Voltage) -> bool {
        true
    }

    open spec fn sub_spec(self, rhs: Voltage) -> Result<Voltage, QuantityError> {
        Voltage::lift(fit_i64(self@ - rhs@))
    }
}

impl core::ops::Mul<i64> for Voltage {
    type Output = Result<Voltage, QuantityError>;

    fn mul(self, factor: i64) -> (r: Result<Voltage, QuantityError>) {
        Voltage::wrap(mul_i64(self.raw, factor))
    }
}

impl vstd::std_specs::ops::MulSpecImpl<i64> for Voltage {
    open spec fn obeys_mul_spec() -> bool {
        true
    }

    open spec fn mul_req(self, rhs: i64) -> bool {
        true
    }

    open spec fn mul_spec(self, rhs: i64) -> Result<Voltage, QuantityError> {
        Voltage::lift(fit_i64(self@ * rhs))
    }
}

impl core::ops::Mul<u64> for Voltage {
    type Output = Result<Voltage, QuantityError>;

    fn mul(self, factor: u64) -> (r: Result<Voltage, QuantityError>) {
        let wide: i128 = self.raw as i128;
        let f: i128 = factor as i128;
        proof {
            assert(i128::MIN <= wide * f <= i128::MAX) by (nonlinear_arith)
                requires
                    i64::MIN <= wide <= i64::MAX,
                    0 <= f <= u64::MAX,
            ;
        }
        let p: i128 = wide * f;
        if p < i64::MIN as i128 || p > i64::MAX as i128 {
            Err(QuantityError::Overflow)
        } else {
            Ok(Voltage { raw: p as i64 })
        }
    }
}

impl vstd::std_specs::ops::MulSpecImpl<u64> for Voltage {
    open spec fn obeys_mul_spec() -> bool {
        true
    }

    open spec fn mul_req(self, rhs: u64) -> bool {
        true
    }

    open spec fn mul_spec(self, rhs: u64) -> Result<Voltage, QuantityError> {
        Voltage::lift(fit_i64(self@ * rhs))
    }
}

impl core::ops::Div<i64> for Voltage {
    type Output = Result<Voltage, QuantityError>;

    fn div(self, divisor: i64) -> (r: Result<Voltage, QuantityError>) {
        if divisor == 0 {
            Err(QuantityError::DivideByZero)
        } else {
            Voltage::wrap(
                match self.raw.checked_div(divisor) {
                    Some(v) => Ok(v),
                    None => Err(QuantityError::Overflow),
                },
            )
        }
    }
}

impl vstd::std_specs::ops::DivSpecImpl<i64> for Voltage {
    open spec fn obeys_div_spec() -> bool {
        true
    }

    open spec fn div_req(self, rhs: i64) -> bool {
        true
    }

    /// The quotient is rounded toward zero; the most negative count over
    /// minus one is out of range.
    open spec fn div_spec(self, rhs: i64) -> Result<Voltage, QuantityError> {
        if rhs == 0 {
            Err(QuantityError::DivideByZero)
        } else {
            Voltage::lift(fit_i64(trunc_div(self@, rhs as int)))
        }
    }
}

impl core::ops::Div<u64> for Voltage {
    type Output = Result<Voltage, QuantityError>;

    fn div(self, divisor: u64) -> (r: Result<Voltage, QuantityError>) {
        if divisor == 0 {
            Err(QuantityError::DivideByZero)
        } else {
            Voltage::wrap(
                match (self.raw as i128).checked_div(divisor as i128) {
                    Some(v) => fit_narrow(v),
                    None => Err(QuantityError::Overflow),
                },
            )
        }
    }
}

impl vstd::std_specs::ops::DivSpecImpl<u64> for Voltage {
    open spec fn obeys_div_spec() -> bool {
        true
    }

    open spec fn div_req(self, rhs: u64) -> bool {
        true
    }

    /// The quotient is rounded toward zero.
    open spec fn div_spec(self, rhs: u64) -> Result<Voltage, QuantityError> {
        if rhs == 0 {
            Err(QuantityError::DivideByZero)
        } else {
            Voltage::lift(fit_i64(trunc_div(self@, rhs as int)))
        }
    }
}

fn fit_narrow(v: i128) -> (r: Result<i64, QuantityError>)
    ensures
        r == fit_i64(v as int),
{
    if v < i64::MIN as i128 || v > i64::MAX as i128 {
        Err(QuantityError::Overflow)
    } else {
        Ok(v as i64)
    }
}

impl core::ops::Mul<u8> for Voltage {
    type Output = Result<Voltage, QuantityError>;

    fn mul(self, factor: u8) -> (r: Result<Voltage, QuantityError>) {
        self * (factor as u64)
    }
}

impl vstd::std_specs::ops::MulSpecImpl<u8> for Voltage {
    open spec fn obeys_mul_spec() -> bool {
        true
    }

    open spec fn mul_req(self, rhs: u8) -> bool {
        true
    }

    open spec fn mul_spec(self, rhs: u8) -> Result<Voltage, QuantityError> {
        Voltage::lift(fit_i64(self@ * rhs))
    }
}

impl core::ops::Mul<u16> for Voltage {
    type Output = Result<Voltage, QuantityError>;

    fn mul(self, factor: u16) -> (r: Result<Voltage, QuantityError>) {
        self * (factor as u64)
    }
}

impl vstd::std_specs::ops::MulSpecImpl<u16> for Voltage {
    open spec fn obeys_mul_spec() -> bool {
        true
    }

    open spec fn mul_req(self, rhs: u16) -> bool {
        true
    }

    open spec fn mul_spec(self, rhs: u16) -> Result<Voltage, QuantityError> {
        Voltage::lift(fit_i64(self@ * rhs))
    }
}

impl core::ops::Mul<u32> for Voltage {
    type Output = Result<Voltage, QuantityError>;

    fn mul(self, factor: u32) -> (r: Result<Voltage, QuantityError>) {
        self * (factor as u64)
    }
}

impl vstd::std_specs::ops::MulSpecImpl<u32> for Voltage {
    open spec fn obeys_mul_spec() -> bool {
        true
    }

    open spec fn mul_req(self, rhs: u32) -> bool {
        true
    }

    open spec fn mul_spec(self, rhs: u32) -> Result<Voltage, QuantityError> {
        Voltage::lift(fit_i64(self@ * rhs))
    }
}

impl core::ops::Div<u8> for Voltage {
    type Output = Result<Voltage, QuantityError>;

    fn div(self, divisor: u8) -> (r: Result<Voltage, QuantityError>) {
        self / (divisor as u64)
    }
}

impl vstd::std_specs::ops::DivSpecImpl<u8> for Voltage {
    open spec fn obeys_div_spec() -> bool {
        true
    }

    open spec fn div_req(self, rhs: u8) -> bool {
        true
    }

    /// The quotient is rounded toward zero.
    open spec fn div_spec(self, rhs: u8) -> Result<Voltage, QuantityError> {
        if rhs == 0 {
            Err(QuantityError::DivideByZero)
        } else {
            Voltage::lift(fit_i64(trunc_div(self@, rhs as int)))
        }
    }
}

impl core::ops::Div<u16> for Voltage {
    type Output = Result<Voltage, QuantityError>;

    fn div(self, divisor: u16) -> (r: Result<Voltage, QuantityError>) {
        self / (divisor as u64)
    }
}

impl vstd::std_specs::ops::DivSpecImpl<u16> for Voltage {
    open spec fn obeys_div_spec() -> bool {
        true
    }

    open spec fn div_req(self, rhs: u16) -> bool {
        true
    }

    /// The quotient is rounded toward zero.
    open spec fn div_spec(self, rhs: u16) -> Result<Voltage, QuantityError> {
        if rhs == 0 {
            Err(QuantityError::DivideByZero)
        } else {
            Voltage::lift(fit_i64(trunc_div(self@, rhs as int)))
        }
    }
}

impl core::ops::Div<u32> for Voltage {
    type Output = Result<Voltage, QuantityError>;

    fn div(self, divisor: u32) -> (r: Result<Voltage, QuantityError>) {
        self / (divisor as u64)
    }
}

impl vstd::std_specs::ops::DivSpecImpl<u32> for Voltage {
    open spec fn obeys_div_spec() -> bool {
        true
    }

    open spec fn div_req(self, rhs: u32) -> bool {
        true
    }

    /// The quotient is rounded toward zero.
    open spec fn div_spec(self, rhs: u32) -> Result<Voltage, QuantityError> {
        if rhs == 0 {
            Err(QuantityError::DivideByZero)
        } else {
            Voltage::lift(fit_i64(trunc_div(self@, rhs as int)))
        }
    }
}

impl core::ops::Mul<i8> for Voltage {
    type Output = Result<Voltage, QuantityError>;

    fn mul(self, factor: i8) -> (r: Result<Voltage, QuantityError>) {
        self * (factor as i64)
    }
}

impl vstd::std_specs::ops::MulSpecImpl<i8> for Voltage {
    open spec fn obeys_mul_spec() -> bool {
        true
    }

    open spec fn mul_req(self, rhs: i8) -> bool {
        true
    }

    open spec fn mul_spec(self, rhs: i8) -> Result<Voltage, QuantityError> {
        Voltage::lift(fit_i64(self@ * rhs))
    }
}

impl core::ops::Mul<i16> for Voltage {
    type Output = Result<Voltage, QuantityError>;

    fn mul(self, factor: i16) -> (r: Result<Voltage, QuantityError>) {
        self * (factor as i64)
    }
}

impl vstd::std_specs::ops::MulSpecImpl<i16> for Voltage {
    open spec fn obeys_mul_spec() -> bool {
        true
    }

    open spec fn mul_req(self, rhs: i16) -> bool {
        true
    }

    open spec fn mul_spec(self, rhs: i16) -> Result<Voltage, QuantityError> {
        Voltage::lift(fit_i64(self@ * rhs))
    }
}

impl core::ops::Mul<i32> for Voltage {
    type Output = Result<Voltage, QuantityError>;

    fn mul(self, factor: i32) -> (r: Result<Voltage, QuantityError>) {
        self * (factor as i64)
    }
}

impl vstd::std_specs::ops::MulSpecImpl<i32> for Voltage {
    open spec fn obeys_mul_spec() -> bool {
        true
    }

    open spec fn mul_req(self, rhs: i32) -> bool {
        true
    }

    open spec fn mul_spec(self, rhs: i32) -> Result<Voltage, QuantityError> {
        Voltage::lift(fit_i64(self@ * rhs))
    }
}

impl core::ops::Div<i8> for Voltage {
    type Output = Result<Voltage, QuantityError>;

    fn div(self, divisor: i8) -> (r: Result<Voltage, QuantityError>) {
        self / (divisor as i64)
    }
}

impl vstd::std_specs::ops::DivSpecImpl<i8> for Voltage {
    open spec fn obeys_div_spec() -> bool {
        true
    }

    open spec fn div_req(self, rhs: i8) -> bool {
        true
    }

    /// The quotient is rounded toward zero; the most negative count over
    /// minus one is out of range.
    open spec fn div_spec(self, rhs: i8) -> Result<Voltage, QuantityError> {
        if rhs == 0 {
            Err(QuantityError::DivideByZero)
        } else {
            Voltage::lift(fit_i64(trunc_div(self@, rhs as int)))
        }
    }
}

impl core::ops::Div<i16> for Voltage {
    type Output = Result<Voltage, QuantityError>;

    fn div(self, divisor: i16) -> (r: Result<Voltage, QuantityError>) {
        self / (divisor as i64)
    }
}

impl vstd::std_specs::ops::DivSpecImpl<i16> for Voltage {
    open spec fn obeys_div_spec() -> bool {
        true
    }

    open spec fn div_req(self, rhs: i16) -> bool {
        true
    }

    /// The quotient is rounded toward zero; the most negative count over
    /// minus one is out of range.
    open spec fn div_spec(self, rhs: i16) -> Result<Voltage, QuantityError> {
        if rhs == 0 {
            Err(QuantityError::DivideByZero)
        } else {
            Voltage::lift(fit_i64(trunc_div(self@, rhs as int)))
        }
    }
}

impl core::ops::Div<i32> for Voltage {
    type Output = Result<Voltage, QuantityError>;

    fn div(self, divisor: i32) -> (r: Result<Voltage, QuantityError>) {
        self / (divisor as i64)
    }
}

impl vstd::std_specs::ops::DivSpecImpl<i32> for Voltage {
    open spec fn obeys_div_spec() -> bool {
        true
    }

    open spec fn div_req(self, rhs: i32) -> bool {
        true
    }

    /// The quotient is rounded toward zero; the most negative count over
    /// minus one is out of range.
    open spec fn div_spec(self, rhs: i32) -> Result<Voltage, QuantityError> {
        if rhs == 0 {
            Err(QuantityError::DivideByZero)
        } else {
            Voltage::lift(fit_i64(trunc_div(self@, rhs as int)))
        }
    }
}

/// Short-hands that make a voltage from an integer amount of a denomination.
pub trait FromInteger {
    /// A voltage of this many whole microvolts.
    fn micro_volts(self) -> Voltage;

    /// A voltage of this many whole millivolts.
    fn milli_volts(self) -> Result<Voltage, QuantityError>;

    /// A voltage of this many whole volts.
    fn volts(self) -> Result<Voltage, QuantityError>;

    /// A voltage of this many whole kilovolts.
    fn kilo_volts(self) -> Result<Voltage, QuantityError>;
}

impl FromInteger for i64 {
    fn micro_volts(self) -> (r: Voltage)
        ensures
            r == Voltage::from_micro_volts(self),
    {
        Voltage::from_micro_volts(self)
    }

    fn milli_volts(self) -> (r: Result<Voltage, QuantityError>)
        ensures
            r == Voltage::from_milli_volts(self),
    {
        Voltage::from_milli_volts(self)
    }

    fn volts(self) -> (r: Result<Voltage, QuantityError>)
        ensures
            r == Voltage::from_volts(self),
    {
        Voltage::from_volts(self)
    }

    fn kilo_volts(self) -> (r: Result<Voltage, QuantityError>)
        ensures
            r == Voltage::from_kilo_volts(self),
    {
        Voltage::from_kilo_volts(self)
    }
}

impl FromInteger for i8 {
    fn micro_volts(self) -> (r: Voltage)
        ensures
            r == Voltage::from_micro_volts(self as i64),
    {
        Voltage::from_micro_volts(self as i64)
    }

    fn milli_volts(self) -> (r: Result<Voltage, QuantityError>)
        ensures
            r == Voltage::from_milli_volts(self as i64),
    {
        Voltage::from_milli_volts(self as i64)
    }

    fn volts(self) -> (r: Result<Voltage, QuantityError>)
        ensures
            r == Voltage::from_volts(self as i64),
    {
        Voltage::from_volts(self as i64)
    }

    fn kilo_volts(self) -> (r: Result<Voltage, QuantityError>)
        ensures
            r == Voltage::from_kilo_volts(self as i64),
    {
        Voltage::from_kilo_volts(self as i64)
    }
}

impl FromInteger for i16 {
    fn micro_volts(self) -> (r: Voltage)
        ensures
            r == Voltage::from_micro_volts(self as i64),
    {
        Voltage::from_micro_volts(self as i64)
    }

    fn milli_volts(self) -> (r: Result<Voltage, QuantityError>)
        ensures
            r == Voltage::from_milli_volts(self as i64),
    {
        Voltage::from_milli_volts(self as i64)
    }

    fn volts(self) -> (r: Result<Voltage, QuantityError>)
        ensures
            r == Voltage::from_volts(self as i64),
    {
        Voltage::from_volts(self as i64)
    }

    fn kilo_volts(self) -> (r: Result<Voltage, QuantityError>)
        ensures
            r == Voltage::from_kilo_volts(self as i64),
    {
        Voltage::from_kilo_volts(self as i64)
    }
}

impl FromInteger for i32 {
    fn micro_volts(self) -> (r: Voltage)
        ensures
            r == Voltage::from_micro_volts(self as i64),
    {
        Voltage::from_micro_volts(self as i64)
    }

    fn milli_volts(self) -> (r: Result<Voltage, QuantityError>)
        ensures
            r == Voltage::from_milli_volts(self as i64),
    {
        Voltage::from_milli_volts(self as i64)
    }

    fn volts(self) -> (r: Result<Voltage, QuantityError>)
        ensures
            r == Voltage::from_volts(self as i64),
    {
        Voltage::from_volts(self as i64)
    }

    fn kilo_volts(self) -> (r: Result<Voltage, QuantityError>)
        ensures
            r == Voltage::from_kilo_volts(self as i64),
    {
        Voltage::from_kilo_volts(self as i64)
    }
}

impl FromInteger for u8 {
    fn micro_volts(self) -> (r: Voltage)
        ensures
            r == Voltage::from_micro_volts(self as i64),
    {
        Voltage::from_micro_volts(self as i64)
    }

    fn milli_volts(self) -> (r: Result<Voltage, QuantityError>)
        ensures
            r == Voltage::from_milli_volts(self as i64),
    {
        Voltage::from_milli_volts(self as i64)
    }

    fn volts(self) -> (r: Result<Voltage, QuantityError>)
        ensures
            r == Voltage::from_volts(self as i64),
    {
        Voltage::from_volts(self as i64)
    }

    fn kilo_volts(self) -> (r: Result<Voltage, QuantityError>)
        ensures
            r == Voltage::from_kilo_volts(self as i64),
    {
        Voltage::from_kilo_volts(self as i64)
    }
}

impl FromInteger for u16 {
    fn micro_volts(self) -> (r: Voltage)
        ensures
            r == Voltage::from_micro_volts(self as i64),
    {
        Voltage::from_micro_volts(self as i64)
    }

    fn milli_volts(self) -> (r: Result<Voltage, QuantityError>)
        ensures
            r == Voltage::from_milli_volts(self as i64),
    {
        Voltage::from_milli_volts(self as i64)
    }

    fn volts(self) -> (r: Result<Voltage, QuantityError>)
        ensures
            r == Voltage::from_volts(self as i64),
    {
        Voltage::from_volts(self as i64)
    }

    fn kilo_volts(self) -> (r: Result<Voltage, QuantityError>)
        ensures
            r == Voltage::from_kilo_volts(self as i64),
    {
        Voltage::from_kilo_volts(self as i64)
    }
}

impl FromInteger for u32 {
    fn micro_volts(self) -> (r: Voltage)
        ensures
            r == Voltage::from_micro_volts(self as i64),
    {
        Voltage::from_micro_volts(self as i64)
    }

    fn milli_volts(self) -> (r: Result<Voltage, QuantityError>)
        ensures
            r == Voltage::from_milli_volts(self as i64),
    {
        Voltage::from_milli_volts(self as i64)
    }

    fn volts(self) -> (r: Result<Voltage, QuantityError>)
        ensures
            r == Voltage::from_volts(self as i64),
    {
        Voltage::from_volts(self as i64)
    }

    fn kilo_volts(self) -> (r: Result<Voltage, QuantityError>)
        ensures
            r == Voltage::from_kilo_volts(self as i64),
    {
        Voltage::from_kilo_volts(self as i64)
    }
}

} // verus!
