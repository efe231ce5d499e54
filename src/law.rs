//! Ohm's law between the quantity types: `V = I·R`, `I = V/R`, `R = V/I`.
//!
//! The divisions scale the voltage up in 128 bits, so only a quotient that
//! does not fit its type overflows. The product of a current and a
//! resistance must fit a `u64` before it is scaled down. Quotients are
//! rounded down, and the sign of a voltage is dropped where a current or a
//! resistance comes out.
use vstd::prelude::*;

use crate::current::Current;
use crate::error::QuantityError;
use crate::guard::{abs, fit_i64, fit_u64};
use crate::resistance::Resistance;
use crate::voltage::Voltage;

verus! {

/// The current that voltage `v` drives through resistance `r`, in microamps:
/// `|v| · 1000 / r`, rounded down.
pub open spec fn current_through(v: Voltage, r: Resistance) -> Result<Current, QuantityError> {
    if r@ == 0 {
        Err(QuantityError::ZeroResistance)
    } else {
        Current::lift(fit_u64(abs(v@) * 1000 / r@))
    }
}

/// The voltage that current `i` drops across resistance `r`, in microvolts:
/// `i · r / 1000`, rounded down. The product `i · r` itself must fit a
/// `u64`; the quotient then always fits the voltage.
pub open spec fn voltage_across(i: Current, r: Resistance) -> Result<Voltage, QuantityError> {
    if i@ * r@ > u64::MAX {
        Err(QuantityError::Overflow)
    } else {
        Ok(Voltage { raw: (i@ * r@ / 1000) as i64 })
    }
}

/// The resistance that lets current `i` flow under voltage `v`, in
/// milliohms: `|v| · 1000 / i`, rounded down.
pub open spec fn resistance_of(v: Voltage, i: Current) -> Result<Resistance, QuantityError> {
    if i@ == 0 {
        Err(QuantityError::ZeroCurrent)
    } else {
        Resistance::lift(fit_u64(abs(v@) * 1000 / i@))
    }
}

/// The magnitude of a count of microvolts.
fn magnitude(v: i64) -> (r: u64)
    ensures
        r == abs(v as int),
{
    if v >= 0 {
        v as u64
    } else {
        ((-(v + 1)) as u64) + 1
    }
}

/// `n` as a `u64`, or an overflow.
fn narrow_u64(n: u128) -> (r: Result<u64, QuantityError>)
    ensures
        r == fit_u64(n as int),
{
    if n > u64::MAX as u128 {
        Err(QuantityError::Overflow)
    } else {
        Ok(n as u64)
    }
}

impl core::ops::Div<Resistance> for Voltage {
    type Output = Result<Current, QuantityError>;

    fn div(self, resistance: Resistance) -> (r: Result<Current, QuantityError>) {
        if resistance.raw == 0 {
            return Err(QuantityError::ZeroResistance);
        }
        let nano_volts: u128 = magnitude(self.raw) as u128 * 1000;
        match narrow_u64(nano_volts / (resistance.raw as u128)) {
            Ok(v) => Ok(Current::from_micro_amps(v)),
            Err(e) => Err(e),
        }
    }
}

impl vstd::std_specs::ops::DivSpecImpl<Resistance> for Voltage {
    open spec fn obeys_div_spec() -> bool {
        true
    }

    open spec fn div_req(self, rhs: Resistance) -> bool {
        true
    }

    open spec fn div_spec(self, rhs: Resistance) -> Result<Current, QuantityError> {
        current_through(self, rhs)
    }
}

impl core::ops::Div<Current> for Voltage {
    type Output = Result<Resistance, QuantityError>;

    fn div(self, current: Current) -> (r: Result<Resistance, QuantityError>) {
        if current.raw == 0 {
            return Err(QuantityError::ZeroCurrent);
        }
        let nano_volts: u128 = magnitude(self.raw) as u128 * 1000;
        match narrow_u64(nano_volts / (current.raw as u128)) {
            Ok(v) => Ok(Resistance::from_milli_ohms(v)),
            Err(e) => Err(e),
        }
    }
}

impl vstd::std_specs::ops::DivSpecImpl<Current> for Voltage {
    open spec fn obeys_div_spec() -> bool {
        true
    }

    open spec fn div_req(self, rhs: Current) -> bool {
        true
    }

    open spec fn div_spec(self, rhs: Current) -> Result<Resistance, QuantityError> {
        resistance_of(self, rhs)
    }
}

impl core::ops::Mul<Resistance> for Current {
    type Output = Result<Voltage, QuantityError>;

    fn mul(self, resistance: Resistance) -> (r: Result<Voltage, QuantityError>) {
        match self.raw.checked_mul(resistance.raw) {
            Some(nano_volts) => Ok(Voltage::from_micro_volts((nano_volts / 1000) as i64)),
            None => Err(QuantityError::Overflow),
        }
    }
}

impl vstd::std_specs::ops::MulSpecImpl<Resistance> for Current {
    open spec fn obeys_mul_spec() -> bool {
        true
    }

    open spec fn mul_req(self, rhs: Resistance) -> bool {
        true
    }

    open spec fn mul_spec(self, rhs: Resistance) -> Result<Voltage, QuantityError> {
        voltage_across(self, rhs)
    }
}

impl core::ops::Mul<Current> for Resistance {
    type Output = Result<Voltage, QuantityError>;

    fn mul(self, current: Current) -> (r: Result<Voltage, QuantityError>) {
        current * self
    }
}

impl vstd::std_specs::ops::MulSpecImpl<Current> for Resistance {
    open spec fn obeys_mul_spec() -> bool {
        true
    }

    open spec fn mul_req(self, rhs: Current) -> bool {
        true
    }

    open spec fn mul_spec(self, rhs: Current) -> Result<Voltage, QuantityError> {
        voltage_across(rhs, self)
    }
}

} // verus!
