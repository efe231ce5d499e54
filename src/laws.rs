//! Laws that hold of every value of the quantity types, stated over the
//! operations themselves and proved.
use vstd::prelude::*;

use core::cmp::Ordering;
use vstd::std_specs::cmp::PartialOrdSpec;
use vstd::std_specs::ops::{AddSpec, DivSpec, MulSpec};

use crate::current::Current;
use crate::error::QuantityError;
use crate::guard::{FloatClass, abs};
use vstd::arithmetic::div_mod::{lemma_fundamental_div_mod, lemma_mod_pos_bound};
use crate::power::Power;
use crate::resistance::Resistance;
use crate::voltage::Voltage;

verus! {

/// Reading a current built from a count of microamps gives that count back.
pub proof fn lemma_current_round_trip(n: u64)
    ensures
        Current::from_micro_amps(n).micro_amps() == n,
{
}

/// Each denomination constructor gives the amount times its ratio to the
/// canonical unit, and fails with an overflow exactly when that product does
/// not fit a `u64`.
pub proof fn lemma_current_denominations(n: u64)
    ensures
        Current::from_milli_amps(n) is Ok <==> n * 1000 <= u64::MAX,
        Current::from_milli_amps(n) matches Ok(x) ==> x.micro_amps() == n * 1000,
        Current::from_milli_amps(n) is Err ==> Current::from_milli_amps(n) == Err::<Current, QuantityError>(QuantityError::Overflow),
        Current::from_amps(n) is Ok <==> n * 1_000_000 <= u64::MAX,
        Current::from_amps(n) matches Ok(x) ==> x.micro_amps() == n * 1_000_000,
        Current::from_amps(n) is Err ==> Current::from_amps(n) == Err::<Current, QuantityError>(QuantityError::Overflow),
{
}

/// Comparison of two currents is total and follows their canonical counts:
/// exactly one of less, equal and greater holds.
pub proof fn lemma_current_ordering(a: Current, b: Current)
    ensures
        (a.partial_cmp_spec(&b) == Some(Ordering::Less)) == (a.micro_amps() < b.micro_amps()),
        (a.partial_cmp_spec(&b) == Some(Ordering::Equal)) == (a == b),
        (a.partial_cmp_spec(&b) == Some(Ordering::Greater)) == (a.micro_amps() > b.micro_amps()),
        a.partial_cmp_spec(&b) is Some,
        (a == b) == (a.micro_amps() == b.micro_amps()),
{
}

/// Zero is the identity of addition, and adding anything above zero to the
/// largest current overflows.
pub proof fn lemma_current_add_identity_and_overflow(x: Current, y: Current)
    ensures
        x.add_spec(Current::zero()) == Ok::<Current, QuantityError>(x),
        Current::from_micro_amps(u64::MAX).add_spec(y) is Err <==> y.micro_amps() > 0,
        y.micro_amps() > 0 ==> Current::from_micro_amps(u64::MAX).add_spec(y) == Err::<Current, QuantityError>(
            QuantityError::Overflow,
        ),
{
}

/// A negative floating-point amount never makes a current.
pub proof fn lemma_current_negative_float_refused(scaled: Option<u64>)
    ensures
        Current::from_float_parts(FloatClass::Negative, scaled) == Err::<Current, QuantityError>(
            QuantityError::NegativeOperand,
        ),
{
}

/// Scaling any current, the largest included, by a zero float gives zero,
/// whatever the scaled value handed over.
pub proof fn lemma_current_times_zero_float(x: Current, product: Option<u64>)
    ensures
        x.mul_float(FloatClass::Zero, product) == Ok::<Current, QuantityError>(Current::zero()),
{
}

/// Dividing a current by an integer zero or a float zero fails with a
/// divide-by-zero error.
pub proof fn lemma_current_divide_by_zero(x: Current, quotient: Option<u64>)
    ensures
        x.div_spec(0u64) == Err::<Current, QuantityError>(QuantityError::DivideByZero),
        x.div_spec(0i64) == Err::<Current, QuantityError>(QuantityError::DivideByZero),
        x.div_float(FloatClass::Zero, quotient) == Err::<Current, QuantityError>(
            QuantityError::DivideByZero,
        ),
{
}

/// Reading a resistance built from a count of milliohms gives that count back.
pub proof fn lemma_resistance_round_trip(n: u64)
    ensures
        Resistance::from_milli_ohms(n).milli_ohms() == n,
{
}

/// Each denomination constructor gives the amount times its ratio to the
/// canonical unit, and fails with an overflow exactly when that product does
/// not fit a `u64`.
pub proof fn lemma_resistance_denominations(n: u64)
    ensures
        Resistance::from_ohms(n) is Ok <==> n * 1000 <= u64::MAX,
        Resistance::from_ohms(n) matches Ok(x) ==> x.milli_ohms() == n * 1000,
        Resistance::from_ohms(n) is Err ==> Resistance::from_ohms(n) == Err::<Resistance, QuantityError>(QuantityError::Overflow),
        Resistance::from_kilo_ohms(n) is Ok <==> n * 1_000_000 <= u64::MAX,
        Resistance::from_kilo_ohms(n) matches Ok(x) ==> x.milli_ohms() == n * 1_000_000,
        Resistance::from_kilo_ohms(n) is Err ==> Resistance::from_kilo_ohms(n) == Err::<Resistance, QuantityError>(QuantityError::Overflow),
        Resistance::from_mega_ohms(n) is Ok <==> n * 1_000_000_000 <= u64::MAX,
        Resistance::from_mega_ohms(n) matches Ok(x) ==> x.milli_ohms() == n * 1_000_000_000,
        Resistance::from_mega_ohms(n) is Err ==> Resistance::from_mega_ohms(n) == Err::<Resistance, QuantityError>(QuantityError::Overflow),
{
}

/// Comparison of two resistances is total and follows their canonical counts:
/// exactly one of less, equal and greater holds.
pub proof fn lemma_resistance_ordering(a: Resistance, b: Resistance)
    ensures
        (a.partial_cmp_spec(&b) == Some(Ordering::Less)) == (a.milli_ohms() < b.milli_ohms()),
        (a.partial_cmp_spec(&b) == Some(Ordering::Equal)) == (a == b),
        (a.partial_cmp_spec(&b) == Some(Ordering::Greater)) == (a.milli_ohms() > b.milli_ohms()),
        a.partial_cmp_spec(&b) is Some,
        (a == b) == (a.milli_ohms() == b.milli_ohms()),
{
}

/// Zero is the identity of addition, and adding anything above zero to the
/// largest resistance overflows.
pub proof fn lemma_resistance_add_identity_and_overflow(x: Resistance, y: Resistance)
    ensures
        x.add_spec(Resistance::zero()) == Ok::<Resistance, QuantityError>(x),
        Resistance::from_milli_ohms(u64::MAX).add_spec(y) is Err <==> y.milli_ohms() > 0,
        y.milli_ohms() > 0 ==> Resistance::from_milli_ohms(u64::MAX).add_spec(y) == Err::<Resistance, QuantityError>(
            QuantityError::Overflow,
        ),
{
}

/// A negative floating-point amount never makes a resistance.
pub proof fn lemma_resistance_negative_float_refused(scaled: Option<u64>)
    ensures
        Resistance::from_float_parts(FloatClass::Negative, scaled) == Err::<Resistance, QuantityError>(
            QuantityError::NegativeOperand,
        ),
{
}

/// Scaling any resistance, the largest included, by a zero float gives zero,
/// whatever the scaled value handed over.
pub proof fn lemma_resistance_times_zero_float(x: Resistance, product: Option<u64>)
    ensures
        x.mul_float(FloatClass::Zero, product) == Ok::<Resistance, QuantityError>(Resistance::zero()),
{
}

/// Dividing a resistance by an integer zero or a float zero fails with a
/// divide-by-zero error.
pub proof fn lemma_resistance_divide_by_zero(x: Resistance, quotient: Option<u64>)
    ensures
        x.div_spec(0u64) == Err::<Resistance, QuantityError>(QuantityError::DivideByZero),
        x.div_spec(0i64) == Err::<Resistance, QuantityError>(QuantityError::DivideByZero),
        x.div_float(FloatClass::Zero, quotient) == Err::<Resistance, QuantityError>(
            QuantityError::DivideByZero,
        ),
{
}

/// Reading a power built from a count of microwatts gives that count back.
pub proof fn lemma_power_round_trip(n: u64)
    ensures
        Power::from_micro_watts(n).micro_watts() == n,
{
}

/// Each denomination constructor gives the amount times its ratio to the
/// canonical unit, and fails with an overflow exactly when that product does
/// not fit a `u64`.
pub proof fn lemma_power_denominations(n: u64)
    ensures
        Power::from_milli_watts(n) is Ok <==> n * 1000 <= u64::MAX,
        Power::from_milli_watts(n) matches Ok(x) ==> x.micro_watts() == n * 1000,
        Power::from_milli_watts(n) is Err ==> Power::from_milli_watts(n) == Err::<Power, QuantityError>(QuantityError::Overflow),
        Power::from_watts(n) is Ok <==> n * 1_000_000 <= u64::MAX,
        Power::from_watts(n) matches Ok(x) ==> x.micro_watts() == n * 1_000_000,
        Power::from_watts(n) is Err ==> Power::from_watts(n) == Err::<Power, QuantityError>(QuantityError::Overflow),
        Power::from_kilo_watts(n) is Ok <==> n * 1_000_000_000 <= u64::MAX,
        Power::from_kilo_watts(n) matches Ok(x) ==> x.micro_watts() == n * 1_000_000_000,
        Power::from_kilo_watts(n) is Err ==> Power::from_kilo_watts(n) == Err::<Power, QuantityError>(QuantityError::Overflow),
{
}

/// Comparison of two powers is total and follows their canonical counts:
/// exactly one of less, equal and greater holds.
pub proof fn lemma_power_ordering(a: Power, b: Power)
    ensures
        (a.partial_cmp_spec(&b) == Some(Ordering::Less)) == (a.micro_watts() < b.micro_watts()),
        (a.partial_cmp_spec(&b) == Some(Ordering::Equal)) == (a == b),
        (a.partial_cmp_spec(&b) == Some(Ordering::Greater)) == (a.micro_watts() > b.micro_watts()),
        a.partial_cmp_spec(&b) is Some,
        (a == b) == (a.micro_watts() == b.micro_watts()),
{
}

/// Zero is the identity of addition, and adding anything above zero to the
/// largest power overflows.
pub proof fn lemma_power_add_identity_and_overflow(x: Power, y: Power)
    ensures
        x.add_spec(Power::zero()) == Ok::<Power, QuantityError>(x),
        Power::from_micro_watts(u64::MAX).add_spec(y) is Err <==> y.micro_watts() > 0,
        y.micro_watts() > 0 ==> Power::from_micro_watts(u64::MAX).add_spec(y) == Err::<Power, QuantityError>(
            QuantityError::Overflow,
        ),
{
}

/// A negative floating-point amount never makes a power.
pub proof fn lemma_power_negative_float_refused(scaled: Option<u64>)
    ensures
        Power::from_float_parts(FloatClass::Negative, scaled) == Err::<Power, QuantityError>(
            QuantityError::NegativeOperand,
        ),
{
}

/// Scaling any power, the largest included, by a zero float gives zero,
/// whatever the scaled value handed over.
pub proof fn lemma_power_times_zero_float(x: Power, product: Option<u64>)
    ensures
        x.mul_float(FloatClass::Zero, product) == Ok::<Power, QuantityError>(Power::zero()),
{
}

/// Dividing a power by an integer zero or a float zero fails with a
/// divide-by-zero error.
pub proof fn lemma_power_divide_by_zero(x: Power, quotient: Option<u64>)
    ensures
        x.div_spec(0u64) == Err::<Power, QuantityError>(QuantityError::DivideByZero),
        x.div_spec(0i64) == Err::<Power, QuantityError>(QuantityError::DivideByZero),
        x.div_float(FloatClass::Zero, quotient) == Err::<Power, QuantityError>(
            QuantityError::DivideByZero,
        ),
{
}

/// Reading a voltage built from a count of microvolts gives that count back.
pub proof fn lemma_voltage_round_trip(n: i64)
    ensures
        Voltage::from_micro_volts(n).micro_volts() == n,
{
}

/// Each denomination constructor gives the amount times its ratio to the
/// canonical unit, and fails with an overflow exactly when that product does
/// not fit an `i64`.
pub proof fn lemma_voltage_denominations(n: i64)
    ensures
        Voltage::from_milli_volts(n) is Ok <==> i64::MIN <= n * 1000 <= i64::MAX,
        Voltage::from_milli_volts(n) matches Ok(x) ==> x.micro_volts() == n * 1000,
        Voltage::from_milli_volts(n) is Err ==> Voltage::from_milli_volts(n) == Err::<Voltage, QuantityError>(QuantityError::Overflow),
        Voltage::from_volts(n) is Ok <==> i64::MIN <= n * 1_000_000 <= i64::MAX,
        Voltage::from_volts(n) matches Ok(x) ==> x.micro_volts() == n * 1_000_000,
        Voltage::from_volts(n) is Err ==> Voltage::from_volts(n) == Err::<Voltage, QuantityError>(QuantityError::Overflow),
        Voltage::from_kilo_volts(n) is Ok <==> i64::MIN <= n * 1_000_000_000 <= i64::MAX,
        Voltage::from_kilo_volts(n) matches Ok(x) ==> x.micro_volts() == n * 1_000_000_000,
        Voltage::from_kilo_volts(n) is Err ==> Voltage::from_kilo_volts(n) == Err::<Voltage, QuantityError>(QuantityError::Overflow),
{
}

/// Comparison of two voltages is total and follows their canonical counts:
/// exactly one of less, equal and greater holds.
pub proof fn lemma_voltage_ordering(a: Voltage, b: Voltage)
    ensures
        (a.partial_cmp_spec(&b) == Some(Ordering::Less)) == (a.micro_volts() < b.micro_volts()),
        (a.partial_cmp_spec(&b) == Some(Ordering::Equal)) == (a == b),
        (a.partial_cmp_spec(&b) == Some(Ordering::Greater)) == (a.micro_volts() > b.micro_volts()),
        a.partial_cmp_spec(&b) is Some,
        (a == b) == (a.micro_volts() == b.micro_volts()),
{
}

/// Zero is the identity of addition, and adding anything above zero to the
/// largest voltage overflows.
pub proof fn lemma_voltage_add_identity_and_overflow(x: Voltage, y: Voltage)
    ensures
        x.add_spec(Voltage::zero()) == Ok::<Voltage, QuantityError>(x),
        y.micro_volts() > 0 ==> Voltage::from_micro_volts(i64::MAX).add_spec(y) == Err::<
            Voltage,
            QuantityError,
        >(QuantityError::Overflow),
{
}

/// A negative floating-point amount makes a voltage: the scaled count is
/// kept with its sign.
pub proof fn lemma_voltage_negative_float_kept(micro_volts: i64)
    ensures
        Voltage::from_float_parts(FloatClass::Negative, Some(micro_volts)) == Ok::<
            Voltage,
            QuantityError,
        >(Voltage::from_micro_volts(micro_volts)),
        Voltage::from_float_parts(FloatClass::Negative, Some(micro_volts)) matches Ok(v)
            ==> (v.is_negative() == (micro_volts < 0)),
{
}

/// Dividing a voltage by an integer zero or a float zero fails with a
/// divide-by-zero error.
pub proof fn lemma_voltage_divide_by_zero(x: Voltage, quotient: Option<i64>)
    ensures
        x.div_spec(0u64) == Err::<Voltage, QuantityError>(QuantityError::DivideByZero),
        x.div_spec(0i64) == Err::<Voltage, QuantityError>(QuantityError::DivideByZero),
        x.div_float(FloatClass::Zero, quotient) == Err::<Voltage, QuantityError>(
            QuantityError::DivideByZero,
        ),
{
}

/// Ohm's law taken there and back: the current `i = v / r` driven back
/// through `r` gives a voltage `w = i * r` that is never above `|v|` and
/// falls short of it by less than one microvolt plus the voltage that one
/// microamp drops across `r` (`(|v| - w) · 1000 < r + 1000`, in microvolts
/// and milliohms): the two truncations are the only loss. The product
/// `i · r` never exceeds `|v| · 1000`, so `w` exists whenever that fits a
/// `u64`.
pub proof fn lemma_ohm_round_trip(v: Voltage, r: Resistance)
    requires
        r.milli_ohms() != 0,
        v.div_spec(r) is Ok,
    ensures
        v.div_spec(r) matches Ok(i) ==> {
            &&& (abs(v.micro_volts() as int) * 1000 <= u64::MAX ==> i.mul_spec(r) is Ok)
            &&& i.mul_spec(r) matches Ok(w) ==> {
                &&& w.micro_volts() <= abs(v.micro_volts() as int)
                &&& (abs(v.micro_volts() as int) - w.micro_volts()) * 1000 < r.milli_ohms() + 1000
            }
        },
{
    let a = abs(v@);
    let n = a * 1000;
    let q = n / r@;
    let m = q * r@;
    let w = m / 1000;
    lemma_fundamental_div_mod(n, r@);
    lemma_mod_pos_bound(n, r@);
    lemma_fundamental_div_mod(m, 1000);
    lemma_mod_pos_bound(m, 1000);
    assert(m == r@ * q) by (nonlinear_arith)
        requires
            m == q * r@,
    ;
    assert(0 <= m) by (nonlinear_arith)
        requires
            q >= 0,
            r@ > 0,
            m == q * r@,
    ;
    assert(w <= a);
    assert(a * 1000 - w * 1000 < r@ + 1000);
}

} // verus!
