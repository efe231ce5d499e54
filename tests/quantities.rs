use ohms::{
    Current, CurrentFromInteger, FloatClass, Power, PowerFromInteger, QuantityError, Resistance,
    ResistanceFromInteger, Voltage, VoltageFromInteger,
};
use std::cmp::Ordering;

#[test]
fn canonical_round_trip() {
    for n in [0u64, 1, 999, 1_000_000, u64::MAX] {
        assert_eq!(Current::from_micro_amps(n).micro_amps(), n);
        assert_eq!(Resistance::from_milli_ohms(n).milli_ohms(), n);
        assert_eq!(Power::from_micro_watts(n).micro_watts(), n);
    }
    for n in [i64::MIN, -1, 0, 1, i64::MAX] {
        assert_eq!(Voltage::from_micro_volts(n).micro_volts(), n);
    }
}

#[test]
fn current_denominations() {
    assert_eq!(Current::from_milli_amps(100).unwrap().micro_amps(), 100_000);
    assert_eq!(Current::from_amps(3).unwrap().micro_amps(), 3_000_000);
    assert_eq!(100u64.milli_amps().unwrap().micro_amps(), 100_000);
    assert_eq!(7u64.micro_amps().micro_amps(), 7);
    assert_eq!(2u64.amps().unwrap(), Current::from_micro_amps(2_000_000));
    assert_eq!(Current::from_amps(u64::MAX / 1_000_000 + 1), Err(QuantityError::Overflow));
    assert_eq!(
        Current::from_milli_amps(u64::MAX / 1_000).unwrap().micro_amps(),
        u64::MAX / 1_000 * 1_000
    );
}

#[test]
fn resistance_denominations() {
    assert_eq!(Resistance::from_ohms(220).unwrap().milli_ohms(), 220_000);
    assert_eq!(Resistance::from_kilo_ohms(47).unwrap().milli_ohms(), 47_000_000);
    assert_eq!(Resistance::from_mega_ohms(2).unwrap().milli_ohms(), 2_000_000_000);
    assert_eq!(3u64.ohms().unwrap().milli_ohms(), 3_000);
    assert_eq!(5u64.milli_ohms().milli_ohms(), 5);
    assert_eq!(1u64.kilo_ohms().unwrap().milli_ohms(), 1_000_000);
    assert_eq!(1u64.mega_ohms().unwrap().milli_ohms(), 1_000_000_000);
    assert_eq!(Resistance::from_mega_ohms(u64::MAX), Err(QuantityError::Overflow));
}

#[test]
fn power_denominations() {
    assert_eq!(Power::from_milli_watts(200).unwrap().micro_watts(), 200_000);
    assert_eq!(Power::from_watts(5).unwrap().micro_watts(), 5_000_000);
    assert_eq!(Power::from_kilo_watts(2).unwrap().micro_watts(), 2_000_000_000);
    assert_eq!(1u64.watts().unwrap().micro_watts(), 1_000_000);
    assert_eq!(9u64.micro_watts().micro_watts(), 9);
    assert_eq!(4u64.milli_watts().unwrap().micro_watts(), 4_000);
    assert_eq!(3u64.kilo_watts().unwrap().micro_watts(), 3_000_000_000);
    assert_eq!(Power::from_kilo_watts(u64::MAX / 1_000), Err(QuantityError::Overflow));
}

#[test]
fn voltage_denominations() {
    assert_eq!(Voltage::from_milli_volts(900).unwrap().micro_volts(), 900_000);
    assert_eq!(Voltage::from_volts(-12).unwrap().micro_volts(), -12_000_000);
    assert_eq!(Voltage::from_kilo_volts(3).unwrap().micro_volts(), 3_000_000_000);
    assert_eq!(12i64.volts().unwrap().micro_volts(), 12_000_000);
    assert_eq!((-5i64).micro_volts().micro_volts(), -5);
    assert_eq!(7i64.milli_volts().unwrap().micro_volts(), 7_000);
    assert_eq!(2i64.kilo_volts().unwrap().micro_volts(), 2_000_000_000);
    assert_eq!(Voltage::from_kilo_volts(i64::MIN), Err(QuantityError::Overflow));
    assert_eq!(Voltage::from_volts(i64::MAX / 1_000_000 + 1), Err(QuantityError::Overflow));
}

#[test]
fn ordering_follows_canonical_counts() {
    let pairs: [(u64, u64); 4] = [(0, 0), (1, 2), (2, 1), (u64::MAX, 0)];
    for (a, b) in pairs {
        let (x, y) = (Current::from_micro_amps(a), Current::from_micro_amps(b));
        assert_eq!(x.partial_cmp(&y), Some(a.cmp(&b)));
        assert_eq!(x.cmp(&y), a.cmp(&b));
        let states = [x < y, x == y, x > y];
        assert_eq!(states.iter().filter(|s| **s).count(), 1);
        let (x, y) = (Resistance::from_milli_ohms(a), Resistance::from_milli_ohms(b));
        assert_eq!(x.partial_cmp(&y), Some(a.cmp(&b)));
        let (x, y) = (Power::from_micro_watts(a), Power::from_micro_watts(b));
        assert_eq!(x.partial_cmp(&y), Some(a.cmp(&b)));
    }
    let v = [Voltage::from_micro_volts(-3), Voltage::from_micro_volts(0), Voltage::from_micro_volts(3)];
    assert!(v[0] < v[1] && v[1] < v[2]);
    assert_eq!(v[2].partial_cmp(&v[0]), Some(Ordering::Greater));
    assert_eq!(v[1].partial_cmp(&Voltage::zero()), Some(Ordering::Equal));
}

#[test]
fn equal_however_constructed() {
    assert_eq!(Current::from_milli_amps(1).unwrap(), Current::from_micro_amps(1_000));
    assert_eq!(Resistance::from_kilo_ohms(1).unwrap(), Resistance::from_ohms(1_000).unwrap());
    assert_eq!(Voltage::from_volts(1).unwrap(), Voltage::from_milli_volts(1_000).unwrap());
    assert_eq!(Power::from_watts(1).unwrap(), Power::from_milli_watts(1_000).unwrap());
}

#[test]
fn add_zero_is_identity() {
    for n in [0u64, 5, u64::MAX] {
        let c = Current::from_micro_amps(n);
        assert_eq!((c + Current::zero()).unwrap(), c);
        let r = Resistance::from_milli_ohms(n);
        assert_eq!((r + Resistance::zero()).unwrap(), r);
        let p = Power::from_micro_watts(n);
        assert_eq!((p + Power::zero()).unwrap(), p);
    }
    for n in [i64::MIN, -5, 0, i64::MAX] {
        let v = Voltage::from_micro_volts(n);
        assert_eq!((v + Voltage::zero()).unwrap(), v);
    }
}

#[test]
fn add_and_sub() {
    let c = (Current::from_micro_amps(500_000) + Current::from_micro_amps(1_100_000)).unwrap();
    assert_eq!(c.micro_amps(), 1_600_000);
    let c = (Current::from_micro_amps(1_100_000) - Current::from_micro_amps(300_000)).unwrap();
    assert_eq!(c.micro_amps(), 800_000);
    let v = (Voltage::from_micro_volts(3_700_000) - Voltage::from_micro_volts(9_000_000)).unwrap();
    assert_eq!(v.micro_volts(), -5_300_000);
    let p = (Power::from_micro_watts(7) - Power::from_micro_watts(7)).unwrap();
    assert!(p.is_zero());
}

#[test]
fn add_overflows_at_the_maximum() {
    assert_eq!(Current::from_micro_amps(u64::MAX) + Current::from_micro_amps(1), Err(QuantityError::Overflow));
    assert_eq!(Resistance::from_milli_ohms(u64::MAX) + Resistance::from_milli_ohms(7), Err(QuantityError::Overflow));
    assert_eq!(Power::from_micro_watts(u64::MAX) + Power::from_micro_watts(u64::MAX), Err(QuantityError::Overflow));
    assert_eq!(Voltage::from_micro_volts(i64::MAX) + Voltage::from_micro_volts(1), Err(QuantityError::Overflow));
    assert_eq!(Voltage::from_micro_volts(i64::MIN) + Voltage::from_micro_volts(-1), Err(QuantityError::Overflow));
}

#[test]
fn sub_below_zero_fails() {
    assert_eq!(Current::from_micro_amps(1) - Current::from_micro_amps(2), Err(QuantityError::Overflow));
    assert_eq!(Resistance::zero() - Resistance::from_milli_ohms(1), Err(QuantityError::Overflow));
    assert_eq!(Power::zero() - Power::from_micro_watts(1), Err(QuantityError::Overflow));
    assert_eq!(Voltage::from_micro_volts(i64::MIN) - Voltage::from_micro_volts(1), Err(QuantityError::Overflow));
}

#[test]
fn scale_by_integer() {
    assert_eq!((Current::from_micro_amps(200_000) * 3u64).unwrap().micro_amps(), 600_000);
    assert_eq!((Current::from_micro_amps(200_000) * 3i64).unwrap().micro_amps(), 600_000);
    assert_eq!(Current::from_micro_amps(1) * -1i64, Err(QuantityError::NegativeOperand));
    assert_eq!(Current::zero() * -1i64, Err(QuantityError::NegativeOperand));
    assert_eq!(Power::from_micro_watts(u64::MAX) * 2u64, Err(QuantityError::Overflow));
    assert_eq!((Resistance::from_milli_ohms(7) * 0u64).unwrap(), Resistance::zero());
    assert_eq!((Voltage::from_micro_volts(6_000_000) * 2i64).unwrap().micro_volts(), 12_000_000);
    assert_eq!((Voltage::from_micro_volts(6) * -2i64).unwrap().micro_volts(), -12);
    assert_eq!((Voltage::from_micro_volts(-1) * (1u64 << 63)).unwrap().micro_volts(), i64::MIN);
    assert_eq!(Voltage::from_micro_volts(1) * (1u64 << 63), Err(QuantityError::Overflow));
    assert_eq!(Voltage::from_micro_volts(i64::MIN) * -1i64, Err(QuantityError::Overflow));
    assert_eq!((Power::from_micro_watts(200) * 3u64).unwrap().micro_watts(), 600);
    assert_eq!(Resistance::from_milli_ohms(200) * -3i64, Err(QuantityError::NegativeOperand));
    assert_eq!((Voltage::from_micro_volts(-200) * -3i64).unwrap().micro_volts(), 600);
}

#[test]
fn divide_by_integer_rounds_toward_zero() {
    assert_eq!((Current::from_micro_amps(7) / 2u64).unwrap().micro_amps(), 3);
    assert_eq!((Resistance::from_milli_ohms(7) / 2i64).unwrap().milli_ohms(), 3);
    assert_eq!(Power::from_micro_watts(7) / -2i64, Err(QuantityError::NegativeOperand));
    assert_eq!((Voltage::from_micro_volts(-7) / 2i64).unwrap().micro_volts(), -3);
    assert_eq!((Voltage::from_micro_volts(7) / -2i64).unwrap().micro_volts(), -3);
    assert_eq!((Voltage::from_micro_volts(-7) / 2u64).unwrap().micro_volts(), -3);
    assert_eq!((Voltage::from_micro_volts(i64::MIN) / (1u64 << 63)).unwrap().micro_volts(), -1);
    assert_eq!((Voltage::from_micro_volts(i64::MAX) / u64::MAX).unwrap().micro_volts(), 0);
    assert_eq!(Voltage::from_micro_volts(i64::MIN) / -1i64, Err(QuantityError::Overflow));
}

#[test]
fn divide_by_zero_for_every_type() {
    assert_eq!(Current::from_micro_amps(5) / 0u64, Err(QuantityError::DivideByZero));
    assert_eq!(Current::from_micro_amps(5) / 0i64, Err(QuantityError::DivideByZero));
    assert_eq!(Resistance::from_milli_ohms(5) / 0u64, Err(QuantityError::DivideByZero));
    assert_eq!(Resistance::from_milli_ohms(5) / 0i64, Err(QuantityError::DivideByZero));
    assert_eq!(Power::from_micro_watts(5) / 0u64, Err(QuantityError::DivideByZero));
    assert_eq!(Power::from_micro_watts(5) / 0i64, Err(QuantityError::DivideByZero));
    assert_eq!(Voltage::from_micro_volts(5) / 0u64, Err(QuantityError::DivideByZero));
    assert_eq!(Voltage::from_micro_volts(5) / 0i64, Err(QuantityError::DivideByZero));
    assert_eq!(Current::from_micro_amps(5).div_float(FloatClass::Zero, Some(1)), Err(QuantityError::DivideByZero));
    assert_eq!(Resistance::from_milli_ohms(5).div_float(FloatClass::Zero, None), Err(QuantityError::DivideByZero));
    assert_eq!(Power::from_micro_watts(5).div_float(FloatClass::Zero, None), Err(QuantityError::DivideByZero));
    assert_eq!(Voltage::from_micro_volts(5).div_float(FloatClass::Zero, Some(0)), Err(QuantityError::DivideByZero));
}

#[test]
fn float_guards() {
    let c = Current::from_micro_amps(10);
    assert_eq!(c.mul_float(FloatClass::Infinite, Some(1)), Err(QuantityError::InfiniteOperand));
    assert_eq!(c.mul_float(FloatClass::Nan, Some(1)), Err(QuantityError::NanOperand));
    assert_eq!(c.mul_float(FloatClass::Negative, Some(1)), Err(QuantityError::NegativeOperand));
    assert_eq!(c.mul_float(FloatClass::Positive, Some(25)).unwrap().micro_amps(), 25);
    assert_eq!(c.mul_float(FloatClass::Positive, None), Err(QuantityError::Overflow));
    assert_eq!(c.div_float(FloatClass::Infinite, Some(0)), Err(QuantityError::InfiniteOperand));
    assert_eq!(c.div_float(FloatClass::Nan, Some(0)), Err(QuantityError::NanOperand));
    assert_eq!(c.div_float(FloatClass::Negative, Some(0)), Err(QuantityError::NegativeOperand));
    assert_eq!(c.div_float(FloatClass::Positive, Some(4)).unwrap().micro_amps(), 4);
    let v = Voltage::from_micro_volts(10);
    assert_eq!(v.mul_float(FloatClass::Negative, Some(-25)).unwrap().micro_volts(), -25);
    assert_eq!(v.mul_float(FloatClass::Nan, Some(1)), Err(QuantityError::NanOperand));
    assert_eq!(v.div_float(FloatClass::Negative, Some(-4)).unwrap().micro_volts(), -4);
    assert_eq!(v.div_float(FloatClass::Infinite, Some(0)), Err(QuantityError::InfiniteOperand));
    assert_eq!(v.div_float(FloatClass::Positive, None), Err(QuantityError::Overflow));
}

#[test]
fn times_zero_float_is_zero() {
    assert_eq!(Current::from_micro_amps(u64::MAX).mul_float(FloatClass::Zero, None).unwrap(), Current::zero());
    assert_eq!(Resistance::from_milli_ohms(u64::MAX).mul_float(FloatClass::Zero, None).unwrap(), Resistance::zero());
    assert_eq!(Power::from_micro_watts(u64::MAX).mul_float(FloatClass::Zero, Some(9)).unwrap(), Power::zero());
    assert_eq!(Voltage::from_micro_volts(i64::MIN).mul_float(FloatClass::Zero, None).unwrap(), Voltage::zero());
}

#[test]
fn constructing_from_negative_float() {
    assert_eq!(Current::from_float_parts(FloatClass::Negative, Some(0)), Err(QuantityError::NegativeOperand));
    assert_eq!(Resistance::from_float_parts(FloatClass::Negative, None), Err(QuantityError::NegativeOperand));
    assert_eq!(Power::from_float_parts(FloatClass::Negative, Some(3)), Err(QuantityError::NegativeOperand));
    let v = Voltage::from_float_parts(FloatClass::Negative, Some(-3_300_000)).unwrap();
    assert_eq!(v.micro_volts(), -3_300_000);
    assert!(v.is_negative());
}

#[test]
fn constructing_from_float() {
    assert_eq!(Current::from_float_parts(FloatClass::Positive, Some(3_200_000)).unwrap().micro_amps(), 3_200_000);
    assert_eq!(Current::from_float_parts(FloatClass::Zero, Some(0)).unwrap(), Current::zero());
    assert_eq!(Current::from_float_parts(FloatClass::Nan, Some(1)), Err(QuantityError::NanOperand));
    assert_eq!(Resistance::from_float_parts(FloatClass::Infinite, Some(1)), Err(QuantityError::InfiniteOperand));
    assert_eq!(Power::from_float_parts(FloatClass::Positive, None), Err(QuantityError::Overflow));
    assert_eq!(Voltage::from_float_parts(FloatClass::Infinite, Some(1)), Err(QuantityError::InfiniteOperand));
    assert_eq!(Voltage::from_float_parts(FloatClass::Nan, Some(1)), Err(QuantityError::NanOperand));
    assert_eq!(Voltage::from_float_parts(FloatClass::Positive, None), Err(QuantityError::Overflow));
}

#[test]
fn zero_and_is_zero() {
    assert!(Current::zero().is_zero());
    assert!(!Current::from_micro_amps(1).is_zero());
    assert!(Resistance::zero().is_zero());
    assert!(Power::zero().is_zero());
    assert!(Voltage::zero().is_zero());
    assert!(!Voltage::from_micro_volts(-1).is_zero());
}

#[test]
fn voltage_sign() {
    let v = Voltage::from_micro_volts(-5);
    assert!(v.is_negative() && !v.is_positive());
    assert!(Voltage::zero().is_positive() && !Voltage::zero().is_negative());
    assert_eq!(v.abs().unwrap().micro_volts(), 5);
    assert_eq!(Voltage::from_micro_volts(5).abs().unwrap().micro_volts(), 5);
    assert_eq!(v.invert().unwrap().micro_volts(), 5);
    assert_eq!(Voltage::from_micro_volts(5).invert().unwrap().micro_volts(), -5);
    assert_eq!(Voltage::from_micro_volts(i64::MAX).invert().unwrap().micro_volts(), -i64::MAX);
    assert_eq!(Voltage::from_micro_volts(i64::MIN).abs(), Err(QuantityError::Overflow));
    assert_eq!(Voltage::from_micro_volts(i64::MIN).invert(), Err(QuantityError::Overflow));
}

#[test]
fn narrow_integer_scale_factors() {
    let c = Current::from_micro_amps(100);
    assert_eq!((c * 3u8).unwrap().micro_amps(), 300);
    assert_eq!((c * 3u16).unwrap().micro_amps(), 300);
    assert_eq!((c * 3u32).unwrap().micro_amps(), 300);
    assert_eq!((c * 3i8).unwrap().micro_amps(), 300);
    assert_eq!((c * 3i16).unwrap().micro_amps(), 300);
    assert_eq!((c * 3i32).unwrap().micro_amps(), 300);
    assert_eq!(c * -3i8, Err(QuantityError::NegativeOperand));
    assert_eq!(c / 0u8, Err(QuantityError::DivideByZero));
    assert_eq!(c / -2i16, Err(QuantityError::NegativeOperand));
    assert_eq!((c / 3u32).unwrap().micro_amps(), 33);
    assert_eq!(Resistance::from_milli_ohms(u64::MAX) * 2u32, Err(QuantityError::Overflow));
    assert_eq!((Power::from_micro_watts(9) / 2i32).unwrap().micro_watts(), 4);
    let v = Voltage::from_micro_volts(-7);
    assert_eq!((v * -2i8).unwrap().micro_volts(), 14);
    assert_eq!((v / 2u16).unwrap().micro_volts(), -3);
    assert_eq!((v / -2i32).unwrap().micro_volts(), 3);
    assert_eq!(v / 0i32, Err(QuantityError::DivideByZero));
}

#[test]
fn narrow_integer_short_hands() {
    assert_eq!(100u8.milli_amps().unwrap().micro_amps(), 100_000);
    assert_eq!(5u16.amps().unwrap().micro_amps(), 5_000_000);
    assert_eq!(220u32.ohms().unwrap().milli_ohms(), 220_000);
    assert_eq!(4u8.kilo_ohms().unwrap().milli_ohms(), 4_000_000);
    assert_eq!(3u32.watts().unwrap().micro_watts(), 3_000_000);
    assert_eq!(7u16.micro_watts().micro_watts(), 7);
    assert_eq!((-3i8).volts().unwrap().micro_volts(), -3_000_000);
    assert_eq!(12i16.milli_volts().unwrap().micro_volts(), 12_000);
    assert_eq!((-1i32).kilo_volts().unwrap().micro_volts(), -1_000_000_000);
    assert_eq!(u32::MAX.micro_volts().micro_volts(), u32::MAX as i64);
    assert_eq!(9u8.volts().unwrap().micro_volts(), 9_000_000);
}
