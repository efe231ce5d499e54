use ohms::{Current, QuantityError, Resistance, Voltage};

fn current_through(micro_volts: i64, milli_ohms: u64) -> Result<Current, QuantityError> {
    Voltage::from_micro_volts(micro_volts) / Resistance::from_milli_ohms(milli_ohms)
}

#[test]
fn five_volts_over_hundred_ohms() {
    let c = current_through(5_000_000, 100_000).unwrap();
    assert_eq!(c.micro_amps(), 50_000);
}

#[test]
fn negative_five_volts_over_hundred_ohms() {
    let c = current_through(-5_000_000, 100_000).unwrap();
    assert_eq!(c.micro_amps(), 50_000);
}

#[test]
fn three_point_three_volts_over_four_point_seven_kilohms() {
    let c = current_through(3_300_000, 4_700_000).unwrap();
    assert_eq!(c.micro_amps(), 702);
}

#[test]
fn voltage_over_zero_resistance() {
    assert_eq!(current_through(5_000_000, 0), Err(QuantityError::ZeroResistance));
    assert_eq!(current_through(0, 0), Err(QuantityError::ZeroResistance));
}

#[test]
fn current_too_large_for_its_storage() {
    // |i64::MIN| * 1000 / 1 does not fit a u64 count of microamps.
    assert_eq!(current_through(i64::MIN, 1), Err(QuantityError::Overflow));
    // The widened intermediate keeps this one in range.
    let c = current_through(i64::MAX, 1000).unwrap();
    assert_eq!(c.micro_amps(), i64::MAX as u64);
}

#[test]
fn current_times_resistance() {
    let cases: [(u64, u64, i64); 2] = [(25_000, 75_000, 1_875_000), (39_000, 162_000, 6_318_000)];
    for (micro_amps, milli_ohms, expected) in cases {
        let v = Current::from_micro_amps(micro_amps) * Resistance::from_milli_ohms(milli_ohms);
        assert_eq!(v.unwrap().micro_volts(), expected);
    }
}

#[test]
fn resistance_times_current() {
    let cases: [(u64, u64, i64); 2] = [(25_000, 75_000, 1_875_000), (39_000, 162_000, 6_318_000)];
    for (micro_amps, milli_ohms, expected) in cases {
        let v = Resistance::from_milli_ohms(milli_ohms) * Current::from_micro_amps(micro_amps);
        assert_eq!(v.unwrap().micro_volts(), expected);
    }
}

#[test]
fn current_times_resistance_rounds_down() {
    // 3 μA across 1.5 Ω is 4.5 μV.
    let v = Current::from_micro_amps(3) * Resistance::from_milli_ohms(1_500);
    assert_eq!(v.unwrap().micro_volts(), 4);
}

#[test]
fn current_times_resistance_overflow() {
    let v = Current::from_micro_amps(u64::MAX) * Resistance::from_milli_ohms(u64::MAX);
    assert_eq!(v, Err(QuantityError::Overflow));
    // The product itself must fit a u64, even where the scaled-down voltage would.
    let v = Current::from_micro_amps(1 << 32) * Resistance::from_milli_ohms(1 << 32);
    assert_eq!(v, Err(QuantityError::Overflow));
    let v = Resistance::from_milli_ohms(1 << 32) * Current::from_micro_amps(1 << 32);
    assert_eq!(v, Err(QuantityError::Overflow));
    // The largest product that fits.
    let v = Current::from_micro_amps(u64::MAX) * Resistance::from_milli_ohms(1);
    assert_eq!(v.unwrap().micro_volts(), (u64::MAX / 1000) as i64);
}

#[test]
fn voltage_over_current() {
    let cases: [(i64, u64, u64); 4] = [
        (1_875_000, 25_000, 75_000),
        (-1_875_000, 25_000, 75_000),
        (6_318_000, 39_000, 162_000),
        (-6_318_000, 39_000, 162_000),
    ];
    for (micro_volts, micro_amps, expected) in cases {
        let r = Voltage::from_micro_volts(micro_volts) / Current::from_micro_amps(micro_amps);
        assert_eq!(r.unwrap().milli_ohms(), expected);
    }
}

#[test]
fn voltage_over_zero_current() {
    let r = Voltage::from_micro_volts(1_000) / Current::zero();
    assert_eq!(r, Err(QuantityError::ZeroCurrent));
}

#[test]
fn voltage_over_current_overflow() {
    let r = Voltage::from_micro_volts(i64::MAX) / Current::from_micro_amps(1);
    assert_eq!(r, Err(QuantityError::Overflow));
}

#[test]
fn ohm_round_trip_within_rounding() {
    let cases: [(i64, u64); 5] = [
        (5_000_000, 100_000),
        (-3_300_000, 4_700_000),
        (999, 1_000_000),
        (123_456_789, 333),
        (-1, 1),
    ];
    for (micro_volts, milli_ohms) in cases {
        let v = Voltage::from_micro_volts(micro_volts);
        let r = Resistance::from_milli_ohms(milli_ohms);
        let i = (v / r).unwrap();
        let w = (i * r).unwrap().micro_volts() as i128;
        let a = (micro_volts as i128).abs();
        assert!(w <= a);
        assert!((a - w) * 1000 < milli_ohms as i128 + 1000);
    }
}

#[test]
fn resistance_times_two_at_large_counts() {
    let r = Resistance::from_milli_ohms(u32::MAX as u64);
    assert_eq!((r * 2u64).unwrap().milli_ohms(), 8_589_934_590);
    let r = Resistance::from_milli_ohms(u64::MAX);
    assert_eq!(r * 2u64, Err(QuantityError::Overflow));
}
