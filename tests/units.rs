use time_elapsed::units::{
    get_unit_of_measurement, get_units_of_measurement, nanos_to_unit_of_msr, nanos_to_units_of_msr, Unit,
};

#[test]
fn unit_cascade_boundaries() {
    assert_eq!(get_unit_of_measurement(0), Unit::Microseconds);
    assert_eq!(get_unit_of_measurement(3_999_999), Unit::Microseconds);
    assert_eq!(get_unit_of_measurement(4_000_000), Unit::Milliseconds);
    assert_eq!(get_unit_of_measurement(14_999_999_999), Unit::Milliseconds);
    assert_eq!(get_unit_of_measurement(15_000_000_000), Unit::Seconds);
    assert_eq!(get_unit_of_measurement(299_999_999_999), Unit::Seconds);
    assert_eq!(get_unit_of_measurement(300_000_000_000), Unit::Minutes);
    assert_eq!(get_unit_of_measurement(539_999_999_999), Unit::Minutes);
    assert_eq!(get_unit_of_measurement(540_000_000_000), Unit::Hours);
    assert_eq!(get_unit_of_measurement(15_000_000_000 * 4), Unit::Seconds);
    assert_eq!(get_unit_of_measurement(u128::MAX), Unit::Hours);
}

#[test]
fn between_one_and_four_ms_stays_in_microseconds() {
    assert_eq!(get_unit_of_measurement(2_103_000), Unit::Microseconds);
}

#[test]
fn conversion_truncates() {
    assert_eq!(nanos_to_unit_of_msr(1_500, Unit::Microseconds), 1);
    assert_eq!(nanos_to_unit_of_msr(1_999_999, Unit::Milliseconds), 1);
    assert_eq!(nanos_to_unit_of_msr(59_999_999_999, Unit::Minutes), 0);
    assert_eq!(nanos_to_unit_of_msr(7_200_000_000_000, Unit::Hours), 2);
    assert_eq!(nanos_to_unit_of_msr(12_345, Unit::Nanoseconds), 12_345);
}

#[test]
fn dual_unit_pairing() {
    assert_eq!(get_units_of_measurement(5_000_000), [Unit::Milliseconds, Unit::Microseconds]);
    assert_eq!(get_units_of_measurement(600_000_000_000), [Unit::Hours, Unit::Minutes]);
    assert_eq!(get_units_of_measurement(10), [Unit::Microseconds, Unit::Nanoseconds]);
    assert_eq!(get_units_of_measurement(20_000_000_000), [Unit::Seconds, Unit::Milliseconds]);
    assert_eq!(get_units_of_measurement(400_000_000_000), [Unit::Minutes, Unit::Seconds]);
}

#[test]
fn dual_conversion_is_independent() {
    assert_eq!(nanos_to_units_of_msr(202_271_000, Unit::Milliseconds), [202, 202_271]);
    assert_eq!(nanos_to_units_of_msr(1_204, Unit::Microseconds), [1, 1_204]);
    assert_eq!(nanos_to_units_of_msr(7_260_000_000_000, Unit::Hours), [2, 121]);
    assert_eq!(nanos_to_units_of_msr(90_000_000_000, Unit::Minutes), [1, 90]);
    assert_eq!(nanos_to_units_of_msr(5, Unit::Nanoseconds), [5, 5]);
}

#[test]
fn unit_labels_and_factors() {
    assert_eq!(Unit::Nanoseconds.label(), "ns");
    assert_eq!(Unit::Microseconds.label(), "μs");
    assert_eq!(Unit::Milliseconds.label(), "ms");
    assert_eq!(Unit::Seconds.label(), "s");
    assert_eq!(Unit::Minutes.label(), "min");
    assert_eq!(Unit::Hours.label(), "hrs");
    assert_eq!(Unit::Hours.nanos_per_unit(), 3_600_000_000_000);
    assert_eq!(Unit::Minutes.finer(), Unit::Seconds);
    assert_eq!(Unit::Nanoseconds.finer(), Unit::Nanoseconds);
}
