use wattkit::error::IOReportError;
use wattkit::units::{read_wattage, EnergyUnit};

fn watts(raw: i64, unit: EnergyUnit, duration: u64) -> f64 {
    let power = read_wattage(raw, &unit, duration);
    power.numerator() as f64 / power.denominator() as f64
}

#[test]
fn nanojoules_normalize_to_millijoules() {
    assert_eq!(EnergyUnit::NanoJoules.to_millijoules(2_000_000), 2);
}

#[test]
fn microjoules_normalize_to_millijoules() {
    assert_eq!(EnergyUnit::MicroJoules.to_millijoules(5_000), 5);
}

#[test]
fn millijoules_stay_as_they_are() {
    assert_eq!(EnergyUnit::MilliJoules.to_millijoules(7), 7);
}

#[test]
fn normalization_drops_fractions_of_a_millijoule() {
    assert_eq!(EnergyUnit::NanoJoules.to_millijoules(1_999_999), 1);
    assert_eq!(EnergyUnit::MicroJoules.to_millijoules(999), 0);
    assert_eq!(EnergyUnit::MilliJoules.to_millijoules(0), 0);
}

#[test]
fn negative_readings_count_as_zero() {
    assert_eq!(EnergyUnit::MilliJoules.to_millijoules(-5), 0);
    assert_eq!(EnergyUnit::NanoJoules.to_millijoules(i64::MIN), 0);
    let power = read_wattage(-1, &EnergyUnit::MilliJoules, 1000);
    assert_eq!(power.numerator(), 0);
}

#[test]
fn largest_reading_normalizes_without_loss() {
    assert_eq!(EnergyUnit::MilliJoules.to_millijoules(i64::MAX), i64::MAX as u128);
    assert_eq!(EnergyUnit::MicroJoules.to_millijoules(i64::MAX), (i64::MAX / 1_000) as u128);
}

#[test]
fn the_three_labels_parse() {
    assert_eq!(EnergyUnit::try_from("mJ"), Ok(EnergyUnit::MilliJoules));
    assert_eq!(EnergyUnit::try_from("uJ"), Ok(EnergyUnit::MicroJoules));
    assert_eq!(EnergyUnit::try_from("nJ"), Ok(EnergyUnit::NanoJoules));
}

#[test]
fn any_other_label_is_an_invalid_unit() {
    assert_eq!(
        EnergyUnit::try_from("kJ"),
        Err(IOReportError::InvalidEnergyUnit("kJ".to_string()))
    );
    assert_eq!(EnergyUnit::try_from(""), Err(IOReportError::InvalidEnergyUnit(String::new())));
    assert_eq!(
        EnergyUnit::try_from("mJ "),
        Err(IOReportError::InvalidEnergyUnit("mJ ".to_string()))
    );
    assert_eq!(
        EnergyUnit::try_from("MJ"),
        Err(IOReportError::InvalidEnergyUnit("MJ".to_string()))
    );
    assert_eq!(
        EnergyUnit::try_from("μJ"),
        Err(IOReportError::InvalidEnergyUnit("μJ".to_string()))
    );
}

#[test]
fn units_show_their_symbols() {
    assert_eq!(EnergyUnit::MilliJoules.symbol(), "mJ");
    assert_eq!(EnergyUnit::MicroJoules.symbol(), "μJ");
    assert_eq!(EnergyUnit::NanoJoules.symbol(), "nJ");
}

#[test]
fn a_joule_per_second_is_a_watt() {
    assert_eq!(watts(1000, EnergyUnit::MilliJoules, 1000), 1.0);
}

#[test]
fn half_a_joule_in_half_a_second_is_a_watt() {
    assert_eq!(watts(500, EnergyUnit::MilliJoules, 500), 1.0);
}

#[test]
fn wattage_divides_by_the_units_in_a_joule() {
    let power = read_wattage(3, &EnergyUnit::MilliJoules, 7);
    assert_eq!((power.numerator(), power.denominator()), (3_000, 7_000));
    let power = read_wattage(3, &EnergyUnit::MicroJoules, 7);
    assert_eq!((power.numerator(), power.denominator()), (3_000, 7_000_000));
    let power = read_wattage(3, &EnergyUnit::NanoJoules, 7);
    assert_eq!((power.numerator(), power.denominator()), (3_000, 7_000_000_000));
    assert_eq!(watts(2_000_000, EnergyUnit::MicroJoules, 1000), 2.0);
    assert_eq!(watts(3_000_000_000, EnergyUnit::NanoJoules, 2000), 1.5);
}

#[test]
fn wattage_floors_the_duration_at_one_millisecond() {
    let zero = read_wattage(5, &EnergyUnit::MilliJoules, 0);
    let one = read_wattage(5, &EnergyUnit::MilliJoules, 1);
    assert_eq!(zero, one);
    assert_eq!(zero.denominator(), 1_000);
    assert_eq!(watts(5, EnergyUnit::MilliJoules, 0), 5.0);
}

#[test]
fn wattage_holds_the_largest_inputs() {
    let power = read_wattage(i64::MAX, &EnergyUnit::NanoJoules, u64::MAX);
    assert_eq!(power.numerator(), i64::MAX as u128 * 1_000);
    assert_eq!(power.denominator(), u64::MAX as u128 * 1_000_000_000);
}

#[test]
fn report_errors_have_messages() {
    assert_eq!(
        IOReportError::PropertyError("AppleARMIODevice".to_string()).message(),
        "Failed to get properties for AppleARMIODevice"
    );
    assert_eq!(IOReportError::ChannelError.message(), "Failed to get channels");
    assert_eq!(IOReportError::SubscriptionError.message(), "Failed to create subscription");
    assert_eq!(
        IOReportError::InvalidEnergyUnit("kJ".to_string()).message(),
        "Invalid energy unit: kJ"
    );
}
