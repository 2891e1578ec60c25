//! Tests of measurement level.


use spss_sav::spss::sav::measurement_level::MeasurementLevel;

#[test]
fn to_byte_canonical_levels() {
    assert_eq!(MeasurementLevel::Unspecified.to_byte(), 0);
    assert_eq!(MeasurementLevel::Nominal.to_byte(), 1);
    assert_eq!(MeasurementLevel::Ordinal.to_byte(), 2);
    assert_eq!(MeasurementLevel::Scale.to_byte(), 3);
}

#[test]
fn to_byte_preserves_unknown() {
    assert_eq!(MeasurementLevel::Unknown(7).to_byte(), 7);
    assert_eq!(MeasurementLevel::Unknown(255).to_byte(), 255);
}
