//! Tests for measurement units.

use denidom::units::MeasureUnit;

#[test]
fn test_parse_units() {
    assert_eq!(MeasureUnit::from_str_ru("м²"), Some(MeasureUnit::SquareMeter));
    assert_eq!(MeasureUnit::from_str_ru("100 м²"), Some(MeasureUnit::SquareMeter100));
    assert_eq!(MeasureUnit::from_str_ru("м³"), Some(MeasureUnit::CubicMeter));
    assert_eq!(MeasureUnit::from_str_ru("т"), Some(MeasureUnit::Ton));
    assert_eq!(MeasureUnit::from_str_ru("чел-ч"), Some(MeasureUnit::ManHour));
}

#[test]
fn test_unit_display() {
    assert_eq!(MeasureUnit::SquareMeter100.abbreviation(), "100 м²");
    assert_eq!(MeasureUnit::CubicMeter.abbreviation(), "м³");
}

#[test]
fn test_factor() {
    assert_eq!(MeasureUnit::SquareMeter100.factor(), 100);
    assert_eq!(MeasureUnit::SquareMeter.factor(), 1);
}

#[test]
fn test_parse_units_trims_and_lowercases() {
    assert_eq!(MeasureUnit::from_str_ru("  КГ "), Some(MeasureUnit::Kilogram));
    assert_eq!(MeasureUnit::from_str_ru("КОМПЛЕКТ"), Some(MeasureUnit::Kit));
    assert_eq!(MeasureUnit::from_str_ru("что-то другое"), None);
}

#[test]
fn test_unit_full_names() {
    assert_eq!(MeasureUnit::SquareMeter.full_name(), "квадратный метр");
    assert_eq!(MeasureUnit::ManHour.full_name(), "человеко-час");
    let custom = MeasureUnit::Other("бочка".to_string());
    assert_eq!(custom.abbreviation(), "бочка");
    assert_eq!(custom.full_name(), "бочка");
}

#[test]
fn test_unit_kind_predicates() {
    assert!(MeasureUnit::Hectare.is_area());
    assert!(!MeasureUnit::Hectare.is_volume());
    assert!(MeasureUnit::Liter.is_volume());
    assert!(MeasureUnit::Shift.is_time());
    assert!(!MeasureUnit::Meter.is_area());
    assert_eq!(MeasureUnit::default(), MeasureUnit::Unit);
}
