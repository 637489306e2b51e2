//! Tests for estimate coefficients.

use denidom::coefficients::{cramped_coefficients, temperature_zones, Coefficients};

#[test]
fn test_coefficients_combined() {
    let mut coef = Coefficients::default();
    coef.index = 85_000; // 8.50
    coef.winter = Some(10_300); // 1.03

    let combined = coef.combined();
    // 8.50 * 1.03 = 8.755
    assert!(combined > 87_500);
}

#[test]
fn test_custom_coefficient() {
    let mut coef = Coefficients::default();
    coef.add_custom(
        "Работа в ночное время".to_string(),
        12_000, // 1.20
        Some("Приказ №123".to_string()),
    );

    assert_eq!(coef.custom.len(), 1);
    assert_eq!(coef.combined(), 12_000);
}

#[test]
fn test_combined_exact_value() {
    let mut coef = Coefficients::default();
    coef.index = 85_000; // 8.50
    coef.winter = Some(10_300); // 1.03
    assert_eq!(coef.combined(), 87_550); // 8.755 exactly
}

#[test]
fn test_combined_all_standard_and_inactive_custom() {
    let mut coef = Coefficients::default();
    coef.index = 20_000; // 2.0
    coef.winter = Some(15_000); // 1.5 -> 3.0
    coef.cramped = Some(11_000); // 1.1 -> 3.3
    coef.regional = Some(10_000); // 1.0 -> 3.3
    coef.height = Some(20_000); // 2.0 -> 6.6
    coef.add_custom("Активный".to_string(), 20_000, None); // 2.0 -> 13.2
    coef.add_custom("Выключенный".to_string(), 99_000, None);
    coef.custom[1].is_active = false;
    assert_eq!(coef.combined(), 132_000);
}

#[test]
fn test_temperature_zones_table() {
    let zones = temperature_zones();
    assert_eq!(zones.len(), 12);
    assert_eq!(zones[0], ("Краснодарский край", 1));
    assert_eq!(zones[11], ("Чукотка", 8));
}

#[test]
fn test_cramped_coefficients_table() {
    let conditions = cramped_coefficients();
    assert_eq!(conditions.len(), 4);
    assert_eq!(conditions[0].code, "К1");
    assert_eq!(conditions[0].coefficient, 11_500); // 1.15
    assert_eq!(conditions[3].code, "К4");
    assert_eq!(conditions[3].coefficient, 10_800); // 1.08
}
