//! Tests for the estimate data model.

use denidom::estimate::{
    CalculationSettings, Estimate, EstimateItem, EstimateSection, EstimateStatus, UnitCosts,
};
use denidom::units::MeasureUnit;

#[test]
fn test_estimate_creation() {
    let estimate = Estimate::new(
        "Ремонт квартиры".to_string(),
        "г. Москва, ул. Примерная, д. 1".to_string(),
    );

    assert!(estimate.id != 0);
    assert_eq!(estimate.name, "Ремонт квартиры");
    assert_eq!(estimate.status, EstimateStatus::Draft);
}

#[test]
fn test_unit_costs_validation() {
    let costs = UnitCosts::new(
        10_000_000,
        3_000_000,
        1_000_000,
        5_000_000,
        1_000_000,
    );

    assert!(costs.validate());
}

#[test]
fn test_estimate_item_total() {
    let mut item = EstimateItem::new(
        "ФЕР01-01-001-01".to_string(),
        "Разработка грунта".to_string(),
        MeasureUnit::CubicMeter,
        1_000_000,
    );

    item.unit_costs = UnitCosts::new(5_000_000, 2_000_000, 500_000, 2_000_000, 500_000);

    assert_eq!(item.total_direct_cost(), 500_000_000);
}

#[test]
fn test_unit_costs_validation_rejects_gap() {
    // components sum to 900 while direct says 1000: off by far more
    // than a hundredth of a unit
    let costs = UnitCosts::new(10_000_000, 3_000_000, 1_000_000, 4_000_000, 1_000_000);
    assert!(!costs.validate());
    // off by exactly one hundredth: rejected (strict tolerance)
    let edge = UnitCosts::new(10_000_100, 3_000_000, 1_000_000, 5_000_000, 1_000_000);
    assert!(!edge.validate());
    // off by less than one hundredth: accepted
    let close = UnitCosts::new(10_000_099, 3_000_000, 1_000_000, 5_000_000, 1_000_000);
    assert!(close.validate());
}

#[test]
fn test_sections_and_items_count() {
    let mut estimate = Estimate::new("Тест".to_string(), "Объект".to_string());
    let mut first = EstimateSection::new(1, "Раздел 1".to_string());
    first.add_item(EstimateItem::new(
        "A-1".to_string(),
        "Работа 1".to_string(),
        MeasureUnit::Unit,
        10_000,
    ));
    first.add_item(EstimateItem::new(
        "A-2".to_string(),
        "Работа 2".to_string(),
        MeasureUnit::Unit,
        20_000,
    ));
    let mut second = EstimateSection::new(2, "Раздел 2".to_string());
    second.add_item(EstimateItem::new(
        "B-1".to_string(),
        "Работа 3".to_string(),
        MeasureUnit::Unit,
        30_000,
    ));
    estimate.sections.push(first);
    estimate.sections.push(second);

    assert_eq!(estimate.items_count(), 3);
    let all = estimate.all_items();
    assert_eq!(all.len(), 3);
    assert_eq!(all[0].code, "A-1");
    assert_eq!(all[2].code, "B-1");
}

#[test]
fn test_calculation_settings_from_estimate() {
    let estimate = Estimate::new("Тест".to_string(), "Объект".to_string());
    let settings = estimate.calculation_settings();
    assert_eq!(settings.overhead_rate, 1200);
    assert_eq!(settings.profit_rate, 800);
    assert_eq!(settings.vat_rate, 2000);
    assert_eq!(settings.index, 10_000);
    let defaults = CalculationSettings::default();
    assert_eq!(defaults.vat_rate, 2000);
}
