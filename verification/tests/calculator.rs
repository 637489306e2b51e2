//! Tests for the core calculator.

use denidom::calculator::{
    calculate_totals, FastCalculationSettings, FastCalculator,
};
use denidom::estimate::{CalculationSettings, EstimateItem, UnitCosts};
use denidom::units::MeasureUnit;

fn create_test_item(quantity: i64, direct: i64, labor: i64) -> EstimateItem {
    let mut item = EstimateItem::new(
        "TEST-001".to_string(),
        "Test item".to_string(),
        MeasureUnit::SquareMeter,
        quantity,
    );
    item.unit_costs = UnitCosts::new(
        direct,
        labor,
        labor * 3 / 10,
        direct / 2,
        direct / 5,
    );
    item
}

#[test]
fn test_fast_calculator() {
    let items: Vec<EstimateItem> = (0..100)
        .map(|i| create_test_item(100_000, (1000 + i as i64) * 10_000, 3_000_000))
        .collect();

    let refs: Vec<&EstimateItem> = items.iter().collect();
    let calc = FastCalculator::from_items(&refs);
    let settings = FastCalculationSettings::default();

    let totals = calc.calculate_totals(&settings);

    assert!(totals.total > 0);
    assert!(totals.direct_costs > 0);
    assert!(totals.overhead > 0);
}

#[test]
fn test_calculate_totals_over_items() {
    // one item: quantity 10, direct 1000, labor 300, machine operator
    // 100, materials 500, machines 100, default settings
    let mut item = EstimateItem::new(
        "A-1".to_string(),
        "Работа".to_string(),
        MeasureUnit::Unit,
        100_000,
    );
    item.unit_costs = UnitCosts::new(10_000_000, 3_000_000, 1_000_000, 5_000_000, 1_000_000);
    let items_vec = vec![item];
    let refs: Vec<&EstimateItem> = items_vec.iter().collect();
    let settings = CalculationSettings::default();

    let totals = calculate_totals(&refs, &settings);

    assert_eq!(totals.direct_costs, 100_000_000); // 10000.00
    assert_eq!(totals.labor_costs, 30_000_000); // 3000.00
    assert_eq!(totals.machine_operator_costs, 10_000_000); // 1000.00
    assert_eq!(totals.overhead, 4_800_000); // 480.00 = 4000 * 0.12
    assert_eq!(totals.profit, 3_200_000); // 320.00 = 4000 * 0.08
    assert_eq!(totals.subtotal, 108_000_000); // 10800.00
    assert_eq!(totals.vat, 21_600_000); // 2160.00
    assert_eq!(totals.total, 129_600_000); // 12960.00
}

#[test]
fn test_fast_calculator_columns() {
    let items: Vec<EstimateItem> = (0..3)
        .map(|i| create_test_item((i as i64 + 1) * 10_000, 10_000_000, 3_000_000))
        .collect();
    let refs: Vec<&EstimateItem> = items.iter().collect();
    let calc = FastCalculator::from_items(&refs);

    assert_eq!(calc.len(), 3);
    assert!(!calc.is_empty());
    assert_eq!(calc.quantities(), &vec![10_000, 20_000, 30_000]);
    assert_eq!(calc.direct_costs(), &vec![10_000_000; 3]);
    assert_eq!(calc.labor_costs(), &vec![3_000_000; 3]);
    assert_eq!(calc.machine_op_costs(), &vec![900_000; 3]);
    assert_eq!(calc.material_costs(), &vec![5_000_000; 3]);
    assert_eq!(calc.machine_costs(), &vec![2_000_000; 3]);

    let empty_refs: Vec<&EstimateItem> = Vec::new();
    let empty_calc = FastCalculator::from_items(&empty_refs);
    assert!(empty_calc.is_empty());
}

#[test]
fn test_fast_totals_to_estimate_totals() {
    let items: Vec<EstimateItem> =
        vec![create_test_item(100_000, 10_000_000, 3_000_000)];
    let refs: Vec<&EstimateItem> = items.iter().collect();
    let calc = FastCalculator::from_items(&refs);
    let fast = calc.calculate_totals(&FastCalculationSettings::default());
    let estimate_totals = fast.to_estimate_totals();

    assert_eq!(estimate_totals.direct_costs, fast.direct_costs);
    assert_eq!(estimate_totals.machine_operator_costs, fast.machine_op_costs);
    assert_eq!(estimate_totals.total, fast.total);
}
