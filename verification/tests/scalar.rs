//! Tests for the scalar reduction kernels.

use denidom::scalar::{
    calculate_items_scalar, calculate_totals_scalar, dot_product_scalar, fast_sum_scalar,
};
use denidom::types::{CalculationSettings, ItemData, UnitCostsData};

fn create_test_items(count: usize) -> Vec<ItemData> {
    (0..count)
        .map(|i| ItemData {
            quantity: (10 + i as i64) * 10_000,
            unit_costs: UnitCostsData {
                direct: (1000 + i as i64 * 10) * 10_000,
                labor: 300 * 10_000,
                machine_operator: 100 * 10_000,
                materials: 500 * 10_000,
                machines: 100 * 10_000,
            },
        })
        .collect()
}

#[test]
fn test_calculate_totals_scalar() {
    let items = create_test_items(100);
    let settings = CalculationSettings::default();

    let totals = calculate_totals_scalar(&items, &settings);

    assert!(totals.total > 0);
    assert!(totals.direct_costs > 0);
    assert!(totals.overhead > 0);
    assert!(totals.profit > 0);
    assert!(totals.vat > 0);

    // Verify total = subtotal + vat
    let expected_total = totals.subtotal + totals.vat;
    assert!((totals.total - expected_total).abs() < 100);
    assert_eq!(totals.total, expected_total);
}

#[test]
fn test_calculate_items_scalar() {
    let quantities = vec![100_000, 200_000, 300_000, 400_000];
    let unit_costs = vec![1_000_000, 2_000_000, 3_000_000, 4_000_000];
    let coefficients = vec![10_000, 10_000, 10_000, 10_000];
    let mut results = vec![0; 4];

    calculate_items_scalar(&quantities, &unit_costs, &coefficients, &mut results);

    assert_eq!(results[0], 10_000_000); // 1000.0
    assert_eq!(results[1], 40_000_000); // 4000.0
    assert_eq!(results[2], 90_000_000); // 9000.0
    assert_eq!(results[3], 160_000_000); // 16000.0
}

#[test]
fn test_fast_sum_scalar() {
    let data = vec![10_000, 20_000, 30_000, 40_000, 50_000];
    let sum = fast_sum_scalar(&data);
    assert_eq!(sum, 150_000); // 15.0
}

#[test]
fn test_dot_product_scalar() {
    let a = vec![10_000, 20_000, 30_000];
    let b = vec![40_000, 50_000, 60_000];
    let result = dot_product_scalar(&a, &b);
    // 1*4 + 2*5 + 3*6 = 32, at twice the fixed-point scale
    assert_eq!(result, 3_200_000_000);
}

#[test]
fn test_elementwise_truncates_to_shortest() {
    let quantities = vec![100_000, 200_000, 300_000];
    let unit_costs = vec![1_000_000, 2_000_000];
    let coefficients = vec![10_000, 10_000, 10_000];
    let mut results = vec![777, 777, 777, 777];

    calculate_items_scalar(&quantities, &unit_costs, &coefficients, &mut results);

    assert_eq!(results[0], 10_000_000);
    assert_eq!(results[1], 40_000_000);
    // only the first two output slots are touched
    assert_eq!(results[2], 777);
    assert_eq!(results[3], 777);
}
