//! Tests for the host-embeddable calculator.

use denidom::embed::{
    round_to_cents, version, Calculator, CalculatorItem, CalculatorOptions,
};

#[test]
fn test_calculate_item_total() {
    let calculator = Calculator::new();
    let total = calculator.calculate_item_total(100_000, 1_000_000, 10_000);
    assert_eq!(total, 10_000_000); // 1000.0
}

#[test]
fn test_calculate_item_total_with_coefficient() {
    let calculator = Calculator::new();
    let total = calculator.calculate_item_total(100_000, 1_000_000, 15_000);
    assert_eq!(total, 15_000_000); // 1500.0
}

#[test]
fn test_calculate_estimate() {
    let calculator = Calculator::new();
    let items = vec![CalculatorItem {
        id: "1".to_string(),
        name: "Test".to_string(),
        unit: "шт".to_string(),
        quantity: 100_000,
        price: 1_000_000,
        coefficient: 10_000,
    }];

    let result = calculator.calculate(&items);

    assert_eq!(result.subtotal, 10_000_000); // 1000.0
    assert_eq!(result.overhead, 1_200_000); // 120.0 = 12%
    assert_eq!(result.profit, 896_000); // 89.6 = 8% of 1120
    assert_eq!(result.items_count, 1);
}

#[test]
fn test_round_to_cents() {
    assert_eq!(round_to_cents(12_340), 12_300); // 1.234 -> 1.23
    assert_eq!(round_to_cents(12_350), 12_400); // 1.235 -> 1.24
    assert_eq!(round_to_cents(12_000), 12_000); // 1.2 -> 1.2
}

#[test]
fn test_round_to_cents_negative() {
    assert_eq!(round_to_cents(-12_340), -12_300);
    assert_eq!(round_to_cents(-12_350), -12_400);
    assert_eq!(round_to_cents(0), 0);
}

#[test]
fn test_calculate_without_vat() {
    let mut calculator = Calculator::new();
    let mut options = CalculatorOptions::default();
    options.include_vat = false;
    calculator.set_options(options);

    let items = vec![CalculatorItem {
        id: "1".to_string(),
        name: "Test".to_string(),
        unit: "шт".to_string(),
        quantity: 100_000,
        price: 1_000_000,
        coefficient: 10_000,
    }];
    let result = calculator.calculate(&items);

    assert_eq!(result.vat, 0);
    assert_eq!(result.total, result.subtotal + result.overhead + result.profit);
}

#[test]
fn test_calculate_materials() {
    let calculator = Calculator::new();
    // ratios 0.5 and 2.0 at quantity 10.0
    let ratios = vec![5_000, 20_000];
    let quantities = calculator.calculate_materials(&ratios, 100_000);
    assert_eq!(quantities.len(), 2);
    assert_eq!(quantities[0], 50_000); // 5.0
    assert_eq!(quantities[1], 200_000); // 20.0
}

#[test]
fn test_version() {
    assert_eq!(version(), "0.1.0");
}
