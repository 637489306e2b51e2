//! Tests for the grouped kernels and dispatch.

use denidom::scalar::calculate_totals_scalar;
use denidom::simd_calc::{
    calculate_estimate_totals, calculate_items, select_kernel, CpuCapabilities, KernelKind,
};
use denidom::types::{CalculationSettings, ItemData, UnitCostsData};

fn create_test_items(count: usize) -> Vec<ItemData> {
    (0..count)
        .map(|i| ItemData {
            quantity: (10 + i as i64) * 10_000,
            unit_costs: UnitCostsData {
                direct: (1000 + i as i64 * 10) * 10_000,
                labor: 300 * 10_000,
                machine_operator: 100 * 10_000,
                materials: 500 * 10_000,
                machines: 100 * 10_000,
            },
        })
        .collect()
}

fn wide_caps() -> CpuCapabilities {
    CpuCapabilities { wide_vectors: true, fused_multiply_add: true, narrow_vectors: false }
}

#[test]
fn test_calculate_estimate_totals() {
    let items = create_test_items(1000);
    let settings = CalculationSettings::default();

    let totals = calculate_estimate_totals(&items, &settings, &wide_caps());

    assert!(totals.total > 0);
    assert!(totals.direct_costs > 0);

    // Verify consistency
    let expected_subtotal = totals.direct_costs + totals.overhead + totals.profit;
    assert!((totals.subtotal - expected_subtotal).abs() < 100);
    assert_eq!(totals.subtotal, expected_subtotal);
}

#[test]
fn test_simd_vs_scalar_consistency() {
    let items = create_test_items(100);
    let settings = CalculationSettings::default();

    let scalar_totals = calculate_totals_scalar(&items, &settings);
    let simd_totals = calculate_estimate_totals(&items, &settings, &wide_caps());

    // With exact integer accumulation the kernels agree exactly, well
    // within the one-currency-unit tolerance the grouped kernels are
    // held to.
    assert!((scalar_totals.total - simd_totals.total).abs() < 10_000);
    assert!((scalar_totals.direct_costs - simd_totals.direct_costs).abs() < 10_000);
    assert_eq!(scalar_totals.total, simd_totals.total);
    assert_eq!(scalar_totals.direct_costs, simd_totals.direct_costs);
}

#[test]
fn test_kernel_selection_policy() {
    let wide = wide_caps();
    let both = CpuCapabilities { wide_vectors: true, fused_multiply_add: true, narrow_vectors: true };
    let narrow = CpuCapabilities {
        wide_vectors: false,
        fused_multiply_add: false,
        narrow_vectors: true,
    };
    let none = CpuCapabilities::none();

    assert_eq!(select_kernel(&wide, 100), KernelKind::Grouped4);
    assert_eq!(select_kernel(&both, 4), KernelKind::Grouped4);
    // below the wide group width, fall through to the narrower tier
    assert_eq!(select_kernel(&both, 3), KernelKind::Grouped2);
    assert_eq!(select_kernel(&narrow, 100), KernelKind::Grouped2);
    // below every group width, or without any capability: scalar
    assert_eq!(select_kernel(&both, 1), KernelKind::Scalar);
    assert_eq!(select_kernel(&none, 100_000), KernelKind::Scalar);
}

#[test]
fn test_grouped_elementwise_matches_scalar() {
    let quantities: Vec<i64> = (1..=11).map(|i| i * 10_000).collect();
    let unit_costs: Vec<i64> = (1..=11).map(|i| i * 20_000).collect();
    let coefficients: Vec<i64> = (1..=11).map(|_| 15_000).collect();
    let mut grouped = vec![0; 11];
    let mut scalar = vec![0; 11];

    calculate_items(&quantities, &unit_costs, &coefficients, &mut grouped, &wide_caps());
    calculate_items(
        &quantities,
        &unit_costs,
        &coefficients,
        &mut scalar,
        &CpuCapabilities::none(),
    );

    assert_eq!(grouped, scalar);
    // 1.0 * 2.0 * 1.5 = 3.0
    assert_eq!(grouped[0], 30_000);
}
