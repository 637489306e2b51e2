//! Scenario and consistency tests across the kernels.

use denidom::error::DeniDomError;
use denidom::fmt::{format_fixed, format_rub_fixed};
use denidom::scalar::calculate_totals_scalar;
use denidom::simd_calc::{
    calculate_totals_grouped2, calculate_totals_grouped4, CpuCapabilities,
};
use denidom::types::{CalculationSettings, CalculationTotals, ItemData, UnitCostsData};

fn uniform_items(count: usize) -> Vec<ItemData> {
    (0..count)
        .map(|_| ItemData {
            quantity: 100_000, // 10.0
            unit_costs: UnitCostsData {
                direct: 10_000_000,          // 1000.0
                labor: 3_000_000,            // 300.0
                machine_operator: 1_000_000, // 100.0
                materials: 5_000_000,        // 500.0
                machines: 1_000_000,         // 100.0
            },
        })
        .collect()
}

fn varied_items(count: usize) -> Vec<ItemData> {
    (0..count)
        .map(|i| {
            let step = (i % 37) as i64;
            ItemData {
                quantity: (1 + step) * 5_000,
                unit_costs: UnitCostsData {
                    direct: (100 + step * 7) * 10_000,
                    labor: (30 + step) * 10_000,
                    machine_operator: (10 + step * 2) * 10_000,
                    materials: (50 + step * 3) * 10_000,
                    machines: (10 + step) * 10_000,
                },
            }
        })
        .collect()
}

fn assert_totals_equal(a: &CalculationTotals, b: &CalculationTotals) {
    assert_eq!(a.direct_costs, b.direct_costs);
    assert_eq!(a.labor_costs, b.labor_costs);
    assert_eq!(a.machine_op_costs, b.machine_op_costs);
    assert_eq!(a.material_costs, b.material_costs);
    assert_eq!(a.machine_costs, b.machine_costs);
    assert_eq!(a.overhead, b.overhead);
    assert_eq!(a.profit, b.profit);
    assert_eq!(a.subtotal, b.subtotal);
    assert_eq!(a.vat, b.vat);
    assert_eq!(a.total, b.total);
}

#[test]
fn scenario_hundred_uniform_items() {
    let items = uniform_items(100);
    let settings = CalculationSettings {
        overhead_rate: 1200, // 0.12
        profit_rate: 800,    // 0.08
        vat_rate: 2000,      // 0.20
        index: 10_000,       // 1.0
    };
    let totals = calculate_totals_scalar(&items, &settings);

    assert_eq!(totals.direct_costs, 10_000_000_000); // 1,000,000.00
    assert_eq!(totals.labor_costs, 3_000_000_000); // 300,000.00
    assert_eq!(totals.machine_op_costs, 1_000_000_000); // 100,000.00
    assert_eq!(totals.material_costs, 5_000_000_000); // 500,000.00
    assert_eq!(totals.machine_costs, 1_000_000_000); // 100,000.00
    assert_eq!(totals.overhead, 480_000_000); // 48,000.00
    assert_eq!(totals.profit, 320_000_000); // 32,000.00
    assert_eq!(totals.subtotal, 10_800_000_000); // 1,080,000.00
    assert_eq!(totals.vat, 2_160_000_000); // 216,000.00
    assert_eq!(totals.total, 12_960_000_000); // 1,296,000.00

    // every vector kernel reproduces the scenario exactly
    assert_totals_equal(&totals, &calculate_totals_grouped4(&items, &settings));
    assert_totals_equal(&totals, &calculate_totals_grouped2(&items, &settings));
}

#[test]
fn cross_kernel_consistency() {
    let settings = CalculationSettings {
        overhead_rate: 1200,
        profit_rate: 800,
        vat_rate: 2000,
        index: 85_000, // 8.5
    };
    for count in [0usize, 1, 3, 4, 5, 999, 10_000] {
        let items = varied_items(count);
        let scalar = calculate_totals_scalar(&items, &settings);
        let grouped4 = calculate_totals_grouped4(&items, &settings);
        let grouped2 = calculate_totals_grouped2(&items, &settings);
        assert_totals_equal(&scalar, &grouped4);
        assert_totals_equal(&scalar, &grouped2);
    }
}

#[test]
fn remainder_lengths_match_scalar() {
    let settings = CalculationSettings::default();
    // lengths k*4 + r for r in 1..=3 exercise the tail loop of the
    // four-wide kernel independently of the full groups
    for count in [5usize, 6, 7, 9, 10, 11] {
        let items = varied_items(count);
        assert_totals_equal(
            &calculate_totals_scalar(&items, &settings),
            &calculate_totals_grouped4(&items, &settings),
        );
        assert_totals_equal(
            &calculate_totals_scalar(&items, &settings),
            &calculate_totals_grouped2(&items, &settings),
        );
    }
}

#[test]
fn empty_input_gives_zero_totals() {
    let items: Vec<ItemData> = Vec::new();
    let settings = CalculationSettings {
        overhead_rate: 1200,
        profit_rate: 800,
        vat_rate: 2000,
        index: 85_000,
    };
    for totals in [
        calculate_totals_scalar(&items, &settings),
        calculate_totals_grouped4(&items, &settings),
        calculate_totals_grouped2(&items, &settings),
    ] {
        assert_eq!(totals.direct_costs, 0);
        assert_eq!(totals.labor_costs, 0);
        assert_eq!(totals.machine_op_costs, 0);
        assert_eq!(totals.material_costs, 0);
        assert_eq!(totals.machine_costs, 0);
        assert_eq!(totals.overhead, 0);
        assert_eq!(totals.profit, 0);
        assert_eq!(totals.subtotal, 0);
        assert_eq!(totals.vat, 0);
        assert_eq!(totals.total, 0);
    }
}

#[test]
fn total_is_subtotal_plus_vat() {
    let settings = CalculationSettings::default();
    for count in [1usize, 8, 33] {
        let items = varied_items(count);
        let totals = calculate_totals_scalar(&items, &settings);
        assert_eq!(totals.total, totals.subtotal + totals.vat);
        assert_eq!(
            totals.subtotal,
            totals.direct_costs + totals.overhead + totals.profit
        );
    }
}

#[test]
fn overhead_and_profit_keep_rate_ratio() {
    let items = uniform_items(100);
    let settings = CalculationSettings::default();
    let totals = calculate_totals_scalar(&items, &settings);
    // overhead / profit == overhead_rate / profit_rate, cross-multiplied
    assert_eq!(
        totals.overhead * (settings.profit_rate as i128),
        totals.profit * (settings.overhead_rate as i128)
    );
}

#[test]
fn probe_fallback_is_scalar() {
    let caps = CpuCapabilities::none();
    assert!(!caps.wide_vectors);
    assert!(!caps.fused_multiply_add);
    assert!(!caps.narrow_vectors);
}

#[test]
fn money_formatting() {
    assert_eq!(format_fixed(12_345), "1.23");
    assert_eq!(format_fixed(12_350), "1.24"); // rounds half away from zero
    assert_eq!(format_fixed(0), "0.00");
    assert_eq!(format_fixed(-12_350), "-1.24");
    assert_eq!(format_fixed(-40), "0.00"); // rounds to zero: no sign
    assert_eq!(format_fixed(12_960_000_000), "1296000.00");
    assert_eq!(format_rub_fixed(12_960_000_000), "1296000.00 ₽");
}

#[test]
fn totals_format_and_summary() {
    let items = uniform_items(100);
    let settings = CalculationSettings::default();
    let totals = calculate_totals_scalar(&items, &settings);
    assert_eq!(totals.format_total_rub(), "1296000.00 ₽");
    let summary = totals.summary();
    assert!(summary.contains("Прямые затраты: 1000000.00 ₽"));
    assert!(summary.contains("НДС 20%: 216000.00 ₽"));
    assert!(summary.contains("ИТОГО: 1296000.00 ₽"));
}

#[test]
fn error_messages() {
    let calc = DeniDomError::Calculation("деление на ноль".to_string());
    assert_eq!(calc.message(), "Calculation error: деление на ноль");
    let not_found = DeniDomError::NotFound("ФЕР99".to_string());
    assert_eq!(not_found.message(), "Not found: ФЕР99");
    let conversion = DeniDomError::UnitConversion {
        from: "м".to_string(),
        to: "кг".to_string(),
    };
    assert_eq!(conversion.message(), "Cannot convert м to кг");
    let io_error = DeniDomError::Io("file gone".to_string());
    assert_eq!(io_error.message(), "IO error: file gone");
    let parse = DeniDomError::Parse("bad row".to_string());
    assert_eq!(parse.message(), "Parse error: bad row");
    let validation = DeniDomError::Validation("empty".to_string());
    assert_eq!(validation.message(), "Validation error: empty");
    let database = DeniDomError::Database("locked".to_string());
    assert_eq!(database.message(), "Database error: locked");
    let serialization = DeniDomError::Serialization("oops".to_string());
    assert_eq!(serialization.message(), "Serialization error: oops");
    let coefficient = DeniDomError::InvalidCoefficient("-1".to_string());
    assert_eq!(coefficient.message(), "Invalid coefficient: -1");
}

#[test]
fn index_scales_category_sums() {
    let items = uniform_items(10);
    let mut settings = CalculationSettings::default();
    settings.index = 85_000; // 8.5
    let totals = calculate_totals_scalar(&items, &settings);
    // 10 items * 10 * 1000 * 8.5 = 850,000.00
    assert_eq!(totals.direct_costs, 8_500_000_000);
}
