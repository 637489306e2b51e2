//! Host-embeddable calculator.
//!
//! A small, self-contained calculator for interactive front ends: a
//! flat item list with per-item coefficients, options with overhead,
//! profit and VAT rates, and results rounded to whole cents. The
//! host program owns all marshaling; this module holds the verified
//! arithmetic.

use vstd::prelude::*;

use crate::fixed::{
    fp_mul, fp_rescale, lemma_acc_step, lemma_mul_bound, lemma_quot_trunc_bound, FP_SCALE,
};
use crate::fmt::cents_of;
use crate::types::{MAX_AMOUNT, MAX_ITEMS, MAX_RATE};

verus! {

/// One line item of the embedded calculator.
#[derive(Debug, Clone)]
pub struct CalculatorItem {
    /// Item identifier.
    pub id: String,
    /// Name of the item.
    pub name: String,
    /// Unit designation.
    pub unit: String,
    /// Quantity, fixed-point.
    pub quantity: i64,
    /// Price per unit, fixed-point.
    pub price: i64,
    /// Per-item coefficient, fixed-point.
    pub coefficient: i64,
}

/// Options of the embedded calculator.
#[derive(Debug, Clone, Copy)]
pub struct CalculatorOptions {
    /// Overhead rate, fixed-point.
    pub overhead_rate: i64,
    /// Profit rate, fixed-point.
    pub profit_rate: i64,
    /// VAT rate, fixed-point.
    pub vat_rate: i64,
    /// Whether VAT is included in the total.
    pub include_vat: bool,
}

impl Default for CalculatorOptions {
    /// Overhead 12%, profit 8%, VAT 20%, VAT included.
    fn default() -> (r: Self)
        ensures
            r.overhead_rate == 1200,
            r.profit_rate == 800,
            r.vat_rate == 2000,
            r.include_vat,
    {
        Self { overhead_rate: 1200, profit_rate: 800, vat_rate: 2000, include_vat: true }
    }
}

/// Result of an embedded calculation, each amount rounded to whole
/// cents.
#[derive(Debug, Clone, Copy)]
pub struct CalculationResult {
    /// Sum of the item values.
    pub subtotal: i128,
    /// Overhead on the subtotal.
    pub overhead: i128,
    /// Profit on subtotal plus overhead.
    pub profit: i128,
    /// VAT on the base total, zero when VAT is excluded.
    pub vat: i128,
    /// Grand total.
    pub total: i128,
    /// Number of items.
    pub items_count: usize,
}

/// A fixed-point value rounded to the nearest whole cent, half away
/// from zero.
pub open spec fn spec_round_to_cents(v: int) -> int {
    100 * cents_of(v)
}

/// The value of one item: quantity times price times coefficient,
/// each multiplication rescaled.
pub open spec fn item_value(it: CalculatorItem) -> int {
    fp_mul(fp_mul(it.quantity as int, it.price as int), it.coefficient as int)
}

/// Sum of the item values.
pub open spec fn sum_item_values(items: Seq<CalculatorItem>) -> int
    decreases items.len(),
{
    if items.len() == 0 {
        0
    } else {
        sum_item_values(items.drop_last()) + item_value(items.last())
    }
}

/// Largest magnitude of one item value under the range bounds.
pub open spec fn max_item_value() -> int {
    10_000_000_000_000_000_000_000
}

/// Magnitude bounds on the embedded calculator's items.
pub open spec fn embed_items_in_range(items: Seq<CalculatorItem>) -> bool {
    &&& items.len() <= MAX_ITEMS
    &&& forall|i: int|
        0 <= i < items.len() ==> {
            &&& -MAX_AMOUNT <= (#[trigger] items[i]).quantity <= MAX_AMOUNT
            &&& -MAX_AMOUNT <= items[i].price <= MAX_AMOUNT
            &&& -MAX_AMOUNT <= items[i].coefficient <= MAX_AMOUNT
        }
}

/// Magnitude bounds on the options.
pub open spec fn options_in_range(o: CalculatorOptions) -> bool {
    &&& -MAX_RATE <= o.overhead_rate <= MAX_RATE
    &&& -MAX_RATE <= o.profit_rate <= MAX_RATE
    &&& -MAX_RATE <= o.vat_rate <= MAX_RATE
}

/// The unrounded intermediate values of an embedded calculation.
pub open spec fn spec_subtotal(items: Seq<CalculatorItem>) -> int {
    sum_item_values(items)
}

pub open spec fn spec_overhead(items: Seq<CalculatorItem>, o: CalculatorOptions) -> int {
    fp_mul(spec_subtotal(items), o.overhead_rate as int)
}

pub open spec fn spec_profit(items: Seq<CalculatorItem>, o: CalculatorOptions) -> int {
    fp_mul(spec_subtotal(items) + spec_overhead(items, o), o.profit_rate as int)
}

pub open spec fn spec_base_total(items: Seq<CalculatorItem>, o: CalculatorOptions) -> int {
    spec_subtotal(items) + spec_overhead(items, o) + spec_profit(items, o)
}

pub open spec fn spec_vat(items: Seq<CalculatorItem>, o: CalculatorOptions) -> int {
    if o.include_vat {
        fp_mul(spec_base_total(items, o), o.vat_rate as int)
    } else {
        0
    }
}

pub open spec fn spec_total(items: Seq<CalculatorItem>, o: CalculatorOptions) -> int {
    spec_base_total(items, o) + spec_vat(items, o)
}

/// Agreement of a result with the model: every amount is the rounded
/// unrounded value, and the item count is the input length.
pub open spec fn result_matches(
    r: CalculationResult,
    items: Seq<CalculatorItem>,
    o: CalculatorOptions,
) -> bool {
    &&& r.subtotal == spec_round_to_cents(spec_subtotal(items))
    &&& r.overhead == spec_round_to_cents(spec_overhead(items, o))
    &&& r.profit == spec_round_to_cents(spec_profit(items, o))
    &&& r.vat == spec_round_to_cents(spec_vat(items, o))
    &&& r.total == spec_round_to_cents(spec_total(items, o))
    &&& r.items_count == items.len()
}

/// Round a fixed-point value to the nearest whole cent, half away
/// from zero.
pub fn round_to_cents(value: i128) -> (r: i128)
    requires
        value > i128::MIN,
    ensures
        r == spec_round_to_cents(value as int),
{
    let magnitude: u128 = if value >= 0 {
        value as u128
    } else {
        (-value) as u128
    };
    let cents: u128 = (magnitude + 50) / 100;
    proof {
        vstd::arithmetic::div_mod::lemma_div_is_ordered(
            magnitude as int + 50,
            i128::MAX as int + 50,
            100,
        );
    }
    let rounded: u128 = cents * 100;
    if value >= 0 {
        rounded as i128
    } else {
        -(rounded as i128)
    }
}

/// Appending one item extends the value sum by that item's value.
proof fn lemma_sum_values_take_succ(items: Seq<CalculatorItem>, i: int)
    requires
        0 <= i < items.len(),
    ensures
        sum_item_values(items.take(i + 1)) == sum_item_values(items.take(i)) + item_value(
            items[i],
        ),
{
    assert(items.take(i + 1).drop_last() =~= items.take(i));
    assert(items.take(i + 1).last() == items[i]);
}

/// One item's value is bounded under the range bounds.
proof fn lemma_item_value_bound(it: CalculatorItem)
    requires
        -MAX_AMOUNT <= it.quantity <= MAX_AMOUNT,
        -MAX_AMOUNT <= it.price <= MAX_AMOUNT,
        -MAX_AMOUNT <= it.coefficient <= MAX_AMOUNT,
    ensures
        -max_item_value() <= item_value(it) <= max_item_value(),
{
    lemma_mul_bound(it.quantity as int, it.price as int, MAX_AMOUNT as int, MAX_AMOUNT as int);
    lemma_quot_trunc_bound(
        it.quantity as int * it.price as int,
        FP_SCALE as int,
        100_000_000_000_000_000_000,
    );
    assert(100_000_000_000_000_000_000int / (FP_SCALE as int) == 10_000_000_000_000_000int);
    lemma_mul_bound(
        fp_mul(it.quantity as int, it.price as int),
        it.coefficient as int,
        10_000_000_000_000_000,
        MAX_AMOUNT as int,
    );
    lemma_quot_trunc_bound(
        fp_mul(it.quantity as int, it.price as int) * it.coefficient as int,
        FP_SCALE as int,
        100_000_000_000_000_000_000_000_000,
    );
    assert(100_000_000_000_000_000_000_000_000int / (FP_SCALE as int) == max_item_value());
}

/// Compute the value of one item: quantity times price times
/// coefficient, in double-width arithmetic.
fn item_value_exec(quantity: i64, price: i64, coefficient: i64) -> (r: i128)
    requires
        -MAX_AMOUNT <= quantity <= MAX_AMOUNT,
        -MAX_AMOUNT <= price <= MAX_AMOUNT,
        -MAX_AMOUNT <= coefficient <= MAX_AMOUNT,
    ensures
        r == fp_mul(fp_mul(quantity as int, price as int), coefficient as int),
        -max_item_value() <= r <= max_item_value(),
{
    proof {
        lemma_mul_bound(quantity as int, price as int, MAX_AMOUNT as int, MAX_AMOUNT as int);
        lemma_quot_trunc_bound(
            quantity as int * price as int,
            FP_SCALE as int,
            100_000_000_000_000_000_000,
        );
        assert(100_000_000_000_000_000_000int / (FP_SCALE as int) == 10_000_000_000_000_000int);
    }
    let first: i128 = fp_rescale((quantity as i128) * (price as i128));
    proof {
        lemma_mul_bound(
            first as int,
            coefficient as int,
            10_000_000_000_000_000,
            MAX_AMOUNT as int,
        );
        lemma_quot_trunc_bound(
            first as int * coefficient as int,
            FP_SCALE as int,
            100_000_000_000_000_000_000_000_000,
        );
        assert(100_000_000_000_000_000_000_000_000int / (FP_SCALE as int) == max_item_value());
    }
    fp_rescale(first * (coefficient as i128))
}

/// The embedded calculator.
#[derive(Debug, Clone)]
pub struct Calculator {
    /// The current options.
    pub options: CalculatorOptions,
}

impl Calculator {
    /// Create a calculator with the default options.
    pub fn new() -> (r: Calculator)
        ensures
            r.options.overhead_rate == 1200,
            r.options.profit_rate == 800,
            r.options.vat_rate == 2000,
            r.options.include_vat,
    {
        Calculator { options: CalculatorOptions::default() }
    }

    /// Replace the options.
    pub fn set_options(&mut self, options: CalculatorOptions)
        ensures
            final(self).options == options,
    {
        self.options = options;
    }

    /// Calculate over a flat item list: sum the item values, apply
    /// overhead on the subtotal, profit on subtotal plus overhead,
    /// VAT on the base total when included, and round every amount
    /// to whole cents.
    pub fn calculate(&self, items: &Vec<CalculatorItem>) -> (r: CalculationResult)
        requires
            embed_items_in_range(items@),
            options_in_range(self.options),
        ensures
            result_matches(r, items@, self.options),
    {
        let n: usize = items.len();
        let mut subtotal: i128 = 0;
        let mut i: usize = 0;
        while i < n
            invariant
                i <= n,
                n == items@.len(),
                embed_items_in_range(items@),
                subtotal == sum_item_values(items@.take(i as int)),
                -(i as int) * max_item_value() <= subtotal <= (i as int) * max_item_value(),
            decreases n - i,
        {
            let it: &CalculatorItem = &items[i];
            proof {
                lemma_item_value_bound(items@[i as int]);
                lemma_acc_step(
                    subtotal as int,
                    item_value(items@[i as int]),
                    i as int,
                    max_item_value(),
                );
                lemma_sum_values_take_succ(items@, i as int);
                vstd::arithmetic::mul::lemma_mul_inequality(
                    i as int + 1,
                    MAX_ITEMS as int,
                    max_item_value(),
                );
            }
            let value: i128 = item_value_exec(it.quantity, it.price, it.coefficient);
            subtotal = subtotal + value;
            i = i + 1;
        }
        proof {
            assert(items@.take(n as int) =~= items@);
            vstd::arithmetic::mul::lemma_mul_inequality(
                n as int,
                MAX_ITEMS as int,
                max_item_value(),
            );
            crate::fixed::lemma_neg_mul(n as int, max_item_value());
            crate::fixed::lemma_neg_mul(MAX_ITEMS as int, max_item_value());
            lemma_mul_bound(
                subtotal as int,
                self.options.overhead_rate as int,
                10_000_000_000_000_000_000_000_000_000,
                MAX_RATE as int,
            );
            lemma_quot_trunc_bound(
                subtotal as int * self.options.overhead_rate as int,
                FP_SCALE as int,
                10_000_000_000_000_000_000_000_000_000_000_000,
            );
            assert(10_000_000_000_000_000_000_000_000_000_000_000int / (FP_SCALE as int)
                == 1_000_000_000_000_000_000_000_000_000_000int);
        }
        let overhead: i128 = crate::fixed::fixed_mul_wide(
            subtotal,
            self.options.overhead_rate as i128,
        );
        let with_overhead: i128 = subtotal + overhead;
        proof {
            lemma_mul_bound(
                with_overhead as int,
                self.options.profit_rate as int,
                1_010_000_000_000_000_000_000_000_000_000,
                MAX_RATE as int,
            );
            lemma_quot_trunc_bound(
                with_overhead as int * self.options.profit_rate as int,
                FP_SCALE as int,
                1_010_000_000_000_000_000_000_000_000_000_000_000,
            );
            assert(1_010_000_000_000_000_000_000_000_000_000_000_000int / (FP_SCALE as int)
                == 101_000_000_000_000_000_000_000_000_000_000int);
        }
        let profit: i128 = crate::fixed::fixed_mul_wide(
            with_overhead,
            self.options.profit_rate as i128,
        );
        let base_total: i128 = with_overhead + profit;
        proof {
            lemma_mul_bound(
                base_total as int,
                self.options.vat_rate as int,
                102_010_000_000_000_000_000_000_000_000_000,
                MAX_RATE as int,
            );
            lemma_quot_trunc_bound(
                base_total as int * self.options.vat_rate as int,
                FP_SCALE as int,
                102_010_000_000_000_000_000_000_000_000_000_000_000,
            );
            assert(102_010_000_000_000_000_000_000_000_000_000_000_000int / (FP_SCALE as int)
                == 10_201_000_000_000_000_000_000_000_000_000_000int);
        }
        let vat: i128 = if self.options.include_vat {
            crate::fixed::fixed_mul_wide(base_total, self.options.vat_rate as i128)
        } else {
            0
        };
        let total: i128 = base_total + vat;
        CalculationResult {
            subtotal: round_to_cents(subtotal),
            overhead: round_to_cents(overhead),
            profit: round_to_cents(profit),
            vat: round_to_cents(vat),
            total: round_to_cents(total),
            items_count: n,
        }
    }

    /// The rounded value of one item.
    pub fn calculate_item_total(&self, quantity: i64, price: i64, coefficient: i64) -> (r: i128)
        requires
            -MAX_AMOUNT <= quantity <= MAX_AMOUNT,
            -MAX_AMOUNT <= price <= MAX_AMOUNT,
            -MAX_AMOUNT <= coefficient <= MAX_AMOUNT,
        ensures
            r == spec_round_to_cents(
                fp_mul(fp_mul(quantity as int, price as int), coefficient as int),
            ),
    {
        let value: i128 = item_value_exec(quantity, price, coefficient);
        round_to_cents(value)
    }

    /// Quantities of the materials of a work: each material's ratio
    /// times the work quantity, rounded to whole cents.
    pub fn calculate_materials(&self, ratios: &Vec<i64>, quantity: i64) -> (r: Vec<i128>)
        requires
            -MAX_AMOUNT <= quantity <= MAX_AMOUNT,
            forall|i: int| 0 <= i < ratios@.len() ==> -MAX_AMOUNT <= #[trigger] ratios@[i] <= MAX_AMOUNT,
        ensures
            r@.len() == ratios@.len(),
            forall|i: int|
                0 <= i < r@.len() ==> r@[i] == spec_round_to_cents(
                    fp_mul(quantity as int, #[trigger] ratios@[i] as int),
                ),
    {
        let mut out: Vec<i128> = Vec::new();
        let n: usize = ratios.len();
        let mut i: usize = 0;
        while i < n
            invariant
                i <= n,
                n == ratios@.len(),
                -MAX_AMOUNT <= quantity <= MAX_AMOUNT,
                forall|k: int|
                    0 <= k < ratios@.len() ==> -MAX_AMOUNT <= #[trigger] ratios@[k] <= MAX_AMOUNT,
                out@.len() == i,
                forall|k: int|
                    0 <= k < i as int ==> out@[k] == spec_round_to_cents(
                        fp_mul(quantity as int, #[trigger] ratios@[k] as int),
                    ),
            decreases n - i,
        {
            proof {
                lemma_mul_bound(
                    quantity as int,
                    ratios@[i as int] as int,
                    MAX_AMOUNT as int,
                    MAX_AMOUNT as int,
                );
                lemma_quot_trunc_bound(
                    quantity as int * ratios@[i as int] as int,
                    FP_SCALE as int,
                    MAX_AMOUNT as int * MAX_AMOUNT as int,
                );
            }
            let product: i128 = fp_rescale((quantity as i128) * (ratios[i] as i128));
            out.push(round_to_cents(product));
            i = i + 1;
        }
        out
    }
}

impl Default for Calculator {
    fn default() -> (r: Self)
        ensures
            r.options.overhead_rate == 1200,
            r.options.profit_rate == 800,
            r.options.vat_rate == 2000,
            r.options.include_vat,
    {
        Self::new()
    }
}

/// The crate version reported to hosts.
pub fn version() -> (r: &'static str)
    ensures
        r@ == "0.1.0"@,
{
    "0.1.0"
}

} // verus!
