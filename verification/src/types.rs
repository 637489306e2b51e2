//! Data types for the reduction kernels.
//!
//! Amounts and rates are fixed-point integers (see [`crate::fixed`]).
//! The module also defines the mathematical model of a totals
//! calculation: exact sums of quantity-times-cost products per cost
//! category, the index applied to each sum, and the derived overhead,
//! profit, subtotal, VAT and total. Every kernel is proved to return
//! exactly this model.

use vstd::prelude::*;

use crate::fixed::{apply_index, fp_mul, lemma_quot_trunc_exact, quot_trunc, FP_SCALE};

verus! {

/// Largest item count a totals kernel accepts in one call.
pub const MAX_ITEMS: usize = 1_000_000;

/// Largest magnitude of a quantity or unit cost (one hundred million
/// whole units in fixed-point).
pub const MAX_AMOUNT: i64 = 10_000_000_000;

/// Largest magnitude of the price index (one thousand in fixed-point).
pub const MAX_INDEX: i64 = 10_000_000;

/// Largest magnitude of an overhead, profit or VAT rate (one hundred
/// in fixed-point).
pub const MAX_RATE: i64 = 1_000_000;

/// Item data for the reduction kernels.
#[derive(Debug, Clone, Copy)]
pub struct ItemData {
    pub quantity: i64,
    pub unit_costs: UnitCostsData,
}

/// Per-unit costs of one item, split into the five cost categories.
#[derive(Debug, Clone, Copy)]
pub struct UnitCostsData {
    pub direct: i64,
    pub labor: i64,
    pub machine_operator: i64,
    pub materials: i64,
    pub machines: i64,
}

impl Default for UnitCostsData {
    fn default() -> (r: Self)
        ensures
            r.direct == 0,
            r.labor == 0,
            r.machine_operator == 0,
            r.materials == 0,
            r.machines == 0,
    {
        Self { direct: 0, labor: 0, machine_operator: 0, materials: 0, machines: 0 }
    }
}

/// Global multipliers of a totals calculation.
#[derive(Debug, Clone, Copy)]
pub struct CalculationSettings {
    pub overhead_rate: i64,
    pub profit_rate: i64,
    pub vat_rate: i64,
    pub index: i64,
}

impl Default for CalculationSettings {
    /// Overhead 12%, profit 8%, VAT 20%, index 1.
    fn default() -> (r: Self)
        ensures
            r.overhead_rate == 1200,
            r.profit_rate == 800,
            r.vat_rate == 2000,
            r.index == 10_000,
    {
        Self { overhead_rate: 1200, profit_rate: 800, vat_rate: 2000, index: 10_000 }
    }
}

/// Result of a totals calculation. The five raw category sums carry
/// the index; the remaining fields are derived from them.
#[derive(Debug, Clone, Copy)]
pub struct CalculationTotals {
    pub direct_costs: i128,
    pub labor_costs: i128,
    pub machine_op_costs: i128,
    pub material_costs: i128,
    pub machine_costs: i128,
    pub overhead: i128,
    pub profit: i128,
    pub subtotal: i128,
    pub vat: i128,
    pub total: i128,
}

impl Default for CalculationTotals {
    fn default() -> (r: Self)
        ensures
            r.direct_costs == 0,
            r.labor_costs == 0,
            r.machine_op_costs == 0,
            r.material_costs == 0,
            r.machine_costs == 0,
            r.overhead == 0,
            r.profit == 0,
            r.subtotal == 0,
            r.vat == 0,
            r.total == 0,
    {
        Self {
            direct_costs: 0,
            labor_costs: 0,
            machine_op_costs: 0,
            material_costs: 0,
            machine_costs: 0,
            overhead: 0,
            profit: 0,
            subtotal: 0,
            vat: 0,
            total: 0,
        }
    }
}

/// The rendered summary of a totals value: each headline amount
/// after its Russian label.
pub open spec fn spec_summary(t: CalculationTotals) -> Seq<char> {
    "Прямые затраты: "@ + crate::fmt::spec_money_string(t.direct_costs as int)
        + " ₽\nНакладные расходы: "@ + crate::fmt::spec_money_string(t.overhead as int)
        + " ₽\nСметная прибыль: "@ + crate::fmt::spec_money_string(t.profit as int)
        + " ₽\nИтого без НДС: "@ + crate::fmt::spec_money_string(t.subtotal as int)
        + " ₽\nНДС 20%: "@ + crate::fmt::spec_money_string(t.vat as int) + " ₽\nИТОГО: "@
        + crate::fmt::spec_money_string(t.total as int) + " ₽"@
}

impl CalculationTotals {
    /// Format the grand total as a Russian ruble amount.
    pub fn format_total_rub(&self) -> (r: String)
        requires
            self.total > i128::MIN,
        ensures
            r@ == crate::fmt::spec_money_rub(self.total as int),
    {
        crate::fmt::format_rub_fixed(self.total)
    }

    /// Format the headline values as a summary string.
    pub fn summary(&self) -> (r: String)
        requires
            self.direct_costs > i128::MIN,
            self.overhead > i128::MIN,
            self.profit > i128::MIN,
            self.subtotal > i128::MIN,
            self.vat > i128::MIN,
            self.total > i128::MIN,
        ensures
            r@ == spec_summary(*self),
    {
        let mut out: String = String::new();
        out.append("Прямые затраты: ");
        let direct_str: String = crate::fmt::format_fixed(self.direct_costs);
        out.append(direct_str.as_str());
        out.append(" ₽\nНакладные расходы: ");
        let overhead_str: String = crate::fmt::format_fixed(self.overhead);
        out.append(overhead_str.as_str());
        out.append(" ₽\nСметная прибыль: ");
        let profit_str: String = crate::fmt::format_fixed(self.profit);
        out.append(profit_str.as_str());
        out.append(" ₽\nИтого без НДС: ");
        let subtotal_str: String = crate::fmt::format_fixed(self.subtotal);
        out.append(subtotal_str.as_str());
        out.append(" ₽\nНДС 20%: ");
        let vat_str: String = crate::fmt::format_fixed(self.vat);
        out.append(vat_str.as_str());
        out.append(" ₽\nИТОГО: ");
        let total_str: String = crate::fmt::format_fixed(self.total);
        out.append(total_str.as_str());
        out.append(" ₽");
        proof {
            assert(out@ =~= spec_summary(*self));
        }
        out
    }
}

/// Mathematical value of a totals calculation, before it is packed
/// into the fixed-width fields of [`CalculationTotals`].
pub struct TotalsModel {
    pub direct_costs: int,
    pub labor_costs: int,
    pub machine_op_costs: int,
    pub material_costs: int,
    pub machine_costs: int,
    pub overhead: int,
    pub profit: int,
    pub subtotal: int,
    pub vat: int,
    pub total: int,
}

/// Sum of a per-item product over a sequence of items.
pub open spec fn sum_products(items: Seq<ItemData>, pick: spec_fn(ItemData) -> int) -> int
    decreases items.len(),
{
    if items.len() == 0 {
        0
    } else {
        sum_products(items.drop_last(), pick) + pick(items.last())
    }
}

/// Quantity times direct cost of one item (a raw product, at twice
/// the fixed-point scale).
pub open spec fn direct_product(it: ItemData) -> int {
    it.quantity * it.unit_costs.direct
}

pub open spec fn labor_product(it: ItemData) -> int {
    it.quantity * it.unit_costs.labor
}

pub open spec fn machine_op_product(it: ItemData) -> int {
    it.quantity * it.unit_costs.machine_operator
}

pub open spec fn materials_product(it: ItemData) -> int {
    it.quantity * it.unit_costs.materials
}

pub open spec fn machines_product(it: ItemData) -> int {
    it.quantity * it.unit_costs.machines
}

pub open spec fn sum_direct(items: Seq<ItemData>) -> int {
    sum_products(items, |it: ItemData| direct_product(it))
}

pub open spec fn sum_labor(items: Seq<ItemData>) -> int {
    sum_products(items, |it: ItemData| labor_product(it))
}

pub open spec fn sum_machine_op(items: Seq<ItemData>) -> int {
    sum_products(items, |it: ItemData| machine_op_product(it))
}

pub open spec fn sum_materials(items: Seq<ItemData>) -> int {
    sum_products(items, |it: ItemData| materials_product(it))
}

pub open spec fn sum_machines(items: Seq<ItemData>) -> int {
    sum_products(items, |it: ItemData| machines_product(it))
}

/// Derived totals from the five raw category sums: the index applied
/// to each sum, overhead and profit taken from the combined labor
/// base, then subtotal, VAT and total.
pub open spec fn totals_from_raw_sums(
    raw_direct: int,
    raw_labor: int,
    raw_machine_op: int,
    raw_materials: int,
    raw_machines: int,
    s: CalculationSettings,
) -> TotalsModel {
    let direct_costs = apply_index(raw_direct, s.index as int);
    let labor_costs = apply_index(raw_labor, s.index as int);
    let machine_op_costs = apply_index(raw_machine_op, s.index as int);
    let material_costs = apply_index(raw_materials, s.index as int);
    let machine_costs = apply_index(raw_machines, s.index as int);
    let labor_total = labor_costs + machine_op_costs;
    let overhead = fp_mul(labor_total, s.overhead_rate as int);
    let profit = fp_mul(labor_total, s.profit_rate as int);
    let subtotal = direct_costs + overhead + profit;
    let vat = fp_mul(subtotal, s.vat_rate as int);
    let total = subtotal + vat;
    TotalsModel {
        direct_costs,
        labor_costs,
        machine_op_costs,
        material_costs,
        machine_costs,
        overhead,
        profit,
        subtotal,
        vat,
        total,
    }
}

/// The exact value every totals kernel must return for the given
/// items and settings.
pub open spec fn totals_model(items: Seq<ItemData>, s: CalculationSettings) -> TotalsModel {
    totals_from_raw_sums(
        sum_direct(items),
        sum_labor(items),
        sum_machine_op(items),
        sum_materials(items),
        sum_machines(items),
        s,
    )
}

/// Field-for-field agreement of a computed result with the model.
pub open spec fn totals_match(t: CalculationTotals, m: TotalsModel) -> bool {
    &&& t.direct_costs == m.direct_costs
    &&& t.labor_costs == m.labor_costs
    &&& t.machine_op_costs == m.machine_op_costs
    &&& t.material_costs == m.material_costs
    &&& t.machine_costs == m.machine_costs
    &&& t.overhead == m.overhead
    &&& t.profit == m.profit
    &&& t.subtotal == m.subtotal
    &&& t.vat == m.vat
    &&& t.total == m.total
}

/// Largest magnitude of one quantity-times-cost product.
pub open spec fn max_product() -> int {
    MAX_AMOUNT as int * MAX_AMOUNT as int
}

/// Largest magnitude of a raw category sum over a full item sequence.
pub open spec fn max_raw_sum() -> int {
    MAX_ITEMS as int * max_product()
}

/// Magnitude bounds on one item, as the kernels require them.
pub open spec fn item_in_range(it: ItemData) -> bool {
    &&& -MAX_AMOUNT <= it.quantity <= MAX_AMOUNT
    &&& -MAX_AMOUNT <= it.unit_costs.direct <= MAX_AMOUNT
    &&& -MAX_AMOUNT <= it.unit_costs.labor <= MAX_AMOUNT
    &&& -MAX_AMOUNT <= it.unit_costs.machine_operator <= MAX_AMOUNT
    &&& -MAX_AMOUNT <= it.unit_costs.materials <= MAX_AMOUNT
    &&& -MAX_AMOUNT <= it.unit_costs.machines <= MAX_AMOUNT
}

/// Magnitude bounds on a whole item sequence.
pub open spec fn items_in_range(items: Seq<ItemData>) -> bool {
    &&& items.len() <= MAX_ITEMS
    &&& forall|i: int| 0 <= i < items.len() ==> item_in_range(#[trigger] items[i])
}

/// Magnitude bounds on the settings.
pub open spec fn settings_in_range(s: CalculationSettings) -> bool {
    &&& -MAX_RATE <= s.overhead_rate <= MAX_RATE
    &&& -MAX_RATE <= s.profit_rate <= MAX_RATE
    &&& -MAX_RATE <= s.vat_rate <= MAX_RATE
    &&& -MAX_INDEX <= s.index <= MAX_INDEX
}

/// Appending one item extends each category sum by that item's
/// product.
pub proof fn lemma_sum_take_succ(items: Seq<ItemData>, pick: spec_fn(ItemData) -> int, i: int)
    requires
        0 <= i < items.len(),
    ensures
        sum_products(items.take(i + 1), pick) == sum_products(items.take(i), pick) + pick(
            items[i],
        ),
{
    assert(items.take(i + 1).drop_last() =~= items.take(i));
    assert(items.take(i + 1).last() == items[i]);
}

/// A full-length prefix is the sequence itself, so the prefix sums of
/// a loop cover the whole sequence on exit.
pub proof fn lemma_sum_take_all(items: Seq<ItemData>, pick: spec_fn(ItemData) -> int)
    ensures
        sum_products(items.take(items.len() as int), pick) == sum_products(items, pick),
{
    assert(items.take(items.len() as int) =~= items);
}

/// The derived fields of the totals model satisfy the structural
/// invariants of a calculation, for every item sequence and every
/// settings value: the subtotal is direct costs plus overhead plus
/// profit; the total is the subtotal plus VAT; and overhead, profit
/// and VAT are the fixed-point products of their bases and rates.
pub proof fn lemma_totals_invariants(items: Seq<ItemData>, s: CalculationSettings)
    ensures
        totals_model(items, s).subtotal == totals_model(items, s).direct_costs + totals_model(
            items,
            s,
        ).overhead + totals_model(items, s).profit,
        totals_model(items, s).total == totals_model(items, s).subtotal + totals_model(
            items,
            s,
        ).vat,
        totals_model(items, s).overhead == fp_mul(
            totals_model(items, s).labor_costs + totals_model(items, s).machine_op_costs,
            s.overhead_rate as int,
        ),
        totals_model(items, s).profit == fp_mul(
            totals_model(items, s).labor_costs + totals_model(items, s).machine_op_costs,
            s.profit_rate as int,
        ),
        totals_model(items, s).vat == fp_mul(totals_model(items, s).subtotal, s.vat_rate as int),
{
}

/// Overhead and profit keep the ratio of their rates: both are taken
/// from the same combined labor base, so cross-multiplying with the
/// rates gives equal products. Stated for the inputs on which the two
/// fixed-point rate applications are exact (the products are
/// multiples of the scale); where they truncate, the ratio can be off
/// by the truncated remainders.
pub proof fn lemma_overhead_profit_ratio(items: Seq<ItemData>, s: CalculationSettings)
    requires
        ((totals_model(items, s).labor_costs + totals_model(items, s).machine_op_costs)
            * s.overhead_rate) % (FP_SCALE as int) == 0,
        ((totals_model(items, s).labor_costs + totals_model(items, s).machine_op_costs)
            * s.profit_rate) % (FP_SCALE as int) == 0,
    ensures
        totals_model(items, s).overhead * s.profit_rate == totals_model(items, s).profit
            * s.overhead_rate,
{
    let labor_base: int = totals_model(items, s).labor_costs + totals_model(
        items,
        s,
    ).machine_op_costs;
    let overhead: int = totals_model(items, s).overhead;
    let profit: int = totals_model(items, s).profit;
    lemma_quot_trunc_exact(labor_base * s.overhead_rate, FP_SCALE as int);
    lemma_quot_trunc_exact(labor_base * s.profit_rate, FP_SCALE as int);
    assert(overhead * s.profit_rate == profit * s.overhead_rate) by (nonlinear_arith)
        requires
            overhead * (FP_SCALE as int) == labor_base * s.overhead_rate,
            profit * (FP_SCALE as int) == labor_base * s.profit_rate,
            FP_SCALE as int > 0,
    ;
}

/// Empty input: all ten fields of the totals model are exactly zero,
/// for every settings value.
pub proof fn lemma_empty_totals(s: CalculationSettings)
    ensures
        totals_model(Seq::<ItemData>::empty(), s).direct_costs == 0,
        totals_model(Seq::<ItemData>::empty(), s).labor_costs == 0,
        totals_model(Seq::<ItemData>::empty(), s).machine_op_costs == 0,
        totals_model(Seq::<ItemData>::empty(), s).material_costs == 0,
        totals_model(Seq::<ItemData>::empty(), s).machine_costs == 0,
        totals_model(Seq::<ItemData>::empty(), s).overhead == 0,
        totals_model(Seq::<ItemData>::empty(), s).profit == 0,
        totals_model(Seq::<ItemData>::empty(), s).subtotal == 0,
        totals_model(Seq::<ItemData>::empty(), s).vat == 0,
        totals_model(Seq::<ItemData>::empty(), s).total == 0,
{
    let no_items: Seq<ItemData> = Seq::<ItemData>::empty();
    assert(sum_direct(no_items) == 0);
    assert(sum_labor(no_items) == 0);
    assert(sum_machine_op(no_items) == 0);
    assert(sum_materials(no_items) == 0);
    assert(sum_machines(no_items) == 0);
    assert(quot_trunc(0, FP_SCALE as int * FP_SCALE as int) == 0);
    assert(quot_trunc(0, FP_SCALE as int) == 0);
    assert(apply_index(0, s.index as int) == 0);
    assert(fp_mul(0, s.overhead_rate as int) == 0);
    assert(fp_mul(0, s.profit_rate as int) == 0);
    assert(fp_mul(0, s.vat_rate as int) == 0);
}

} // verus!
