//! Scalar reduction kernels.
//!
//! The strictly sequential reference implementations. They define
//! correctness: every grouped kernel is proved to return exactly the
//! same totals (integer arithmetic is exact, so there is no
//! floating-point style divergence between accumulation orders).

use vstd::prelude::*;
use vstd::pervasive::VecAdditionalExecFns;

use crate::fixed::{
    fixed_mul, fixed_mul_wide, fp_mul, fp_rescale_twice, i64_fits, lemma_acc_step,
    lemma_mul_bound, lemma_quot_trunc_bound, FP_SCALE,
};
use crate::types::{
    direct_product, item_in_range, items_in_range, labor_product, lemma_sum_take_all,
    lemma_sum_take_succ, machine_op_product, machines_product, materials_product, max_product,
    max_raw_sum, settings_in_range, sum_direct, sum_labor, sum_machine_op, sum_machines,
    sum_materials, totals_from_raw_sums, totals_match, totals_model, CalculationSettings,
    CalculationTotals, ItemData, MAX_AMOUNT, MAX_INDEX, MAX_RATE,
};

verus! {

/// Derive the full totals from the five raw category sums: apply the
/// index, then overhead, profit, subtotal, VAT and total. Shared tail
/// of every reduction kernel.
pub(crate) fn finalize_totals(
    raw_direct: i128,
    raw_labor: i128,
    raw_machine_op: i128,
    raw_materials: i128,
    raw_machines: i128,
    settings: &CalculationSettings,
) -> (r: CalculationTotals)
    requires
        settings_in_range(*settings),
        -max_raw_sum() <= raw_direct <= max_raw_sum(),
        -max_raw_sum() <= raw_labor <= max_raw_sum(),
        -max_raw_sum() <= raw_machine_op <= max_raw_sum(),
        -max_raw_sum() <= raw_materials <= max_raw_sum(),
        -max_raw_sum() <= raw_machines <= max_raw_sum(),
    ensures
        totals_match(
            r,
            totals_from_raw_sums(
                raw_direct as int,
                raw_labor as int,
                raw_machine_op as int,
                raw_materials as int,
                raw_machines as int,
                *settings,
            ),
        ),
{
    let idx: i128 = settings.index as i128;
    proof {
        lemma_mul_bound(raw_direct as int, idx as int, max_raw_sum(), MAX_INDEX as int);
        lemma_mul_bound(raw_labor as int, idx as int, max_raw_sum(), MAX_INDEX as int);
        lemma_mul_bound(raw_machine_op as int, idx as int, max_raw_sum(), MAX_INDEX as int);
        lemma_mul_bound(raw_materials as int, idx as int, max_raw_sum(), MAX_INDEX as int);
        lemma_mul_bound(raw_machines as int, idx as int, max_raw_sum(), MAX_INDEX as int);
        lemma_quot_trunc_bound(
            raw_direct as int * idx as int,
            FP_SCALE as int * FP_SCALE as int,
            max_raw_sum() * MAX_INDEX as int,
        );
        lemma_quot_trunc_bound(
            raw_labor as int * idx as int,
            FP_SCALE as int * FP_SCALE as int,
            max_raw_sum() * MAX_INDEX as int,
        );
        lemma_quot_trunc_bound(
            raw_machine_op as int * idx as int,
            FP_SCALE as int * FP_SCALE as int,
            max_raw_sum() * MAX_INDEX as int,
        );
        lemma_quot_trunc_bound(
            raw_materials as int * idx as int,
            FP_SCALE as int * FP_SCALE as int,
            max_raw_sum() * MAX_INDEX as int,
        );
        lemma_quot_trunc_bound(
            raw_machines as int * idx as int,
            FP_SCALE as int * FP_SCALE as int,
            max_raw_sum() * MAX_INDEX as int,
        );
    }
    let direct_costs: i128 = fp_rescale_twice(raw_direct * idx);
    let labor_costs: i128 = fp_rescale_twice(raw_labor * idx);
    let machine_op_costs: i128 = fp_rescale_twice(raw_machine_op * idx);
    let material_costs: i128 = fp_rescale_twice(raw_materials * idx);
    let machine_costs: i128 = fp_rescale_twice(raw_machines * idx);

    let labor_total: i128 = labor_costs + machine_op_costs;
    proof {
        lemma_mul_bound(
            labor_total as int,
            settings.overhead_rate as int,
            2 * max_category(),
            MAX_RATE as int,
        );
        lemma_mul_bound(
            labor_total as int,
            settings.profit_rate as int,
            2 * max_category(),
            MAX_RATE as int,
        );
        lemma_quot_trunc_bound(
            labor_total as int * settings.overhead_rate as int,
            FP_SCALE as int,
            2 * max_category() * MAX_RATE as int,
        );
        lemma_quot_trunc_bound(
            labor_total as int * settings.profit_rate as int,
            FP_SCALE as int,
            2 * max_category() * MAX_RATE as int,
        );
    }
    let overhead: i128 = fixed_mul_wide(labor_total, settings.overhead_rate as i128);
    let profit: i128 = fixed_mul_wide(labor_total, settings.profit_rate as i128);
    let subtotal: i128 = direct_costs + overhead + profit;
    proof {
        lemma_mul_bound(
            subtotal as int,
            settings.vat_rate as int,
            max_subtotal(),
            MAX_RATE as int,
        );
        lemma_quot_trunc_bound(
            subtotal as int * settings.vat_rate as int,
            FP_SCALE as int,
            max_subtotal() * MAX_RATE as int,
        );
    }
    let vat: i128 = fixed_mul_wide(subtotal, settings.vat_rate as i128);
    let total: i128 = subtotal + vat;
    CalculationTotals {
        direct_costs,
        labor_costs,
        machine_op_costs,
        material_costs,
        machine_costs,
        overhead,
        profit,
        subtotal,
        vat,
        total,
    }
}

/// Largest magnitude of an indexed category sum.
pub open spec fn max_category() -> int {
    (max_raw_sum() * MAX_INDEX as int) / (FP_SCALE as int * FP_SCALE as int)
}

/// Largest magnitude of the subtotal.
pub open spec fn max_subtotal() -> int {
    max_category() + 2 * ((2 * max_category() * MAX_RATE as int) / FP_SCALE as int)
}

/// Calculate totals by strictly sequential accumulation. This is the
/// reference kernel: it returns exactly the model totals.
pub fn calculate_totals_scalar(items: &Vec<ItemData>, settings: &CalculationSettings) -> (r:
    CalculationTotals)
    requires
        items_in_range(items@),
        settings_in_range(*settings),
    ensures
        totals_match(r, totals_model(items@, *settings)),
        r.subtotal == r.direct_costs + r.overhead + r.profit,
        r.total == r.subtotal + r.vat,
{
    let mut direct_sum: i128 = 0;
    let mut labor_sum: i128 = 0;
    let mut machine_op_sum: i128 = 0;
    let mut material_sum: i128 = 0;
    let mut machine_sum: i128 = 0;

    let n: usize = items.len();
    let mut i: usize = 0;
    while i < n
        invariant
            i <= n,
            n == items@.len(),
            items_in_range(items@),
            direct_sum == sum_direct(items@.take(i as int)),
            labor_sum == sum_labor(items@.take(i as int)),
            machine_op_sum == sum_machine_op(items@.take(i as int)),
            material_sum == sum_materials(items@.take(i as int)),
            machine_sum == sum_machines(items@.take(i as int)),
            -(i as int) * max_product() <= direct_sum <= (i as int) * max_product(),
            -(i as int) * max_product() <= labor_sum <= (i as int) * max_product(),
            -(i as int) * max_product() <= machine_op_sum <= (i as int) * max_product(),
            -(i as int) * max_product() <= material_sum <= (i as int) * max_product(),
            -(i as int) * max_product() <= machine_sum <= (i as int) * max_product(),
        decreases n - i,
    {
        let it: ItemData = items[i];
        let q: i128 = it.quantity as i128;
        proof {
            assert(item_in_range(items@[i as int]));
            lemma_mul_bound(
                q as int,
                it.unit_costs.direct as int,
                MAX_AMOUNT as int,
                MAX_AMOUNT as int,
            );
            lemma_mul_bound(
                q as int,
                it.unit_costs.labor as int,
                MAX_AMOUNT as int,
                MAX_AMOUNT as int,
            );
            lemma_mul_bound(
                q as int,
                it.unit_costs.machine_operator as int,
                MAX_AMOUNT as int,
                MAX_AMOUNT as int,
            );
            lemma_mul_bound(
                q as int,
                it.unit_costs.materials as int,
                MAX_AMOUNT as int,
                MAX_AMOUNT as int,
            );
            lemma_mul_bound(
                q as int,
                it.unit_costs.machines as int,
                MAX_AMOUNT as int,
                MAX_AMOUNT as int,
            );
            lemma_acc_step(
                direct_sum as int,
                q as int * it.unit_costs.direct as int,
                i as int,
                max_product(),
            );
            lemma_acc_step(
                labor_sum as int,
                q as int * it.unit_costs.labor as int,
                i as int,
                max_product(),
            );
            lemma_acc_step(
                machine_op_sum as int,
                q as int * it.unit_costs.machine_operator as int,
                i as int,
                max_product(),
            );
            lemma_acc_step(
                material_sum as int,
                q as int * it.unit_costs.materials as int,
                i as int,
                max_product(),
            );
            lemma_acc_step(
                machine_sum as int,
                q as int * it.unit_costs.machines as int,
                i as int,
                max_product(),
            );
            lemma_sum_take_succ(items@, |it: ItemData| direct_product(it), i as int);
            lemma_sum_take_succ(items@, |it: ItemData| labor_product(it), i as int);
            lemma_sum_take_succ(items@, |it: ItemData| machine_op_product(it), i as int);
            lemma_sum_take_succ(items@, |it: ItemData| materials_product(it), i as int);
            lemma_sum_take_succ(items@, |it: ItemData| machines_product(it), i as int);
        }
        direct_sum = direct_sum + q * (it.unit_costs.direct as i128);
        labor_sum = labor_sum + q * (it.unit_costs.labor as i128);
        machine_op_sum = machine_op_sum + q * (it.unit_costs.machine_operator as i128);
        material_sum = material_sum + q * (it.unit_costs.materials as i128);
        machine_sum = machine_sum + q * (it.unit_costs.machines as i128);
        i = i + 1;
    }
    proof {
        lemma_sum_take_all(items@, |it: ItemData| direct_product(it));
        lemma_sum_take_all(items@, |it: ItemData| labor_product(it));
        lemma_sum_take_all(items@, |it: ItemData| machine_op_product(it));
        lemma_sum_take_all(items@, |it: ItemData| materials_product(it));
        lemma_sum_take_all(items@, |it: ItemData| machines_product(it));
    }
    finalize_totals(direct_sum, labor_sum, machine_op_sum, material_sum, machine_sum, settings)
}

/// Elementwise product of one position: quantity times unit cost
/// times coefficient, each multiplication rescaled.
pub open spec fn elem_product(q: i64, u: i64, k: i64) -> int {
    fp_mul(fp_mul(q as int, u as int), k as int)
}

/// Number of positions the elementwise kernel fills: the shortest of
/// the three inputs and the output.
pub open spec fn elem_count(
    quantities: Seq<i64>,
    unit_costs: Seq<i64>,
    coefficients: Seq<i64>,
    results: Seq<i64>,
) -> int {
    vstd::math::min(
        vstd::math::min(quantities.len() as int, unit_costs.len() as int),
        vstd::math::min(coefficients.len() as int, results.len() as int),
    )
}

/// Every position the elementwise kernel may touch stays within
/// `i64` after each of its two rescaled multiplications.
pub open spec fn elementwise_in_range(
    quantities: Seq<i64>,
    unit_costs: Seq<i64>,
    coefficients: Seq<i64>,
) -> bool {
    forall|i: int|
        #![trigger quantities[i]]
        0 <= i < quantities.len() && i < unit_costs.len() && i < coefficients.len() ==> {
            &&& i64_fits(fp_mul(quantities[i] as int, unit_costs[i] as int))
            &&& i64_fits(elem_product(quantities[i], unit_costs[i], coefficients[i]))
        }
}

/// The elementwise kernel as the scalar reference: fill each position
/// of the output with the product of the three inputs at that
/// position, truncating to the shortest sequence and leaving the
/// rest of the output untouched.
pub fn calculate_items_scalar(
    quantities: &Vec<i64>,
    unit_costs: &Vec<i64>,
    coefficients: &Vec<i64>,
    results: &mut Vec<i64>,
)
    requires
        elementwise_in_range(quantities@, unit_costs@, coefficients@),
    ensures
        final(results)@.len() == old(results)@.len(),
        forall|i: int|
            0 <= i < elem_count(quantities@, unit_costs@, coefficients@, old(results)@)
                ==> final(results)@[i] == elem_product(
                quantities@[i],
                unit_costs@[i],
                coefficients@[i],
            ),
        forall|i: int|
            elem_count(quantities@, unit_costs@, coefficients@, old(results)@) <= i
                < final(results)@.len() ==> final(results)@[i] == old(results)@[i],
{
    let mut len: usize = quantities.len();
    if unit_costs.len() < len {
        len = unit_costs.len();
    }
    if coefficients.len() < len {
        len = coefficients.len();
    }
    if results.len() < len {
        len = results.len();
    }
    let mut i: usize = 0;
    while i < len
        invariant
            i <= len,
            len == elem_count(quantities@, unit_costs@, coefficients@, old(results)@),
            len <= quantities@.len(),
            len <= unit_costs@.len(),
            len <= coefficients@.len(),
            len <= results@.len(),
            results@.len() == old(results)@.len(),
            elementwise_in_range(quantities@, unit_costs@, coefficients@),
            forall|j: int|
                0 <= j < i ==> results@[j] == elem_product(
                    quantities@[j],
                    unit_costs@[j],
                    coefficients@[j],
                ),
            forall|j: int| i <= j < results@.len() ==> results@[j] == old(results)@[j],
        decreases len - i,
    {
        let value: i64 = fixed_mul(fixed_mul(quantities[i], unit_costs[i]), coefficients[i]);
        results.set(i, value);
        i = i + 1;
    }
}

/// Sum of a sequence of fixed-point values.
pub open spec fn seq_sum(data: Seq<i64>) -> int
    decreases data.len(),
{
    if data.len() == 0 {
        0
    } else {
        seq_sum(data.drop_last()) + data.last()
    }
}

/// Appending one element extends the sum by that element.
proof fn lemma_seq_sum_take_succ(data: Seq<i64>, i: int)
    requires
        0 <= i < data.len(),
    ensures
        seq_sum(data.take(i + 1)) == seq_sum(data.take(i)) + data[i],
{
    assert(data.take(i + 1).drop_last() =~= data.take(i));
}

/// Sum an array of fixed-point values sequentially.
pub fn fast_sum_scalar(data: &Vec<i64>) -> (r: i128)
    requires
        data@.len() <= crate::types::MAX_ITEMS,
    ensures
        r == seq_sum(data@),
{
    let mut acc: i128 = 0;
    let n: usize = data.len();
    let mut i: usize = 0;
    while i < n
        invariant
            i <= n,
            n == data@.len(),
            n <= crate::types::MAX_ITEMS,
            acc == seq_sum(data@.take(i as int)),
            -(i as int) * (i64::MAX as int + 1) <= acc <= (i as int) * (i64::MAX as int + 1),
        decreases n - i,
    {
        proof {
            lemma_seq_sum_take_succ(data@, i as int);
        }
        acc = acc + (data[i] as i128);
        i = i + 1;
    }
    proof {
        assert(data@.take(n as int) =~= data@);
    }
    acc
}

/// Sum of pairwise products of two sequences, over the given length.
pub open spec fn dot_sum(a: Seq<i64>, b: Seq<i64>, n: int) -> int
    decreases n,
{
    if n <= 0 {
        0
    } else {
        dot_sum(a, b, n - 1) + a[n - 1] * b[n - 1]
    }
}

/// Dot product of two arrays of fixed-point values over their common
/// length. The result carries twice the fixed-point scale, like any
/// raw product of two fixed-point values.
pub fn dot_product_scalar(a: &Vec<i64>, b: &Vec<i64>) -> (r: i128)
    requires
        a@.len() <= crate::types::MAX_ITEMS || b@.len() <= crate::types::MAX_ITEMS,
        forall|i: int|
            0 <= i < a@.len() && i < b@.len() ==> -MAX_AMOUNT <= #[trigger] a@[i] <= MAX_AMOUNT
                && -MAX_AMOUNT <= b@[i] <= MAX_AMOUNT,
    ensures
        r == dot_sum(a@, b@, vstd::math::min(a@.len() as int, b@.len() as int)),
{
    let mut len: usize = a.len();
    if b.len() < len {
        len = b.len();
    }
    let mut acc: i128 = 0;
    let mut i: usize = 0;
    while i < len
        invariant
            i <= len,
            len == vstd::math::min(a@.len() as int, b@.len() as int),
            len <= crate::types::MAX_ITEMS,
            forall|j: int|
                0 <= j < a@.len() && j < b@.len() ==> -MAX_AMOUNT <= #[trigger] a@[j] <= MAX_AMOUNT
                    && -MAX_AMOUNT <= b@[j] <= MAX_AMOUNT,
            acc == dot_sum(a@, b@, i as int),
            -(i as int) * max_product() <= acc <= (i as int) * max_product(),
        decreases len - i,
    {
        proof {
            lemma_mul_bound(a@[i as int] as int, b@[i as int] as int, MAX_AMOUNT as int, MAX_AMOUNT as int);
            lemma_acc_step(
                acc as int,
                a@[i as int] as int * b@[i as int] as int,
                i as int,
                max_product(),
            );
        }
        acc = acc + (a[i] as i128) * (b[i] as i128);
        i = i + 1;
    }
    acc
}

} // verus!
