//! Grouped reduction kernels and kernel dispatch.
//!
//! The grouped kernels model vector-register accumulation: items are
//! processed in fixed-size groups, one lane accumulator per position
//! in the group, followed by a horizontal sum that collapses the
//! lanes, and a scalar remainder loop for the items left over when
//! the item count is not a multiple of the group width. Because the
//! arithmetic is exact integer arithmetic, every kernel is proved to
//! return exactly the totals of the scalar reference kernel — the
//! accumulation order cannot be observed in the result.
//!
//! Which kernel runs is a pure function of the reported CPU
//! capabilities and the item count; probing the hardware itself is
//! left to the host program, which passes the result in.

use vstd::prelude::*;
use vstd::pervasive::VecAdditionalExecFns;

use crate::fixed::{fixed_mul, lemma_acc_step, lemma_mul_bound};
use crate::scalar::{
    calculate_items_scalar, calculate_totals_scalar, elem_count, elem_product,
    elementwise_in_range, finalize_totals,
};
use crate::types::{
    direct_product, item_in_range, items_in_range, labor_product, lemma_sum_take_all,
    lemma_sum_take_succ, machine_op_product, machines_product, materials_product, max_product,
    max_raw_sum, settings_in_range, sum_direct, sum_labor, sum_machine_op, sum_machines,
    sum_materials, totals_match, totals_model, CalculationSettings, CalculationTotals, ItemData,
    MAX_AMOUNT,
};

verus! {

/// Vector capabilities of the running CPU, as reported by the host
/// program. Detection happens outside this crate; the all-false
/// value is always safe and selects the scalar kernel.
#[derive(Debug, Clone, Copy, PartialEq, Eq, Structural)]
pub struct CpuCapabilities {
    /// A wide vector unit able to process four items per group.
    pub wide_vectors: bool,
    /// Fused multiply-add support, reported for diagnostics.
    pub fused_multiply_add: bool,
    /// A narrower vector unit able to process two items per group.
    pub narrow_vectors: bool,
}

impl CpuCapabilities {
    /// No capabilities at all: the universal fallback, selecting the
    /// scalar kernel for every item count.
    pub fn none() -> (r: Self)
        ensures
            !r.wide_vectors,
            !r.fused_multiply_add,
            !r.narrow_vectors,
    {
        Self { wide_vectors: false, fused_multiply_add: false, narrow_vectors: false }
    }
}

/// The kernel the dispatcher picked.
#[derive(Debug, Clone, Copy, PartialEq, Eq, Structural)]
pub enum KernelKind {
    /// Grouped kernel with group width four.
    Grouped4,
    /// Grouped kernel with group width two.
    Grouped2,
    /// Strictly sequential reference kernel.
    Scalar,
}

/// Dispatch policy: prefer the widest available tier whose group
/// width the item count reaches, then fall through to the narrower
/// tier, then to the scalar kernel.
pub open spec fn spec_select_kernel(caps: CpuCapabilities, item_count: int) -> KernelKind {
    if caps.wide_vectors && item_count >= 4 {
        KernelKind::Grouped4
    } else if caps.narrow_vectors && item_count >= 2 {
        KernelKind::Grouped2
    } else {
        KernelKind::Scalar
    }
}

/// Pick the kernel for the given capabilities and item count.
pub fn select_kernel(caps: &CpuCapabilities, item_count: usize) -> (k: KernelKind)
    ensures
        k == spec_select_kernel(*caps, item_count as int),
{
    if caps.wide_vectors && item_count >= 4 {
        KernelKind::Grouped4
    } else if caps.narrow_vectors && item_count >= 2 {
        KernelKind::Grouped2
    } else {
        KernelKind::Scalar
    }
}

/// Four lane accumulators, modelling one vector register of a
/// four-wide reduction.
struct Acc4 {
    l0: i128,
    l1: i128,
    l2: i128,
    l3: i128,
}

spec fn acc4_total(a: Acc4) -> int {
    a.l0 + a.l1 + a.l2 + a.l3
}

spec fn acc4_bounded(a: Acc4, b: int) -> bool {
    &&& -b <= a.l0 <= b
    &&& -b <= a.l1 <= b
    &&& -b <= a.l2 <= b
    &&& -b <= a.l3 <= b
}

fn acc4_zero() -> (r: Acc4)
    ensures
        r.l0 == 0 && r.l1 == 0 && r.l2 == 0 && r.l3 == 0,
{
    Acc4 { l0: 0, l1: 0, l2: 0, l3: 0 }
}

/// Horizontal sum of a four-lane accumulator: combine the low and
/// high lane pairs, then the two partial sums — the same fixed
/// combination order a vector horizontal add performs, exact here.
fn hsum4(a: &Acc4) -> (r: i128)
    requires
        acc4_bounded(*a, max_raw_sum()),
    ensures
        r == acc4_total(*a),
{
    let low_pair: i128 = a.l0 + a.l2;
    let high_pair: i128 = a.l1 + a.l3;
    low_pair + high_pair
}

/// Two lane accumulators, modelling one vector register of a
/// two-wide reduction.
struct Acc2 {
    l0: i128,
    l1: i128,
}

spec fn acc2_total(a: Acc2) -> int {
    a.l0 + a.l1
}

spec fn acc2_bounded(a: Acc2, b: int) -> bool {
    &&& -b <= a.l0 <= b
    &&& -b <= a.l1 <= b
}

fn acc2_zero() -> (r: Acc2)
    ensures
        r.l0 == 0 && r.l1 == 0,
{
    Acc2 { l0: 0, l1: 0 }
}

/// Horizontal sum of a two-lane accumulator.
fn hsum2(a: &Acc2) -> (r: i128)
    requires
        acc2_bounded(*a, max_raw_sum()),
    ensures
        r == acc2_total(*a),
{
    a.l0 + a.l1
}

/// Grouped totals kernel with group width four. Returns exactly the
/// scalar reference totals.
pub fn calculate_totals_grouped4(items: &Vec<ItemData>, settings: &CalculationSettings) -> (r:
    CalculationTotals)
    requires
        items_in_range(items@),
        settings_in_range(*settings),
    ensures
        totals_match(r, totals_model(items@, *settings)),
        r.subtotal == r.direct_costs + r.overhead + r.profit,
        r.total == r.subtotal + r.vat,
{
    let n: usize = items.len();
    if n < 4 {
        return calculate_totals_scalar(items, settings);
    }
    let mut direct_acc: Acc4 = acc4_zero();
    let mut labor_acc: Acc4 = acc4_zero();
    let mut machine_op_acc: Acc4 = acc4_zero();
    let mut material_acc: Acc4 = acc4_zero();
    let mut machine_acc: Acc4 = acc4_zero();

    let chunks: usize = n / 4;
    let mut g: usize = 0;
    while g < chunks
        invariant
            g <= chunks,
            chunks == n as int / 4,
            n == items@.len(),
            items_in_range(items@),
            acc4_total(direct_acc) == sum_direct(items@.take(4 * g as int)),
            acc4_total(labor_acc) == sum_labor(items@.take(4 * g as int)),
            acc4_total(machine_op_acc) == sum_machine_op(items@.take(4 * g as int)),
            acc4_total(material_acc) == sum_materials(items@.take(4 * g as int)),
            acc4_total(machine_acc) == sum_machines(items@.take(4 * g as int)),
            acc4_bounded(direct_acc, g as int * max_product()),
            acc4_bounded(labor_acc, g as int * max_product()),
            acc4_bounded(machine_op_acc, g as int * max_product()),
            acc4_bounded(material_acc, g as int * max_product()),
            acc4_bounded(machine_acc, g as int * max_product()),
        decreases chunks - g,
    {
        let idx: usize = g * 4;
        let it0: ItemData = items[idx];
        let it1: ItemData = items[idx + 1];
        let it2: ItemData = items[idx + 2];
        let it3: ItemData = items[idx + 3];
        let q0: i128 = it0.quantity as i128;
        let q1: i128 = it1.quantity as i128;
        let q2: i128 = it2.quantity as i128;
        let q3: i128 = it3.quantity as i128;
        proof {
            assert(item_in_range(items@[idx as int]));
            assert(item_in_range(items@[idx as int + 1]));
            assert(item_in_range(items@[idx as int + 2]));
            assert(item_in_range(items@[idx as int + 3]));
            lemma_group4_bounds(it0, it1, it2, it3);
            lemma_acc4_step(direct_acc, q0 as int * it0.unit_costs.direct as int,
                q1 as int * it1.unit_costs.direct as int,
                q2 as int * it2.unit_costs.direct as int,
                q3 as int * it3.unit_costs.direct as int, g as int);
            lemma_acc4_step(labor_acc, q0 as int * it0.unit_costs.labor as int,
                q1 as int * it1.unit_costs.labor as int,
                q2 as int * it2.unit_costs.labor as int,
                q3 as int * it3.unit_costs.labor as int, g as int);
            lemma_acc4_step(machine_op_acc, q0 as int * it0.unit_costs.machine_operator as int,
                q1 as int * it1.unit_costs.machine_operator as int,
                q2 as int * it2.unit_costs.machine_operator as int,
                q3 as int * it3.unit_costs.machine_operator as int, g as int);
            lemma_acc4_step(material_acc, q0 as int * it0.unit_costs.materials as int,
                q1 as int * it1.unit_costs.materials as int,
                q2 as int * it2.unit_costs.materials as int,
                q3 as int * it3.unit_costs.materials as int, g as int);
            lemma_acc4_step(machine_acc, q0 as int * it0.unit_costs.machines as int,
                q1 as int * it1.unit_costs.machines as int,
                q2 as int * it2.unit_costs.machines as int,
                q3 as int * it3.unit_costs.machines as int, g as int);
            lemma_sum_take_group4(items@, idx as int);
        }
        direct_acc.l0 = direct_acc.l0 + q0 * (it0.unit_costs.direct as i128);
        direct_acc.l1 = direct_acc.l1 + q1 * (it1.unit_costs.direct as i128);
        direct_acc.l2 = direct_acc.l2 + q2 * (it2.unit_costs.direct as i128);
        direct_acc.l3 = direct_acc.l3 + q3 * (it3.unit_costs.direct as i128);

        labor_acc.l0 = labor_acc.l0 + q0 * (it0.unit_costs.labor as i128);
        labor_acc.l1 = labor_acc.l1 + q1 * (it1.unit_costs.labor as i128);
        labor_acc.l2 = labor_acc.l2 + q2 * (it2.unit_costs.labor as i128);
        labor_acc.l3 = labor_acc.l3 + q3 * (it3.unit_costs.labor as i128);

        machine_op_acc.l0 = machine_op_acc.l0 + q0 * (it0.unit_costs.machine_operator as i128);
        machine_op_acc.l1 = machine_op_acc.l1 + q1 * (it1.unit_costs.machine_operator as i128);
        machine_op_acc.l2 = machine_op_acc.l2 + q2 * (it2.unit_costs.machine_operator as i128);
        machine_op_acc.l3 = machine_op_acc.l3 + q3 * (it3.unit_costs.machine_operator as i128);

        material_acc.l0 = material_acc.l0 + q0 * (it0.unit_costs.materials as i128);
        material_acc.l1 = material_acc.l1 + q1 * (it1.unit_costs.materials as i128);
        material_acc.l2 = material_acc.l2 + q2 * (it2.unit_costs.materials as i128);
        material_acc.l3 = material_acc.l3 + q3 * (it3.unit_costs.materials as i128);

        machine_acc.l0 = machine_acc.l0 + q0 * (it0.unit_costs.machines as i128);
        machine_acc.l1 = machine_acc.l1 + q1 * (it1.unit_costs.machines as i128);
        machine_acc.l2 = machine_acc.l2 + q2 * (it2.unit_costs.machines as i128);
        machine_acc.l3 = machine_acc.l3 + q3 * (it3.unit_costs.machines as i128);

        g = g + 1;
    }

    proof {
        vstd::arithmetic::mul::lemma_mul_inequality(
            chunks as int,
            crate::types::MAX_ITEMS as int,
            max_product(),
        );
    }
    let mut direct_total: i128 = hsum4(&direct_acc);
    let mut labor_total: i128 = hsum4(&labor_acc);
    let mut machine_op_total: i128 = hsum4(&machine_op_acc);
    let mut material_total: i128 = hsum4(&material_acc);
    let mut machine_total: i128 = hsum4(&machine_acc);

    let mut i: usize = chunks * 4;
    proof {
        assert((chunks * 4) as int * max_product() == 4 * (chunks as int * max_product()))
            by (nonlinear_arith);
    }
    while i < n
        invariant
            chunks * 4 <= i <= n,
            n == items@.len(),
            items_in_range(items@),
            direct_total == sum_direct(items@.take(i as int)),
            labor_total == sum_labor(items@.take(i as int)),
            machine_op_total == sum_machine_op(items@.take(i as int)),
            material_total == sum_materials(items@.take(i as int)),
            machine_total == sum_machines(items@.take(i as int)),
            -(i as int) * max_product() <= direct_total <= (i as int) * max_product(),
            -(i as int) * max_product() <= labor_total <= (i as int) * max_product(),
            -(i as int) * max_product() <= machine_op_total <= (i as int) * max_product(),
            -(i as int) * max_product() <= material_total <= (i as int) * max_product(),
            -(i as int) * max_product() <= machine_total <= (i as int) * max_product(),
        decreases n - i,
    {
        let it: ItemData = items[i];
        let q: i128 = it.quantity as i128;
        proof {
            assert(item_in_range(items@[i as int]));
            lemma_group1_bounds(it);
            lemma_acc_step(direct_total as int, q as int * it.unit_costs.direct as int, i as int,
                max_product());
            lemma_acc_step(labor_total as int, q as int * it.unit_costs.labor as int, i as int,
                max_product());
            lemma_acc_step(machine_op_total as int,
                q as int * it.unit_costs.machine_operator as int, i as int, max_product());
            lemma_acc_step(material_total as int, q as int * it.unit_costs.materials as int,
                i as int, max_product());
            lemma_acc_step(machine_total as int, q as int * it.unit_costs.machines as int, i as int,
                max_product());
            lemma_sum_take_succ(items@, |it: ItemData| direct_product(it), i as int);
            lemma_sum_take_succ(items@, |it: ItemData| labor_product(it), i as int);
            lemma_sum_take_succ(items@, |it: ItemData| machine_op_product(it), i as int);
            lemma_sum_take_succ(items@, |it: ItemData| materials_product(it), i as int);
            lemma_sum_take_succ(items@, |it: ItemData| machines_product(it), i as int);
        }
        direct_total = direct_total + q * (it.unit_costs.direct as i128);
        labor_total = labor_total + q * (it.unit_costs.labor as i128);
        machine_op_total = machine_op_total + q * (it.unit_costs.machine_operator as i128);
        material_total = material_total + q * (it.unit_costs.materials as i128);
        machine_total = machine_total + q * (it.unit_costs.machines as i128);
        i = i + 1;
    }
    proof {
        lemma_sum_take_all(items@, |it: ItemData| direct_product(it));
        lemma_sum_take_all(items@, |it: ItemData| labor_product(it));
        lemma_sum_take_all(items@, |it: ItemData| machine_op_product(it));
        lemma_sum_take_all(items@, |it: ItemData| materials_product(it));
        lemma_sum_take_all(items@, |it: ItemData| machines_product(it));
    }
    finalize_totals(direct_total, labor_total, machine_op_total, material_total, machine_total,
        settings)
}

/// All five quantity-times-cost products of one item are bounded.
proof fn lemma_group1_bounds(it: ItemData)
    requires
        item_in_range(it),
    ensures
        -max_product() <= it.quantity as int * it.unit_costs.direct as int <= max_product(),
        -max_product() <= it.quantity as int * it.unit_costs.labor as int <= max_product(),
        -max_product() <= it.quantity as int * it.unit_costs.machine_operator as int
            <= max_product(),
        -max_product() <= it.quantity as int * it.unit_costs.materials as int <= max_product(),
        -max_product() <= it.quantity as int * it.unit_costs.machines as int <= max_product(),
{
    lemma_mul_bound(it.quantity as int, it.unit_costs.direct as int, MAX_AMOUNT as int,
        MAX_AMOUNT as int);
    lemma_mul_bound(it.quantity as int, it.unit_costs.labor as int, MAX_AMOUNT as int,
        MAX_AMOUNT as int);
    lemma_mul_bound(it.quantity as int, it.unit_costs.machine_operator as int, MAX_AMOUNT as int,
        MAX_AMOUNT as int);
    lemma_mul_bound(it.quantity as int, it.unit_costs.materials as int, MAX_AMOUNT as int,
        MAX_AMOUNT as int);
    lemma_mul_bound(it.quantity as int, it.unit_costs.machines as int, MAX_AMOUNT as int,
        MAX_AMOUNT as int);
}

/// All twenty products of one four-item group are bounded.
proof fn lemma_group4_bounds(it0: ItemData, it1: ItemData, it2: ItemData, it3: ItemData)
    requires
        item_in_range(it0),
        item_in_range(it1),
        item_in_range(it2),
        item_in_range(it3),
    ensures
        -max_product() <= it0.quantity as int * it0.unit_costs.direct as int <= max_product(),
        -max_product() <= it0.quantity as int * it0.unit_costs.labor as int <= max_product(),
        -max_product() <= it0.quantity as int * it0.unit_costs.machine_operator as int
            <= max_product(),
        -max_product() <= it0.quantity as int * it0.unit_costs.materials as int <= max_product(),
        -max_product() <= it0.quantity as int * it0.unit_costs.machines as int <= max_product(),
        -max_product() <= it1.quantity as int * it1.unit_costs.direct as int <= max_product(),
        -max_product() <= it1.quantity as int * it1.unit_costs.labor as int <= max_product(),
        -max_product() <= it1.quantity as int * it1.unit_costs.machine_operator as int
            <= max_product(),
        -max_product() <= it1.quantity as int * it1.unit_costs.materials as int <= max_product(),
        -max_product() <= it1.quantity as int * it1.unit_costs.machines as int <= max_product(),
        -max_product() <= it2.quantity as int * it2.unit_costs.direct as int <= max_product(),
        -max_product() <= it2.quantity as int * it2.unit_costs.labor as int <= max_product(),
        -max_product() <= it2.quantity as int * it2.unit_costs.machine_operator as int
            <= max_product(),
        -max_product() <= it2.quantity as int * it2.unit_costs.materials as int <= max_product(),
        -max_product() <= it2.quantity as int * it2.unit_costs.machines as int <= max_product(),
        -max_product() <= it3.quantity as int * it3.unit_costs.direct as int <= max_product(),
        -max_product() <= it3.quantity as int * it3.unit_costs.labor as int <= max_product(),
        -max_product() <= it3.quantity as int * it3.unit_costs.machine_operator as int
            <= max_product(),
        -max_product() <= it3.quantity as int * it3.unit_costs.materials as int <= max_product(),
        -max_product() <= it3.quantity as int * it3.unit_costs.machines as int <= max_product(),
{
    lemma_group1_bounds(it0);
    lemma_group1_bounds(it1);
    lemma_group1_bounds(it2);
    lemma_group1_bounds(it3);
}

/// Adding one bounded product to each lane keeps all four lanes of a
/// group accumulator within the next per-group bound.
proof fn lemma_acc4_step(a: Acc4, p0: int, p1: int, p2: int, p3: int, g: int)
    requires
        0 <= g,
        acc4_bounded(a, g * max_product()),
        -max_product() <= p0 <= max_product(),
        -max_product() <= p1 <= max_product(),
        -max_product() <= p2 <= max_product(),
        -max_product() <= p3 <= max_product(),
    ensures
        -((g + 1) * max_product()) <= a.l0 + p0 <= (g + 1) * max_product(),
        -((g + 1) * max_product()) <= a.l1 + p1 <= (g + 1) * max_product(),
        -((g + 1) * max_product()) <= a.l2 + p2 <= (g + 1) * max_product(),
        -((g + 1) * max_product()) <= a.l3 + p3 <= (g + 1) * max_product(),
{
    crate::fixed::lemma_neg_mul(g, max_product());
    crate::fixed::lemma_neg_mul(g + 1, max_product());
    lemma_acc_step(a.l0 as int, p0, g, max_product());
    lemma_acc_step(a.l1 as int, p1, g, max_product());
    lemma_acc_step(a.l2 as int, p2, g, max_product());
    lemma_acc_step(a.l3 as int, p3, g, max_product());
}

/// Adding one bounded product to each lane keeps both lanes of a
/// two-wide group accumulator within the next per-group bound.
proof fn lemma_acc2_step(a: Acc2, p0: int, p1: int, g: int)
    requires
        0 <= g,
        acc2_bounded(a, g * max_product()),
        -max_product() <= p0 <= max_product(),
        -max_product() <= p1 <= max_product(),
    ensures
        -((g + 1) * max_product()) <= a.l0 + p0 <= (g + 1) * max_product(),
        -((g + 1) * max_product()) <= a.l1 + p1 <= (g + 1) * max_product(),
{
    crate::fixed::lemma_neg_mul(g, max_product());
    crate::fixed::lemma_neg_mul(g + 1, max_product());
    lemma_acc_step(a.l0 as int, p0, g, max_product());
    lemma_acc_step(a.l1 as int, p1, g, max_product());
}

/// Extending a prefix by one whole four-item group extends each
/// category sum by the four products of that group.
proof fn lemma_sum_take_group4(items: Seq<ItemData>, idx: int)
    requires
        0 <= idx,
        idx + 4 <= items.len(),
    ensures
        sum_direct(items.take(idx + 4)) == sum_direct(items.take(idx)) + direct_product(items[idx])
            + direct_product(items[idx + 1]) + direct_product(items[idx + 2]) + direct_product(
            items[idx + 3],
        ),
        sum_labor(items.take(idx + 4)) == sum_labor(items.take(idx)) + labor_product(items[idx])
            + labor_product(items[idx + 1]) + labor_product(items[idx + 2]) + labor_product(
            items[idx + 3],
        ),
        sum_machine_op(items.take(idx + 4)) == sum_machine_op(items.take(idx)) + machine_op_product(
            items[idx],
        ) + machine_op_product(items[idx + 1]) + machine_op_product(items[idx + 2])
            + machine_op_product(items[idx + 3]),
        sum_materials(items.take(idx + 4)) == sum_materials(items.take(idx)) + materials_product(
            items[idx],
        ) + materials_product(items[idx + 1]) + materials_product(items[idx + 2])
            + materials_product(items[idx + 3]),
        sum_machines(items.take(idx + 4)) == sum_machines(items.take(idx)) + machines_product(
            items[idx],
        ) + machines_product(items[idx + 1]) + machines_product(items[idx + 2]) + machines_product(
            items[idx + 3],
        ),
{
    lemma_sum_take_succ(items, |it: ItemData| direct_product(it), idx);
    lemma_sum_take_succ(items, |it: ItemData| direct_product(it), idx + 1);
    lemma_sum_take_succ(items, |it: ItemData| direct_product(it), idx + 2);
    lemma_sum_take_succ(items, |it: ItemData| direct_product(it), idx + 3);
    lemma_sum_take_succ(items, |it: ItemData| labor_product(it), idx);
    lemma_sum_take_succ(items, |it: ItemData| labor_product(it), idx + 1);
    lemma_sum_take_succ(items, |it: ItemData| labor_product(it), idx + 2);
    lemma_sum_take_succ(items, |it: ItemData| labor_product(it), idx + 3);
    lemma_sum_take_succ(items, |it: ItemData| machine_op_product(it), idx);
    lemma_sum_take_succ(items, |it: ItemData| machine_op_product(it), idx + 1);
    lemma_sum_take_succ(items, |it: ItemData| machine_op_product(it), idx + 2);
    lemma_sum_take_succ(items, |it: ItemData| machine_op_product(it), idx + 3);
    lemma_sum_take_succ(items, |it: ItemData| materials_product(it), idx);
    lemma_sum_take_succ(items, |it: ItemData| materials_product(it), idx + 1);
    lemma_sum_take_succ(items, |it: ItemData| materials_product(it), idx + 2);
    lemma_sum_take_succ(items, |it: ItemData| materials_product(it), idx + 3);
    lemma_sum_take_succ(items, |it: ItemData| machines_product(it), idx);
    lemma_sum_take_succ(items, |it: ItemData| machines_product(it), idx + 1);
    lemma_sum_take_succ(items, |it: ItemData| machines_product(it), idx + 2);
    lemma_sum_take_succ(items, |it: ItemData| machines_product(it), idx + 3);
}

/// Grouped totals kernel with group width two. Returns exactly the
/// scalar reference totals.
pub fn calculate_totals_grouped2(items: &Vec<ItemData>, settings: &CalculationSettings) -> (r:
    CalculationTotals)
    requires
        items_in_range(items@),
        settings_in_range(*settings),
    ensures
        totals_match(r, totals_model(items@, *settings)),
        r.subtotal == r.direct_costs + r.overhead + r.profit,
        r.total == r.subtotal + r.vat,
{
    let n: usize = items.len();
    if n < 2 {
        return calculate_totals_scalar(items, settings);
    }
    let mut direct_acc: Acc2 = acc2_zero();
    let mut labor_acc: Acc2 = acc2_zero();
    let mut machine_op_acc: Acc2 = acc2_zero();
    let mut material_acc: Acc2 = acc2_zero();
    let mut machine_acc: Acc2 = acc2_zero();

    let chunks: usize = n / 2;
    let mut g: usize = 0;
    while g < chunks
        invariant
            g <= chunks,
            chunks == n as int / 2,
            n == items@.len(),
            items_in_range(items@),
            acc2_total(direct_acc) == sum_direct(items@.take(2 * g as int)),
            acc2_total(labor_acc) == sum_labor(items@.take(2 * g as int)),
            acc2_total(machine_op_acc) == sum_machine_op(items@.take(2 * g as int)),
            acc2_total(material_acc) == sum_materials(items@.take(2 * g as int)),
            acc2_total(machine_acc) == sum_machines(items@.take(2 * g as int)),
            acc2_bounded(direct_acc, g as int * max_product()),
            acc2_bounded(labor_acc, g as int * max_product()),
            acc2_bounded(machine_op_acc, g as int * max_product()),
            acc2_bounded(material_acc, g as int * max_product()),
            acc2_bounded(machine_acc, g as int * max_product()),
        decreases chunks - g,
    {
        let idx: usize = g * 2;
        let it0: ItemData = items[idx];
        let it1: ItemData = items[idx + 1];
        let q0: i128 = it0.quantity as i128;
        let q1: i128 = it1.quantity as i128;
        proof {
            assert(item_in_range(items@[idx as int]));
            assert(item_in_range(items@[idx as int + 1]));
            lemma_group1_bounds(it0);
            lemma_group1_bounds(it1);
            lemma_acc2_step(direct_acc, q0 as int * it0.unit_costs.direct as int,
                q1 as int * it1.unit_costs.direct as int, g as int);
            lemma_acc2_step(labor_acc, q0 as int * it0.unit_costs.labor as int,
                q1 as int * it1.unit_costs.labor as int, g as int);
            lemma_acc2_step(machine_op_acc, q0 as int * it0.unit_costs.machine_operator as int,
                q1 as int * it1.unit_costs.machine_operator as int, g as int);
            lemma_acc2_step(material_acc, q0 as int * it0.unit_costs.materials as int,
                q1 as int * it1.unit_costs.materials as int, g as int);
            lemma_acc2_step(machine_acc, q0 as int * it0.unit_costs.machines as int,
                q1 as int * it1.unit_costs.machines as int, g as int);
            lemma_sum_take_group2(items@, idx as int);
        }
        direct_acc.l0 = direct_acc.l0 + q0 * (it0.unit_costs.direct as i128);
        direct_acc.l1 = direct_acc.l1 + q1 * (it1.unit_costs.direct as i128);

        labor_acc.l0 = labor_acc.l0 + q0 * (it0.unit_costs.labor as i128);
        labor_acc.l1 = labor_acc.l1 + q1 * (it1.unit_costs.labor as i128);

        machine_op_acc.l0 = machine_op_acc.l0 + q0 * (it0.unit_costs.machine_operator as i128);
        machine_op_acc.l1 = machine_op_acc.l1 + q1 * (it1.unit_costs.machine_operator as i128);

        material_acc.l0 = material_acc.l0 + q0 * (it0.unit_costs.materials as i128);
        material_acc.l1 = material_acc.l1 + q1 * (it1.unit_costs.materials as i128);

        machine_acc.l0 = machine_acc.l0 + q0 * (it0.unit_costs.machines as i128);
        machine_acc.l1 = machine_acc.l1 + q1 * (it1.unit_costs.machines as i128);

        g = g + 1;
    }

    proof {
        vstd::arithmetic::mul::lemma_mul_inequality(
            chunks as int,
            crate::types::MAX_ITEMS as int,
            max_product(),
        );
    }
    let mut direct_total: i128 = hsum2(&direct_acc);
    let mut labor_total: i128 = hsum2(&labor_acc);
    let mut machine_op_total: i128 = hsum2(&machine_op_acc);
    let mut material_total: i128 = hsum2(&material_acc);
    let mut machine_total: i128 = hsum2(&machine_acc);

    let mut i: usize = chunks * 2;
    proof {
        assert((chunks * 2) as int * max_product() == 2 * (chunks as int * max_product()))
            by (nonlinear_arith);
    }
    while i < n
        invariant
            chunks * 2 <= i <= n,
            n == items@.len(),
            items_in_range(items@),
            direct_total == sum_direct(items@.take(i as int)),
            labor_total == sum_labor(items@.take(i as int)),
            machine_op_total == sum_machine_op(items@.take(i as int)),
            material_total == sum_materials(items@.take(i as int)),
            machine_total == sum_machines(items@.take(i as int)),
            -(i as int) * max_product() <= direct_total <= (i as int) * max_product(),
            -(i as int) * max_product() <= labor_total <= (i as int) * max_product(),
            -(i as int) * max_product() <= machine_op_total <= (i as int) * max_product(),
            -(i as int) * max_product() <= material_total <= (i as int) * max_product(),
            -(i as int) * max_product() <= machine_total <= (i as int) * max_product(),
        decreases n - i,
    {
        let it: ItemData = items[i];
        let q: i128 = it.quantity as i128;
        proof {
            assert(item_in_range(items@[i as int]));
            lemma_group1_bounds(it);
            lemma_acc_step(direct_total as int, q as int * it.unit_costs.direct as int, i as int,
                max_product());
            lemma_acc_step(labor_total as int, q as int * it.unit_costs.labor as int, i as int,
                max_product());
            lemma_acc_step(machine_op_total as int,
                q as int * it.unit_costs.machine_operator as int, i as int, max_product());
            lemma_acc_step(material_total as int, q as int * it.unit_costs.materials as int,
                i as int, max_product());
            lemma_acc_step(machine_total as int, q as int * it.unit_costs.machines as int, i as int,
                max_product());
            lemma_sum_take_succ(items@, |it: ItemData| direct_product(it), i as int);
            lemma_sum_take_succ(items@, |it: ItemData| labor_product(it), i as int);
            lemma_sum_take_succ(items@, |it: ItemData| machine_op_product(it), i as int);
            lemma_sum_take_succ(items@, |it: ItemData| materials_product(it), i as int);
            lemma_sum_take_succ(items@, |it: ItemData| machines_product(it), i as int);
        }
        direct_total = direct_total + q * (it.unit_costs.direct as i128);
        labor_total = labor_total + q * (it.unit_costs.labor as i128);
        machine_op_total = machine_op_total + q * (it.unit_costs.machine_operator as i128);
        material_total = material_total + q * (it.unit_costs.materials as i128);
        machine_total = machine_total + q * (it.unit_costs.machines as i128);
        i = i + 1;
    }
    proof {
        lemma_sum_take_all(items@, |it: ItemData| direct_product(it));
        lemma_sum_take_all(items@, |it: ItemData| labor_product(it));
        lemma_sum_take_all(items@, |it: ItemData| machine_op_product(it));
        lemma_sum_take_all(items@, |it: ItemData| materials_product(it));
        lemma_sum_take_all(items@, |it: ItemData| machines_product(it));
    }
    finalize_totals(direct_total, labor_total, machine_op_total, material_total, machine_total,
        settings)
}

/// Extending a prefix by one whole two-item group extends each
/// category sum by the two products of that group.
proof fn lemma_sum_take_group2(items: Seq<ItemData>, idx: int)
    requires
        0 <= idx,
        idx + 2 <= items.len(),
    ensures
        sum_direct(items.take(idx + 2)) == sum_direct(items.take(idx)) + direct_product(items[idx])
            + direct_product(items[idx + 1]),
        sum_labor(items.take(idx + 2)) == sum_labor(items.take(idx)) + labor_product(items[idx])
            + labor_product(items[idx + 1]),
        sum_machine_op(items.take(idx + 2)) == sum_machine_op(items.take(idx)) + machine_op_product(
            items[idx],
        ) + machine_op_product(items[idx + 1]),
        sum_materials(items.take(idx + 2)) == sum_materials(items.take(idx)) + materials_product(
            items[idx],
        ) + materials_product(items[idx + 1]),
        sum_machines(items.take(idx + 2)) == sum_machines(items.take(idx)) + machines_product(
            items[idx],
        ) + machines_product(items[idx + 1]),
{
    lemma_sum_take_succ(items, |it: ItemData| direct_product(it), idx);
    lemma_sum_take_succ(items, |it: ItemData| direct_product(it), idx + 1);
    lemma_sum_take_succ(items, |it: ItemData| labor_product(it), idx);
    lemma_sum_take_succ(items, |it: ItemData| labor_product(it), idx + 1);
    lemma_sum_take_succ(items, |it: ItemData| machine_op_product(it), idx);
    lemma_sum_take_succ(items, |it: ItemData| machine_op_product(it), idx + 1);
    lemma_sum_take_succ(items, |it: ItemData| materials_product(it), idx);
    lemma_sum_take_succ(items, |it: ItemData| materials_product(it), idx + 1);
    lemma_sum_take_succ(items, |it: ItemData| machines_product(it), idx);
    lemma_sum_take_succ(items, |it: ItemData| machines_product(it), idx + 1);
}

/// Calculate estimate totals with the most capable kernel the
/// reported capabilities allow. Whatever kernel runs, the result is
/// exactly the scalar reference totals.
pub fn calculate_estimate_totals(
    items: &Vec<ItemData>,
    settings: &CalculationSettings,
    caps: &CpuCapabilities,
) -> (r: CalculationTotals)
    requires
        items_in_range(items@),
        settings_in_range(*settings),
    ensures
        totals_match(r, totals_model(items@, *settings)),
        r.subtotal == r.direct_costs + r.overhead + r.profit,
        r.total == r.subtotal + r.vat,
{
    match select_kernel(caps, items.len()) {
        KernelKind::Grouped4 => calculate_totals_grouped4(items, settings),
        KernelKind::Grouped2 => calculate_totals_grouped2(items, settings),
        KernelKind::Scalar => calculate_totals_scalar(items, settings),
    }
}

/// Grouped elementwise kernel with group width four: fills four
/// output positions per group, then a scalar remainder loop.
pub fn calculate_items_grouped4(
    quantities: &Vec<i64>,
    unit_costs: &Vec<i64>,
    coefficients: &Vec<i64>,
    results: &mut Vec<i64>,
)
    requires
        elementwise_in_range(quantities@, unit_costs@, coefficients@),
    ensures
        final(results)@.len() == old(results)@.len(),
        forall|i: int|
            0 <= i < elem_count(quantities@, unit_costs@, coefficients@, old(results)@)
                ==> final(results)@[i] == elem_product(
                quantities@[i],
                unit_costs@[i],
                coefficients@[i],
            ),
        forall|i: int|
            elem_count(quantities@, unit_costs@, coefficients@, old(results)@) <= i
                < final(results)@.len() ==> final(results)@[i] == old(results)@[i],
{
    let mut len: usize = quantities.len();
    if unit_costs.len() < len {
        len = unit_costs.len();
    }
    if coefficients.len() < len {
        len = coefficients.len();
    }
    if results.len() < len {
        len = results.len();
    }
    if len < 4 {
        calculate_items_scalar(quantities, unit_costs, coefficients, results);
        return ;
    }
    let chunks: usize = len / 4;
    let mut g: usize = 0;
    while g < chunks
        invariant
            g <= chunks,
            chunks == len as int / 4,
            len == elem_count(quantities@, unit_costs@, coefficients@, old(results)@),
            len <= quantities@.len(),
            len <= unit_costs@.len(),
            len <= coefficients@.len(),
            len <= results@.len(),
            results@.len() == old(results)@.len(),
            elementwise_in_range(quantities@, unit_costs@, coefficients@),
            forall|j: int|
                0 <= j < 4 * g ==> results@[j] == elem_product(
                    quantities@[j],
                    unit_costs@[j],
                    coefficients@[j],
                ),
            forall|j: int| 4 * g <= j < results@.len() ==> results@[j] == old(results)@[j],
        decreases chunks - g,
    {
        let idx: usize = g * 4;
        let v0: i64 = fixed_mul(fixed_mul(quantities[idx], unit_costs[idx]), coefficients[idx]);
        let v1: i64 = fixed_mul(fixed_mul(quantities[idx + 1], unit_costs[idx + 1]),
            coefficients[idx + 1]);
        let v2: i64 = fixed_mul(fixed_mul(quantities[idx + 2], unit_costs[idx + 2]),
            coefficients[idx + 2]);
        let v3: i64 = fixed_mul(fixed_mul(quantities[idx + 3], unit_costs[idx + 3]),
            coefficients[idx + 3]);
        results.set(idx, v0);
        results.set(idx + 1, v1);
        results.set(idx + 2, v2);
        results.set(idx + 3, v3);
        g = g + 1;
    }
    let mut i: usize = chunks * 4;
    while i < len
        invariant
            chunks * 4 <= i <= len,
            len == elem_count(quantities@, unit_costs@, coefficients@, old(results)@),
            len <= quantities@.len(),
            len <= unit_costs@.len(),
            len <= coefficients@.len(),
            len <= results@.len(),
            results@.len() == old(results)@.len(),
            elementwise_in_range(quantities@, unit_costs@, coefficients@),
            forall|j: int|
                0 <= j < i ==> results@[j] == elem_product(
                    quantities@[j],
                    unit_costs@[j],
                    coefficients@[j],
                ),
            forall|j: int| i <= j < results@.len() ==> results@[j] == old(results)@[j],
        decreases len - i,
    {
        let value: i64 = fixed_mul(fixed_mul(quantities[i], unit_costs[i]), coefficients[i]);
        results.set(i, value);
        i = i + 1;
    }
}

/// Fill the elementwise results with the best available kernel. The
/// result is the same whichever kernel runs.
pub fn calculate_items(
    quantities: &Vec<i64>,
    unit_costs: &Vec<i64>,
    coefficients: &Vec<i64>,
    results: &mut Vec<i64>,
    caps: &CpuCapabilities,
)
    requires
        elementwise_in_range(quantities@, unit_costs@, coefficients@),
    ensures
        final(results)@.len() == old(results)@.len(),
        forall|i: int|
            0 <= i < elem_count(quantities@, unit_costs@, coefficients@, old(results)@)
                ==> final(results)@[i] == elem_product(
                quantities@[i],
                unit_costs@[i],
                coefficients@[i],
            ),
        forall|i: int|
            elem_count(quantities@, unit_costs@, coefficients@, old(results)@) <= i
                < final(results)@.len() ==> final(results)@[i] == old(results)@[i],
{
    if caps.wide_vectors {
        calculate_items_grouped4(quantities, unit_costs, coefficients, results);
    } else {
        calculate_items_scalar(quantities, unit_costs, coefficients, results);
    }
}

} // verus!
