//! Core calculation engine over estimate items.
//!
//! Computes estimate totals from [`EstimateItem`] values, with the
//! same mathematical model as the reduction kernels: exact category
//! sums, the index, and the derived overhead, profit, subtotal, VAT
//! and total.

use vstd::prelude::*;

use crate::estimate::{flat_items, CalculationSettings, Estimate, EstimateItem, EstimateTotals};
use crate::fixed::{lemma_acc_step, lemma_mul_bound};
use crate::scalar::finalize_totals;
use crate::types::{
    direct_product, item_in_range, items_in_range, labor_product, lemma_sum_take_all,
    lemma_sum_take_succ, machine_op_product, machines_product, materials_product, max_product,
    settings_in_range, sum_direct, sum_labor, sum_machine_op, sum_machines, sum_materials,
    totals_model, CalculationTotals, ItemData, TotalsModel, UnitCostsData,
    MAX_AMOUNT,
};

verus! {

/// The kernel-level view of one estimate item: its quantity and five
/// unit costs.
pub open spec fn item_data_of(e: EstimateItem) -> ItemData {
    ItemData {
        quantity: e.quantity,
        unit_costs: UnitCostsData {
            direct: e.unit_costs.direct,
            labor: e.unit_costs.labor,
            machine_operator: e.unit_costs.machine_operator,
            materials: e.unit_costs.materials,
            machines: e.unit_costs.machines,
        },
    }
}

/// The kernel-level view of a sequence of referenced estimate items.
pub open spec fn items_data_of(items: Seq<&EstimateItem>) -> Seq<ItemData> {
    items.map_values(|it: &EstimateItem| item_data_of(*it))
}

/// The kernel-level view of calculation settings over estimate
/// items.
pub open spec fn settings_data_of(s: CalculationSettings) -> crate::types::CalculationSettings {
    crate::types::CalculationSettings {
        overhead_rate: s.overhead_rate,
        profit_rate: s.profit_rate,
        vat_rate: s.vat_rate,
        index: s.index,
    }
}

/// The calculation settings an estimate implies.
pub open spec fn spec_settings_of(e: Estimate) -> CalculationSettings {
    CalculationSettings {
        overhead_rate: e.overhead.rate,
        profit_rate: e.profit.rate,
        vat_rate: 2000,
        index: e.coefficients.index,
    }
}

/// Field-for-field agreement of estimate totals with the model.
pub open spec fn estimate_totals_match(t: EstimateTotals, m: TotalsModel) -> bool {
    &&& t.direct_costs == m.direct_costs
    &&& t.labor_costs == m.labor_costs
    &&& t.machine_operator_costs == m.machine_op_costs
    &&& t.material_costs == m.material_costs
    &&& t.machine_costs == m.machine_costs
    &&& t.overhead == m.overhead
    &&& t.profit == m.profit
    &&& t.subtotal == m.subtotal
    &&& t.vat == m.vat
    &&& t.total == m.total
}

/// Calculate totals for a whole estimate: all items of all sections
/// with the settings the estimate implies.
pub fn calculate_estimate_totals(estimate: &Estimate) -> (r: EstimateTotals)
    requires
        items_in_range(flat_items(estimate.sections@).map_values(|e: EstimateItem| item_data_of(e))),
        settings_in_range(settings_data_of(spec_settings_of(*estimate))),
    ensures
        estimate_totals_match(
            r,
            totals_model(
                flat_items(estimate.sections@).map_values(|e: EstimateItem| item_data_of(e)),
                settings_data_of(spec_settings_of(*estimate)),
            ),
        ),
{
    let settings: CalculationSettings = estimate.calculation_settings();
    let items: Vec<&EstimateItem> = estimate.all_items();
    proof {
        assert(items_data_of(items@) =~= flat_items(estimate.sections@).map_values(
            |e: EstimateItem| item_data_of(e),
        ));
    }
    calculate_totals(&items, &settings)
}

/// Calculate totals from referenced items and settings: the exact
/// category sums with the index applied, then overhead, profit,
/// subtotal, VAT and total.
pub fn calculate_totals(items: &Vec<&EstimateItem>, settings: &CalculationSettings) -> (r:
    EstimateTotals)
    requires
        items_in_range(items_data_of(items@)),
        settings_in_range(settings_data_of(*settings)),
    ensures
        estimate_totals_match(r, totals_model(items_data_of(items@), settings_data_of(*settings))),
        r.subtotal == r.direct_costs + r.overhead + r.profit,
        r.total == r.subtotal + r.vat,
{
    let ghost data: Seq<ItemData> = items_data_of(items@);
    let mut direct_sum: i128 = 0;
    let mut labor_sum: i128 = 0;
    let mut machine_op_sum: i128 = 0;
    let mut material_sum: i128 = 0;
    let mut machine_sum: i128 = 0;

    let n: usize = items.len();
    let mut i: usize = 0;
    while i < n
        invariant
            i <= n,
            n == items@.len(),
            data == items_data_of(items@),
            items_in_range(data),
            direct_sum == sum_direct(data.take(i as int)),
            labor_sum == sum_labor(data.take(i as int)),
            machine_op_sum == sum_machine_op(data.take(i as int)),
            material_sum == sum_materials(data.take(i as int)),
            machine_sum == sum_machines(data.take(i as int)),
            -(i as int) * max_product() <= direct_sum <= (i as int) * max_product(),
            -(i as int) * max_product() <= labor_sum <= (i as int) * max_product(),
            -(i as int) * max_product() <= machine_op_sum <= (i as int) * max_product(),
            -(i as int) * max_product() <= material_sum <= (i as int) * max_product(),
            -(i as int) * max_product() <= machine_sum <= (i as int) * max_product(),
        decreases n - i,
    {
        let it: &EstimateItem = items[i];
        let q: i128 = it.quantity as i128;
        proof {
            assert(data[i as int] == item_data_of(*items@[i as int]));
            assert(item_in_range(data[i as int]));
            lemma_mul_bound(
                q as int,
                it.unit_costs.direct as int,
                MAX_AMOUNT as int,
                MAX_AMOUNT as int,
            );
            lemma_mul_bound(
                q as int,
                it.unit_costs.labor as int,
                MAX_AMOUNT as int,
                MAX_AMOUNT as int,
            );
            lemma_mul_bound(
                q as int,
                it.unit_costs.machine_operator as int,
                MAX_AMOUNT as int,
                MAX_AMOUNT as int,
            );
            lemma_mul_bound(
                q as int,
                it.unit_costs.materials as int,
                MAX_AMOUNT as int,
                MAX_AMOUNT as int,
            );
            lemma_mul_bound(
                q as int,
                it.unit_costs.machines as int,
                MAX_AMOUNT as int,
                MAX_AMOUNT as int,
            );
            lemma_acc_step(
                direct_sum as int,
                q as int * it.unit_costs.direct as int,
                i as int,
                max_product(),
            );
            lemma_acc_step(
                labor_sum as int,
                q as int * it.unit_costs.labor as int,
                i as int,
                max_product(),
            );
            lemma_acc_step(
                machine_op_sum as int,
                q as int * it.unit_costs.machine_operator as int,
                i as int,
                max_product(),
            );
            lemma_acc_step(
                material_sum as int,
                q as int * it.unit_costs.materials as int,
                i as int,
                max_product(),
            );
            lemma_acc_step(
                machine_sum as int,
                q as int * it.unit_costs.machines as int,
                i as int,
                max_product(),
            );
            lemma_sum_take_succ(data, |it: ItemData| direct_product(it), i as int);
            lemma_sum_take_succ(data, |it: ItemData| labor_product(it), i as int);
            lemma_sum_take_succ(data, |it: ItemData| machine_op_product(it), i as int);
            lemma_sum_take_succ(data, |it: ItemData| materials_product(it), i as int);
            lemma_sum_take_succ(data, |it: ItemData| machines_product(it), i as int);
        }
        direct_sum = direct_sum + q * (it.unit_costs.direct as i128);
        labor_sum = labor_sum + q * (it.unit_costs.labor as i128);
        machine_op_sum = machine_op_sum + q * (it.unit_costs.machine_operator as i128);
        material_sum = material_sum + q * (it.unit_costs.materials as i128);
        machine_sum = machine_sum + q * (it.unit_costs.machines as i128);
        i = i + 1;
    }
    proof {
        assert(data.take(n as int) =~= data);
        lemma_sum_take_all(data, |it: ItemData| direct_product(it));
        lemma_sum_take_all(data, |it: ItemData| labor_product(it));
        lemma_sum_take_all(data, |it: ItemData| machine_op_product(it));
        lemma_sum_take_all(data, |it: ItemData| materials_product(it));
        lemma_sum_take_all(data, |it: ItemData| machines_product(it));
    }
    let kernel_settings: crate::types::CalculationSettings = crate::types::CalculationSettings {
        overhead_rate: settings.overhead_rate,
        profit_rate: settings.profit_rate,
        vat_rate: settings.vat_rate,
        index: settings.index,
    };
    let totals: CalculationTotals = finalize_totals(
        direct_sum,
        labor_sum,
        machine_op_sum,
        material_sum,
        machine_sum,
        &kernel_settings,
    );
    EstimateTotals {
        direct_costs: totals.direct_costs,
        labor_costs: totals.labor_costs,
        machine_operator_costs: totals.machine_op_costs,
        material_costs: totals.material_costs,
        machine_costs: totals.machine_costs,
        overhead: totals.overhead,
        profit: totals.profit,
        subtotal: totals.subtotal,
        vat: totals.vat,
        total: totals.total,
    }
}

/// A structure-of-arrays calculator: the item columns stored as six
/// flat arrays, ready for grouped accumulation.
#[derive(Debug, Clone)]
pub struct FastCalculator {
    quantities: Vec<i64>,
    direct_costs: Vec<i64>,
    labor_costs: Vec<i64>,
    machine_op_costs: Vec<i64>,
    material_costs: Vec<i64>,
    machine_costs: Vec<i64>,
}

/// The six columns all have the same length.
pub closed spec fn fast_wf(fc: FastCalculator) -> bool {
    &&& fc.direct_costs@.len() == fc.quantities@.len()
    &&& fc.labor_costs@.len() == fc.quantities@.len()
    &&& fc.machine_op_costs@.len() == fc.quantities@.len()
    &&& fc.material_costs@.len() == fc.quantities@.len()
    &&& fc.machine_costs@.len() == fc.quantities@.len()
}

/// The item at one row of the columns.
pub closed spec fn fast_item(fc: FastCalculator, i: int) -> ItemData {
    ItemData {
        quantity: fc.quantities@[i],
        unit_costs: UnitCostsData {
            direct: fc.direct_costs@[i],
            labor: fc.labor_costs@[i],
            machine_operator: fc.machine_op_costs@[i],
            materials: fc.material_costs@[i],
            machines: fc.machine_costs@[i],
        },
    }
}

/// The items the columns hold.
pub closed spec fn fast_items(fc: FastCalculator) -> Seq<ItemData> {
    Seq::new(fc.quantities@.len(), |i: int| fast_item(fc, i))
}

impl FastCalculator {
    /// Build the columns from referenced estimate items.
    pub fn from_items(items: &Vec<&EstimateItem>) -> (r: Self)
        ensures
            fast_wf(r),
            fast_items(r) == items_data_of(items@),
    {
        let mut calc: FastCalculator = FastCalculator {
            quantities: Vec::new(),
            direct_costs: Vec::new(),
            labor_costs: Vec::new(),
            machine_op_costs: Vec::new(),
            material_costs: Vec::new(),
            machine_costs: Vec::new(),
        };
        let n: usize = items.len();
        let mut i: usize = 0;
        while i < n
            invariant
                i <= n,
                n == items@.len(),
                fast_wf(calc),
                calc.quantities@.len() == i,
                fast_items(calc) == items_data_of(items@).take(i as int),
            decreases n - i,
        {
            let it: &EstimateItem = items[i];
            calc.quantities.push(it.quantity);
            calc.direct_costs.push(it.unit_costs.direct);
            calc.labor_costs.push(it.unit_costs.labor);
            calc.machine_op_costs.push(it.unit_costs.machine_operator);
            calc.material_costs.push(it.unit_costs.materials);
            calc.machine_costs.push(it.unit_costs.machines);
            proof {
                assert(fast_items(calc) =~= items_data_of(items@).take(i as int + 1));
            }
            i = i + 1;
        }
        proof {
            assert(items_data_of(items@).take(n as int) =~= items_data_of(items@));
        }
        calc
    }

    /// Number of rows.
    pub fn len(&self) -> (r: usize)
        ensures
            r == fast_items(*self).len(),
    {
        self.quantities.len()
    }

    /// Are there no rows?
    pub fn is_empty(&self) -> (r: bool)
        ensures
            r == (fast_items(*self).len() == 0),
    {
        self.quantities.is_empty()
    }

    /// The quantity column.
    pub fn quantities(&self) -> (r: &Vec<i64>)
        ensures
            r@.len() == fast_items(*self).len(),
            forall|i: int|
                0 <= i < r@.len() ==> r@[i] == (#[trigger] fast_items(*self)[i]).quantity,
    {
        &self.quantities
    }

    /// The direct cost column.
    pub fn direct_costs(&self) -> (r: &Vec<i64>)
        requires
            fast_wf(*self),
        ensures
            r@.len() == fast_items(*self).len(),
            forall|i: int|
                0 <= i < r@.len() ==> r@[i] == (#[trigger] fast_items(
                    *self,
                )[i]).unit_costs.direct,
    {
        &self.direct_costs
    }

    /// The labor cost column.
    pub fn labor_costs(&self) -> (r: &Vec<i64>)
        requires
            fast_wf(*self),
        ensures
            r@.len() == fast_items(*self).len(),
            forall|i: int|
                0 <= i < r@.len() ==> r@[i] == (#[trigger] fast_items(*self)[i]).unit_costs.labor,
    {
        &self.labor_costs
    }

    /// The machine operator cost column.
    pub fn machine_op_costs(&self) -> (r: &Vec<i64>)
        requires
            fast_wf(*self),
        ensures
            r@.len() == fast_items(*self).len(),
            forall|i: int|
                0 <= i < r@.len() ==> r@[i] == (#[trigger] fast_items(
                    *self,
                )[i]).unit_costs.machine_operator,
    {
        &self.machine_op_costs
    }

    /// The material cost column.
    pub fn material_costs(&self) -> (r: &Vec<i64>)
        requires
            fast_wf(*self),
        ensures
            r@.len() == fast_items(*self).len(),
            forall|i: int|
                0 <= i < r@.len() ==> r@[i] == (#[trigger] fast_items(
                    *self,
                )[i]).unit_costs.materials,
    {
        &self.material_costs
    }

    /// The machine cost column.
    pub fn machine_costs(&self) -> (r: &Vec<i64>)
        requires
            fast_wf(*self),
        ensures
            r@.len() == fast_items(*self).len(),
            forall|i: int|
                0 <= i < r@.len() ==> r@[i] == (#[trigger] fast_items(
                    *self,
                )[i]).unit_costs.machines,
    {
        &self.machine_costs
    }

    /// Calculate totals over the columns by sequential accumulation.
    pub fn calculate_totals(&self, settings: &FastCalculationSettings) -> (r: FastTotals)
        requires
            fast_wf(*self),
            items_in_range(fast_items(*self)),
            settings_in_range(fast_settings_data(*settings)),
        ensures
            fast_totals_match(r, totals_model(fast_items(*self), fast_settings_data(*settings))),
            r.subtotal == r.direct_costs + r.overhead + r.profit,
            r.total == r.subtotal + r.vat,
    {
        let ghost data: Seq<ItemData> = fast_items(*self);
        let mut direct_sum: i128 = 0;
        let mut labor_sum: i128 = 0;
        let mut machine_op_sum: i128 = 0;
        let mut material_sum: i128 = 0;
        let mut machine_sum: i128 = 0;

        let n: usize = self.len();
        let mut i: usize = 0;
        while i < n
            invariant
                i <= n,
                n == self.quantities@.len(),
                fast_wf(*self),
                data == fast_items(*self),
                items_in_range(data),
                direct_sum == sum_direct(data.take(i as int)),
                labor_sum == sum_labor(data.take(i as int)),
                machine_op_sum == sum_machine_op(data.take(i as int)),
                material_sum == sum_materials(data.take(i as int)),
                machine_sum == sum_machines(data.take(i as int)),
                -(i as int) * max_product() <= direct_sum <= (i as int) * max_product(),
                -(i as int) * max_product() <= labor_sum <= (i as int) * max_product(),
                -(i as int) * max_product() <= machine_op_sum <= (i as int) * max_product(),
                -(i as int) * max_product() <= material_sum <= (i as int) * max_product(),
                -(i as int) * max_product() <= machine_sum <= (i as int) * max_product(),
            decreases n - i,
        {
            let q: i128 = self.quantities[i] as i128;
            proof {
                assert(item_in_range(data[i as int]));
                lemma_mul_bound(
                    q as int,
                    self.direct_costs@[i as int] as int,
                    MAX_AMOUNT as int,
                    MAX_AMOUNT as int,
                );
                lemma_mul_bound(
                    q as int,
                    self.labor_costs@[i as int] as int,
                    MAX_AMOUNT as int,
                    MAX_AMOUNT as int,
                );
                lemma_mul_bound(
                    q as int,
                    self.machine_op_costs@[i as int] as int,
                    MAX_AMOUNT as int,
                    MAX_AMOUNT as int,
                );
                lemma_mul_bound(
                    q as int,
                    self.material_costs@[i as int] as int,
                    MAX_AMOUNT as int,
                    MAX_AMOUNT as int,
                );
                lemma_mul_bound(
                    q as int,
                    self.machine_costs@[i as int] as int,
                    MAX_AMOUNT as int,
                    MAX_AMOUNT as int,
                );
                lemma_acc_step(
                    direct_sum as int,
                    q as int * self.direct_costs@[i as int] as int,
                    i as int,
                    max_product(),
                );
                lemma_acc_step(
                    labor_sum as int,
                    q as int * self.labor_costs@[i as int] as int,
                    i as int,
                    max_product(),
                );
                lemma_acc_step(
                    machine_op_sum as int,
                    q as int * self.machine_op_costs@[i as int] as int,
                    i as int,
                    max_product(),
                );
                lemma_acc_step(
                    material_sum as int,
                    q as int * self.material_costs@[i as int] as int,
                    i as int,
                    max_product(),
                );
                lemma_acc_step(
                    machine_sum as int,
                    q as int * self.machine_costs@[i as int] as int,
                    i as int,
                    max_product(),
                );
                lemma_sum_take_succ(data, |it: ItemData| direct_product(it), i as int);
                lemma_sum_take_succ(data, |it: ItemData| labor_product(it), i as int);
                lemma_sum_take_succ(data, |it: ItemData| machine_op_product(it), i as int);
                lemma_sum_take_succ(data, |it: ItemData| materials_product(it), i as int);
                lemma_sum_take_succ(data, |it: ItemData| machines_product(it), i as int);
            }
            direct_sum = direct_sum + q * (self.direct_costs[i] as i128);
            labor_sum = labor_sum + q * (self.labor_costs[i] as i128);
            machine_op_sum = machine_op_sum + q * (self.machine_op_costs[i] as i128);
            material_sum = material_sum + q * (self.material_costs[i] as i128);
            machine_sum = machine_sum + q * (self.machine_costs[i] as i128);
            i = i + 1;
        }
        proof {
            assert(data.take(n as int) =~= data);
            lemma_sum_take_all(data, |it: ItemData| direct_product(it));
            lemma_sum_take_all(data, |it: ItemData| labor_product(it));
            lemma_sum_take_all(data, |it: ItemData| machine_op_product(it));
            lemma_sum_take_all(data, |it: ItemData| materials_product(it));
            lemma_sum_take_all(data, |it: ItemData| machines_product(it));
        }
        let kernel_settings: crate::types::CalculationSettings =
            crate::types::CalculationSettings {
            overhead_rate: settings.overhead_rate,
            profit_rate: settings.profit_rate,
            vat_rate: settings.vat_rate,
            index: settings.index,
        };
        let totals: CalculationTotals = finalize_totals(
            direct_sum,
            labor_sum,
            machine_op_sum,
            material_sum,
            machine_sum,
            &kernel_settings,
        );
        FastTotals {
            direct_costs: totals.direct_costs,
            labor_costs: totals.labor_costs,
            machine_op_costs: totals.machine_op_costs,
            material_costs: totals.material_costs,
            machine_costs: totals.machine_costs,
            overhead: totals.overhead,
            profit: totals.profit,
            subtotal: totals.subtotal,
            vat: totals.vat,
            total: totals.total,
        }
    }
}

/// Settings of a structure-of-arrays calculation.
#[derive(Debug, Clone, Copy)]
pub struct FastCalculationSettings {
    pub overhead_rate: i64,
    pub profit_rate: i64,
    pub vat_rate: i64,
    pub index: i64,
}

/// The kernel-level view of fast calculation settings.
pub open spec fn fast_settings_data(s: FastCalculationSettings) -> crate::types::CalculationSettings {
    crate::types::CalculationSettings {
        overhead_rate: s.overhead_rate,
        profit_rate: s.profit_rate,
        vat_rate: s.vat_rate,
        index: s.index,
    }
}

impl Default for FastCalculationSettings {
    /// Overhead 12%, profit 8%, VAT 20%, index 1.
    fn default() -> (r: Self)
        ensures
            r.overhead_rate == 1200,
            r.profit_rate == 800,
            r.vat_rate == 2000,
            r.index == 10_000,
    {
        Self { overhead_rate: 1200, profit_rate: 800, vat_rate: 2000, index: 10_000 }
    }
}

impl<'a> From<&'a CalculationSettings> for FastCalculationSettings {
    fn from(settings: &'a CalculationSettings) -> (r: Self) {
        Self {
            overhead_rate: settings.overhead_rate,
            profit_rate: settings.profit_rate,
            vat_rate: settings.vat_rate,
            index: settings.index,
        }
    }
}

impl<'a> vstd::std_specs::convert::FromSpecImpl<&'a CalculationSettings>
    for FastCalculationSettings {
    open spec fn obeys_from_spec() -> bool {
        true
    }

    open spec fn from_spec(settings: &'a CalculationSettings) -> Self {
        FastCalculationSettings {
            overhead_rate: settings.overhead_rate,
            profit_rate: settings.profit_rate,
            vat_rate: settings.vat_rate,
            index: settings.index,
        }
    }
}

/// Totals of a structure-of-arrays calculation.
#[derive(Debug, Clone, Copy)]
pub struct FastTotals {
    pub direct_costs: i128,
    pub labor_costs: i128,
    pub machine_op_costs: i128,
    pub material_costs: i128,
    pub machine_costs: i128,
    pub overhead: i128,
    pub profit: i128,
    pub subtotal: i128,
    pub vat: i128,
    pub total: i128,
}

/// Field-for-field agreement of fast totals with the model.
pub open spec fn fast_totals_match(t: FastTotals, m: TotalsModel) -> bool {
    &&& t.direct_costs == m.direct_costs
    &&& t.labor_costs == m.labor_costs
    &&& t.machine_op_costs == m.machine_op_costs
    &&& t.material_costs == m.material_costs
    &&& t.machine_costs == m.machine_costs
    &&& t.overhead == m.overhead
    &&& t.profit == m.profit
    &&& t.subtotal == m.subtotal
    &&& t.vat == m.vat
    &&& t.total == m.total
}

impl Default for FastTotals {
    fn default() -> (r: Self)
        ensures
            r.direct_costs == 0,
            r.labor_costs == 0,
            r.machine_op_costs == 0,
            r.material_costs == 0,
            r.machine_costs == 0,
            r.overhead == 0,
            r.profit == 0,
            r.subtotal == 0,
            r.vat == 0,
            r.total == 0,
    {
        Self {
            direct_costs: 0,
            labor_costs: 0,
            machine_op_costs: 0,
            material_costs: 0,
            machine_costs: 0,
            overhead: 0,
            profit: 0,
            subtotal: 0,
            vat: 0,
            total: 0,
        }
    }
}

impl FastTotals {
    /// Copy the values into estimate totals.
    pub fn to_estimate_totals(&self) -> (r: EstimateTotals)
        ensures
            r.direct_costs == self.direct_costs,
            r.labor_costs == self.labor_costs,
            r.machine_operator_costs == self.machine_op_costs,
            r.material_costs == self.material_costs,
            r.machine_costs == self.machine_costs,
            r.overhead == self.overhead,
            r.profit == self.profit,
            r.subtotal == self.subtotal,
            r.vat == self.vat,
            r.total == self.total,
    {
        EstimateTotals {
            direct_costs: self.direct_costs,
            labor_costs: self.labor_costs,
            machine_operator_costs: self.machine_op_costs,
            material_costs: self.material_costs,
            machine_costs: self.machine_costs,
            overhead: self.overhead,
            profit: self.profit,
            subtotal: self.subtotal,
            vat: self.vat,
            total: self.total,
        }
    }
}

} // verus!
