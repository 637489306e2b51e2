//! Estimate data structures.
//!
//! Core types for representing construction estimates: the document,
//! its sections and positions, unit costs, the parties, and the
//! calculation settings and totals. Monetary values are fixed-point
//! integers (see [`crate::fixed`]); identifiers are the 128-bit
//! values of freshly generated UUIDs; timestamps are milliseconds
//! since the epoch.

use vstd::prelude::*;

use crate::coefficients::Coefficients;
use crate::fixed::{fp_mul, i64_fits, fixed_mul};
use crate::units::MeasureUnit;

verus! {

/// Relies on uuid::Uuid::new_v4 for a random version-4 UUID, taken
/// as its 128-bit value. The value is random, but new_v4 always sets
/// the version bits, so it is never zero.
#[verifier::external_body]
fn fresh_id() -> (r: u128)
    ensures
        r != 0,
{
    uuid::Uuid::new_v4().as_u128()
}

/// Relies on chrono::Utc::now for the current wall-clock time, taken
/// as milliseconds since the epoch. Nothing is assumed of the value.
#[verifier::external_body]
fn now_millis() -> (r: i64) {
    chrono::Utc::now().timestamp_millis()
}

/// An estimate: the top-level document.
#[derive(Debug, Clone)]
pub struct Estimate {
    /// Unique identifier.
    pub id: u128,
    /// Document number.
    pub number: String,
    /// Name of the estimate.
    pub name: String,
    /// Construction object.
    pub object: String,
    /// Customer party.
    pub customer: Customer,
    /// Contractor party.
    pub contractor: Contractor,
    /// Sections of the estimate.
    pub sections: Vec<EstimateSection>,
    /// Adjustment coefficients.
    pub coefficients: Coefficients,
    /// Overhead settings.
    pub overhead: OverheadSettings,
    /// Profit settings.
    pub profit: ProfitSettings,
    /// Workflow status.
    pub status: EstimateStatus,
    /// Creation time, in milliseconds since the epoch.
    pub created_at: i64,
    /// Last update time, in milliseconds since the epoch.
    pub updated_at: i64,
}

/// Total number of items over a prefix of the sections.
pub open spec fn spec_items_count(sections: Seq<EstimateSection>) -> int
    decreases sections.len(),
{
    if sections.len() == 0 {
        0
    } else {
        spec_items_count(sections.drop_last()) + sections.last().items@.len()
    }
}

/// All items of the sections, flattened in order.
pub open spec fn flat_items(sections: Seq<EstimateSection>) -> Seq<EstimateItem>
    decreases sections.len(),
{
    if sections.len() == 0 {
        Seq::<EstimateItem>::empty()
    } else {
        flat_items(sections.drop_last()) + sections.last().items@
    }
}

/// Extending a section prefix by one section adds that section's
/// item count and items.
proof fn lemma_sections_take_succ(sections: Seq<EstimateSection>, i: int)
    requires
        0 <= i < sections.len(),
    ensures
        spec_items_count(sections.take(i + 1)) == spec_items_count(sections.take(i)) + sections[
            i
        ].items@.len(),
        flat_items(sections.take(i + 1)) == flat_items(sections.take(i)) + sections[i].items@,
    decreases sections.len() - i,
{
    assert(sections.take(i + 1).drop_last() =~= sections.take(i));
    assert(sections.take(i + 1).last() == sections[i]);
}

/// An item count over a prefix never exceeds the count over the
/// whole sequence.
proof fn lemma_items_count_prefix(sections: Seq<EstimateSection>, i: int)
    requires
        0 <= i <= sections.len(),
    ensures
        spec_items_count(sections.take(i)) <= spec_items_count(sections),
    decreases sections.len() - i,
{
    if i == sections.len() {
        assert(sections.take(i) =~= sections);
    } else {
        lemma_sections_take_succ(sections, i);
        lemma_items_count_prefix(sections, i + 1);
    }
}

impl Estimate {
    /// Create a new estimate with default values: a fresh identifier,
    /// no sections, draft status, and equal creation and update
    /// times.
    pub fn new(name: String, object: String) -> (r: Self)
        ensures
            r.id != 0,
            r.number@ == Seq::<char>::empty(),
            r.name == name,
            r.object == object,
            r.sections@.len() == 0,
            r.coefficients.index == 10_000,
            r.coefficients.custom@.len() == 0,
            r.overhead.rate == 1200,
            r.overhead.method == OverheadMethod::FromLaborCost,
            r.profit.rate == 800,
            r.profit.method == ProfitMethod::FromLaborCost,
            r.customer.name@ == Seq::<char>::empty(),
            r.contractor.name@ == Seq::<char>::empty(),
            r.status == EstimateStatus::Draft,
            r.created_at == r.updated_at,
    {
        let now: i64 = now_millis();
        Self {
            id: fresh_id(),
            number: String::new(),
            name,
            object,
            customer: Customer::default(),
            contractor: Contractor::default(),
            sections: Vec::new(),
            coefficients: Coefficients::default(),
            overhead: OverheadSettings::default(),
            profit: ProfitSettings::default(),
            status: EstimateStatus::Draft,
            created_at: now,
            updated_at: now,
        }
    }

    /// Total item count across all sections.
    pub fn items_count(&self) -> (r: usize)
        requires
            spec_items_count(self.sections@) <= usize::MAX,
        ensures
            r == spec_items_count(self.sections@),
    {
        let mut count: usize = 0;
        let n: usize = self.sections.len();
        let mut i: usize = 0;
        while i < n
            invariant
                i <= n,
                n == self.sections@.len(),
                spec_items_count(self.sections@) <= usize::MAX,
                count == spec_items_count(self.sections@.take(i as int)),
            decreases n - i,
        {
            proof {
                lemma_sections_take_succ(self.sections@, i as int);
                lemma_items_count_prefix(self.sections@, i as int + 1);
            }
            count = count + self.sections[i].items.len();
            i = i + 1;
        }
        proof {
            assert(self.sections@.take(n as int) =~= self.sections@);
        }
        count
    }

    /// All items of the estimate, flattened in section order.
    pub fn all_items(&self) -> (r: Vec<&EstimateItem>)
        ensures
            r@.map_values(|it: &EstimateItem| *it) == flat_items(self.sections@),
    {
        let mut out: Vec<&EstimateItem> = Vec::new();
        let n: usize = self.sections.len();
        let mut i: usize = 0;
        while i < n
            invariant
                i <= n,
                n == self.sections@.len(),
                out@.map_values(|it: &EstimateItem| *it) == flat_items(self.sections@.take(i as int)),
            decreases n - i,
        {
            let section: &EstimateSection = &self.sections[i];
            let m: usize = section.items.len();
            let mut j: usize = 0;
            while j < m
                invariant
                    j <= m,
                    i < n,
                    n == self.sections@.len(),
                    m == self.sections@[i as int].items@.len(),
                    *section == self.sections@[i as int],
                    out@.map_values(|it: &EstimateItem| *it) == flat_items(
                        self.sections@.take(i as int),
                    ) + self.sections@[i as int].items@.take(j as int),
                decreases m - j,
            {
                let item: &EstimateItem = &section.items[j];
                let ghost prev: Seq<&EstimateItem> = out@;
                out.push(item);
                proof {
                    assert(*item == self.sections@[i as int].items@[j as int]);
                    assert(out@ == prev.push(item));
                    assert(out@.map_values(|it: &EstimateItem| *it) =~= prev.map_values(
                        |it: &EstimateItem| *it,
                    ).push(self.sections@[i as int].items@[j as int]));
                    assert(flat_items(self.sections@.take(i as int)) + self.sections@[
                        i as int
                    ].items@.take(j as int + 1) =~= (flat_items(self.sections@.take(i as int))
                        + self.sections@[i as int].items@.take(j as int)).push(self.sections@[
                        i as int
                    ].items@[j as int]));
                }
                j = j + 1;
            }
            proof {
                lemma_sections_take_succ(self.sections@, i as int);
                assert(self.sections@[i as int].items@.take(m as int) =~= self.sections@[
                    i as int
                ].items@);
            }
            i = i + 1;
        }
        proof {
            assert(self.sections@.take(n as int) =~= self.sections@);
        }
        out
    }

    /// The calculation settings this estimate implies: its overhead
    /// and profit rates, the standard 20% VAT, and its price index.
    pub fn calculation_settings(&self) -> (r: CalculationSettings)
        ensures
            r.overhead_rate == self.overhead.rate,
            r.profit_rate == self.profit.rate,
            r.vat_rate == 2000,
            r.index == self.coefficients.index,
    {
        CalculationSettings {
            overhead_rate: self.overhead.rate,
            profit_rate: self.profit.rate,
            vat_rate: 2000,
            index: self.coefficients.index,
        }
    }
}

/// A section of an estimate.
#[derive(Debug, Clone)]
pub struct EstimateSection {
    /// Unique identifier.
    pub id: u128,
    /// Ordinal number of the section.
    pub number: u32,
    /// Name of the section.
    pub name: String,
    /// Positions of the section.
    pub items: Vec<EstimateItem>,
}

impl EstimateSection {
    /// Create a new, empty section.
    pub fn new(number: u32, name: String) -> (r: Self)
        ensures
            r.id != 0,
            r.number == number,
            r.name == name,
            r.items@.len() == 0,
    {
        Self { id: fresh_id(), number, name, items: Vec::new() }
    }

    /// Append an item to the section.
    pub fn add_item(&mut self, item: EstimateItem)
        ensures
            final(self).items@ == old(self).items@.push(item),
            final(self).id == old(self).id,
            final(self).number == old(self).number,
            final(self).name == old(self).name,
    {
        self.items.push(item);
    }
}

/// A position (line item) of an estimate.
#[derive(Debug, Clone)]
pub struct EstimateItem {
    /// Unique identifier.
    pub id: u128,
    /// Ordinal position.
    pub position: u32,
    /// Normative code of the work.
    pub code: String,
    /// Name of the work.
    pub name: String,
    /// Unit of measurement.
    pub unit: MeasureUnit,
    /// Quantity, fixed-point.
    pub quantity: i64,
    /// Per-unit costs.
    pub unit_costs: UnitCosts,
    /// Resources of the position.
    pub resources: Vec<Resource>,
    /// Labor hours, fixed-point.
    pub labor_hours: i64,
    /// Machine hours, fixed-point.
    pub machine_hours: i64,
}

impl EstimateItem {
    /// Create a new estimate item with zero costs.
    pub fn new(code: String, name: String, unit: MeasureUnit, quantity: i64) -> (r: Self)
        ensures
            r.id != 0,
            r.position == 0,
            r.code == code,
            r.name == name,
            r.unit == unit,
            r.quantity == quantity,
            r.unit_costs.direct == 0,
            r.unit_costs.labor == 0,
            r.unit_costs.machine_operator == 0,
            r.unit_costs.materials == 0,
            r.unit_costs.machines == 0,
            r.resources@.len() == 0,
            r.labor_hours == 0,
            r.machine_hours == 0,
    {
        Self {
            id: fresh_id(),
            position: 0,
            code,
            name,
            unit,
            quantity,
            unit_costs: UnitCosts::default(),
            resources: Vec::new(),
            labor_hours: 0,
            machine_hours: 0,
        }
    }

    /// Total direct cost of this position: quantity times the direct
    /// unit cost.
    pub fn total_direct_cost(&self) -> (r: i64)
        requires
            i64_fits(fp_mul(self.quantity as int, self.unit_costs.direct as int)),
        ensures
            r == fp_mul(self.quantity as int, self.unit_costs.direct as int),
    {
        fixed_mul(self.quantity, self.unit_costs.direct)
    }

    /// Total labor cost of this position.
    pub fn total_labor_cost(&self) -> (r: i64)
        requires
            i64_fits(fp_mul(self.quantity as int, self.unit_costs.labor as int)),
        ensures
            r == fp_mul(self.quantity as int, self.unit_costs.labor as int),
    {
        fixed_mul(self.quantity, self.unit_costs.labor)
    }

    /// Total material cost of this position.
    pub fn total_material_cost(&self) -> (r: i64)
        requires
            i64_fits(fp_mul(self.quantity as int, self.unit_costs.materials as int)),
        ensures
            r == fp_mul(self.quantity as int, self.unit_costs.materials as int),
    {
        fixed_mul(self.quantity, self.unit_costs.materials)
    }

    /// Total machine cost of this position.
    pub fn total_machine_cost(&self) -> (r: i64)
        requires
            i64_fits(fp_mul(self.quantity as int, self.unit_costs.machines as int)),
        ensures
            r == fp_mul(self.quantity as int, self.unit_costs.machines as int),
    {
        fixed_mul(self.quantity, self.unit_costs.machines)
    }
}

/// Per-unit costs of a position, fixed-point.
#[derive(Debug, Clone, Copy)]
pub struct UnitCosts {
    /// Direct costs, total.
    pub direct: i64,
    /// Workers' wages.
    pub labor: i64,
    /// Machine operators' wages.
    pub machine_operator: i64,
    /// Materials.
    pub materials: i64,
    /// Operation of machines and mechanisms.
    pub machines: i64,
}

impl Default for UnitCosts {
    fn default() -> (r: Self)
        ensures
            r.direct == 0,
            r.labor == 0,
            r.machine_operator == 0,
            r.materials == 0,
            r.machines == 0,
    {
        Self { direct: 0, labor: 0, machine_operator: 0, materials: 0, machines: 0 }
    }
}

impl UnitCosts {
    /// Create new unit costs.
    pub fn new(direct: i64, labor: i64, machine_operator: i64, materials: i64, machines: i64) -> (r:
        Self)
        ensures
            r.direct == direct,
            r.labor == labor,
            r.machine_operator == machine_operator,
            r.materials == materials,
            r.machines == machines,
    {
        Self { direct, labor, machine_operator, materials, machines }
    }

    /// Validate that the direct cost equals the sum of its
    /// components, within a tolerance of one hundredth of a currency
    /// unit.
    pub fn validate(&self) -> (r: bool)
        requires
            -crate::types::MAX_AMOUNT <= self.direct <= crate::types::MAX_AMOUNT,
            -crate::types::MAX_AMOUNT <= self.labor <= crate::types::MAX_AMOUNT,
            -crate::types::MAX_AMOUNT <= self.machine_operator <= crate::types::MAX_AMOUNT,
            -crate::types::MAX_AMOUNT <= self.materials <= crate::types::MAX_AMOUNT,
            -crate::types::MAX_AMOUNT <= self.machines <= crate::types::MAX_AMOUNT,
        ensures
            r == {
                let gap = self.direct - (self.labor + self.machine_operator + self.materials
                    + self.machines);
                -100 < gap < 100
            },
    {
        let total: i64 = self.labor + self.machine_operator + self.materials + self.machines;
        let gap: i64 = self.direct - total;
        -100 < gap && gap < 100
    }
}

/// A resource of a position: material, machine or labor.
#[derive(Debug, Clone)]
pub struct Resource {
    /// Unique identifier.
    pub id: u128,
    /// Kind of the resource.
    pub resource_type: ResourceType,
    /// Resource code.
    pub code: String,
    /// Name of the resource.
    pub name: String,
    /// Unit of measurement.
    pub unit: MeasureUnit,
    /// Consumption per unit of work, fixed-point.
    pub consumption_rate: i64,
    /// Price per unit, fixed-point.
    pub unit_price: i64,
}

/// Kind of a resource.
#[derive(Debug, Clone, Copy, PartialEq, Eq, Structural)]
pub enum ResourceType {
    /// Material.
    Material,
    /// Machine or mechanism.
    Machine,
    /// Labor.
    Labor,
    /// Equipment.
    Equipment,
}

/// The customer party.
#[derive(Debug, Clone)]
pub struct Customer {
    /// Organization name.
    pub name: String,
    /// Taxpayer number.
    pub inn: Option<String>,
    /// Registration code.
    pub kpp: Option<String>,
    /// Address.
    pub address: Option<String>,
    /// Contact person.
    pub contact_person: Option<String>,
    /// Phone number.
    pub phone: Option<String>,
    /// Email address.
    pub email: Option<String>,
}

impl Default for Customer {
    fn default() -> (r: Self)
        ensures
            r.name@ == Seq::<char>::empty(),
            r.inn is None,
            r.kpp is None,
            r.address is None,
            r.contact_person is None,
            r.phone is None,
            r.email is None,
    {
        Self {
            name: String::new(),
            inn: None,
            kpp: None,
            address: None,
            contact_person: None,
            phone: None,
            email: None,
        }
    }
}

/// The contractor party.
#[derive(Debug, Clone)]
pub struct Contractor {
    /// Organization name.
    pub name: String,
    /// Taxpayer number.
    pub inn: Option<String>,
    /// Registration code.
    pub kpp: Option<String>,
    /// Address.
    pub address: Option<String>,
    /// Contact person.
    pub contact_person: Option<String>,
    /// Phone number.
    pub phone: Option<String>,
    /// Email address.
    pub email: Option<String>,
    /// License number.
    pub license: Option<String>,
}

impl Default for Contractor {
    fn default() -> (r: Self)
        ensures
            r.name@ == Seq::<char>::empty(),
            r.inn is None,
            r.kpp is None,
            r.address is None,
            r.contact_person is None,
            r.phone is None,
            r.email is None,
            r.license is None,
    {
        Self {
            name: String::new(),
            inn: None,
            kpp: None,
            address: None,
            contact_person: None,
            phone: None,
            email: None,
            license: None,
        }
    }
}

/// Overhead cost settings.
#[derive(Debug, Clone, Copy)]
pub struct OverheadSettings {
    /// Overhead rate, fixed-point, applied to the labor base.
    pub rate: i64,
    /// Calculation method.
    pub method: OverheadMethod,
}

impl Default for OverheadSettings {
    /// Twelve percent of the labor base.
    fn default() -> (r: Self)
        ensures
            r.rate == 1200,
            r.method == OverheadMethod::FromLaborCost,
    {
        Self { rate: 1200, method: OverheadMethod::FromLaborCost }
    }
}

/// Method of computing overhead costs.
#[derive(Debug, Clone, Copy, PartialEq, Eq, Structural)]
pub enum OverheadMethod {
    /// From the combined labor base.
    FromLaborCost,
    /// From direct costs.
    FromDirectCost,
    /// A fixed amount.
    Fixed,
}

/// Estimated profit settings.
#[derive(Debug, Clone, Copy)]
pub struct ProfitSettings {
    /// Profit rate, fixed-point, applied to the labor base.
    pub rate: i64,
    /// Calculation method.
    pub method: ProfitMethod,
}

impl Default for ProfitSettings {
    /// Eight percent of the labor base.
    fn default() -> (r: Self)
        ensures
            r.rate == 800,
            r.method == ProfitMethod::FromLaborCost,
    {
        Self { rate: 800, method: ProfitMethod::FromLaborCost }
    }
}

/// Method of computing estimated profit.
#[derive(Debug, Clone, Copy, PartialEq, Eq, Structural)]
pub enum ProfitMethod {
    /// From the combined labor base.
    FromLaborCost,
    /// From direct costs.
    FromDirectCost,
    /// A fixed amount.
    Fixed,
}

/// Workflow status of an estimate.
#[derive(Debug, Clone, Copy, PartialEq, Eq, Structural)]
pub enum EstimateStatus {
    /// Draft.
    Draft,
    /// In progress.
    InProgress,
    /// Under review.
    OnReview,
    /// Approved.
    Approved,
    /// Archived.
    Archived,
}

impl Default for EstimateStatus {
    fn default() -> (r: Self)
        ensures
            r == EstimateStatus::Draft,
    {
        Self::Draft
    }
}

/// Settings of a totals calculation over estimate items.
#[derive(Debug, Clone, Copy)]
pub struct CalculationSettings {
    /// Overhead rate, fixed-point.
    pub overhead_rate: i64,
    /// Profit rate, fixed-point.
    pub profit_rate: i64,
    /// VAT rate, fixed-point.
    pub vat_rate: i64,
    /// Price index, fixed-point.
    pub index: i64,
}

impl Default for CalculationSettings {
    /// Overhead 12%, profit 8%, VAT 20%, index 1.
    fn default() -> (r: Self)
        ensures
            r.overhead_rate == 1200,
            r.profit_rate == 800,
            r.vat_rate == 2000,
            r.index == 10_000,
    {
        Self { overhead_rate: 1200, profit_rate: 800, vat_rate: 2000, index: 10_000 }
    }
}

/// Totals of an estimate calculation: the five indexed category sums
/// and the derived overhead, profit, subtotal, VAT and total.
#[derive(Debug, Clone, Copy)]
pub struct EstimateTotals {
    /// Direct costs.
    pub direct_costs: i128,
    /// Workers' wages.
    pub labor_costs: i128,
    /// Machine operators' wages.
    pub machine_operator_costs: i128,
    /// Materials.
    pub material_costs: i128,
    /// Operation of machines.
    pub machine_costs: i128,
    /// Overhead costs.
    pub overhead: i128,
    /// Estimated profit.
    pub profit: i128,
    /// Subtotal before VAT.
    pub subtotal: i128,
    /// VAT.
    pub vat: i128,
    /// Grand total including VAT.
    pub total: i128,
}

impl Default for EstimateTotals {
    fn default() -> (r: Self)
        ensures
            r.direct_costs == 0,
            r.labor_costs == 0,
            r.machine_operator_costs == 0,
            r.material_costs == 0,
            r.machine_costs == 0,
            r.overhead == 0,
            r.profit == 0,
            r.subtotal == 0,
            r.vat == 0,
            r.total == 0,
    {
        Self {
            direct_costs: 0,
            labor_costs: 0,
            machine_operator_costs: 0,
            material_costs: 0,
            machine_costs: 0,
            overhead: 0,
            profit: 0,
            subtotal: 0,
            vat: 0,
            total: 0,
        }
    }
}

impl EstimateTotals {
    /// Format the grand total as a Russian ruble amount.
    pub fn format_rub(&self) -> (r: String)
        requires
            self.total > i128::MIN,
        ensures
            r@ == crate::fmt::spec_money_rub(self.total as int),
    {
        crate::fmt::format_rub_fixed(self.total)
    }
}

} // verus!
