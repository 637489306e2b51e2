//! Coefficients for estimate calculations.
//!
//! Adjustment coefficients applied to an estimate: the price index,
//! the standard winter, cramped-conditions, regional and height
//! coefficients, and free-form custom coefficients. The combined
//! coefficient is the fixed-point product of the index, every
//! standard coefficient that is set, and every active custom
//! coefficient, multiplied left to right.

use vstd::prelude::*;
use vstd::string::StringExecFns;

use crate::fixed::{fixed_mul, fp_mul, i64_fits};

verus! {

/// Coefficients attached to an estimate.
#[derive(Debug, Clone)]
pub struct Coefficients {
    /// Price recalculation index, fixed-point.
    pub index: i64,
    /// Winter cost increase coefficient, fixed-point.
    pub winter: Option<i64>,
    /// Cramped-conditions coefficient, fixed-point.
    pub cramped: Option<i64>,
    /// Regional coefficient, fixed-point.
    pub regional: Option<i64>,
    /// Height coefficient, fixed-point.
    pub height: Option<i64>,
    /// Custom coefficients.
    pub custom: Vec<CustomCoefficient>,
}

impl Default for Coefficients {
    /// Index one, no standard coefficients, no custom coefficients.
    fn default() -> (r: Self)
        ensures
            r.index == 10_000,
            r.winter is None,
            r.cramped is None,
            r.regional is None,
            r.height is None,
            r.custom@.len() == 0,
    {
        Self {
            index: 10_000,
            winter: None,
            cramped: None,
            regional: None,
            height: None,
            custom: Vec::new(),
        }
    }
}

/// The index with the winter coefficient applied, if set.
pub open spec fn after_winter(c: Coefficients) -> int {
    match c.winter {
        Some(w) => fp_mul(c.index as int, w as int),
        None => c.index as int,
    }
}

/// ... then the cramped-conditions coefficient.
pub open spec fn after_cramped(c: Coefficients) -> int {
    match c.cramped {
        Some(v) => fp_mul(after_winter(c), v as int),
        None => after_winter(c),
    }
}

/// ... then the regional coefficient.
pub open spec fn after_regional(c: Coefficients) -> int {
    match c.regional {
        Some(v) => fp_mul(after_cramped(c), v as int),
        None => after_cramped(c),
    }
}

/// The product of the index and every standard coefficient that is
/// set (winter, cramped, regional, height), in that order.
pub open spec fn standard_value(c: Coefficients) -> int {
    match c.height {
        Some(v) => fp_mul(after_regional(c), v as int),
        None => after_regional(c),
    }
}

/// Values of the active custom coefficients, in order.
pub open spec fn active_values(cs: Seq<CustomCoefficient>) -> Seq<int> {
    cs.filter(|cc: CustomCoefficient| cc.is_active).map_values(
        |cc: CustomCoefficient| cc.value as int,
    )
}

/// Left fold of fixed-point multiplication over a value sequence.
pub open spec fn fold_fp_mul(start: int, vals: Seq<int>) -> int
    decreases vals.len(),
{
    if vals.len() == 0 {
        start
    } else {
        fp_mul(fold_fp_mul(start, vals.drop_last()), vals.last())
    }
}

/// The combined coefficient of the whole structure.
pub open spec fn combined_value(c: Coefficients) -> int {
    fold_fp_mul(standard_value(c), active_values(c.custom@))
}

/// Every intermediate value of the combined product fits in `i64`.
pub open spec fn combined_in_range(c: Coefficients) -> bool {
    &&& i64_fits(after_winter(c))
    &&& i64_fits(after_cramped(c))
    &&& i64_fits(after_regional(c))
    &&& i64_fits(standard_value(c))
    &&& forall|k: int|
        0 <= k <= c.custom@.len() ==> i64_fits(
            fold_fp_mul(standard_value(c), active_values(#[trigger] c.custom@.take(k))),
        )
}

/// Folding one more value multiplies the fold result once more.
proof fn lemma_fold_push(start: int, vals: Seq<int>, v: int)
    ensures
        fold_fp_mul(start, vals.push(v)) == fp_mul(fold_fp_mul(start, vals), v),
{
    assert(vals.push(v).drop_last() =~= vals);
    assert(vals.push(v).last() == v);
}

/// Taking one more custom coefficient extends the active values by
/// its value exactly when it is active.
proof fn lemma_active_take_succ(cs: Seq<CustomCoefficient>, i: int)
    requires
        0 <= i < cs.len(),
    ensures
        cs[i].is_active ==> active_values(cs.take(i + 1)) == active_values(cs.take(i)).push(
            cs[i].value as int,
        ),
        !cs[i].is_active ==> active_values(cs.take(i + 1)) == active_values(cs.take(i)),
{
    let pred = |cc: CustomCoefficient| cc.is_active;
    let to_value = |cc: CustomCoefficient| cc.value as int;
    assert(cs.take(i + 1).drop_last() =~= cs.take(i));
    assert(cs.take(i + 1).last() == cs[i]);
    reveal_with_fuel(Seq::filter, 2);
    if cs[i].is_active {
        assert(cs.take(i + 1).filter(pred) == cs.take(i).filter(pred).push(cs[i]));
        assert(cs.take(i).filter(pred).push(cs[i]).map_values(to_value) =~= cs.take(i).filter(
            pred,
        ).map_values(to_value).push(cs[i].value as int));
    } else {
        assert(cs.take(i + 1).filter(pred) == cs.take(i).filter(pred));
    }
}

impl Coefficients {
    /// Calculate the combined coefficient: multiply the index, every
    /// standard coefficient that is set, and every active custom
    /// coefficient.
    pub fn combined(&self) -> (r: i64)
        requires
            combined_in_range(*self),
        ensures
            r == combined_value(*self),
    {
        let mut result: i64 = self.index;

        if let Some(winter) = self.winter {
            result = fixed_mul(result, winter);
        }
        if let Some(cramped) = self.cramped {
            result = fixed_mul(result, cramped);
        }
        if let Some(regional) = self.regional {
            result = fixed_mul(result, regional);
        }
        if let Some(height) = self.height {
            result = fixed_mul(result, height);
        }
        proof {
            assert(self.custom@.take(0) =~= Seq::<CustomCoefficient>::empty());
            assert(active_values(self.custom@.take(0)) =~= Seq::<int>::empty());
        }
        let n: usize = self.custom.len();
        let mut i: usize = 0;
        while i < n
            invariant
                i <= n,
                n == self.custom@.len(),
                combined_in_range(*self),
                result == fold_fp_mul(standard_value(*self), active_values(self.custom@.take(i as int))),
            decreases n - i,
        {
            proof {
                lemma_active_take_succ(self.custom@, i as int);
                if self.custom@[i as int].is_active {
                    lemma_fold_push(
                        standard_value(*self),
                        active_values(self.custom@.take(i as int)),
                        self.custom@[i as int].value as int,
                    );
                }
            }
            let custom: &CustomCoefficient = &self.custom[i];
            if custom.is_active {
                result = fixed_mul(result, custom.value);
            }
            i = i + 1;
        }
        proof {
            assert(self.custom@.take(n as int) =~= self.custom@);
        }
        result
    }

    /// Add a custom coefficient, active by default.
    pub fn add_custom(&mut self, name: String, value: i64, justification: Option<String>)
        ensures
            final(self).custom@.len() == old(self).custom@.len() + 1,
            final(self).custom@.last().name == name,
            final(self).custom@.last().value == value,
            final(self).custom@.last().justification == justification,
            final(self).custom@.last().is_active,
            final(self).custom@.take(old(self).custom@.len() as int) == old(self).custom@,
            final(self).index == old(self).index,
            final(self).winter == old(self).winter,
            final(self).cramped == old(self).cramped,
            final(self).regional == old(self).regional,
            final(self).height == old(self).height,
    {
        self.custom.push(
            CustomCoefficient { name, value, justification, is_active: true },
        );
        proof {
            assert(final(self).custom@.take(old(self).custom@.len() as int) =~= old(self).custom@);
        }
    }
}

/// A custom coefficient.
#[derive(Debug, Clone)]
pub struct CustomCoefficient {
    /// Name of the coefficient.
    pub name: String,
    /// Value, fixed-point.
    pub value: i64,
    /// Justification for applying it.
    pub justification: Option<String>,
    /// Whether the coefficient is applied.
    pub is_active: bool,
}

/// A price recalculation index.
#[derive(Debug, Clone)]
pub struct PriceIndex {
    /// Index code.
    pub code: String,
    /// Name of the index.
    pub name: String,
    /// Value, fixed-point.
    pub value: i64,
    /// Region the index applies to.
    pub region: Option<String>,
    /// Quarter of validity.
    pub quarter: String,
    /// Year of validity.
    pub year: u16,
    /// Kind of work the index applies to.
    pub work_type: Option<WorkType>,
}

/// Kind of work a price index applies to.
#[derive(Debug, Clone, Copy, PartialEq, Eq, Structural)]
pub enum WorkType {
    /// Construction and assembly work.
    Construction,
    /// Repair and construction work.
    Repair,
    /// Equipment installation.
    Installation,
    /// Commissioning work.
    Commissioning,
    /// Design work.
    Design,
}

/// A winter cost-increase coefficient entry.
#[derive(Debug, Clone)]
pub struct WinterCoefficient {
    /// Temperature zone (1 to 8).
    pub zone: u8,
    /// Work section the entry covers.
    pub work_section: String,
    /// Coefficient applied to workers' wages, fixed-point.
    pub labor_coefficient: i64,
    /// Coefficient applied to machine operation, fixed-point.
    pub machine_coefficient: i64,
    /// Coefficient applied to materials, fixed-point.
    pub material_coefficient: i64,
}

/// Temperature zones of Russian regions: each region with its zone
/// number.
pub fn temperature_zones() -> (r: Vec<(&'static str, u8)>)
    ensures
        r@.len() == 12,
        r@[0].0@ == "Краснодарский край"@ && r@[0].1 == 1,
        r@[1].0@ == "Ростовская область"@ && r@[1].1 == 2,
        r@[2].0@ == "Волгоградская область"@ && r@[2].1 == 3,
        r@[3].0@ == "Московская область"@ && r@[3].1 == 4,
        r@[4].0@ == "Нижегородская область"@ && r@[4].1 == 4,
        r@[5].0@ == "Ленинградская область"@ && r@[5].1 == 5,
        r@[6].0@ == "Свердловская область"@ && r@[6].1 == 5,
        r@[7].0@ == "Новосибирская область"@ && r@[7].1 == 6,
        r@[8].0@ == "Красноярский край"@ && r@[8].1 == 6,
        r@[9].0@ == "Иркутская область"@ && r@[9].1 == 7,
        r@[10].0@ == "Якутия"@ && r@[10].1 == 8,
        r@[11].0@ == "Чукотка"@ && r@[11].1 == 8,
{
    let mut zones: Vec<(&'static str, u8)> = Vec::new();
    zones.push(("Краснодарский край", 1));
    zones.push(("Ростовская область", 2));
    zones.push(("Волгоградская область", 3));
    zones.push(("Московская область", 4));
    zones.push(("Нижегородская область", 4));
    zones.push(("Ленинградская область", 5));
    zones.push(("Свердловская область", 5));
    zones.push(("Новосибирская область", 6));
    zones.push(("Красноярский край", 6));
    zones.push(("Иркутская область", 7));
    zones.push(("Якутия", 8));
    zones.push(("Чукотка", 8));
    zones
}

/// Cramped-conditions coefficients from the methodology rules: each
/// condition with its code and fixed-point coefficient.
pub fn cramped_coefficients() -> (r: Vec<CrampedCondition>)
    ensures
        r@.len() == 4,
        r@[0].code@ == "К1"@ && r@[0].coefficient == 11_500,
        r@[1].code@ == "К2"@ && r@[1].coefficient == 12_000,
        r@[2].code@ == "К3"@ && r@[2].coefficient == 11_000,
        r@[3].code@ == "К4"@ && r@[3].coefficient == 10_800,
        r@[0].name@ == "Работа на действующем предприятии"@,
        r@[1].name@ == "Работа в жилом здании"@,
        r@[2].name@ == "Работа в стеснённых условиях"@,
        r@[3].name@ == "Работа на высоте более 3.5м"@,
{
    let mut conditions: Vec<CrampedCondition> = Vec::new();
    conditions.push(
        CrampedCondition {
            name: String::from_str("Работа на действующем предприятии"),
            code: String::from_str("К1"),
            coefficient: 11_500,
            description: String::from_str("Без остановки производства"),
        },
    );
    conditions.push(
        CrampedCondition {
            name: String::from_str("Работа в жилом здании"),
            code: String::from_str("К2"),
            coefficient: 12_000,
            description: String::from_str("Без выселения жильцов"),
        },
    );
    conditions.push(
        CrampedCondition {
            name: String::from_str("Работа в стеснённых условиях"),
            code: String::from_str("К3"),
            coefficient: 11_000,
            description: String::from_str("Площадь рабочего места менее норматива"),
        },
    );
    conditions.push(
        CrampedCondition {
            name: String::from_str("Работа на высоте более 3.5м"),
            code: String::from_str("К4"),
            coefficient: 10_800,
            description: String::from_str("С подмостей и лесов"),
        },
    );
    conditions
}

/// A cramped-conditions entry.
#[derive(Debug, Clone)]
pub struct CrampedCondition {
    /// Name of the condition.
    pub name: String,
    /// Code of the coefficient.
    pub code: String,
    /// Value of the coefficient, fixed-point.
    pub coefficient: i64,
    /// Description.
    pub description: String,
}

} // verus!
