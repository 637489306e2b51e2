//! Normative items: the FER, GESN and TER standards.
//!
//! Data structures for Russian construction normatives: unit rates,
//! resource consumption norms, and the predefined rate collections.

use vstd::prelude::*;
use vstd::string::{StrSliceExecFns, StringExecFns};

use crate::estimate::UnitCosts;
use crate::text::{spec_starts_with, starts_with_str, upper_of, upper_str};
use crate::units::MeasureUnit;

verus! {

/// A normative unit rate.
#[derive(Debug, Clone)]
pub struct NormativeItem {
    /// Rate code.
    pub code: String,
    /// Name of the work.
    pub name: String,
    /// Unit of measurement.
    pub unit: MeasureUnit,
    /// Normative base the rate belongs to.
    pub base_type: NormativeBase,
    /// Base unit costs.
    pub costs: UnitCosts,
    /// Resource consumption norms.
    pub resources: Vec<ResourceNorm>,
    /// Labor norm (man-hours per unit), fixed-point.
    pub labor_norm: i64,
    /// Machine time norm (machine-hours per unit), fixed-point.
    pub machine_norm: i64,
    /// Section of the collection.
    pub section: Option<String>,
    /// Table within the section.
    pub table: Option<String>,
    /// Notes.
    pub notes: Option<String>,
}

impl NormativeItem {
    /// Create a new normative item with zero costs and norms.
    pub fn new(code: String, name: String, base_type: NormativeBase) -> (r: Self)
        ensures
            r.code == code,
            r.name == name,
            r.unit == MeasureUnit::Unit,
            r.base_type == base_type,
            r.costs.direct == 0,
            r.costs.labor == 0,
            r.costs.machine_operator == 0,
            r.costs.materials == 0,
            r.costs.machines == 0,
            r.resources@.len() == 0,
            r.labor_norm == 0,
            r.machine_norm == 0,
            r.section is None,
            r.table is None,
            r.notes is None,
    {
        Self {
            code,
            name,
            unit: MeasureUnit::Unit,
            base_type,
            costs: UnitCosts::default(),
            resources: Vec::new(),
            labor_norm: 0,
            machine_norm: 0,
            section: None,
            table: None,
            notes: None,
        }
    }

    /// The collection prefix of the code: its first five characters,
    /// if the code is that long.
    pub fn collection(&self) -> (r: Option<&str>)
        ensures
            r is Some <==> self.code@.len() >= 5,
            r matches Some(c) ==> c@ == self.code@.subrange(0, 5),
    {
        let len: usize = self.code.as_str().unicode_len();
        if len >= 5 {
            Some(self.code.as_str().substring_char(0, 5))
        } else {
            None
        }
    }

    /// Is this a FER normative?
    pub fn is_fer(&self) -> (r: bool)
        ensures
            r == (self.base_type is FER),
    {
        match self.base_type {
            NormativeBase::FER => true,
            _ => false,
        }
    }

    /// Is this a GESN normative?
    pub fn is_gesn(&self) -> (r: bool)
        ensures
            r == (self.base_type is GESN),
    {
        match self.base_type {
            NormativeBase::GESN => true,
            _ => false,
        }
    }

    /// Is this a TER normative?
    pub fn is_ter(&self) -> (r: bool)
        ensures
            r == (self.base_type is TER),
    {
        match self.base_type {
            NormativeBase::TER => true,
            _ => false,
        }
    }
}

/// Kind of normative base.
#[derive(Debug, Clone, Copy, PartialEq, Eq, Hash, Structural)]
pub enum NormativeBase {
    /// Federal unit rates.
    FER,
    /// State elemental estimate norms.
    GESN,
    /// Territorial unit rates.
    TER,
    /// Federal unit rates for equipment installation.
    FERm,
    /// Federal unit rates for commissioning work.
    FERp,
    /// Federal unit rates for repair and construction work.
    FERr,
}

/// The short Russian designation of a normative base.
pub open spec fn spec_base_display_name(b: NormativeBase) -> Seq<char> {
    match b {
        NormativeBase::FER => "ФЕР"@,
        NormativeBase::GESN => "ГЭСН"@,
        NormativeBase::TER => "ТЕР"@,
        NormativeBase::FERm => "ФЕРм"@,
        NormativeBase::FERp => "ФЕРп"@,
        NormativeBase::FERr => "ФЕРр"@,
    }
}

/// The full Russian name of a normative base.
pub open spec fn spec_base_full_name(b: NormativeBase) -> Seq<char> {
    match b {
        NormativeBase::FER => "Федеральные единичные расценки"@,
        NormativeBase::GESN => "Государственные элементные сметные нормы"@,
        NormativeBase::TER => "Территориальные единичные расценки"@,
        NormativeBase::FERm => "ФЕР на монтаж оборудования"@,
        NormativeBase::FERp => "ФЕР на пусконаладочные работы"@,
        NormativeBase::FERr => "ФЕР на ремонтно-строительные работы"@,
    }
}

/// The normative base an uppercased code prefix denotes, if any. The
/// longer FER variants are tested before plain FER, so a code such as
/// "ФЕРМ..." lands on the equipment-installation base.
pub open spec fn spec_base_from_prefix(u: Seq<char>) -> Option<NormativeBase> {
    if spec_starts_with(u, "ГЭСН"@) || spec_starts_with(u, "GESN"@) {
        Some(NormativeBase::GESN)
    } else if spec_starts_with(u, "ФЕРМ"@) || spec_starts_with(u, "FERM"@) {
        Some(NormativeBase::FERm)
    } else if spec_starts_with(u, "ФЕРП"@) || spec_starts_with(u, "FERP"@) {
        Some(NormativeBase::FERp)
    } else if spec_starts_with(u, "ФЕРР"@) || spec_starts_with(u, "FERR"@) {
        Some(NormativeBase::FERr)
    } else if spec_starts_with(u, "ФЕР"@) || spec_starts_with(u, "FER"@) {
        Some(NormativeBase::FER)
    } else if spec_starts_with(u, "ТЕР"@) || spec_starts_with(u, "TER"@) {
        Some(NormativeBase::TER)
    } else {
        None
    }
}

impl NormativeBase {
    /// Get the short Russian designation.
    pub fn display_name(&self) -> (r: &'static str)
        ensures
            r@ == spec_base_display_name(*self),
    {
        match self {
            Self::FER => "ФЕР",
            Self::GESN => "ГЭСН",
            Self::TER => "ТЕР",
            Self::FERm => "ФЕРм",
            Self::FERp => "ФЕРп",
            Self::FERr => "ФЕРр",
        }
    }

    /// Get the full Russian name.
    pub fn full_name(&self) -> (r: &'static str)
        ensures
            r@ == spec_base_full_name(*self),
    {
        match self {
            Self::FER => "Федеральные единичные расценки",
            Self::GESN => "Государственные элементные сметные нормы",
            Self::TER => "Территориальные единичные расценки",
            Self::FERm => "ФЕР на монтаж оборудования",
            Self::FERp => "ФЕР на пусконаладочные работы",
            Self::FERr => "ФЕР на ремонтно-строительные работы",
        }
    }

    /// Determine the normative base from a code prefix, in either
    /// Cyrillic or Latin letters, case-insensitively.
    pub fn from_code_prefix(code: &str) -> (r: Option<NormativeBase>)
        ensures
            r == spec_base_from_prefix(upper_of(code@)),
    {
        let uppered: String = upper_str(code);
        let u: &str = uppered.as_str();
        if starts_with_str(u, "ГЭСН") || starts_with_str(u, "GESN") {
            Some(Self::GESN)
        } else if starts_with_str(u, "ФЕРМ") || starts_with_str(u, "FERM") {
            Some(Self::FERm)
        } else if starts_with_str(u, "ФЕРП") || starts_with_str(u, "FERP") {
            Some(Self::FERp)
        } else if starts_with_str(u, "ФЕРР") || starts_with_str(u, "FERR") {
            Some(Self::FERr)
        } else if starts_with_str(u, "ФЕР") || starts_with_str(u, "FER") {
            Some(Self::FER)
        } else if starts_with_str(u, "ТЕР") || starts_with_str(u, "TER") {
            Some(Self::TER)
        } else {
            None
        }
    }
}

/// A resource consumption norm.
#[derive(Debug, Clone)]
pub struct ResourceNorm {
    /// Resource code.
    pub code: String,
    /// Name of the resource.
    pub name: String,
    /// Kind of the resource.
    pub resource_type: ResourceNormType,
    /// Unit of measurement.
    pub unit: MeasureUnit,
    /// Consumption per unit of work, fixed-point.
    pub consumption: i64,
    /// Base price of the resource, fixed-point.
    pub base_price: Option<i64>,
}

/// Kind of a resource within a norm.
#[derive(Debug, Clone, Copy, PartialEq, Eq, Structural)]
pub enum ResourceNormType {
    /// Material.
    Material,
    /// Machines and mechanisms.
    Machine,
    /// Workers' labor.
    Labor,
    /// Machine operators' labor.
    MachineOperator,
}

/// A collection of normatives.
#[derive(Debug, Clone)]
pub struct NormativeCollection {
    /// Collection code, such as "01".
    pub code: String,
    /// Name of the collection.
    pub name: String,
    /// Normative base the collection belongs to.
    pub base_type: NormativeBase,
    /// Number of rates in the collection.
    pub items_count: usize,
}

/// The predefined FER collections: each code with its name, all in
/// the FER base and initially empty.
pub fn fer_collections() -> (r: Vec<NormativeCollection>)
    ensures
        r@.len() == 14,
        forall|i: int|
            0 <= i < r@.len() ==> (#[trigger] r@[i]).base_type == NormativeBase::FER && r@[
                i
            ].items_count == 0,
        r@[0].code@ == "01"@ && r@[0].name@ == "Земляные работы"@,
        r@[1].code@ == "06"@ && r@[1].name@
            == "Бетонные и железобетонные конструкции монолитные"@,
        r@[2].code@ == "07"@ && r@[2].name@
            == "Бетонные и железобетонные конструкции сборные"@,
        r@[3].code@ == "08"@ && r@[3].name@ == "Конструкции из кирпича и блоков"@,
        r@[4].code@ == "09"@ && r@[4].name@ == "Металлические конструкции"@,
        r@[5].code@ == "10"@ && r@[5].name@ == "Деревянные конструкции"@,
        r@[6].code@ == "11"@ && r@[6].name@ == "Полы"@,
        r@[7].code@ == "12"@ && r@[7].name@ == "Кровли"@,
        r@[8].code@ == "15"@ && r@[8].name@ == "Отделочные работы"@,
        r@[9].code@ == "16"@ && r@[9].name@ == "Трубопроводы внутренние"@,
        r@[10].code@ == "17"@ && r@[10].name@ == "Водопровод и канализация"@,
        r@[11].code@ == "18"@ && r@[11].name@ == "Отопление"@,
        r@[12].code@ == "20"@ && r@[12].name@ == "Вентиляция и кондиционирование"@,
        r@[13].code@ == "26"@ && r@[13].name@ == "Теплоизоляционные работы"@,
{
    let mut collections: Vec<NormativeCollection> = Vec::new();
    collections.push(
        NormativeCollection {
            code: String::from_str("01"),
            name: String::from_str("Земляные работы"),
            base_type: NormativeBase::FER,
            items_count: 0,
        },
    );
    collections.push(
        NormativeCollection {
            code: String::from_str("06"),
            name: String::from_str("Бетонные и железобетонные конструкции монолитные"),
            base_type: NormativeBase::FER,
            items_count: 0,
        },
    );
    collections.push(
        NormativeCollection {
            code: String::from_str("07"),
            name: String::from_str("Бетонные и железобетонные конструкции сборные"),
            base_type: NormativeBase::FER,
            items_count: 0,
        },
    );
    collections.push(
        NormativeCollection {
            code: String::from_str("08"),
            name: String::from_str("Конструкции из кирпича и блоков"),
            base_type: NormativeBase::FER,
            items_count: 0,
        },
    );
    collections.push(
        NormativeCollection {
            code: String::from_str("09"),
            name: String::from_str("Металлические конструкции"),
            base_type: NormativeBase::FER,
            items_count: 0,
        },
    );
    collections.push(
        NormativeCollection {
            code: String::from_str("10"),
            name: String::from_str("Деревянные конструкции"),
            base_type: NormativeBase::FER,
            items_count: 0,
        },
    );
    collections.push(
        NormativeCollection {
            code: String::from_str("11"),
            name: String::from_str("Полы"),
            base_type: NormativeBase::FER,
            items_count: 0,
        },
    );
    collections.push(
        NormativeCollection {
            code: String::from_str("12"),
            name: String::from_str("Кровли"),
            base_type: NormativeBase::FER,
            items_count: 0,
        },
    );
    collections.push(
        NormativeCollection {
            code: String::from_str("15"),
            name: String::from_str("Отделочные работы"),
            base_type: NormativeBase::FER,
            items_count: 0,
        },
    );
    collections.push(
        NormativeCollection {
            code: String::from_str("16"),
            name: String::from_str("Трубопроводы внутренние"),
            base_type: NormativeBase::FER,
            items_count: 0,
        },
    );
    collections.push(
        NormativeCollection {
            code: String::from_str("17"),
            name: String::from_str("Водопровод и канализация"),
            base_type: NormativeBase::FER,
            items_count: 0,
        },
    );
    collections.push(
        NormativeCollection {
            code: String::from_str("18"),
            name: String::from_str("Отопление"),
            base_type: NormativeBase::FER,
            items_count: 0,
        },
    );
    collections.push(
        NormativeCollection {
            code: String::from_str("20"),
            name: String::from_str("Вентиляция и кондиционирование"),
            base_type: NormativeBase::FER,
            items_count: 0,
        },
    );
    collections.push(
        NormativeCollection {
            code: String::from_str("26"),
            name: String::from_str("Теплоизоляционные работы"),
            base_type: NormativeBase::FER,
            items_count: 0,
        },
    );
    collections
}

} // verus!
