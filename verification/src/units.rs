//! Measurement units for construction estimates.
//!
//! Standard units of measurement used in Russian construction norms,
//! with their abbreviations, full names, parsing from Russian
//! abbreviations, and the multiplication factor of the aggregated
//! units (100 square meters and the like).

use vstd::prelude::*;

use crate::text::{lower_of, lower_str, trim_of, trim_str, str_eq};

verus! {

/// A unit of measurement.
#[derive(Debug, Clone, PartialEq, Eq, Hash)]
pub enum MeasureUnit {
    /// Meter.
    Meter,
    /// Kilometer.
    Kilometer,
    /// Linear meter.
    LinearMeter,
    /// One hundred linear meters.
    LinearMeter100,
    /// Square meter.
    SquareMeter,
    /// One hundred square meters.
    SquareMeter100,
    /// Hectare.
    Hectare,
    /// One thousand square meters.
    SquareMeter1000,
    /// Cubic meter.
    CubicMeter,
    /// One hundred cubic meters.
    CubicMeter100,
    /// One thousand cubic meters.
    CubicMeter1000,
    /// Liter.
    Liter,
    /// Kilogram.
    Kilogram,
    /// Ton.
    Ton,
    /// One hundred kilograms.
    Kilogram100,
    /// Piece.
    Unit,
    /// Ten pieces.
    Unit10,
    /// One hundred pieces.
    Unit100,
    /// One thousand pieces.
    Unit1000,
    /// Set of parts.
    Kit,
    /// Man-hour.
    ManHour,
    /// Machine-hour.
    MachineHour,
    /// Work shift.
    Shift,
    /// Connection point.
    ConnectionPoint,
    /// Switch or socket.
    SwitchSocket,
    /// Assembly node.
    Node,
    /// Place.
    Place,
    /// Opening.
    Opening,
    /// Element.
    Element,
    /// Any other unit, with its own designation.
    Other(String),
}

/// The short Russian abbreviation of a unit.
pub open spec fn spec_abbreviation(u: MeasureUnit) -> Seq<char> {
    match u {
        MeasureUnit::Meter => "м"@,
        MeasureUnit::Kilometer => "км"@,
        MeasureUnit::LinearMeter => "п.м"@,
        MeasureUnit::LinearMeter100 => "100 п.м"@,
        MeasureUnit::SquareMeter => "м²"@,
        MeasureUnit::SquareMeter100 => "100 м²"@,
        MeasureUnit::SquareMeter1000 => "1000 м²"@,
        MeasureUnit::Hectare => "га"@,
        MeasureUnit::CubicMeter => "м³"@,
        MeasureUnit::CubicMeter100 => "100 м³"@,
        MeasureUnit::CubicMeter1000 => "1000 м³"@,
        MeasureUnit::Liter => "л"@,
        MeasureUnit::Kilogram => "кг"@,
        MeasureUnit::Ton => "т"@,
        MeasureUnit::Kilogram100 => "100 кг"@,
        MeasureUnit::Unit => "шт"@,
        MeasureUnit::Unit10 => "10 шт"@,
        MeasureUnit::Unit100 => "100 шт"@,
        MeasureUnit::Unit1000 => "1000 шт"@,
        MeasureUnit::Kit => "компл"@,
        MeasureUnit::ManHour => "чел-ч"@,
        MeasureUnit::MachineHour => "маш-ч"@,
        MeasureUnit::Shift => "см"@,
        MeasureUnit::ConnectionPoint => "точка"@,
        MeasureUnit::SwitchSocket => "шт"@,
        MeasureUnit::Node => "узел"@,
        MeasureUnit::Place => "место"@,
        MeasureUnit::Opening => "проём"@,
        MeasureUnit::Element => "элем"@,
        MeasureUnit::Other(s) => s@,
    }
}

/// The full Russian name of a unit.
pub open spec fn spec_full_name(u: MeasureUnit) -> Seq<char> {
    match u {
        MeasureUnit::Meter => "метр"@,
        MeasureUnit::Kilometer => "километр"@,
        MeasureUnit::LinearMeter => "погонный метр"@,
        MeasureUnit::LinearMeter100 => "100 погонных метров"@,
        MeasureUnit::SquareMeter => "квадратный метр"@,
        MeasureUnit::SquareMeter100 => "100 квадратных метров"@,
        MeasureUnit::SquareMeter1000 => "1000 квадратных метров"@,
        MeasureUnit::Hectare => "гектар"@,
        MeasureUnit::CubicMeter => "кубический метр"@,
        MeasureUnit::CubicMeter100 => "100 кубических метров"@,
        MeasureUnit::CubicMeter1000 => "1000 кубических метров"@,
        MeasureUnit::Liter => "литр"@,
        MeasureUnit::Kilogram => "килограмм"@,
        MeasureUnit::Ton => "тонна"@,
        MeasureUnit::Kilogram100 => "100 килограмм"@,
        MeasureUnit::Unit => "штука"@,
        MeasureUnit::Unit10 => "10 штук"@,
        MeasureUnit::Unit100 => "100 штук"@,
        MeasureUnit::Unit1000 => "1000 штук"@,
        MeasureUnit::Kit => "комплект"@,
        MeasureUnit::ManHour => "человеко-час"@,
        MeasureUnit::MachineHour => "машино-час"@,
        MeasureUnit::Shift => "смена"@,
        MeasureUnit::ConnectionPoint => "точка присоединения"@,
        MeasureUnit::SwitchSocket => "выключатель/розетка"@,
        MeasureUnit::Node => "узел"@,
        MeasureUnit::Place => "место"@,
        MeasureUnit::Opening => "проём"@,
        MeasureUnit::Element => "элемент"@,
        MeasureUnit::Other(s) => s@,
    }
}

/// The unit a normalized (trimmed, lowercased) Russian abbreviation
/// denotes, if any.
pub open spec fn spec_unit_from(t: Seq<char>) -> Option<MeasureUnit> {
    if t == "м"@ || t == "м."@ {
        Some(MeasureUnit::Meter)
    } else if t == "км"@ || t == "км."@ {
        Some(MeasureUnit::Kilometer)
    } else if t == "п.м"@ || t == "п.м."@ || t == "пм"@ {
        Some(MeasureUnit::LinearMeter)
    } else if t == "100 п.м"@ || t == "100 п.м."@ || t == "100пм"@ {
        Some(MeasureUnit::LinearMeter100)
    } else if t == "м²"@ || t == "м2"@ || t == "кв.м"@ || t == "кв.м."@ || t == "кв м"@ {
        Some(MeasureUnit::SquareMeter)
    } else if t == "100 м²"@ || t == "100 м2"@ || t == "100 кв.м"@ || t == "100кв.м"@ {
        Some(MeasureUnit::SquareMeter100)
    } else if t == "1000 м²"@ || t == "1000 м2"@ || t == "1000 кв.м"@ {
        Some(MeasureUnit::SquareMeter1000)
    } else if t == "га"@ {
        Some(MeasureUnit::Hectare)
    } else if t == "м³"@ || t == "м3"@ || t == "куб.м"@ || t == "куб.м."@ || t == "куб м"@ {
        Some(MeasureUnit::CubicMeter)
    } else if t == "100 м³"@ || t == "100 м3"@ || t == "100 куб.м"@ {
        Some(MeasureUnit::CubicMeter100)
    } else if t == "1000 м³"@ || t == "1000 м3"@ || t == "1000 куб.м"@ {
        Some(MeasureUnit::CubicMeter1000)
    } else if t == "л"@ || t == "л."@ || t == "литр"@ {
        Some(MeasureUnit::Liter)
    } else if t == "кг"@ || t == "кг."@ {
        Some(MeasureUnit::Kilogram)
    } else if t == "т"@ || t == "т."@ || t == "тн"@ || t == "тонна"@ {
        Some(MeasureUnit::Ton)
    } else if t == "100 кг"@ || t == "100кг"@ {
        Some(MeasureUnit::Kilogram100)
    } else if t == "шт"@ || t == "шт."@ || t == "штука"@ {
        Some(MeasureUnit::Unit)
    } else if t == "10 шт"@ || t == "10шт"@ {
        Some(MeasureUnit::Unit10)
    } else if t == "100 шт"@ || t == "100шт"@ {
        Some(MeasureUnit::Unit100)
    } else if t == "1000 шт"@ || t == "1000шт"@ {
        Some(MeasureUnit::Unit1000)
    } else if t == "компл"@ || t == "компл."@ || t == "комплект"@ {
        Some(MeasureUnit::Kit)
    } else if t == "чел-ч"@ || t == "чел.ч"@ || t == "чел-час"@ || t == "человеко-час"@ {
        Some(MeasureUnit::ManHour)
    } else if t == "маш-ч"@ || t == "маш.ч"@ || t == "маш-час"@ || t == "машино-час"@ {
        Some(MeasureUnit::MachineHour)
    } else if t == "см"@ || t == "см."@ || t == "смена"@ {
        Some(MeasureUnit::Shift)
    } else if t == "точка"@ {
        Some(MeasureUnit::ConnectionPoint)
    } else if t == "узел"@ {
        Some(MeasureUnit::Node)
    } else if t == "место"@ {
        Some(MeasureUnit::Place)
    } else if t == "проём"@ || t == "проем"@ {
        Some(MeasureUnit::Opening)
    } else if t == "элем"@ || t == "элем."@ || t == "элемент"@ {
        Some(MeasureUnit::Element)
    } else {
        None
    }
}

/// The multiplication factor of a unit (100 for "100 square meters").
pub open spec fn spec_factor(u: MeasureUnit) -> int {
    match u {
        MeasureUnit::LinearMeter100 => 100,
        MeasureUnit::SquareMeter100 => 100,
        MeasureUnit::SquareMeter1000 => 1000,
        MeasureUnit::CubicMeter100 => 100,
        MeasureUnit::CubicMeter1000 => 1000,
        MeasureUnit::Kilogram100 => 100,
        MeasureUnit::Unit10 => 10,
        MeasureUnit::Unit100 => 100,
        MeasureUnit::Unit1000 => 1000,
        _ => 1,
    }
}

impl MeasureUnit {
    /// Get the short Russian abbreviation.
    pub fn abbreviation(&self) -> (r: &str)
        ensures
            r@ == spec_abbreviation(*self),
    {
        match self {
            Self::Meter => "м",
            Self::Kilometer => "км",
            Self::LinearMeter => "п.м",
            Self::LinearMeter100 => "100 п.м",
            Self::SquareMeter => "м²",
            Self::SquareMeter100 => "100 м²",
            Self::SquareMeter1000 => "1000 м²",
            Self::Hectare => "га",
            Self::CubicMeter => "м³",
            Self::CubicMeter100 => "100 м³",
            Self::CubicMeter1000 => "1000 м³",
            Self::Liter => "л",
            Self::Kilogram => "кг",
            Self::Ton => "т",
            Self::Kilogram100 => "100 кг",
            Self::Unit => "шт",
            Self::Unit10 => "10 шт",
            Self::Unit100 => "100 шт",
            Self::Unit1000 => "1000 шт",
            Self::Kit => "компл",
            Self::ManHour => "чел-ч",
            Self::MachineHour => "маш-ч",
            Self::Shift => "см",
            Self::ConnectionPoint => "точка",
            Self::SwitchSocket => "шт",
            Self::Node => "узел",
            Self::Place => "место",
            Self::Opening => "проём",
            Self::Element => "элем",
            Self::Other(s) => s.as_str(),
        }
    }

    /// Get the full Russian name.
    pub fn full_name(&self) -> (r: &str)
        ensures
            r@ == spec_full_name(*self),
    {
        match self {
            Self::Meter => "метр",
            Self::Kilometer => "километр",
            Self::LinearMeter => "погонный метр",
            Self::LinearMeter100 => "100 погонных метров",
            Self::SquareMeter => "квадратный метр",
            Self::SquareMeter100 => "100 квадратных метров",
            Self::SquareMeter1000 => "1000 квадратных метров",
            Self::Hectare => "гектар",
            Self::CubicMeter => "кубический метр",
            Self::CubicMeter100 => "100 кубических метров",
            Self::CubicMeter1000 => "1000 кубических метров",
            Self::Liter => "литр",
            Self::Kilogram => "килограмм",
            Self::Ton => "тонна",
            Self::Kilogram100 => "100 килограмм",
            Self::Unit => "штука",
            Self::Unit10 => "10 штук",
            Self::Unit100 => "100 штук",
            Self::Unit1000 => "1000 штук",
            Self::Kit => "комплект",
            Self::ManHour => "человеко-час",
            Self::MachineHour => "машино-час",
            Self::Shift => "смена",
            Self::ConnectionPoint => "точка присоединения",
            Self::SwitchSocket => "выключатель/розетка",
            Self::Node => "узел",
            Self::Place => "место",
            Self::Opening => "проём",
            Self::Element => "элемент",
            Self::Other(s) => s.as_str(),
        }
    }

    /// Parse a unit from its Russian abbreviation: the input is
    /// trimmed and lowercased, then looked up in the fixed table.
    pub fn from_str_ru(s: &str) -> (r: Option<MeasureUnit>)
        ensures
            r == spec_unit_from(lower_of(trim_of(s@))),
    {
        let trimmed: String = trim_str(s);
        let lowered: String = lower_str(trimmed.as_str());
        let t: &str = lowered.as_str();
        if str_eq(t, "м") || str_eq(t, "м.") {
            Some(Self::Meter)
        } else if str_eq(t, "км") || str_eq(t, "км.") {
            Some(Self::Kilometer)
        } else if str_eq(t, "п.м") || str_eq(t, "п.м.") || str_eq(t, "пм") {
            Some(Self::LinearMeter)
        } else if str_eq(t, "100 п.м") || str_eq(t, "100 п.м.") || str_eq(t, "100пм") {
            Some(Self::LinearMeter100)
        } else if str_eq(t, "м²") || str_eq(t, "м2") || str_eq(t, "кв.м") || str_eq(t, "кв.м.")
            || str_eq(t, "кв м") {
            Some(Self::SquareMeter)
        } else if str_eq(t, "100 м²") || str_eq(t, "100 м2") || str_eq(t, "100 кв.м") || str_eq(
            t,
            "100кв.м",
        ) {
            Some(Self::SquareMeter100)
        } else if str_eq(t, "1000 м²") || str_eq(t, "1000 м2") || str_eq(t, "1000 кв.м") {
            Some(Self::SquareMeter1000)
        } else if str_eq(t, "га") {
            Some(Self::Hectare)
        } else if str_eq(t, "м³") || str_eq(t, "м3") || str_eq(t, "куб.м") || str_eq(t, "куб.м.")
            || str_eq(t, "куб м") {
            Some(Self::CubicMeter)
        } else if str_eq(t, "100 м³") || str_eq(t, "100 м3") || str_eq(t, "100 куб.м") {
            Some(Self::CubicMeter100)
        } else if str_eq(t, "1000 м³") || str_eq(t, "1000 м3") || str_eq(t, "1000 куб.м") {
            Some(Self::CubicMeter1000)
        } else if str_eq(t, "л") || str_eq(t, "л.") || str_eq(t, "литр") {
            Some(Self::Liter)
        } else if str_eq(t, "кг") || str_eq(t, "кг.") {
            Some(Self::Kilogram)
        } else if str_eq(t, "т") || str_eq(t, "т.") || str_eq(t, "тн") || str_eq(t, "тонна") {
            Some(Self::Ton)
        } else if str_eq(t, "100 кг") || str_eq(t, "100кг") {
            Some(Self::Kilogram100)
        } else if str_eq(t, "шт") || str_eq(t, "шт.") || str_eq(t, "штука") {
            Some(Self::Unit)
        } else if str_eq(t, "10 шт") || str_eq(t, "10шт") {
            Some(Self::Unit10)
        } else if str_eq(t, "100 шт") || str_eq(t, "100шт") {
            Some(Self::Unit100)
        } else if str_eq(t, "1000 шт") || str_eq(t, "1000шт") {
            Some(Self::Unit1000)
        } else if str_eq(t, "компл") || str_eq(t, "компл.") || str_eq(t, "комплект") {
            Some(Self::Kit)
        } else if str_eq(t, "чел-ч") || str_eq(t, "чел.ч") || str_eq(t, "чел-час") || str_eq(
            t,
            "человеко-час",
        ) {
            Some(Self::ManHour)
        } else if str_eq(t, "маш-ч") || str_eq(t, "маш.ч") || str_eq(t, "маш-час") || str_eq(
            t,
            "машино-час",
        ) {
            Some(Self::MachineHour)
        } else if str_eq(t, "см") || str_eq(t, "см.") || str_eq(t, "смена") {
            Some(Self::Shift)
        } else if str_eq(t, "точка") {
            Some(Self::ConnectionPoint)
        } else if str_eq(t, "узел") {
            Some(Self::Node)
        } else if str_eq(t, "место") {
            Some(Self::Place)
        } else if str_eq(t, "проём") || str_eq(t, "проем") {
            Some(Self::Opening)
        } else if str_eq(t, "элем") || str_eq(t, "элем.") || str_eq(t, "элемент") {
            Some(Self::Element)
        } else {
            None
        }
    }

    /// Get the multiplication factor (100 for "100 square meters").
    pub fn factor(&self) -> (r: i64)
        ensures
            r == spec_factor(*self),
    {
        match self {
            Self::LinearMeter100 => 100,
            Self::SquareMeter100 => 100,
            Self::SquareMeter1000 => 1000,
            Self::CubicMeter100 => 100,
            Self::CubicMeter1000 => 1000,
            Self::Kilogram100 => 100,
            Self::Unit10 => 10,
            Self::Unit100 => 100,
            Self::Unit1000 => 1000,
            _ => 1,
        }
    }

    /// Is this an area unit?
    pub fn is_area(&self) -> (r: bool)
        ensures
            r == (self is SquareMeter || self is SquareMeter100 || self is SquareMeter1000
                || self is Hectare),
    {
        match self {
            Self::SquareMeter | Self::SquareMeter100 | Self::SquareMeter1000 | Self::Hectare =>
                true,
            _ => false,
        }
    }

    /// Is this a volume unit?
    pub fn is_volume(&self) -> (r: bool)
        ensures
            r == (self is CubicMeter || self is CubicMeter100 || self is CubicMeter1000
                || self is Liter),
    {
        match self {
            Self::CubicMeter | Self::CubicMeter100 | Self::CubicMeter1000 | Self::Liter => true,
            _ => false,
        }
    }

    /// Is this a time or labor unit?
    pub fn is_time(&self) -> (r: bool)
        ensures
            r == (self is ManHour || self is MachineHour || self is Shift),
    {
        match self {
            Self::ManHour | Self::MachineHour | Self::Shift => true,
            _ => false,
        }
    }
}

impl Default for MeasureUnit {
    /// The piece is the default unit.
    fn default() -> (r: Self)
        ensures
            r == MeasureUnit::Unit,
    {
        Self::Unit
    }
}

} // verus!
