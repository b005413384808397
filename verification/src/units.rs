//! Units of measurement, with an optional SI prefix.

use vstd::prelude::*;
use vstd::std_specs::convert::FromSpecImpl;

verus! {

/// A base unit.
#[derive(Clone, Copy, Debug, PartialEq, Eq, Structural)]
pub enum Unit {
    /// A dimensionless quantity.
    Unity,
    Second,
    Watt,
    Joule,
    Volt,
    Ampere,
    Hertz,
    DegreeCelsius,
    DegreeFahrenheit,
    WattHour,
    Byte,
}

/// An SI prefix; `Plain` stands for "no prefix".
#[derive(Clone, Copy, Debug, PartialEq, Eq, Structural)]
pub enum UnitPrefix {
    Nano,
    Micro,
    Milli,
    Plain,
    Kilo,
    Mega,
    Giga,
}

/// A base unit scaled by an SI prefix.
#[derive(Clone, Copy, Debug, PartialEq, Eq, Structural)]
pub struct PrefixedUnit {
    pub base_unit: Unit,
    pub prefix: UnitPrefix,
}

impl PrefixedUnit {
    pub fn with_prefix(base_unit: Unit, prefix: UnitPrefix) -> (r: PrefixedUnit)
        ensures
            r == (PrefixedUnit { base_unit, prefix }),
    {
        PrefixedUnit { base_unit, prefix }
    }

    pub fn nano(unit: Unit) -> (r: PrefixedUnit)
        ensures
            r == (PrefixedUnit { base_unit: unit, prefix: UnitPrefix::Nano }),
    {
        PrefixedUnit { base_unit: unit, prefix: UnitPrefix::Nano }
    }

    pub fn micro(unit: Unit) -> (r: PrefixedUnit)
        ensures
            r == (PrefixedUnit { base_unit: unit, prefix: UnitPrefix::Micro }),
    {
        PrefixedUnit { base_unit: unit, prefix: UnitPrefix::Micro }
    }

    pub fn milli(unit: Unit) -> (r: PrefixedUnit)
        ensures
            r == (PrefixedUnit { base_unit: unit, prefix: UnitPrefix::Milli }),
    {
        PrefixedUnit { base_unit: unit, prefix: UnitPrefix::Milli }
    }

    pub fn kilo(unit: Unit) -> (r: PrefixedUnit)
        ensures
            r == (PrefixedUnit { base_unit: unit, prefix: UnitPrefix::Kilo }),
    {
        PrefixedUnit { base_unit: unit, prefix: UnitPrefix::Kilo }
    }

    pub fn mega(unit: Unit) -> (r: PrefixedUnit)
        ensures
            r == (PrefixedUnit { base_unit: unit, prefix: UnitPrefix::Mega }),
    {
        PrefixedUnit { base_unit: unit, prefix: UnitPrefix::Mega }
    }

    pub fn giga(unit: Unit) -> (r: PrefixedUnit)
        ensures
            r == (PrefixedUnit { base_unit: unit, prefix: UnitPrefix::Giga }),
    {
        PrefixedUnit { base_unit: unit, prefix: UnitPrefix::Giga }
    }
}

impl From<Unit> for PrefixedUnit {
    /// A bare unit is the unit without a prefix.
    fn from(unit: Unit) -> (r: PrefixedUnit) {
        PrefixedUnit { base_unit: unit, prefix: UnitPrefix::Plain }
    }
}

impl FromSpecImpl<Unit> for PrefixedUnit {
    open spec fn obeys_from_spec() -> bool {
        true
    }

    open spec fn from_spec(unit: Unit) -> PrefixedUnit {
        PrefixedUnit { base_unit: unit, prefix: UnitPrefix::Plain }
    }
}

} // verus!
