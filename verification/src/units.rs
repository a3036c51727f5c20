//! Energy units of the provider's counters and their normalization.

use vstd::prelude::*;
use crate::error::{IOReportError, IOReportErrorView};
use crate::text::text_eq;

verus! {

/// Unit in which a provider counter reports energy.
#[derive(Debug, Clone, Copy, PartialEq, Eq, Structural)]
pub enum EnergyUnit {
    MilliJoules,
    MicroJoules,
    NanoJoules,
}

/// The unit that a label denotes, if it is one of `mJ`, `uJ`, `nJ`.
pub open spec fn unit_of_label(label: Seq<char>) -> Option<EnergyUnit> {
    if label == "mJ"@ {
        Some(EnergyUnit::MilliJoules)
    } else if label == "uJ"@ {
        Some(EnergyUnit::MicroJoules)
    } else if label == "nJ"@ {
        Some(EnergyUnit::NanoJoules)
    } else {
        None
    }
}

/// A counter reading as a natural number; readings below zero count as zero.
pub open spec fn counter_value(raw: int) -> nat {
    if raw < 0 {
        0
    } else {
        raw as nat
    }
}

/// A duration in milliseconds, floored at one.
pub open spec fn floored_ms(duration: int) -> nat {
    if duration < 1 {
        1
    } else {
        duration as nat
    }
}

impl EnergyUnit {
    /// How many of this unit make one millijoule.
    pub open spec fn per_millijoule(self) -> nat {
        match self {
            EnergyUnit::MilliJoules => 1,
            EnergyUnit::MicroJoules => 1_000,
            EnergyUnit::NanoJoules => 1_000_000,
        }
    }

    /// How many of this unit make one joule.
    pub open spec fn per_joule(self) -> nat {
        1_000 * self.per_millijoule()
    }

    /// Whole millijoules in a counter reading of this unit.
    pub open spec fn millijoules(self, raw: int) -> nat {
        counter_value(raw) / self.per_millijoule()
    }

    /// Parses a unit label. Exactly `mJ`, `uJ` and `nJ` are units; any other
    /// label is handed back inside `InvalidEnergyUnit`.
    pub fn try_from(label: &str) -> (parsed: Result<EnergyUnit, IOReportError>)
        ensures
            match unit_of_label(label@) {
                Some(unit) => parsed == Ok::<EnergyUnit, IOReportError>(unit),
                None => parsed is Err && parsed->Err_0@ == IOReportErrorView::InvalidEnergyUnit(
                    label@,
                ),
            },
    {
        if text_eq(label, "mJ") {
            Ok(EnergyUnit::MilliJoules)
        } else if text_eq(label, "uJ") {
            Ok(EnergyUnit::MicroJoules)
        } else if text_eq(label, "nJ") {
            Ok(EnergyUnit::NanoJoules)
        } else {
            Err(IOReportError::InvalidEnergyUnit(label.to_owned()))
        }
    }

    /// The symbol under which the unit is shown.
    pub fn symbol(&self) -> (text: &'static str)
        ensures
            text@ == match *self {
                EnergyUnit::MilliJoules => "mJ"@,
                EnergyUnit::MicroJoules => "μJ"@,
                EnergyUnit::NanoJoules => "nJ"@,
            },
    {
        match self {
            EnergyUnit::MilliJoules => "mJ",
            EnergyUnit::MicroJoules => "μJ",
            EnergyUnit::NanoJoules => "nJ",
        }
    }

    /// Normalizes a counter reading of this unit to whole millijoules.
    pub fn to_millijoules(&self, raw: i64) -> (energy: u128)
        ensures
            energy == self.millijoules(raw as int),
            energy <= i64::MAX,
    {
        let value: u128 = if raw < 0 {
            0
        } else {
            raw as u128
        };
        match self {
            EnergyUnit::MilliJoules => value,
            EnergyUnit::MicroJoules => value / 1_000,
            EnergyUnit::NanoJoules => value / 1_000_000,
        }
    }
}

/// An exact power in watts, held as the fraction `numerator / denominator`.
#[derive(Debug, Clone, Copy, PartialEq, Eq)]
pub struct Wattage {
    numerator: u128,
    denominator: u128,
}

impl Wattage {
    #[verifier::type_invariant]
    spec fn well_formed(&self) -> bool {
        self.denominator >= 1
    }

    /// Numerator of the fraction.
    pub closed spec fn spec_numerator(&self) -> nat {
        self.numerator as nat
    }

    /// Denominator of the fraction.
    pub closed spec fn spec_denominator(&self) -> nat {
        self.denominator as nat
    }

    /// Numerator of the fraction.
    pub fn numerator(&self) -> (n: u128)
        ensures
            n == self.spec_numerator(),
    {
        self.numerator
    }

    /// Denominator of the fraction; never zero.
    pub fn denominator(&self) -> (d: u128)
        ensures
            d == self.spec_denominator(),
            d >= 1,
    {
        proof {
            use_type_invariant(self);
        }
        self.denominator
    }
}

/// Average power, in watts, of a counter reading `raw` in `unit` taken over
/// `duration` milliseconds: the reading divided by the seconds elapsed and by
/// the number of units in a joule. A duration of zero counts as one
/// millisecond.
pub fn read_wattage(raw: i64, unit: &EnergyUnit, duration: u64) -> (power: Wattage)
    ensures
        power.spec_numerator() == counter_value(raw as int) * 1_000,
        power.spec_denominator() == floored_ms(duration as int) * unit.per_joule(),
{
    let value: u128 = if raw < 0 {
        0
    } else {
        raw as u128
    };
    let millis: u128 = if duration < 1 {
        1
    } else {
        duration as u128
    };
    let per_joule: u128 = match unit {
        EnergyUnit::MilliJoules => 1_000,
        EnergyUnit::MicroJoules => 1_000_000,
        EnergyUnit::NanoJoules => 1_000_000_000,
    };
    assert(value * 1_000 <= 0x7fff_ffff_ffff_ffff * 1_000);
    assert(millis * per_joule <= 0xffff_ffff_ffff_ffff * 1_000_000_000) by (nonlinear_arith)
        requires
            millis <= 0xffff_ffff_ffff_ffff,
            per_joule <= 1_000_000_000,
    ;
    assert(millis * per_joule >= 1) by (nonlinear_arith)
        requires
            millis >= 1,
            per_joule >= 1,
    ;
    Wattage { numerator: value * 1_000, denominator: millis * per_joule }
}

} // verus!
