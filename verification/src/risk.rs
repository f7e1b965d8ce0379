//! Risk levels: the three buckets into which a complexity score falls, and
//! the bounds that part them.

use crate::number::{parse_u32, u32_of};
use vstd::prelude::*;

verus! {

/// The bound of the low risk level unless it is overridden.
pub const DEFAULT_LOW: u32 = 2500;

/// The bound of the medium risk level unless it is overridden.
pub const DEFAULT_MEDIUM: u32 = 50000;

/// The bound of the high risk level unless it is overridden.
pub const DEFAULT_HIGH: u32 = u32::MAX;

/// How much computation a module's code may ask for, going by the
/// cyclomatic complexity measured on it. The risk is one of resource usage,
/// not of security.
#[derive(Clone, Copy, Debug, PartialEq, Eq, PartialOrd, Structural)]
pub enum RiskLevel {
    Low,
    Medium,
    High,
}

/// The highest score of each risk level.
#[derive(Clone, Copy, Debug, PartialEq, Eq, Structural)]
pub struct RiskBounds {
    pub low: u32,
    pub medium: u32,
    pub high: u32,
}

impl RiskBounds {
    /// The bounds as they are when nothing overrides them.
    pub open spec fn standard() -> RiskBounds {
        RiskBounds { low: DEFAULT_LOW, medium: DEFAULT_MEDIUM, high: DEFAULT_HIGH }
    }

    /// Each level's bound lies above that of the level below it.
    pub open spec fn ordered(self) -> bool {
        self.low < self.medium < self.high
    }

    /// Bounds with the given overrides; a level that is not overridden keeps
    /// its standard bound.
    pub open spec fn overridden(
        low: Option<u32>,
        medium: Option<u32>,
        high: Option<u32>,
    ) -> RiskBounds {
        RiskBounds {
            low: if let Some(v) = low {
                v
            } else {
                DEFAULT_LOW
            },
            medium: if let Some(v) = medium {
                v
            } else {
                DEFAULT_MEDIUM
            },
            high: if let Some(v) = high {
                v
            } else {
                DEFAULT_HIGH
            },
        }
    }

    /// Bounds with the given overrides.
    pub fn with_overrides(low: Option<u32>, medium: Option<u32>, high: Option<u32>) -> (r:
        RiskBounds)
        ensures
            r == RiskBounds::overridden(low, medium, high),
    {
        RiskBounds {
            low: match low {
                Some(v) => v,
                None => DEFAULT_LOW,
            },
            medium: match medium {
                Some(v) => v,
                None => DEFAULT_MEDIUM,
            },
            high: match high {
                Some(v) => v,
                None => DEFAULT_HIGH,
            },
        }
    }

    /// The bounds that override texts give: each text must spell a number
    /// of 32 bits without sign, and a level without a text keeps its
    /// standard bound. There are no bounds where a text spells no such
    /// number.
    pub open spec fn stated(
        low: Option<Seq<char>>,
        medium: Option<Seq<char>>,
        high: Option<Seq<char>>,
    ) -> Option<RiskBounds> {
        if (low is Some && u32_of(low->0) is None) || (medium is Some && u32_of(medium->0) is None)
            || (high is Some && u32_of(high->0) is None) {
            None
        } else {
            Some(
                RiskBounds::overridden(
                    match low {
                        Some(t) => u32_of(t),
                        None => None,
                    },
                    match medium {
                        Some(t) => u32_of(t),
                        None => None,
                    },
                    match high {
                        Some(t) => u32_of(t),
                        None => None,
                    },
                ),
            )
        }
    }

    /// Reads the bounds from the texts that override them.
    pub fn from_settings(low: Option<&str>, medium: Option<&str>, high: Option<&str>) -> (r:
        Option<RiskBounds>)
        ensures
            r == RiskBounds::stated(
                match low {
                    Some(t) => Some(t@),
                    None => None,
                },
                match medium {
                    Some(t) => Some(t@),
                    None => None,
                },
                match high {
                    Some(t) => Some(t@),
                    None => None,
                },
            ),
    {
        let low = match low {
            Some(t) => match parse_u32(t) {
                Some(v) => Some(v),
                None => {
                    return None;
                },
            },
            None => None,
        };
        let medium = match medium {
            Some(t) => match parse_u32(t) {
                Some(v) => Some(v),
                None => {
                    return None;
                },
            },
            None => None,
        };
        let high = match high {
            Some(t) => match parse_u32(t) {
                Some(v) => Some(v),
                None => {
                    return None;
                },
            },
            None => None,
        };
        Some(RiskBounds::with_overrides(low, medium, high))
    }

    /// Whether each level's bound lies above that of the level below it.
    pub fn is_ordered(&self) -> (r: bool)
        ensures
            r == self.ordered(),
    {
        self.low < self.medium && self.medium < self.high
    }
}

impl Default for RiskBounds {
    fn default() -> (r: RiskBounds)
        ensures
            r == RiskBounds::standard(),
            r.ordered(),
    {
        RiskBounds { low: DEFAULT_LOW, medium: DEFAULT_MEDIUM, high: DEFAULT_HIGH }
    }
}

impl RiskLevel {
    /// The place of the level in the order `Low < Medium < High`.
    pub open spec fn rank(self) -> nat {
        match self {
            RiskLevel::Low => 0,
            RiskLevel::Medium => 1,
            RiskLevel::High => 2,
        }
    }

    /// The highest score of this level under `bounds`.
    pub open spec fn bound(self, bounds: RiskBounds) -> u32 {
        match self {
            RiskLevel::Low => bounds.low,
            RiskLevel::Medium => bounds.medium,
            RiskLevel::High => bounds.high,
        }
    }

    /// The level of a score: low up to the low bound, medium up to the
    /// medium bound, high above that.
    pub open spec fn of(score: u32, bounds: RiskBounds) -> RiskLevel {
        if score <= bounds.low {
            RiskLevel::Low
        } else if score <= bounds.medium {
            RiskLevel::Medium
        } else {
            RiskLevel::High
        }
    }

    /// The name of the level as policies and reports write it.
    pub open spec fn name(self) -> Seq<char> {
        match self {
            RiskLevel::Low => "low"@,
            RiskLevel::Medium => "medium"@,
            RiskLevel::High => "high"@,
        }
    }

    /// The highest score of this level under `bounds`.
    pub fn max(&self, bounds: &RiskBounds) -> (r: u32)
        ensures
            r == self.bound(*bounds),
    {
        match self {
            RiskLevel::Low => bounds.low,
            RiskLevel::Medium => bounds.medium,
            RiskLevel::High => bounds.high,
        }
    }

    /// Sorts a score into its level under `bounds`.
    pub fn classify(score: u32, bounds: &RiskBounds) -> (r: RiskLevel)
        ensures
            r == RiskLevel::of(score, *bounds),
    {
        if score <= RiskLevel::Low.max(bounds) {
            RiskLevel::Low
        } else if score <= RiskLevel::Medium.max(bounds) {
            RiskLevel::Medium
        } else {
            RiskLevel::High
        }
    }

    /// The name of the level.
    pub fn as_str(&self) -> (r: &'static str)
        ensures
            r@ == self.name(),
    {
        match self {
            RiskLevel::Low => "low",
            RiskLevel::Medium => "medium",
            RiskLevel::High => "high",
        }
    }

    /// The name of the level, as an owned string.
    pub fn to_string(&self) -> (r: String)
        ensures
            r@ == self.name(),
    {
        String::from_str(self.as_str())
    }
}

impl From<u32> for RiskLevel {
    /// The level of a score under the standard bounds.
    fn from(value: u32) -> (r: RiskLevel) {
        if value <= DEFAULT_LOW {
            RiskLevel::Low
        } else if value <= DEFAULT_MEDIUM {
            RiskLevel::Medium
        } else {
            RiskLevel::High
        }
    }
}

impl vstd::std_specs::convert::FromSpecImpl<u32> for RiskLevel {
    open spec fn obeys_from_spec() -> bool {
        true
    }

    open spec fn from_spec(value: u32) -> RiskLevel {
        RiskLevel::of(value, RiskBounds::standard())
    }
}

/// A higher score never falls into a lower level, whatever the bounds.
pub proof fn lemma_classify_monotonic(s1: u32, s2: u32, bounds: RiskBounds)
    requires
        s1 <= s2,
    ensures
        RiskLevel::of(s1, bounds).rank() <= RiskLevel::of(s2, bounds).rank(),
{
}

/// Under the standard bounds each level's bound lies above that of the
/// level below it.
pub proof fn lemma_standard_bounds_ordered()
    ensures
        RiskLevel::Low.bound(RiskBounds::standard()) < RiskLevel::Medium.bound(
            RiskBounds::standard(),
        ) < RiskLevel::High.bound(RiskBounds::standard()),
{
}

} // verus!
