//! Severity of a broken bound: one scoring rule for every limit a policy can
//! set, on a scale that ends at ten.

use vstd::arithmetic::div_mod::lemma_div_is_ordered;
use vstd::prelude::*;

verus! {

/// The highest severity that an entry of a report carries.
pub const SEVERITY_MAX: usize = 10;

/// How far beyond a limit counts.
#[derive(Clone, Copy, Debug, PartialEq, Eq, Structural)]
pub enum Scaling {
    /// How many times the limit fits into the actual value, rounded down.
    Ratio,
    /// The part of the actual value above the limit, in tenths of the limit,
    /// rounded up.
    Overage,
}

/// `n`, or ten where `n` is more.
pub open spec fn capped(n: nat) -> nat {
    if n <= 10 {
        n
    } else {
        10
    }
}

/// The limit by which a score divides: the limit itself, or one where the
/// limit is zero.
pub open spec fn divisor(limit: nat) -> nat {
    if limit == 0 {
        1
    } else {
        limit
    }
}

/// What of `actual` lies above `limit`.
pub open spec fn overage(actual: nat, limit: nat) -> nat {
    if actual > limit {
        (actual - limit) as nat
    } else {
        0
    }
}

/// The severity of `actual` measured against `limit`.
pub open spec fn severity(actual: nat, limit: nat, scaling: Scaling) -> nat {
    match scaling {
        Scaling::Ratio => capped(actual / divisor(limit)),
        Scaling::Overage => capped(
            ((overage(actual, limit) * 10 + divisor(limit) - 1) / (divisor(limit) as int)) as nat,
        ),
    }
}

/// Computes the severity of `actual` measured against `limit`.
pub fn score(actual: u64, limit: u64, scaling: Scaling) -> (r: usize)
    ensures
        r == severity(actual as nat, limit as nat, scaling),
        r <= SEVERITY_MAX,
{
    let unit: u64 = if limit == 0 {
        1
    } else {
        limit
    };
    match scaling {
        Scaling::Ratio => {
            let q: u64 = actual / unit;
            if q <= 10 {
                q as usize
            } else {
                10
            }
        },
        Scaling::Overage => {
            let over: u64 = if actual > limit {
                actual - limit
            } else {
                0
            };
            let q: u128 = (over as u128 * 10 + (unit as u128 - 1)) / (unit as u128);
            if q <= 10 {
                q as usize
            } else {
                10
            }
        },
    }
}

/// No severity is above ten.
pub proof fn lemma_severity_capped(actual: nat, limit: nat, scaling: Scaling)
    ensures
        severity(actual, limit, scaling) <= SEVERITY_MAX,
{
}

/// With the limit fixed, a larger actual value never has a lower severity.
pub proof fn lemma_severity_monotonic(a: nat, b: nat, limit: nat, scaling: Scaling)
    requires
        a <= b,
    ensures
        severity(a, limit, scaling) <= severity(b, limit, scaling),
{
    let unit = divisor(limit) as int;
    match scaling {
        Scaling::Ratio => {
            lemma_div_is_ordered(a as int, b as int, unit);
        },
        Scaling::Overage => {
            let x = overage(a, limit) * 10 + unit - 1;
            let y = overage(b, limit) * 10 + unit - 1;
            lemma_div_is_ordered(x, y, unit);
        },
    }
}

/// A value within its limit scores nothing by its overage.
pub proof fn lemma_within_limit_scores_zero(actual: nat, limit: nat)
    requires
        actual <= limit,
    ensures
        severity(actual, limit, Scaling::Overage) == 0,
{
    let unit = divisor(limit) as int;
    assert((unit - 1) / unit == 0) by (nonlinear_arith)
        requires
            unit >= 1,
    ;
}

} // verus!
