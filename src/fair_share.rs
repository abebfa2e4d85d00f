//! The fair share of the host that each active user is entitled to, and how
//! each user stands against it.
//!
//! A per-core share is a user's total divided by the core count. Comparisons
//! of such shares are made by cross-multiplying, so they are exact on the
//! fixed-point figures and never divide by zero.
use vstd::prelude::*;
use crate::usage::UserUsage;

verus! {

/// One core kept fully busy, in hundredths of a percent.
pub const FULL_CORE: u64 = 10000;

/// Where a fair share came from.
#[derive(Clone, Copy, Debug, PartialEq, Eq, Structural)]
pub enum ShareSource {
    /// Given in the configuration.
    Override,
    /// A full core divided among the active users.
    Computed,
}

/// The fair share, as the fraction `share_numerator / share_denominator` of
/// hundredths of a percent of one core.
#[derive(Clone, Copy, Debug, PartialEq, Eq, Structural)]
pub struct FairShareResult {
    pub share_numerator: u64,
    pub share_denominator: u64,
    pub active_user_count: u64,
    pub source: ShareSource,
}

/// Why no fair share could be given.
#[derive(Clone, Copy, Debug, PartialEq, Eq, Structural)]
pub enum FairShareError {
    /// No user is active and no fair share was configured, so a full core
    /// cannot be divided among the active users.
    NoActiveUsers,
}

/// How a user's per-core share compares with the fair share.
#[derive(Clone, Copy, Debug, PartialEq, Eq, Structural)]
pub enum Classification {
    /// Above the fair share.
    Over,
    /// Above half of the fair share, and at most the fair share.
    Near,
    /// At most half of the fair share.
    Under,
}

/// `total / cores > threshold`, that is, the user's per-core share exceeds
/// the active-usage threshold.
pub open spec fn is_active(total: int, cores: int, threshold: int) -> bool {
    total > threshold * cores
}

/// The number of users whose per-core share exceeds `threshold`.
pub open spec fn active_count(us: Seq<UserUsage>, cores: int, threshold: int) -> nat
    decreases us.len(),
{
    if us.len() == 0 {
        0
    } else {
        active_count(us.drop_last(), cores, threshold) + if is_active(
            us.last().total_cpu as int,
            cores,
            threshold,
        ) {
            1nat
        } else {
            0nat
        }
    }
}

/// The fair share for usages `us`: the override if one is configured,
/// else a full core divided among the active users, and no fair share when
/// none is active.
pub open spec fn fair_share_of(
    us: Seq<UserUsage>,
    cores: u64,
    threshold: u64,
    fair_share_override: Option<u64>,
) -> Result<FairShareResult, FairShareError> {
    let n = active_count(us, cores as int, threshold as int);
    match fair_share_override {
        Some(o) => Ok(
            FairShareResult {
                share_numerator: o,
                share_denominator: 1,
                active_user_count: n as u64,
                source: ShareSource::Override,
            },
        ),
        None => if n == 0 {
            Err(FairShareError::NoActiveUsers)
        } else {
            Ok(
                FairShareResult {
                    share_numerator: FULL_CORE,
                    share_denominator: n as u64,
                    active_user_count: n as u64,
                    source: ShareSource::Computed,
                },
            )
        },
    }
}

/// `total / cores > num / den`: a per-core share above the fraction `num / den`.
pub open spec fn share_above(total: int, cores: int, num: int, den: int) -> bool {
    total * den > num * cores
}

/// Over above the fair share, near above half of it, under otherwise.
pub open spec fn classification_of(total: int, cores: int, f: FairShareResult) -> Classification {
    if share_above(total, cores, f.share_numerator as int, f.share_denominator as int) {
        Classification::Over
    } else if share_above(total, cores, f.share_numerator as int, 2 * f.share_denominator) {
        Classification::Near
    } else {
        Classification::Under
    }
}

/// `total / cores > num / den`, for figures that fit in 64 bits.
pub fn share_exceeds(total: u64, cores: u64, num: u64, den: u64) -> (r: bool)
    ensures
        r == share_above(total as int, cores as int, num as int, den as int),
{
    let (lhs, rhs) = cross_products(total, cores, num, den);
    lhs > rhs
}

/// Counts the users whose per-core share exceeds `active_threshold`.
pub fn count_active(usages: &Vec<UserUsage>, core_count: u64, active_threshold: u64) -> (r: u64)
    ensures
        r == active_count(usages@, core_count as int, active_threshold as int),
{
    let mut n: u64 = 0;
    let mut i: usize = 0;
    while i < usages.len()
        invariant
            i <= usages.len(),
            n <= i,
            n == active_count(usages@.subrange(0, i as int), core_count as int, active_threshold as int),
        decreases usages.len() - i,
    {
        assert(usages@.subrange(0, i + 1).drop_last() =~= usages@.subrange(0, i as int));
        if share_exceeds(usages[i].total_cpu, core_count, active_threshold, 1) {
            n = n + 1;
        }
        i = i + 1;
    }
    assert(usages@.subrange(0, i as int) =~= usages@);
    n
}

/// The fair share for this cycle.
///
/// A configured override is used as it stands. Otherwise a full core is
/// divided among the active users, and with none active there is no fair
/// share to give.
pub fn compute_fair_share(
    usages: &Vec<UserUsage>,
    core_count: u64,
    active_threshold: u64,
    fair_share_override: Option<u64>,
) -> (r: Result<FairShareResult, FairShareError>)
    ensures
        r is Err <==> (fair_share_override is None && active_count(
            usages@,
            core_count as int,
            active_threshold as int,
        ) == 0),
        match r {
            Ok(f) => {
                &&& f.active_user_count == active_count(
                    usages@,
                    core_count as int,
                    active_threshold as int,
                )
                &&& match fair_share_override {
                    Some(o) => f.source == ShareSource::Override && f.share_numerator == o
                        && f.share_denominator == 1,
                    None => f.source == ShareSource::Computed && f.share_numerator == FULL_CORE
                        && f.share_denominator == f.active_user_count,
                }
            },
            Err(e) => e == FairShareError::NoActiveUsers,
        },
        r == fair_share_of(usages@, core_count, active_threshold, fair_share_override),
{
    let n = count_active(usages, core_count, active_threshold);
    match fair_share_override {
        Some(o) => Ok(
            FairShareResult {
                share_numerator: o,
                share_denominator: 1,
                active_user_count: n,
                source: ShareSource::Override,
            },
        ),
        None => {
            if n == 0 {
                Err(FairShareError::NoActiveUsers)
            } else {
                Ok(
                    FairShareResult {
                        share_numerator: FULL_CORE,
                        share_denominator: n,
                        active_user_count: n,
                        source: ShareSource::Computed,
                    },
                )
            }
        },
    }
}

/// `total * den` and `num * cores`, computed without overflow.
pub(crate) fn cross_products(total: u64, cores: u64, num: u64, den: u64) -> (r: (u128, u128))
    ensures
        r.0 == total as int * den as int,
        r.1 == num as int * cores as int,
{
    proof {
        vstd::arithmetic::mul::lemma_mul_upper_bound(
            total as int,
            u64::MAX as int,
            den as int,
            u64::MAX as int,
        );
        vstd::arithmetic::mul::lemma_mul_upper_bound(
            num as int,
            u64::MAX as int,
            cores as int,
            u64::MAX as int,
        );
        assert(u64::MAX as int * u64::MAX as int <= u128::MAX) by (nonlinear_arith);
    }
    ((total as u128) * (den as u128), (num as u128) * (cores as u128))
}

/// How `usage`'s per-core share stands against the fair share `fair`.
pub fn classify(usage: &UserUsage, core_count: u64, fair: &FairShareResult) -> (r: Classification)
    ensures
        r == classification_of(usage.total_cpu as int, core_count as int, *fair),
{
    let (lhs, rhs) = cross_products(
        usage.total_cpu,
        core_count,
        fair.share_numerator,
        fair.share_denominator,
    );
    proof {
        let t = usage.total_cpu as int;
        let d = fair.share_denominator as int;
        assert(t * (2 * d) == 2 * (t * d)) by (nonlinear_arith);
        assert((2 * lhs > rhs) == (lhs > rhs / 2)) by (nonlinear_arith)
            requires lhs >= 0, rhs >= 0;
    }
    if lhs > rhs {
        Classification::Over
    } else if lhs > rhs / 2 {
        Classification::Near
    } else {
        Classification::Under
    }
}

} // verus!
