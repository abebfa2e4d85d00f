//! Whether the host is under excessive load, and which users then exceed
//! their fair share.
//!
//! Load averages are in hundredths (a load of `1.5` is `150`); thresholds and
//! CPU figures are in hundredths of a percent.
use vstd::prelude::*;
use crate::fair_share::{cross_products, share_above, share_exceeds, FairShareResult};
use crate::usage::UserUsage;

verus! {

/// The load figures of one cycle.
#[derive(Clone, Copy, Debug, PartialEq, Eq, Structural)]
pub struct LoadVerdict {
    /// Whether the load exceeds the threshold.
    pub excessive: bool,
    /// The 1-minute load average, in hundredths.
    pub load_one_minute: u64,
    /// The threshold as a load figure (`threshold% × cores`), in hundredths,
    /// rounded down.
    pub threshold_absolute: u128,
}

/// A verdict and, when the load is excessive, the users over their share.
pub struct LoadReport {
    pub verdict: LoadVerdict,
    /// In the order of the input.
    pub exceeding: Vec<UserUsage>,
}

/// `load > (threshold / 100%) × cores`, on the fixed-point figures.
pub open spec fn is_excessive(load: int, cores: int, threshold: int) -> bool {
    100 * load > threshold * cores
}

/// The users whose per-core share is above the fair share, in order.
pub open spec fn over_share(us: Seq<UserUsage>, cores: int, f: FairShareResult) -> Seq<UserUsage>
    decreases us.len(),
{
    if us.len() == 0 {
        Seq::empty()
    } else {
        let rest = over_share(us.drop_last(), cores, f);
        if share_above(
            us.last().total_cpu as int,
            cores,
            f.share_numerator as int,
            f.share_denominator as int,
        ) {
            rest.push(us.last())
        } else {
            rest
        }
    }
}

/// The users of `usages` whose per-core share is above `fair`, in order.
pub fn users_over_share(usages: &Vec<UserUsage>, core_count: u64, fair: &FairShareResult) -> (r:
    Vec<UserUsage>)
    ensures
        r@ == over_share(usages@, core_count as int, *fair),
{
    let mut out: Vec<UserUsage> = Vec::new();
    let mut i: usize = 0;
    while i < usages.len()
        invariant
            i <= usages.len(),
            out@ == over_share(usages@.subrange(0, i as int), core_count as int, *fair),
        decreases usages.len() - i,
    {
        assert(usages@.subrange(0, i + 1).drop_last() =~= usages@.subrange(0, i as int));
        if share_exceeds(
            usages[i].total_cpu,
            core_count,
            fair.share_numerator,
            fair.share_denominator,
        ) {
            let u = UserUsage {
                username: usages[i].username.clone(),
                total_cpu: usages[i].total_cpu,
            };
            out.push(u);
        }
        i = i + 1;
    }
    assert(usages@.subrange(0, i as int) =~= usages@);
    out
}

/// Compares the load with `load_threshold` percent of the core count and,
/// when it is excessive and a fair share is known, lists the users above it.
pub fn evaluate_load(
    load_one_minute: u64,
    core_count: u64,
    load_threshold: u64,
    usages: &Vec<UserUsage>,
    fair_share: &Option<FairShareResult>,
) -> (r: LoadReport)
    ensures
        r.verdict.excessive == is_excessive(
            load_one_minute as int,
            core_count as int,
            load_threshold as int,
        ),
        r.verdict.load_one_minute == load_one_minute,
        r.verdict.threshold_absolute == (load_threshold as int * core_count as int) / 100,
        r.exceeding@ == match fair_share {
            Some(f) => if r.verdict.excessive {
                over_share(usages@, core_count as int, *f)
            } else {
                Seq::empty()
            },
            None => Seq::empty(),
        },
{
    let (scaled_load, capacity) = cross_products(load_one_minute, core_count, load_threshold, 100);
    let excessive = scaled_load > capacity;
    let verdict = LoadVerdict {
        excessive,
        load_one_minute,
        threshold_absolute: capacity / 100,
    };
    let exceeding = match fair_share {
        Some(f) => if excessive {
            users_over_share(usages, core_count, f)
        } else {
            Vec::new()
        },
        None => Vec::new(),
    };
    LoadReport { verdict, exceeding }
}

} // verus!
