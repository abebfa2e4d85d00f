//! One sample-aggregate-evaluate pass over a snapshot of the host.
use vstd::prelude::*;
use crate::fair_share::{compute_fair_share, fair_share_of, FairShareError, FairShareResult};
use crate::load::{evaluate_load, is_excessive, over_share, LoadReport};
use crate::usage::{aggregate, cpu_sum, is_usage_table, ProcessSample, UserDirectory, UserUsage};

verus! {

/// Settings fixed for the whole run.
///
/// Percentages are in hundredths of a percent.
pub struct Config {
    /// Load, as a percentage of the core count, above which it is excessive.
    pub load_threshold: u64,
    /// Per-core usage above which a user counts as active.
    pub active_threshold: u64,
    /// A fair share to use instead of the computed one.
    pub fair_share_override: Option<u64>,
    /// Target length of a cycle in live mode, in seconds.
    pub interval_secs: u64,
    /// Repeat until cancelled, rather than run once.
    pub live_mode: bool,
}

impl Default for Config {
    fn default() -> (r: Config)
        ensures
            r.load_threshold == 10000,
            r.active_threshold == 100,
            r.fair_share_override is None,
            r.interval_secs == 5,
            !r.live_mode,
    {
        Config {
            load_threshold: 10000,
            active_threshold: 100,
            fair_share_override: None,
            interval_secs: 5,
            live_mode: false,
        }
    }
}

/// What the metrics source reported at one moment.
pub struct Snapshot {
    pub samples: Vec<ProcessSample>,
    pub directory: UserDirectory,
    /// The number of logical cores.
    pub core_count: u64,
    /// The 1-minute load average, in hundredths.
    pub load_one_minute: u64,
}

/// The results of one cycle, for the reporter.
pub struct CycleReport {
    pub usages: Vec<UserUsage>,
    pub fair_share: Result<FairShareResult, FairShareError>,
    pub load: LoadReport,
}

/// Whether the usage in `samples` sums to a figure that fits in 64 bits.
pub fn usage_fits(samples: &Vec<ProcessSample>) -> (r: bool)
    ensures
        r == (cpu_sum(samples@) <= u64::MAX),
{
    let mut total: u64 = 0;
    let mut i: usize = 0;
    while i < samples.len()
        invariant
            i <= samples.len(),
            total == cpu_sum(samples@.subrange(0, i as int)),
        decreases samples.len() - i,
    {
        assert(samples@.subrange(0, i + 1).drop_last() =~= samples@.subrange(0, i as int));
        match total.checked_add(samples[i].cpu_usage) {
            Some(t) => total = t,
            None => {
                proof {
                    crate::usage::lemma_cpu_sum_prefix_bound(samples@, i + 1);
                }
                return false;
            },
        }
        i = i + 1;
    }
    assert(samples@.subrange(0, i as int) =~= samples@);
    true
}

/// Aggregates the snapshot, works out the fair share and evaluates the load.
///
/// The load section lists users over their share only when the load is
/// excessive and a fair share could be given.
pub fn run_cycle(snapshot: &Snapshot, config: &Config) -> (r: CycleReport)
    requires
        cpu_sum(snapshot.samples@) <= u64::MAX,
    ensures
        is_usage_table(snapshot.directory@, snapshot.samples@, r.usages@),
        r.fair_share == fair_share_of(
            r.usages@,
            snapshot.core_count,
            config.active_threshold,
            config.fair_share_override,
        ),
        r.load.verdict.excessive == is_excessive(
            snapshot.load_one_minute as int,
            snapshot.core_count as int,
            config.load_threshold as int,
        ),
        r.load.verdict.load_one_minute == snapshot.load_one_minute,
        r.load.verdict.threshold_absolute == (config.load_threshold as int
            * snapshot.core_count as int) / 100,
        r.load.exceeding@ == match r.fair_share {
            Ok(f) => if r.load.verdict.excessive {
                over_share(r.usages@, snapshot.core_count as int, f)
            } else {
                Seq::empty()
            },
            Err(_) => Seq::empty(),
        },
{
    let usages = aggregate(&snapshot.samples, &snapshot.directory);
    let fair_share = compute_fair_share(
        &usages,
        snapshot.core_count,
        config.active_threshold,
        config.fair_share_override,
    );
    let known = match fair_share {
        Ok(f) => Some(f),
        Err(_) => None,
    };
    let load = evaluate_load(
        snapshot.load_one_minute,
        snapshot.core_count,
        config.load_threshold,
        &usages,
        &known,
    );
    CycleReport { usages, fair_share, load }
}

} // verus!
