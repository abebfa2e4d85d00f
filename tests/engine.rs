use fairshare::cycle::{run_cycle, usage_fits, Config, Snapshot};
use fairshare::fair_share::{
    classify, compute_fair_share, count_active, share_exceeds, Classification, FairShareError,
    FairShareResult, ShareSource, FULL_CORE,
};
use fairshare::load::{evaluate_load, users_over_share};
use fairshare::scheduler::{sleep_duration, Action, Event, Phase, Scheduler, Span};
use fairshare::usage::{aggregate, resolve_name, ProcessSample, UserDirectory, UserUsage};

fn sample(uid: &str, cpu: u64) -> ProcessSample {
    ProcessSample { user_id: Some(uid.to_string()), cpu_usage: cpu }
}

fn usage(name: &str, total: u64) -> UserUsage {
    UserUsage { username: name.to_string(), total_cpu: total }
}

fn alice_bob() -> UserDirectory {
    let mut d = UserDirectory::new();
    d.insert("u1".to_string(), "alice".to_string());
    d.insert("u2".to_string(), "bob".to_string());
    d
}

fn pairs(us: &[UserUsage]) -> Vec<(String, u64)> {
    us.iter().map(|u| (u.username.clone(), u.total_cpu)).collect()
}

#[test]
fn scenario_three_processes() {
    let samples = vec![sample("u1", 4000), sample("u1", 1000), sample("u2", 500)];
    let dir = alice_bob();
    let us = aggregate(&samples, &dir);
    assert_eq!(pairs(&us), vec![("alice".to_string(), 5000), ("bob".to_string(), 500)]);
    // shares 12.5% and 1.25% of a core, both above 1%
    assert_eq!(count_active(&us, 4, 100), 2);
    let f = compute_fair_share(&us, 4, 100, None).unwrap();
    assert_eq!(f.active_user_count, 2);
    assert_eq!(f.source, ShareSource::Computed);
    assert_eq!((f.share_numerator, f.share_denominator), (FULL_CORE, 2));
    // 12.5% against a fair share of 50%
    assert_eq!(classify(&us[0], 4, &f), Classification::Under);
    assert_eq!(classify(&us[1], 4, &f), Classification::Under);
}

#[test]
fn scenario_override_thirty() {
    let samples = vec![sample("u1", 4000), sample("u1", 1000), sample("u2", 500)];
    let us = aggregate(&samples, &alice_bob());
    let f = compute_fair_share(&us, 4, 100, Some(3000)).unwrap();
    assert_eq!(f.source, ShareSource::Override);
    assert_eq!((f.share_numerator, f.share_denominator), (3000, 1));
    assert_eq!(f.active_user_count, 2);
}

#[test]
fn scenario_single_shot_one_cycle() {
    let mut s = Scheduler::new(false, 5);
    assert_eq!(s.phase, Phase::Idle);
    assert_eq!(s.step(Event::Start), Action::BeginCycle);
    assert_eq!(s.phase, Phase::Sampling);
    assert_eq!(s.step(Event::Sampled), Action::Report);
    assert_eq!(s.phase, Phase::Reporting);
    let elapsed = Span { secs: 0, nanos: 1000 };
    assert_eq!(s.step(Event::Reported { elapsed }), Action::Shutdown);
    assert_eq!(s.phase, Phase::Terminated);
    assert_eq!(s.step(Event::Start), Action::Nothing);
    assert_eq!(s.phase, Phase::Terminated);
}

#[test]
fn sum_of_totals_matches_samples() {
    let samples = vec![
        sample("u1", 1234),
        sample("u2", 1),
        sample("u3", 0),
        sample("u1", 766),
        ProcessSample { user_id: None, cpu_usage: 300 },
        sample("u9", 7),
    ];
    let us = aggregate(&samples, &alice_bob());
    let total: u64 = us.iter().map(|u| u.total_cpu).sum();
    assert_eq!(total, 1234 + 1 + 766 + 300 + 7);
}

#[test]
fn totals_come_out_descending() {
    let samples = vec![
        sample("a", 10),
        sample("b", 300),
        sample("c", 20),
        sample("a", 500),
        sample("d", 300),
    ];
    let us = aggregate(&samples, &UserDirectory::new());
    assert_eq!(
        pairs(&us),
        vec![
            ("UID:a".to_string(), 510),
            ("UID:b".to_string(), 300),
            ("UID:d".to_string(), 300),
            ("UID:c".to_string(), 20),
        ]
    );
    for w in us.windows(2) {
        assert!(w[0].total_cpu >= w[1].total_cpu);
    }
}

#[test]
fn idle_users_are_left_out() {
    let samples = vec![sample("u1", 0), sample("u2", 0), sample("u2", 40), sample("u3", 0)];
    let us = aggregate(&samples, &alice_bob());
    assert_eq!(pairs(&us), vec![("bob".to_string(), 40)]);
    assert!(us.iter().all(|u| u.total_cpu > 0));
}

#[test]
fn no_samples_give_empty_table() {
    let us = aggregate(&Vec::new(), &alice_bob());
    assert!(us.is_empty());
}

#[test]
fn fair_share_divides_a_core_among_active_users() {
    let us = vec![usage("a", 900), usage("b", 500), usage("c", 101), usage("d", 100)];
    // one core; active above 1%: a, b, c
    let f = compute_fair_share(&us, 1, 100, None).unwrap();
    assert_eq!(f.active_user_count, 3);
    assert_eq!((f.share_numerator, f.share_denominator), (10000, 3));
    assert_eq!(f.source, ShareSource::Computed);
}

#[test]
fn override_wins_with_no_active_users() {
    let us = vec![usage("a", 50)];
    let f = compute_fair_share(&us, 8, 100, Some(2500)).unwrap();
    assert_eq!(f.active_user_count, 0);
    assert_eq!((f.share_numerator, f.share_denominator), (2500, 1));
    assert_eq!(f.source, ShareSource::Override);
}

#[test]
fn no_active_users_is_reported() {
    let us = vec![usage("a", 400), usage("b", 100)];
    // four cores: shares 1% and 0.25%, neither above 1%
    assert_eq!(compute_fair_share(&us, 4, 100, None), Err(FairShareError::NoActiveUsers));
    assert_eq!(compute_fair_share(&Vec::new(), 4, 100, None), Err(FairShareError::NoActiveUsers));
}

#[test]
fn classification_buckets() {
    let f = FairShareResult {
        share_numerator: 10000,
        share_denominator: 4,
        active_user_count: 4,
        source: ShareSource::Computed,
    };
    // two cores, fair share 25%
    assert_eq!(classify(&usage("a", 5002), 2, &f), Classification::Over);
    assert_eq!(classify(&usage("a", 5000), 2, &f), Classification::Near);
    assert_eq!(classify(&usage("a", 2502), 2, &f), Classification::Near);
    assert_eq!(classify(&usage("a", 2500), 2, &f), Classification::Under);
    assert_eq!(classify(&usage("a", 0), 2, &f), Classification::Under);
}

#[test]
fn classification_with_large_figures() {
    let f = FairShareResult {
        share_numerator: u64::MAX,
        share_denominator: u64::MAX,
        active_user_count: 1,
        source: ShareSource::Override,
    };
    assert_eq!(classify(&usage("a", u64::MAX), 1, &f), Classification::Over);
    assert_eq!(classify(&usage("a", 1), 1, &f), Classification::Near);
    assert_eq!(classify(&usage("a", 0), 1, &f), Classification::Under);
    assert!(share_exceeds(u64::MAX, u64::MAX - 1, u64::MAX, u64::MAX));
    assert!(!share_exceeds(u64::MAX - 1, u64::MAX, u64::MAX, u64::MAX));
}

#[test]
fn sleep_is_rest_of_interval() {
    let d = sleep_duration(Span::from_secs(5), Span { secs: 1, nanos: 300_000_000 });
    assert_eq!(d, Span { secs: 3, nanos: 700_000_000 });
    let d = sleep_duration(Span { secs: 2, nanos: 500 }, Span { secs: 1, nanos: 200 });
    assert_eq!(d, Span { secs: 1, nanos: 300 });
}

#[test]
fn sleep_never_negative() {
    let zero = Span { secs: 0, nanos: 0 };
    assert_eq!(sleep_duration(Span::from_secs(1), Span { secs: 1, nanos: 1 }), zero);
    assert_eq!(sleep_duration(Span::from_secs(1), Span::from_secs(1)), zero);
    assert_eq!(sleep_duration(Span::from_secs(0), Span { secs: 9, nanos: 5 }), zero);
    assert_eq!(sleep_duration(Span::from_secs(0), zero), zero);
}

#[test]
fn cancellation_during_wait_terminates() {
    let mut s = Scheduler::new(true, 5);
    assert_eq!(s.step(Event::Start), Action::BeginCycle);
    assert_eq!(s.step(Event::Sampled), Action::Report);
    let a = s.step(Event::Reported { elapsed: Span { secs: 0, nanos: 250_000_000 } });
    assert_eq!(a, Action::Wait { duration: Span { secs: 4, nanos: 750_000_000 } });
    assert_eq!(s.phase, Phase::Sleeping);
    assert_eq!(s.step(Event::Cancelled), Action::Shutdown);
    assert_eq!(s.phase, Phase::Terminated);
    assert_eq!(s.step(Event::TimedOut), Action::Nothing);
    assert_eq!(s.step(Event::Start), Action::Nothing);
    assert_eq!(s.phase, Phase::Terminated);
}

#[test]
fn timeout_starts_next_cycle() {
    let mut s = Scheduler::new(true, 1);
    s.step(Event::Start);
    s.step(Event::Sampled);
    s.step(Event::Reported { elapsed: Span { secs: 0, nanos: 1 } });
    assert_eq!(s.step(Event::TimedOut), Action::BeginCycle);
    assert_eq!(s.phase, Phase::Sampling);
}

#[test]
fn slow_cycle_skips_the_wait() {
    let mut s = Scheduler::new(true, 1);
    s.step(Event::Start);
    s.step(Event::Sampled);
    assert_eq!(s.step(Event::Reported { elapsed: Span { secs: 3, nanos: 0 } }), Action::BeginCycle);
    assert_eq!(s.phase, Phase::Sampling);
}

#[test]
fn broken_channel_terminates() {
    let mut s = Scheduler::new(true, 5);
    s.step(Event::Start);
    s.step(Event::Sampled);
    s.step(Event::Reported { elapsed: Span { secs: 0, nanos: 0 } });
    assert_eq!(s.step(Event::ChannelClosed), Action::Shutdown);
    assert_eq!(s.phase, Phase::Terminated);
}

#[test]
fn failed_sample_is_still_reported() {
    let mut s = Scheduler::new(true, 5);
    s.step(Event::Start);
    assert_eq!(s.step(Event::SampleFailed), Action::ReportFailure);
    assert_eq!(s.phase, Phase::Reporting);
}

#[test]
fn out_of_phase_events_change_nothing() {
    let mut s = Scheduler::new(true, 5);
    assert_eq!(s.step(Event::Cancelled), Action::Nothing);
    assert_eq!(s.phase, Phase::Idle);
    s.step(Event::Start);
    assert_eq!(s.step(Event::TimedOut), Action::Nothing);
    assert_eq!(s.phase, Phase::Sampling);
}

#[test]
fn unknown_users_get_fallback_names() {
    let dir = alice_bob();
    assert_eq!(resolve_name(&dir, &Some("u2".to_string())), "bob");
    assert_eq!(resolve_name(&dir, &Some("42".to_string())), "UID:42");
    assert_eq!(resolve_name(&dir, &None), "UID:Unknown");
}

#[test]
fn latest_directory_entry_wins() {
    let mut dir = alice_bob();
    dir.insert("u1".to_string(), "carol".to_string());
    assert_eq!(dir.len(), 3);
    assert_eq!(dir.lookup(&"u1".to_string()), Some("carol".to_string()));
    assert_eq!(dir.lookup(&"u3".to_string()), None);
}

#[test]
fn load_over_threshold_lists_users_over_share() {
    let us = vec![usage("a", 30000), usage("b", 6000), usage("c", 4000)];
    let f = compute_fair_share(&us, 4, 100, None).unwrap();
    // fair share 33.33%; shares 75%, 15%, 10%
    let r = evaluate_load(450, 4, 10000, &us, &Some(f));
    assert!(r.verdict.excessive);
    assert_eq!(r.verdict.load_one_minute, 450);
    assert_eq!(r.verdict.threshold_absolute, 400);
    assert_eq!(pairs(&r.exceeding), vec![("a".to_string(), 30000)]);
}

#[test]
fn load_at_threshold_is_not_excessive() {
    let us = vec![usage("a", 30000)];
    let f = compute_fair_share(&us, 4, 100, None).unwrap();
    let r = evaluate_load(400, 4, 10000, &us, &Some(f));
    assert!(!r.verdict.excessive);
    assert!(r.exceeding.is_empty());
    // 80% of three cores is a load of 2.4
    let r = evaluate_load(241, 3, 8000, &us, &None);
    assert!(r.verdict.excessive);
    assert_eq!(r.verdict.threshold_absolute, 240);
    assert!(r.exceeding.is_empty());
}

#[test]
fn over_share_keeps_order() {
    let us = vec![usage("a", 900), usage("b", 700), usage("c", 100), usage("d", 600)];
    let f = FairShareResult {
        share_numerator: 500,
        share_denominator: 1,
        active_user_count: 0,
        source: ShareSource::Override,
    };
    assert_eq!(
        pairs(&users_over_share(&us, 1, &f)),
        vec![("a".to_string(), 900), ("b".to_string(), 700), ("d".to_string(), 600)]
    );
}

#[test]
fn full_cycle_on_a_snapshot() {
    let snap = Snapshot {
        samples: vec![sample("u1", 4000), sample("u1", 1000), sample("u2", 500)],
        directory: alice_bob(),
        core_count: 4,
        load_one_minute: 410,
    };
    let cfg = Config::default();
    assert!(usage_fits(&snap.samples));
    let r = run_cycle(&snap, &cfg);
    assert_eq!(pairs(&r.usages), vec![("alice".to_string(), 5000), ("bob".to_string(), 500)]);
    let f = r.fair_share.unwrap();
    assert_eq!((f.share_numerator, f.share_denominator), (10000, 2));
    assert!(r.load.verdict.excessive);
    assert!(r.load.exceeding.is_empty());
}

#[test]
fn cycle_without_active_users_still_reports_usage() {
    let snap = Snapshot {
        samples: vec![sample("u1", 10), sample("u2", 0)],
        directory: alice_bob(),
        core_count: 2,
        load_one_minute: 900,
    };
    let r = run_cycle(&snap, &Config::default());
    assert_eq!(pairs(&r.usages), vec![("alice".to_string(), 10)]);
    assert_eq!(r.fair_share, Err(FairShareError::NoActiveUsers));
    assert!(r.load.verdict.excessive);
    assert!(r.load.exceeding.is_empty());
}

#[test]
fn overflowing_usage_is_detected() {
    let samples = vec![sample("u1", u64::MAX), sample("u2", 1)];
    assert!(!usage_fits(&samples));
    let samples = vec![sample("u1", u64::MAX - 1), sample("u2", 1)];
    assert!(usage_fits(&samples));
}

#[test]
fn default_config() {
    let c = Config::default();
    assert_eq!(c.load_threshold, 10000);
    assert_eq!(c.active_threshold, 100);
    assert_eq!(c.fair_share_override, None);
    assert_eq!(c.interval_secs, 5);
    assert!(!c.live_mode);
}
