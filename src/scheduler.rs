//! The refresh loop as a state machine: the caller performs each action,
//! then hands back the event it led to.
use vstd::prelude::*;

verus! {

pub const NANOS_PER_SEC: u32 = 1_000_000_000;

/// A length of time, in whole seconds and nanoseconds.
#[derive(Clone, Copy, Debug, PartialEq, Eq, Structural)]
pub struct Span {
    pub secs: u64,
    pub nanos: u32,
}

impl Span {
    /// The nanoseconds make up less than a second.
    pub open spec fn wf(self) -> bool {
        self.nanos < NANOS_PER_SEC
    }

    pub open spec fn total_nanos(self) -> nat {
        (self.secs * NANOS_PER_SEC + self.nanos) as nat
    }

    pub fn from_secs(secs: u64) -> (r: Span)
        ensures
            r.wf(),
            r.total_nanos() == secs * NANOS_PER_SEC,
            r == (Span { secs, nanos: 0 }),
    {
        Span { secs, nanos: 0 }
    }

    pub fn is_zero(&self) -> (r: bool)
        ensures
            r == (self.total_nanos() == 0),
    {
        self.secs == 0 && self.nanos == 0
    }
}

/// The span of `n` nanoseconds.
pub open spec fn span_of_nanos(n: nat) -> Span {
    Span { secs: (n / NANOS_PER_SEC as nat) as u64, nanos: (n % NANOS_PER_SEC as nat) as u32 }
}

/// What is left of `interval` after `elapsed`, and nothing when `elapsed`
/// has used it up.
pub open spec fn sleep_nanos(interval: Span, elapsed: Span) -> nat {
    if interval.total_nanos() > elapsed.total_nanos() {
        (interval.total_nanos() - elapsed.total_nanos()) as nat
    } else {
        0
    }
}

/// How long to wait before the next cycle: the rest of `interval` once
/// `elapsed` has gone by, never less than zero.
pub fn sleep_duration(interval: Span, elapsed: Span) -> (r: Span)
    requires
        interval.wf(),
        elapsed.wf(),
    ensures
        r.wf(),
        r.total_nanos() == sleep_nanos(interval, elapsed),
        r == span_of_nanos(sleep_nanos(interval, elapsed)),
{
    let r = if elapsed.secs > interval.secs || (elapsed.secs == interval.secs && elapsed.nanos
        >= interval.nanos) {
        Span { secs: 0, nanos: 0 }
    } else if interval.nanos >= elapsed.nanos {
        Span { secs: interval.secs - elapsed.secs, nanos: interval.nanos - elapsed.nanos }
    } else {
        Span {
            secs: interval.secs - elapsed.secs - 1,
            nanos: interval.nanos + (NANOS_PER_SEC - elapsed.nanos),
        }
    };
    proof {
        vstd::arithmetic::div_mod::lemma_fundamental_div_mod_converse(
            r.total_nanos() as int,
            NANOS_PER_SEC as int,
            r.secs as int,
            r.nanos as int,
        );
    }
    r
}

/// Where the refresh loop stands.
#[derive(Clone, Copy, Debug, PartialEq, Eq, Structural)]
pub enum Phase {
    /// Not started.
    Idle,
    /// Taking a snapshot and evaluating it.
    Sampling,
    /// Handing the results of the cycle to the reporter.
    Reporting,
    /// Waiting for the next cycle, unless cancelled first.
    Sleeping,
    /// Stopped for good.
    Terminated,
}

/// What the caller saw after performing the last action.
#[derive(Clone, Copy, Debug, PartialEq, Eq, Structural)]
pub enum Event {
    /// The loop is to begin.
    Start,
    /// The snapshot was taken and evaluated.
    Sampled,
    /// The metrics source gave no snapshot.
    SampleFailed,
    /// The report was shown; `elapsed` has gone by since the cycle began.
    Reported { elapsed: Span },
    /// The cancellation signal arrived during the wait.
    Cancelled,
    /// The wait ran out without a cancellation.
    TimedOut,
    /// The cancellation channel broke during the wait.
    ChannelClosed,
}

/// What the caller is to do next.
#[derive(Clone, Copy, Debug, PartialEq, Eq, Structural)]
pub enum Action {
    /// Note the time, take a snapshot and evaluate it.
    BeginCycle,
    /// Report the results of the cycle.
    Report,
    /// Report that no snapshot could be taken.
    ReportFailure,
    /// Wait on the cancellation channel for at most `duration`.
    Wait { duration: Span },
    /// Announce the end and stop.
    Shutdown,
    /// The event does not apply in this phase; nothing to do.
    Nothing,
}

/// The next phase and the action to take, on `event` in `phase`.
pub open spec fn transition(live_mode: bool, interval: Span, phase: Phase, event: Event) -> (
    Phase,
    Action,
) {
    match (phase, event) {
        (Phase::Idle, Event::Start) => (Phase::Sampling, Action::BeginCycle),
        (Phase::Sampling, Event::Sampled) => (Phase::Reporting, Action::Report),
        (Phase::Sampling, Event::SampleFailed) => (Phase::Reporting, Action::ReportFailure),
        (Phase::Reporting, Event::Reported { elapsed }) => if !live_mode {
            (Phase::Terminated, Action::Shutdown)
        } else if sleep_nanos(interval, elapsed) > 0 {
            (
                Phase::Sleeping,
                Action::Wait { duration: span_of_nanos(sleep_nanos(interval, elapsed)) },
            )
        } else {
            (Phase::Sampling, Action::BeginCycle)
        },
        (Phase::Sleeping, Event::Cancelled) => (Phase::Terminated, Action::Shutdown),
        (Phase::Sleeping, Event::ChannelClosed) => (Phase::Terminated, Action::Shutdown),
        (Phase::Sleeping, Event::TimedOut) => (Phase::Sampling, Action::BeginCycle),
        _ => (phase, Action::Nothing),
    }
}

pub open spec fn event_wf(event: Event) -> bool {
    match event {
        Event::Reported { elapsed } => elapsed.wf(),
        _ => true,
    }
}

/// The refresh loop: single-shot, or repeating every `interval` until
/// cancelled.
pub struct Scheduler {
    pub live_mode: bool,
    pub interval: Span,
    pub phase: Phase,
}

impl Scheduler {
    pub open spec fn wf(&self) -> bool {
        self.interval.wf()
    }

    pub fn new(live_mode: bool, interval_secs: u64) -> (r: Scheduler)
        ensures
            r.wf(),
            r.live_mode == live_mode,
            r.interval == (Span { secs: interval_secs, nanos: 0 }),
            r.phase == Phase::Idle,
    {
        Scheduler { live_mode, interval: Span::from_secs(interval_secs), phase: Phase::Idle }
    }

    /// Moves to the next phase on `event` and returns the action to take.
    pub fn step(&mut self, event: Event) -> (r: Action)
        requires
            old(self).wf(),
            event_wf(event),
        ensures
            final(self).wf(),
            final(self).live_mode == old(self).live_mode,
            final(self).interval == old(self).interval,
            (final(self).phase, r) == transition(
                old(self).live_mode,
                old(self).interval,
                old(self).phase,
                event,
            ),
    {
        let (phase, action) = match (self.phase, event) {
            (Phase::Idle, Event::Start) => (Phase::Sampling, Action::BeginCycle),
            (Phase::Sampling, Event::Sampled) => (Phase::Reporting, Action::Report),
            (Phase::Sampling, Event::SampleFailed) => (Phase::Reporting, Action::ReportFailure),
            (Phase::Reporting, Event::Reported { elapsed }) => {
                if !self.live_mode {
                    (Phase::Terminated, Action::Shutdown)
                } else {
                    let d = sleep_duration(self.interval, elapsed);
                    if d.is_zero() {
                        (Phase::Sampling, Action::BeginCycle)
                    } else {
                        (Phase::Sleeping, Action::Wait { duration: d })
                    }
                }
            },
            (Phase::Sleeping, Event::Cancelled) => (Phase::Terminated, Action::Shutdown),
            (Phase::Sleeping, Event::ChannelClosed) => (Phase::Terminated, Action::Shutdown),
            (Phase::Sleeping, Event::TimedOut) => (Phase::Sampling, Action::BeginCycle),
            (p, _) => (p, Action::Nothing),
        };
        self.phase = phase;
        action
    }
}

/// The phase reached after `events`, starting in `phase`.
pub open spec fn phase_after(live_mode: bool, interval: Span, phase: Phase, events: Seq<Event>) -> Phase
    decreases events.len(),
{
    if events.len() == 0 {
        phase
    } else {
        phase_after(
            live_mode,
            interval,
            transition(live_mode, interval, phase, events[0]).0,
            events.drop_first(),
        )
    }
}

/// The actions asked for along `events`, starting in `phase`.
pub open spec fn actions_along(
    live_mode: bool,
    interval: Span,
    phase: Phase,
    events: Seq<Event>,
) -> Seq<Action>
    decreases events.len(),
{
    if events.len() == 0 {
        Seq::empty()
    } else {
        let (next, action) = transition(live_mode, interval, phase, events[0]);
        seq![action] + actions_along(live_mode, interval, next, events.drop_first())
    }
}

proof fn lemma_terminated_stays(live_mode: bool, interval: Span, events: Seq<Event>)
    ensures
        phase_after(live_mode, interval, Phase::Terminated, events) == Phase::Terminated,
        forall|i: int|
            0 <= i < actions_along(live_mode, interval, Phase::Terminated, events).len()
                ==> #[trigger] actions_along(live_mode, interval, Phase::Terminated, events)[i]
                == Action::Nothing,
    decreases events.len(),
{
    if events.len() > 0 {
        lemma_terminated_stays(live_mode, interval, events.drop_first());
    }
}

/// A cancellation that arrives while waiting ends the loop: the scheduler
/// shuts down, stays terminated, and never begins another cycle, whatever
/// events follow.
pub proof fn cancellation_precedes_next_cycle(live_mode: bool, interval: Span, later: Seq<Event>)
    ensures
        phase_after(live_mode, interval, Phase::Sleeping, seq![Event::Cancelled] + later)
            == Phase::Terminated,
        actions_along(live_mode, interval, Phase::Sleeping, seq![Event::Cancelled] + later)[0]
            == Action::Shutdown,
        forall|i: int|
            0 <= i < actions_along(
                live_mode,
                interval,
                Phase::Sleeping,
                seq![Event::Cancelled] + later,
            ).len() ==> #[trigger] actions_along(
                live_mode,
                interval,
                Phase::Sleeping,
                seq![Event::Cancelled] + later,
            )[i] != Action::BeginCycle,
{
    let events = seq![Event::Cancelled] + later;
    assert(events.drop_first() =~= later);
    lemma_terminated_stays(live_mode, interval, later);
    let acts = actions_along(live_mode, interval, Phase::Sleeping, events);
    assert(acts =~= seq![Action::Shutdown] + actions_along(
        live_mode,
        interval,
        Phase::Terminated,
        later,
    ));
    assert forall|i: int| 0 <= i < acts.len() implies #[trigger] acts[i] != Action::BeginCycle by {
        if i > 0 {
            assert(acts[i] == actions_along(live_mode, interval, Phase::Terminated, later)[i - 1]);
        }
    }
}

/// In single-shot mode the scheduler never waits: from any phase but
/// `Sleeping`, no sequence of events leads to `Sleeping` or asks for a wait.
pub proof fn single_shot_never_waits(interval: Span, phase: Phase, events: Seq<Event>)
    requires
        phase != Phase::Sleeping,
    ensures
        phase_after(false, interval, phase, events) != Phase::Sleeping,
        forall|i: int|
            0 <= i < actions_along(false, interval, phase, events).len()
                ==> !(#[trigger] actions_along(false, interval, phase, events)[i] is Wait),
    decreases events.len(),
{
    if events.len() > 0 {
        let (next, action) = transition(false, interval, phase, events[0]);
        single_shot_never_waits(interval, next, events.drop_first());
        let acts = actions_along(false, interval, phase, events);
        let rest = actions_along(false, interval, next, events.drop_first());
        assert forall|i: int| 0 <= i < acts.len() implies !(#[trigger] acts[i] is Wait) by {
            if i > 0 {
                assert(acts[i] == rest[i - 1]);
            }
        }
    }
}

} // verus!
