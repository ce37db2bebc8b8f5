use vstd::prelude::*;

verus! {

/// Timing of one bounded wait, in milliseconds.
#[derive(Debug, Clone, Copy, PartialEq, Eq, Structural)]
pub struct PollConfig {
    /// Pause between two samples.
    pub interval_ms: u64,
    /// Time after the first sample beyond which the wait gives up.
    pub deadline_ms: u64,
}

/// What the caller observed when it took one sample.
#[derive(Debug, Clone, Copy, PartialEq, Eq, Structural)]
pub enum SampleEvent {
    /// The sample was taken and the predicate holds of it.
    Held,
    /// The sample was taken and the predicate does not hold of it.
    NotHeld,
    /// Taking the sample failed.
    SampleFailed,
    /// The caller's cancellation signal was raised.
    Cancelled,
}

/// How a wait ended.
#[derive(Debug, Clone, Copy, PartialEq, Eq, Structural)]
pub enum PollOutcome {
    Converged,
    Timeout,
    Failed,
    Cancelled,
}

/// What the caller does next.
#[derive(Debug, Clone, Copy, PartialEq, Eq, Structural)]
pub enum PollAction {
    /// Stop waiting, with this outcome.
    Finish(PollOutcome),
    /// Sleep this many milliseconds, then take the next sample.
    SleepThenSample(u64),
}

/// The decision after a sample taken `elapsed` milliseconds after the first one.
pub open spec fn poll_decision(config: PollConfig, elapsed: int, event: SampleEvent) -> PollAction {
    match event {
        SampleEvent::Held => PollAction::Finish(PollOutcome::Converged),
        SampleEvent::SampleFailed => PollAction::Finish(PollOutcome::Failed),
        SampleEvent::Cancelled => PollAction::Finish(PollOutcome::Cancelled),
        SampleEvent::NotHeld => if elapsed > config.deadline_ms {
            PollAction::Finish(PollOutcome::Timeout)
        } else {
            PollAction::SleepThenSample(config.interval_ms)
        },
    }
}

/// Decides the next step of a bounded wait. A sample of which the predicate holds
/// ends the wait at once, with no further sleep; a failed sample or a
/// cancellation ends it with its own outcome; otherwise the wait sleeps one
/// interval, unless the deadline has passed, which ends it with `Timeout`.
pub fn next_action(config: PollConfig, elapsed_ms: u64, event: SampleEvent) -> (r: PollAction)
    ensures
        r == poll_decision(config, elapsed_ms as int, event),
{
    match event {
        SampleEvent::Held => PollAction::Finish(PollOutcome::Converged),
        SampleEvent::SampleFailed => PollAction::Finish(PollOutcome::Failed),
        SampleEvent::Cancelled => PollAction::Finish(PollOutcome::Cancelled),
        SampleEvent::NotHeld => if elapsed_ms > config.deadline_ms {
            PollAction::Finish(PollOutcome::Timeout)
        } else {
            PollAction::SleepThenSample(config.interval_ms)
        },
    }
}

/// Runs the decisions over a sequence of sample events, the first taken
/// `start` milliseconds into the wait and each later one after the sleep that
/// the decision before it asked for. The result is the outcome and the index of
/// the sample that ended the wait, or `None` if the events ran out first.
pub open spec fn poll_run(config: PollConfig, start: int, events: Seq<SampleEvent>) -> Option<
    (PollOutcome, int),
>
    decreases events.len(),
{
    if events.len() == 0 {
        None
    } else {
        match poll_decision(config, start, events[0]) {
            PollAction::Finish(o) => Some((o, 0)),
            PollAction::SleepThenSample(d) => match poll_run(
                config,
                start + d,
                events.drop_first(),
            ) {
                Some((o, k)) => Some((o, k + 1)),
                None => None,
            },
        }
    }
}

/// A wait ends with `Converged` at the first sample of which the predicate
/// holds, provided no sample before it failed, was cancelled or came after the
/// deadline: it takes no sample after that one and sleeps no extra interval.
pub proof fn lemma_converges_at_first_hold(config: PollConfig, start: int, events: Seq<
    SampleEvent,
>, k: int)
    requires
        0 <= k < events.len(),
        events[k] == SampleEvent::Held,
        forall|j: int| 0 <= j < k ==> events[j] == SampleEvent::NotHeld,
        start + k * config.interval_ms <= config.deadline_ms,
    ensures
        poll_run(config, start, events) == Some((PollOutcome::Converged, k)),
    decreases k,
{
    if k > 0 {
        assert(start <= config.deadline_ms) by (nonlinear_arith)
            requires
                start + k * config.interval_ms <= config.deadline_ms,
                k > 0,
                config.interval_ms >= 0,
        ;
        assert((start + config.interval_ms) + (k - 1) * config.interval_ms == start + k
            * config.interval_ms) by (nonlinear_arith);
        lemma_converges_at_first_hold(config, start + config.interval_ms, events.drop_first(), k - 1);
    }
}

/// A wait of which the predicate never holds ends with `Timeout`, neither with
/// success nor with an error, at the first sample taken after the deadline
/// (sample times grow by one interval each, so those before it came in time).
pub proof fn lemma_times_out_when_never_held(config: PollConfig, start: int, events: Seq<
    SampleEvent,
>, k: int)
    requires
        0 <= k < events.len(),
        forall|j: int| 0 <= j <= k ==> events[j] == SampleEvent::NotHeld,
        k == 0 || start + (k - 1) * config.interval_ms <= config.deadline_ms,
        start + k * config.interval_ms > config.deadline_ms,
    ensures
        poll_run(config, start, events) == Some((PollOutcome::Timeout, k)),
    decreases k,
{
    if k > 0 {
        assert(start <= config.deadline_ms) by (nonlinear_arith)
            requires
                start + (k - 1) * config.interval_ms <= config.deadline_ms,
                k > 0,
                config.interval_ms >= 0,
        ;
        assert((start + config.interval_ms) + (k - 1) * config.interval_ms == start + k
            * config.interval_ms) by (nonlinear_arith);
        assert(k - 1 > 0 ==> (start + config.interval_ms) + (k - 2) * config.interval_ms == start
            + (k - 1) * config.interval_ms) by (nonlinear_arith);
        lemma_times_out_when_never_held(
            config,
            start + config.interval_ms,
            events.drop_first(),
            k - 1,
        );
    } else {
        assert(start > config.deadline_ms) by (nonlinear_arith)
            requires
                start + k * config.interval_ms > config.deadline_ms,
                k == 0,
        ;
    }
}

} // verus!
