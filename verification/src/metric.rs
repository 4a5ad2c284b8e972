//! The histograms that durations go to, and the value that goes there.

use vstd::prelude::*;

verus! {

/// The key of the one label that every sample carries; its value names the callable.
pub const LABEL_KEY: &'static str = "function";

/// The largest number of milliseconds that a sample holds: more than five hundred million
/// years, which no clock will read.
pub const MAX_MILLIS: u64 = u64::MAX;

/// Whether a wrapped callable runs to its end on the caller's thread, or may be suspended
/// on the way and resumed.
#[derive(Clone, Copy, Debug, PartialEq, Eq, Structural)]
pub enum CallKind {
    /// The callable runs to its end once it is called.
    Sync,
    /// The callable may be suspended and resumed; the time it spends suspended is part of
    /// its duration.
    Async,
}

impl CallKind {
    /// The name of the histogram that takes the durations of callables of this kind.
    pub open spec fn spec_metric_name(self) -> Seq<char> {
        match self {
            CallKind::Sync => "function_duration_milliseconds"@,
            CallKind::Async => "async_function_duration_milliseconds"@,
        }
    }

    /// The name of the histogram that takes the durations of callables of this kind.
    pub fn metric_name(self) -> (name: &'static str)
        ensures
            name@ == self.spec_metric_name(),
    {
        match self {
            CallKind::Sync => "function_duration_milliseconds",
            CallKind::Async => "async_function_duration_milliseconds",
        }
    }
}

/// One duration as the metrics backend is handed it.
pub struct SampleView {
    /// The histogram's name.
    pub metric: Seq<char>,
    /// The key of the sample's one label.
    pub label_key: Seq<char>,
    /// The value of that label: the name of the callable.
    pub label: Seq<char>,
    /// The duration, in whole milliseconds.
    pub millis: nat,
}

/// The number of milliseconds submitted for a call that took `elapsed` whole milliseconds:
/// `elapsed` itself as far as a sample holds it, and the largest value a sample holds
/// beyond that. Parts of a millisecond are dropped before, by the clock.
pub open spec fn recorded_millis(elapsed: nat) -> nat {
    if elapsed <= MAX_MILLIS {
        elapsed
    } else {
        MAX_MILLIS as nat
    }
}

/// The sample for a call of the given kind, filed under `label`, that took `elapsed`
/// whole milliseconds.
pub open spec fn sample_for(kind: CallKind, label: Seq<char>, elapsed: nat) -> SampleView {
    SampleView {
        metric: kind.spec_metric_name(),
        label_key: LABEL_KEY@,
        label,
        millis: recorded_millis(elapsed),
    }
}

/// Brings an elapsed time in whole milliseconds into the range of a sample.
pub fn sample_millis(elapsed: u128) -> (millis: u64)
    ensures
        millis == recorded_millis(elapsed as nat),
{
    if elapsed <= MAX_MILLIS as u128 {
        elapsed as u64
    } else {
        MAX_MILLIS
    }
}

/// The two kinds of callable never share a histogram.
pub proof fn lemma_metric_names_differ()
    ensures
        CallKind::Sync.spec_metric_name() != CallKind::Async.spec_metric_name(),
{
    reveal_strlit("function_duration_milliseconds");
    reveal_strlit("async_function_duration_milliseconds");
    assert(CallKind::Sync.spec_metric_name().len() != CallKind::Async.spec_metric_name().len());
}

/// A sample never shows less time than passed, as far as a sample can show it: of two
/// calls the longer one has the sample that is at least as large, and a call that took
/// `floor` milliseconds or more has a sample of `floor` or more wherever a sample can hold
/// `floor`.
pub proof fn lemma_recorded_millis_keeps_order(shorter: nat, longer: nat, floor: nat)
    requires
        shorter <= longer,
    ensures
        recorded_millis(shorter) <= recorded_millis(longer),
        recorded_millis(longer) <= longer,
        recorded_millis(longer) <= MAX_MILLIS,
        longer <= MAX_MILLIS ==> recorded_millis(longer) == longer,
        floor <= longer && floor <= MAX_MILLIS ==> floor <= recorded_millis(longer),
{
}

} // verus!
