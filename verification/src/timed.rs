//! Timed calls.
//!
//! A [`Wrapper`] is made once for a callable: that is when the label is chosen, and it
//! stays as it is for every call that goes through the wrapper. A call through it has two
//! ends. [`Wrapper::start`] reads the clock; [`Measurement::finish`] reads it again and
//! submits the time between the two as one sample. Nothing is submitted in between, and
//! nothing at all for a call that never comes back: a callable that panics unwinds through
//! its wrapper untouched, and one that is dropped half-way leaves a measurement that is
//! never finished.
//!
//! [`Wrapper::call`] puts the two ends around a call of a closure, and
//! [`measured_function`] makes the wrapper for that one call as well. A callable that is
//! suspended and resumed on its way cannot be called from here: its caller starts a
//! measurement with a wrapper of [`CallKind::Async`], awaits the callable and finishes the
//! measurement.

use vstd::prelude::*;
use std::time::Instant;
use crate::label::{optional_text, resolve_label, resolved_label};
use crate::metric::{sample_for, CallKind, SampleView, LABEL_KEY, MAX_MILLIS};
use crate::sink::SampleSink;

verus! {

/// `after` is `before` and one sample more, for a call of `kind` filed under `label`.
pub open spec fn one_more_sample(
    before: Seq<SampleView>,
    after: Seq<SampleView>,
    kind: CallKind,
    label: Seq<char>,
) -> bool {
    exists|elapsed: nat| after == before.push(#[trigger] sample_for(kind, label, elapsed))
}

/// What a wrapper is known by.
pub struct WrapperView {
    /// The kind of callable that is wrapped.
    pub kind: CallKind,
    /// The label that its durations are filed under.
    pub label: Seq<char>,
}

/// The wrapper of one callable: the kind of the callable, and the label that the
/// durations of its calls are filed under.
pub struct Wrapper {
    kind: CallKind,
    label: String,
}

impl View for Wrapper {
    type V = WrapperView;

    closed spec fn view(&self) -> WrapperView {
        WrapperView { kind: self.kind, label: self.label@ }
    }
}

/// A call that is under way: the wrapper it goes through, and when it began.
pub struct Measurement<'a> {
    kind: CallKind,
    label: &'a str,
    started: Instant,
}

impl<'a> View for Measurement<'a> {
    type V = WrapperView;

    /// What the wrapper is known by that the call goes through.
    closed spec fn view(&self) -> WrapperView {
        WrapperView { kind: self.kind, label: self.label@ }
    }
}

impl Wrapper {
    /// Makes the wrapper of a callable of `kind` that was declared as `declared` and that
    /// its caller may have named `custom`.
    pub fn new(kind: CallKind, custom: Option<&str>, declared: &str) -> (wrapper: Self)
        ensures
            wrapper@.kind == kind,
            wrapper@.label == resolved_label(optional_text(custom), declared@),
    {
        Wrapper { kind, label: resolve_label(custom, declared).to_owned() }
    }

    /// The kind of callable that is wrapped.
    pub fn kind(&self) -> (kind: CallKind)
        ensures
            kind == self@.kind,
    {
        self.kind
    }

    /// The label that the durations are filed under.
    pub fn label(&self) -> (label: &str)
        ensures
            label@ == self@.label,
    {
        self.label.as_str()
    }

    /// Begins to time one call: reads the clock.
    pub fn start(&self) -> (measurement: Measurement<'_>)
        ensures
            measurement@ == self@,
    {
        Measurement { kind: self.kind, label: self.label.as_str(), started: Instant::now() }
    }

    /// Calls `f` and submits the time the call took as one sample, to the histogram of the
    /// wrapper's kind and under the wrapper's label. What `f` returned is returned as it
    /// is, whatever it is.
    pub fn call<R, F: FnOnce() -> R>(&self, sink: &mut SampleSink, f: F) -> (out: R)
        requires
            f.requires(()),
        ensures
            f.ensures((), out),
            one_more_sample(old(sink)@, final(sink)@, self@.kind, self@.label),
    {
        let measurement = self.start();
        let out = f();
        measurement.finish(sink);
        out
    }
}

impl<'a> Measurement<'a> {
    /// Ends the timing of a call that has returned: reads the clock and submits the time
    /// that has passed since [`Wrapper::start`] as one sample.
    pub fn finish(self, sink: &mut SampleSink)
        ensures
            one_more_sample(old(sink)@, final(sink)@, self@.kind, self@.label),
    {
        let elapsed = self.started.elapsed().as_millis();
        self.finish_after(sink, elapsed);
    }

    /// Ends the timing of a call that has returned after `elapsed` whole milliseconds, and
    /// submits that duration as one sample.
    pub fn finish_after(self, sink: &mut SampleSink, elapsed: u128)
        ensures
            final(sink)@ == old(sink)@.push(sample_for(self@.kind, self@.label, elapsed as nat)),
    {
        sink.submit(self.kind, self.label, elapsed);
    }
}

/// Calls `f` and submits the time the call took as one sample of the histogram of
/// synchronous callables, filed under `custom` where that is given and not empty, and under
/// `declared` otherwise. What `f` returned is returned as it is, whatever it is: a value
/// that tells of an error is a value like any other, and its call is timed like any other.
pub fn measured_function<R, F: FnOnce() -> R>(
    sink: &mut SampleSink,
    custom: Option<&str>,
    declared: &str,
    f: F,
) -> (out: R)
    requires
        f.requires(()),
    ensures
        f.ensures((), out),
        one_more_sample(
            old(sink)@,
            final(sink)@,
            CallKind::Sync,
            resolved_label(optional_text(custom), declared@),
        ),
{
    Wrapper::new(CallKind::Sync, custom, declared).call(sink, f)
}

/// A call that has returned has added exactly one sample to those that were submitted
/// before it, whatever the kind of the callable. The sample goes to the histogram of that
/// kind and carries one label, whose value is the caller's name for the callable where one
/// was given and is not empty, and the declared name otherwise.
pub proof fn lemma_returned_call_submits_exactly_one(
    before: Seq<SampleView>,
    after: Seq<SampleView>,
    kind: CallKind,
    custom: Option<Seq<char>>,
    declared: Seq<char>,
)
    requires
        one_more_sample(before, after, kind, resolved_label(custom, declared)),
    ensures
        after.len() == before.len() + 1,
        after.drop_last() == before,
        after.last().metric == kind.spec_metric_name(),
        after.last().label_key == LABEL_KEY@,
        after.last().millis <= MAX_MILLIS,
        custom matches Some(name) ==> (name.len() > 0 ==> after.last().label == name),
        custom matches Some(name) ==> (name.len() == 0 ==> after.last().label == declared),
        custom is None ==> after.last().label == declared,
{
    let elapsed = choose|elapsed: nat|
        after == before.push(
            #[trigger] sample_for(kind, resolved_label(custom, declared), elapsed),
        );
    let sample = sample_for(kind, resolved_label(custom, declared), elapsed);
    assert(after == before.push(sample));
    assert(after.drop_last() =~= before);
}

} // verus!
