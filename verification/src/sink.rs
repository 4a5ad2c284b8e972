//! The way out to the metrics backend.
//!
//! Samples leave this library in one place only, [`SampleSink::submit`], which hands them
//! to whichever recorder the `metrics` facade finds installed. What that recorder makes
//! of a sample is its own business and no contract here speaks of it. A [`SampleSink`]
//! keeps, for proofs alone, the sequence of samples that were submitted through it, so
//! that a contract can say how many samples a call has sent, and which.

use vstd::prelude::*;
use crate::metric::{sample_for, sample_millis, CallKind, SampleView, LABEL_KEY};

verus! {

/// The target, and the module path, that histograms are registered with: the place in this
/// library that registers them.
pub const TARGET: &'static str = "measured::sink";

/// `metrics::Histogram`, the handle to one histogram of a recorder. Nothing inside it is
/// seen from here.
#[verifier::external_type_specification]
#[verifier::external_body]
pub struct ExHistogram(metrics::Histogram);

/// Calls `metrics::with_recorder` with the closure that `metrics::histogram!` hands it, the
/// one that calls `metrics::Recorder::register_histogram` on the recorder found. The
/// arguments of that call are made as the macro makes them: the key by
/// `metrics::Key::from_parts` from the name and one label, the metadata by
/// `metrics::Metadata::new` with the level `metrics::Level::INFO`. Which handle comes back
/// depends on the recorder that is installed at the time, so nothing is claimed of it.
#[verifier::external_body]
fn register_histogram(
    name: &'static str,
    label_key: &'static str,
    label: &str,
    target: &'static str,
) -> (histogram: metrics::Histogram) {
    let labels = vec![metrics::Label::new(label_key, label.to_owned())];
    let key = metrics::Key::from_parts(name, labels);
    let metadata = metrics::Metadata::new(target, metrics::Level::INFO, Some(target));
    metrics::with_recorder(|recorder| recorder.register_histogram(&key, &metadata))
}

/// Calls `metrics::Histogram::record`, which hands a floating-point number to the recorder
/// behind the handle, where there is one. Of the integers it takes none is wider than 32
/// bits, and a duration it takes as the number of its seconds. So the count of
/// milliseconds goes in as the duration of as many whole seconds, made by
/// `core::time::Duration::from_secs`, and comes out on the other side as the
/// floating-point number nearest to the count. The call returns nothing, and nothing is
/// claimed of it.
#[verifier::external_body]
fn record_millis(histogram: &metrics::Histogram, millis: u64) {
    histogram.record(core::time::Duration::from_secs(millis));
}

/// The way out to the metrics backend, with the sequence of samples that took it.
pub struct SampleSink {
    submitted: Ghost<Seq<SampleView>>,
}

impl View for SampleSink {
    type V = Seq<SampleView>;

    /// The samples submitted through this sink, oldest first.
    closed spec fn view(&self) -> Seq<SampleView> {
        self.submitted@
    }
}

impl SampleSink {
    /// A sink through which nothing has been submitted yet.
    pub fn new() -> (sink: Self)
        ensures
            sink@ == Seq::<SampleView>::empty(),
    {
        SampleSink { submitted: Ghost(Seq::empty()) }
    }

    /// Submits the duration of one call: registers the histogram of `kind` with `label`
    /// and records in it the milliseconds that stand for `elapsed`.
    pub fn submit(&mut self, kind: CallKind, label: &str, elapsed: u128)
        ensures
            final(self)@ == old(self)@.push(sample_for(kind, label@, elapsed as nat)),
    {
        let histogram = register_histogram(kind.metric_name(), LABEL_KEY, label, TARGET);
        record_millis(&histogram, sample_millis(elapsed));
        self.submitted = Ghost(self.submitted@.push(sample_for(kind, label@, elapsed as nat)));
    }
}

} // verus!
