//! Timing instrumentation around callables.
//!
//! A call that is wrapped by this library runs as it would run alone. Once it has returned,
//! the wall-clock time it took is submitted, in whole milliseconds, to a histogram of the
//! `metrics` facade. The histogram is chosen by the kind of callable, and the sample is
//! tagged with one label that names the callable. A call that does not return, because it
//! panics or because it is dropped while suspended, submits nothing; the wrapper catches
//! nothing and recovers from nothing.
//!
//! * [`label`] chooses the label: a caller's own name for the callable, or the name the
//!   callable was declared with.
//! * [`metric`] names the histograms and says which value is submitted for an elapsed time.
//! * [`sink`] is the one way out to the metrics backend, and keeps account, for proofs, of
//!   what went through it.
//! * [`clock`] says what is taken on trust of the clock: nothing.
//! * [`timed`] holds the [`Wrapper`] of a callable, the two ends of a call that goes
//!   through it, and [`measured_function`], which wraps and calls a closure in one step.
//!
//! A value that tells of an error, such as an `Err`, is a value like any other: the call
//! that returned it has returned, and is timed. No part of this library treats what a
//! callable returns differently by what it holds.

pub mod clock;
pub mod label;
pub mod metric;
pub mod sink;
pub mod timed;

pub use crate::label::resolve_label;
pub use crate::metric::CallKind;
pub use crate::sink::SampleSink;
pub use crate::timed::{measured_function, Measurement, Wrapper};
