//! The three kinds of pipeline elements that plugins provide, and the errors
//! they report.

use vstd::prelude::*;

use crate::measurement::MeasurementAccumulator;
use crate::measurement::MeasurementPoint;
use crate::measurement::Timestamp;

verus! {

/// How an element failed.
#[derive(Clone, Copy, Debug, PartialEq, Eq, Structural)]
pub enum Severity {
    /// The element cannot go on and is removed from the pipeline.
    Fatal,
    /// The failure is reported and the element is used again.
    Transient,
}

/// A source failed to produce its measurements.
#[derive(Debug)]
pub struct PollError {
    pub severity: Severity,
    pub detail: String,
}

/// A transform failed to process a batch.
#[derive(Debug)]
pub struct TransformError {
    pub severity: Severity,
    pub detail: String,
}

/// An output failed to write a batch.
#[derive(Debug)]
pub struct WriteError {
    pub severity: Severity,
    pub detail: String,
}

/// Produces measurement points when polled.
pub trait Source {
    /// Appends the points sampled at `timestamp` to `measurements`.
    fn poll(&mut self, measurements: &mut MeasurementAccumulator, timestamp: Timestamp) -> (r:
        Result<(), PollError>);
}

/// Modifies or drops the points of a batch.
pub trait Transform {
    fn apply(&mut self, measurements: &mut Vec<MeasurementPoint>) -> (r: Result<
        (),
        TransformError,
    >);
}

/// Persists or forwards the points of a batch.
pub trait Output {
    fn write(&mut self, measurements: &Vec<MeasurementPoint>) -> (r: Result<(), WriteError>);
}

/// A transform and the plugin that registered it.
pub struct ConfiguredTransform<T: Transform> {
    pub transform: T,
    pub plugin_name: String,
}

/// An output and the plugin that registered it.
pub struct ConfiguredOutput<O: Output> {
    pub output: O,
    pub plugin_name: String,
}

} // verus!
