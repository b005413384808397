//! Metric descriptors and the identifiers that refer to them.

use core::marker::PhantomData;
use vstd::prelude::*;
use vstd::string::StringExecFns;

use crate::measurement::MeasurementType;
use crate::measurement::WrappedMeasurementType;
use crate::units::PrefixedUnit;

verus! {

/// A process-local metric identifier, with no information about the type of
/// the values measured.
#[derive(Clone, Copy, Debug, PartialEq, Eq, Hash, Structural)]
pub struct UntypedMetricId(pub usize);

/// A metric identifier that remembers the type `T` of the measured values.
///
/// Holding one shows that a point with a value of type `T` can be produced
/// for this metric: only a registry that holds the metric with that type
/// hands one out.
#[derive(Debug)]
pub struct TypedMetricId<T: MeasurementType> {
    id: usize,
    marker: PhantomData<T>,
}

impl<T: MeasurementType> Clone for TypedMetricId<T> {
    fn clone(&self) -> (r: TypedMetricId<T>)
        ensures
            r == *self,
    {
        TypedMetricId { id: self.id, marker: PhantomData }
    }
}

impl<T: MeasurementType> Copy for TypedMetricId<T> {

}

/// Anything that identifies a metric.
pub trait MetricId {
    spec fn spec_untyped_id(&self) -> UntypedMetricId;

    /// The identifier without the value type.
    fn untyped_id(&self) -> (r: UntypedMetricId)
        ensures
            r == self.spec_untyped_id(),
    ;
}

impl MetricId for UntypedMetricId {
    open spec fn spec_untyped_id(&self) -> UntypedMetricId {
        *self
    }

    fn untyped_id(&self) -> (r: UntypedMetricId) {
        *self
    }
}

impl<T: MeasurementType> MetricId for TypedMetricId<T> {
    closed spec fn spec_untyped_id(&self) -> UntypedMetricId {
        UntypedMetricId(self.id)
    }

    fn untyped_id(&self) -> (r: UntypedMetricId) {
        UntypedMetricId(self.id)
    }
}

impl<T: MeasurementType> TypedMetricId<T> {
    /// Narrows `id` to the value type `T`. For the registry only, which
    /// calls this where the metric `id` has values of the type `T`.
    pub(crate) fn narrowed(id: UntypedMetricId) -> (r: TypedMetricId<T>)
        ensures
            r.spec_untyped_id() == id,
    {
        TypedMetricId { id: id.0, marker: PhantomData }
    }
}

/// The descriptor of a metric.
#[derive(Debug)]
pub struct Metric {
    pub id: UntypedMetricId,
    pub name: String,
    pub description: String,
    pub value_type: WrappedMeasurementType,
    pub unit: PrefixedUnit,
}

/// The registration of a metric was refused.
#[derive(Debug)]
pub struct MetricCreationError {
    pub key: String,
}

impl MetricCreationError {
    pub fn new(metric_name: String) -> (r: MetricCreationError)
        ensures
            r.key == metric_name,
    {
        MetricCreationError { key: metric_name }
    }

    /// The text of this error as shown to a user.
    pub open spec fn spec_message(self) -> Seq<char> {
        "This metric has already been registered: "@ + self.key@
    }

    /// The text of this error as shown to a user.
    pub fn message(&self) -> (r: String)
        ensures
            r@ == self.spec_message(),
    {
        String::from_str("This metric has already been registered: ").concat(self.key.as_str())
    }
}

} // verus!
