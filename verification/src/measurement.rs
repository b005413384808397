//! The values that flow through the pipeline: measurement points and the
//! append-only batch that one poll fills.

use vstd::prelude::*;
use vstd::string::StringExecFns;

use crate::metrics::MetricId;
use crate::metrics::TypedMetricId;
use crate::metrics::UntypedMetricId;
use crate::resources::Resource;
use crate::resources::ResourceConsumer;

verus! {

/// The moment of a sample: time elapsed since the Unix epoch.
#[derive(Clone, Copy, Debug, PartialEq, Eq, Structural)]
pub struct Timestamp {
    pub secs: u64,
    pub nanos: u32,
}

/// The type of the values of a metric.
#[derive(Clone, Copy, Debug, PartialEq, Eq, Structural)]
pub enum WrappedMeasurementType {
    F64,
    U64,
}

/// A measured value together with its type.
///
/// A floating-point value is carried as the 64 bits of its IEEE 754 binary
/// representation.
#[derive(Clone, Copy, Debug, PartialEq, Eq, Structural)]
pub enum WrappedMeasurementValue {
    F64(FloatBits),
    U64(u64),
}

/// The bit pattern of a 64-bit IEEE 754 floating-point number.
#[derive(Clone, Copy, Debug, PartialEq, Eq, Structural)]
pub struct FloatBits(pub u64);

impl WrappedMeasurementValue {
    pub open spec fn spec_measurement_type(self) -> WrappedMeasurementType {
        match self {
            WrappedMeasurementValue::F64(_) => WrappedMeasurementType::F64,
            WrappedMeasurementValue::U64(_) => WrappedMeasurementType::U64,
        }
    }

    /// The type of this value.
    pub fn measurement_type(&self) -> (r: WrappedMeasurementType)
        ensures
            r == self.spec_measurement_type(),
    {
        match self {
            WrappedMeasurementValue::F64(_) => WrappedMeasurementType::F64,
            WrappedMeasurementValue::U64(_) => WrappedMeasurementType::U64,
        }
    }
}

/// A type of value that can be measured.
pub trait MeasurementType: Sized {
    spec fn spec_wrapped_type() -> WrappedMeasurementType;

    spec fn spec_wrap(self) -> WrappedMeasurementValue;

    /// The tag of this type.
    fn wrapped_type() -> (r: WrappedMeasurementType)
        ensures
            r == Self::spec_wrapped_type(),
    ;

    /// The value with its tag, which is always the tag of this type.
    fn wrap(self) -> (r: WrappedMeasurementValue)
        ensures
            r == self.spec_wrap(),
            r.spec_measurement_type() == Self::spec_wrapped_type(),
    ;
}

impl MeasurementType for u64 {
    open spec fn spec_wrapped_type() -> WrappedMeasurementType {
        WrappedMeasurementType::U64
    }

    open spec fn spec_wrap(self) -> WrappedMeasurementValue {
        WrappedMeasurementValue::U64(self)
    }

    fn wrapped_type() -> (r: WrappedMeasurementType) {
        WrappedMeasurementType::U64
    }

    fn wrap(self) -> (r: WrappedMeasurementValue) {
        WrappedMeasurementValue::U64(self)
    }
}

impl MeasurementType for FloatBits {
    open spec fn spec_wrapped_type() -> WrappedMeasurementType {
        WrappedMeasurementType::F64
    }

    open spec fn spec_wrap(self) -> WrappedMeasurementValue {
        WrappedMeasurementValue::F64(self)
    }

    fn wrapped_type() -> (r: WrappedMeasurementType) {
        WrappedMeasurementType::F64
    }

    fn wrap(self) -> (r: WrappedMeasurementValue) {
        WrappedMeasurementValue::F64(self)
    }
}

/// The value of an attribute of a measurement point.
#[derive(Debug, PartialEq, Eq)]
pub enum AttributeValue {
    F64(FloatBits),
    U64(u64),
    Bool(bool),
    String(String),
}

/// The mapping that a list of attribute entries stands for: a later entry
/// replaces an earlier one with the same key.
pub open spec fn attributes_of(entries: Seq<(String, AttributeValue)>) -> Map<
    Seq<char>,
    AttributeValue,
>
    decreases entries.len(),
{
    if entries.len() == 0 {
        Map::empty()
    } else {
        attributes_of(entries.drop_last()).insert(entries.last().0@, entries.last().1)
    }
}

/// One observation of a metric.
#[derive(Debug)]
pub struct MeasurementPoint {
    /// When the value was sampled.
    pub timestamp: Timestamp,
    /// The metric that was measured.
    pub metric: UntypedMetricId,
    /// What was measured.
    pub resource: Resource,
    /// Who used the resource.
    pub consumer: ResourceConsumer,
    /// The value, of the type that the metric declares.
    pub value: WrappedMeasurementValue,
    /// Additional attributes, as entries in insertion order.
    pub attributes: Vec<(String, AttributeValue)>,
}

/// The model of a measurement point: its fields, with each attribute key
/// taken as a sequence of characters.
pub struct PointView {
    pub timestamp: Timestamp,
    pub metric: UntypedMetricId,
    pub resource: Resource,
    pub consumer: ResourceConsumer,
    pub value: WrappedMeasurementValue,
    pub attributes: Seq<(Seq<char>, AttributeValue)>,
}

impl View for MeasurementPoint {
    type V = PointView;

    open spec fn view(&self) -> PointView {
        PointView {
            timestamp: self.timestamp,
            metric: self.metric,
            resource: self.resource,
            consumer: self.consumer,
            value: self.value,
            attributes: self.attributes@.map_values(|e: (String, AttributeValue)| (e.0@, e.1)),
        }
    }
}

/// The models of the points of a batch, in order.
pub open spec fn points_view(points: Seq<MeasurementPoint>) -> Seq<PointView> {
    points.map_values(|p: MeasurementPoint| p@)
}

impl MeasurementPoint {
    /// The attributes of this point as a mapping.
    pub open spec fn spec_attributes(self) -> Map<Seq<char>, AttributeValue> {
        attributes_of(self.attributes@)
    }

    /// A point without attributes. The typed identifier guarantees that the
    /// value has the type that the metric declares.
    pub fn new<T: MeasurementType>(
        timestamp: Timestamp,
        metric: TypedMetricId<T>,
        resource: Resource,
        consumer: ResourceConsumer,
        value: T,
    ) -> (r: MeasurementPoint)
        ensures
            r.timestamp == timestamp,
            r.metric == metric.spec_untyped_id(),
            r.resource == resource,
            r.consumer == consumer,
            r.value == value.spec_wrap(),
            r.value.spec_measurement_type() == T::spec_wrapped_type(),
            r.attributes@ == Seq::<(String, AttributeValue)>::empty(),
            r.spec_attributes() == Map::<Seq<char>, AttributeValue>::empty(),
    {
        MeasurementPoint {
            timestamp,
            metric: metric.untyped_id(),
            resource,
            consumer,
            value: value.wrap(),
            attributes: Vec::new(),
        }
    }

    /// Sets the attribute `key` to `value`, replacing any earlier value of
    /// that key, and leaves the rest of the point as it is.
    pub fn with_attr(self, key: &str, value: AttributeValue) -> (r: MeasurementPoint)
        ensures
            r.timestamp == self.timestamp,
            r.metric == self.metric,
            r.resource == self.resource,
            r.consumer == self.consumer,
            r.value == self.value,
            r.attributes@.len() == self.attributes@.len() + 1,
            r.attributes@.drop_last() == self.attributes@,
            r.attributes@.last().0@ == key@,
            r.attributes@.last().1 == value,
            r.spec_attributes() == self.spec_attributes().insert(key@, value),
    {
        let mut point = self;
        point.attributes.push((String::from_str(key), value));
        proof {
            assert(point.attributes@.drop_last() =~= self.attributes@);
        }
        point
    }
}

/// The batch of points that one poll produces. Points can only be appended.
#[derive(Debug)]
pub struct MeasurementAccumulator {
    points: Vec<MeasurementPoint>,
}

impl View for MeasurementAccumulator {
    type V = Seq<MeasurementPoint>;

    closed spec fn view(&self) -> Seq<MeasurementPoint> {
        self.points@
    }
}

impl MeasurementAccumulator {
    /// An empty batch.
    pub fn new() -> (r: MeasurementAccumulator)
        ensures
            r@ == Seq::<MeasurementPoint>::empty(),
    {
        MeasurementAccumulator { points: Vec::new() }
    }

    /// Appends `point` to the batch.
    pub fn push(&mut self, point: MeasurementPoint)
        ensures
            final(self)@ == old(self)@.push(point),
    {
        self.points.push(point);
    }

    /// The number of points in the batch.
    pub fn len(&self) -> (r: usize)
        ensures
            r == self@.len(),
    {
        self.points.len()
    }

    /// The point at `index`, in the order of appending.
    pub fn get(&self, index: usize) -> (r: Option<&MeasurementPoint>)
        ensures
            index < self@.len() ==> r == Some(&self@[index as int]),
            index >= self@.len() ==> r is None,
    {
        if index < self.points.len() {
            Some(&self.points[index])
        } else {
            None
        }
    }

    /// Hands over the points, in the order of appending.
    pub fn into_points(self) -> (r: Vec<MeasurementPoint>)
        ensures
            r@ == self@,
    {
        self.points
    }
}

} // verus!
