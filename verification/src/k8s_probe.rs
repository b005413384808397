//! A source that turns the CPU time counters of control groups into
//! measurement points: one point per counter and per poll, carrying the time
//! used since the poll before.

use vstd::prelude::*;

use crate::counter_diff::update_of;
use crate::counter_diff::CounterDiff;
use crate::counter_diff::CounterDiffUpdate;
use crate::measurement::points_view;
use crate::measurement::AttributeValue;
use crate::measurement::MeasurementAccumulator;
use crate::measurement::MeasurementPoint;
use crate::measurement::PointView;
use crate::measurement::Timestamp;
use crate::measurement::WrappedMeasurementType;
use crate::measurement::WrappedMeasurementValue;
use crate::metrics::Metric;
use crate::metrics::MetricCreationError;
use crate::metrics::MetricId;
use crate::metrics::TypedMetricId;
use crate::metrics::UntypedMetricId;
use crate::pipeline::Output;
use crate::pipeline::PollError;
use crate::pipeline::Source;
use crate::pipeline::Transform;
use crate::plugin::AlumetStart;
use crate::registry::conflict_text;
use crate::registry::has_name;
use crate::registry::lemma_names_after_registration;
use crate::resources::Resource;
use crate::resources::ResourceConsumer;
use crate::units::PrefixedUnit;
use crate::units::Unit;
use crate::units::UnitPrefix;

verus! {

/// `anyhow::Error`, the error type in the signature of [`K8SProbe::new`].
/// Nothing is claimed of it: the library neither makes nor reads such a value.
#[verifier::external_type_specification]
#[verifier::external_body]
pub struct ExAnyhowError(anyhow::Error);

/// The largest value of a CPU time counter of a control group.
pub const CGROUP_MAX_TIME_COUNTER: u64 = u64::MAX;

/// The statistics file of one control group.
#[derive(Debug)]
pub struct CgroupV2MetricFile {
    /// The name of the pod that the control group belongs to.
    pub name: String,
    /// The path of the control group.
    pub path: String,
}

/// One reading of the CPU time counters of a control group, in microseconds.
#[derive(Debug)]
pub struct CgroupV2Metric {
    /// The name of the pod that the control group belongs to.
    pub name: String,
    pub time_used_tot: u64,
    pub time_used_user_mode: u64,
    pub time_used_system_mode: u64,
}

/// The metrics that the probe reports.
#[derive(Clone, Copy, Debug)]
pub struct Metrics {
    pub time_used_tot: TypedMetricId<u64>,
    pub time_used_user_mode: TypedMetricId<u64>,
    pub time_used_system_mode: TypedMetricId<u64>,
}

/// The name of the `k`-th metric of the probe: total, user mode, system mode.
pub open spec fn usage_metric_name(k: int) -> Seq<char> {
    if k == 0 {
        "total_usage_usec"@
    } else if k == 1 {
        "user_usage_usec"@
    } else {
        "system_usage_usec"@
    }
}

/// The description of the `k`-th metric of the probe.
pub open spec fn usage_metric_description(k: int) -> Seq<char> {
    if k == 0 {
        "Total CPU usage time by the group"@
    } else if k == 1 {
        "User CPU usage time by the group"@
    } else {
        "System CPU usage time by the group"@
    }
}

/// `after` is `before` followed by the descriptors of the first `count`
/// metrics of the probe, which count microseconds in unsigned integers.
pub open spec fn usage_metrics_added(before: Seq<Metric>, after: Seq<Metric>, count: int) -> bool {
    &&& after.len() == before.len() + count
    &&& after.subrange(0, before.len() as int) == before
    &&& forall|k: int|
        0 <= k < count ==> {
            let m = #[trigger] after[before.len() + k];
            &&& m.id.0 == before.len() + k
            &&& m.name@ == usage_metric_name(k)
            &&& m.description@ == usage_metric_description(k)
            &&& m.value_type == WrappedMeasurementType::U64
            &&& m.unit == (PrefixedUnit { base_unit: Unit::Second, prefix: UnitPrefix::Micro })
        }
}

/// The number of metrics of the probe that can be registered, one after the
/// other, before one of their names is found in `known`.
pub open spec fn usage_metrics_free(known: Seq<Metric>) -> int {
    if has_name(known, usage_metric_name(0)) {
        0
    } else if has_name(known, usage_metric_name(1)) {
        1
    } else if has_name(known, usage_metric_name(2)) {
        2
    } else {
        3
    }
}

impl Metrics {
    /// Registers the three metrics of the probe: total, user mode and system
    /// mode CPU time, in this order. The first name that is taken stops the
    /// registration with its error; the metrics before it stay registered.
    pub fn new<S: Source, T: Transform, O: Output>(alumet: &mut AlumetStart<S, T, O>) -> (r: Result<
        Metrics,
        MetricCreationError,
    >)
        requires
            old(alumet).wf(),
        ensures
            final(alumet).wf(),
            final(alumet).sources() == old(alumet).sources(),
            final(alumet).transforms() == old(alumet).transforms(),
            final(alumet).outputs() == old(alumet).outputs(),
            final(alumet).plugin_name() == old(alumet).plugin_name(),
            final(alumet).config() == old(alumet).config(),
            usage_metrics_added(
                old(alumet).metrics(),
                final(alumet).metrics(),
                usage_metrics_free(old(alumet).metrics()),
            ),
            r is Ok <==> usage_metrics_free(old(alumet).metrics()) == 3,
            r is Err ==> r->Err_0.key@ == conflict_text(
                usage_metric_name(usage_metrics_free(old(alumet).metrics())),
            ),
            r is Ok ==> {
                &&& r->Ok_0.time_used_tot.spec_untyped_id().0 == old(alumet).metrics().len()
                &&& r->Ok_0.time_used_user_mode.spec_untyped_id().0 == old(alumet).metrics().len()
                    + 1
                &&& r->Ok_0.time_used_system_mode.spec_untyped_id().0 == old(alumet).metrics().len()
                    + 2
            },
    {
        proof {
            reveal_strlit("total_usage_usec");
            reveal_strlit("user_usage_usec");
            reveal_strlit("system_usage_usec");
        }
        let usec: PrefixedUnit = PrefixedUnit::micro(Unit::Second);
        let ghost m0 = alumet.metrics();
        assert(m0.subrange(0, m0.len() as int) =~= m0);
        let time_used_tot = match alumet.create_metric::<u64>(
            "total_usage_usec",
            usec,
            "Total CPU usage time by the group",
        ) {
            Ok(id) => id,
            Err(e) => {
                return Err(e);
            },
        };
        let ghost m1 = alumet.metrics();
        proof {
            lemma_names_after_registration(m0, m1, usage_metric_name(0), usage_metric_name(1));
            lemma_names_after_registration(m0, m1, usage_metric_name(0), usage_metric_name(2));
            assert(m1.subrange(0, m0.len() as int) =~= m0);
        }
        let time_used_user_mode = match alumet.create_metric::<u64>(
            "user_usage_usec",
            usec,
            "User CPU usage time by the group",
        ) {
            Ok(id) => id,
            Err(e) => {
                return Err(e);
            },
        };
        let ghost m2 = alumet.metrics();
        proof {
            lemma_names_after_registration(m1, m2, usage_metric_name(1), usage_metric_name(2));
            assert(m2.subrange(0, m0.len() as int) =~= m0);
            assert(m2[m0.len() as int] == m1[m0.len() as int]);
        }
        let time_used_system_mode = match alumet.create_metric::<u64>(
            "system_usage_usec",
            usec,
            "System CPU usage time by the group",
        ) {
            Ok(id) => id,
            Err(e) => {
                return Err(e);
            },
        };
        proof {
            let m3 = alumet.metrics();
            assert(m3.subrange(0, m0.len() as int) =~= m0);
            assert(m3[m0.len() as int] == m2[m0.len() as int]);
            assert(m3[m0.len() as int + 1] == m2[m0.len() as int + 1]);
        }
        Ok(Metrics { time_used_tot, time_used_user_mode, time_used_system_mode })
    }
}

/// Probe of the CPU time used by control groups: for each statistics file,
/// the readers of its three counters (total, user mode, system mode).
pub struct K8SProbe {
    pub metrics: Metrics,
    pub metric_and_counter: Vec<(CgroupV2MetricFile, CounterDiff, CounterDiff, CounterDiff)>,
}

/// The point that reports `value` microseconds of CPU time for `metric`,
/// used by the control group at `path`, which belongs to the pod `pod`.
pub open spec fn usage_point(
    timestamp: Timestamp,
    metric: UntypedMetricId,
    path: String,
    pod: String,
    value: u64,
) -> PointView {
    PointView {
        timestamp,
        metric,
        resource: Resource::LocalMachine,
        consumer: ResourceConsumer::ControlGroup { path },
        value: WrappedMeasurementValue::U64(value),
        attributes: seq![("pod"@, AttributeValue::String(pod))],
    }
}

/// The points that one update of a counter gives: none for its first
/// sample, one with the difference after that.
pub open spec fn counter_points(
    update: CounterDiffUpdate,
    timestamp: Timestamp,
    metric: UntypedMetricId,
    path: String,
    pod: String,
) -> Seq<PointView> {
    match update.spec_difference() {
        Some(value) => seq![usage_point(timestamp, metric, path, pod, value)],
        None => Seq::empty(),
    }
}

/// The points that one reading of one file gives: total, user mode and
/// system mode, in this order.
pub open spec fn file_points(
    entry: (CgroupV2MetricFile, CounterDiff, CounterDiff, CounterDiff),
    metrics: Metrics,
    reading: CgroupV2Metric,
    timestamp: Timestamp,
) -> Seq<PointView> {
    counter_points(
        update_of(entry.1.max_value, entry.1.previous_value, reading.time_used_tot),
        timestamp,
        metrics.time_used_tot.spec_untyped_id(),
        entry.0.path,
        reading.name,
    ) + counter_points(
        update_of(entry.2.max_value, entry.2.previous_value, reading.time_used_user_mode),
        timestamp,
        metrics.time_used_user_mode.spec_untyped_id(),
        entry.0.path,
        reading.name,
    ) + counter_points(
        update_of(entry.3.max_value, entry.3.previous_value, reading.time_used_system_mode),
        timestamp,
        metrics.time_used_system_mode.spec_untyped_id(),
        entry.0.path,
        reading.name,
    )
}

/// The points that the readings of the first `count` files give, file by file.
pub open spec fn polled_points(
    entries: Seq<(CgroupV2MetricFile, CounterDiff, CounterDiff, CounterDiff)>,
    metrics: Metrics,
    readings: Seq<CgroupV2Metric>,
    timestamp: Timestamp,
    count: int,
) -> Seq<PointView>
    decreases count,
{
    if count <= 0 {
        Seq::empty()
    } else {
        polled_points(entries, metrics, readings, timestamp, count - 1) + file_points(
            entries[count - 1],
            metrics,
            readings[count - 1],
            timestamp,
        )
    }
}

/// The entry of a file after one reading: each counter remembers its sample.
pub open spec fn entry_after(
    entry: (CgroupV2MetricFile, CounterDiff, CounterDiff, CounterDiff),
    reading: CgroupV2Metric,
) -> (CgroupV2MetricFile, CounterDiff, CounterDiff, CounterDiff) {
    (
        entry.0,
        CounterDiff {
            max_value: entry.1.max_value,
            previous_value: Some(reading.time_used_tot),
        },
        CounterDiff {
            max_value: entry.2.max_value,
            previous_value: Some(reading.time_used_user_mode),
        },
        CounterDiff {
            max_value: entry.3.max_value,
            previous_value: Some(reading.time_used_system_mode),
        },
    )
}

/// The number of files that a poll with `readings` readings covers.
pub open spec fn covered(files: nat, readings: nat) -> int {
    if readings < files {
        readings as int
    } else {
        files as int
    }
}

/// Builds the point for one counter of one control group.
fn new_usage_point(
    timestamp: Timestamp,
    metric: TypedMetricId<u64>,
    path: &String,
    pod: &String,
    value: u64,
) -> (p: MeasurementPoint)
    ensures
        p@ == usage_point(timestamp, metric.spec_untyped_id(), *path, *pod, value),
{
    let consumer = ResourceConsumer::ControlGroup { path: path.clone() };
    let p = MeasurementPoint::new(
        timestamp,
        metric,
        Resource::LocalMachine,
        consumer,
        value,
    ).with_attr("pod", AttributeValue::String(pod.clone()));
    proof {
        assert(p@.attributes =~= usage_point(
            timestamp,
            metric.spec_untyped_id(),
            *path,
            *pod,
            value,
        ).attributes);
    }
    p
}

impl K8SProbe {
    /// Every counter of the probe spans the whole range of a CPU time
    /// counter, and its last sample, if any, lies within it.
    pub open spec fn wf(&self) -> bool {
        forall|i: int|
            0 <= i < self.metric_and_counter@.len() ==> {
                let e = #[trigger] self.metric_and_counter@[i];
                e.1.max_value == CGROUP_MAX_TIME_COUNTER && e.2.max_value
                    == CGROUP_MAX_TIME_COUNTER && e.3.max_value == CGROUP_MAX_TIME_COUNTER
            }
    }

    /// A probe on the given files, with three fresh counter readers per file.
    pub fn new(metric: Metrics, final_li_metric: Vec<CgroupV2MetricFile>) -> (r: Result<
        K8SProbe,
        anyhow::Error,
    >)
        ensures
            r is Ok,
            r->Ok_0.wf(),
            r->Ok_0.metrics == metric,
            r->Ok_0.metric_and_counter@.len() == final_li_metric@.len(),
            forall|i: int|
                0 <= i < final_li_metric@.len() ==> (#[trigger] r->Ok_0.metric_and_counter@[i]) == (
                    final_li_metric@[i],
                    CounterDiff { max_value: CGROUP_MAX_TIME_COUNTER, previous_value: None },
                    CounterDiff { max_value: CGROUP_MAX_TIME_COUNTER, previous_value: None },
                    CounterDiff { max_value: CGROUP_MAX_TIME_COUNTER, previous_value: None },
                ),
    {
        let mut metric_counter: Vec<
            (CgroupV2MetricFile, CounterDiff, CounterDiff, CounterDiff),
        > = Vec::new();
        let ghost files = final_li_metric@;
        for metric_file in it: final_li_metric
            invariant
                it.seq() == files,
                metric_counter@.len() == it.index(),
                forall|i: int|
                    0 <= i < metric_counter@.len() ==> (#[trigger] metric_counter@[i]) == (
                        files[i],
                        CounterDiff { max_value: CGROUP_MAX_TIME_COUNTER, previous_value: None },
                        CounterDiff { max_value: CGROUP_MAX_TIME_COUNTER, previous_value: None },
                        CounterDiff { max_value: CGROUP_MAX_TIME_COUNTER, previous_value: None },
                    ),
        {
            let counter_tmp_tot = CounterDiff::with_max_value(CGROUP_MAX_TIME_COUNTER);
            let counter_tmp_usr = CounterDiff::with_max_value(CGROUP_MAX_TIME_COUNTER);
            let counter_tmp_sys = CounterDiff::with_max_value(CGROUP_MAX_TIME_COUNTER);
            metric_counter.push((metric_file, counter_tmp_tot, counter_tmp_usr, counter_tmp_sys));
        }
        Ok(K8SProbe { metrics: metric, metric_and_counter: metric_counter })
    }

    /// Feeds one reading per file to the counters and appends the points
    /// that they give to `measurements`, all with the timestamp of the poll.
    ///
    /// `readings` holds the readings of the files in the order of the files,
    /// up to the first file that could not be read; `failure` says why that
    /// file could not be read, if there is one: without a failure every file
    /// has its reading. The files that have a reading are processed in
    /// order, then the failure is reported.
    pub fn poll(
        &mut self,
        readings: &Vec<CgroupV2Metric>,
        failure: Option<PollError>,
        measurements: &mut MeasurementAccumulator,
        timestamp: Timestamp,
    ) -> (r: Result<(), PollError>)
        requires
            old(self).wf(),
            failure is None ==> readings@.len() >= old(self).metric_and_counter@.len(),
        ensures
            final(self).wf(),
            final(self).metrics == old(self).metrics,
            final(self).metric_and_counter@.len() == old(self).metric_and_counter@.len(),
            forall|i: int|
                0 <= i < old(self).metric_and_counter@.len() ==> (
                #[trigger] final(self).metric_and_counter@[i]) == if i < readings@.len() {
                    entry_after(old(self).metric_and_counter@[i], readings@[i])
                } else {
                    old(self).metric_and_counter@[i]
                },
            points_view(final(measurements)@) == points_view(old(measurements)@) + polled_points(
                old(self).metric_and_counter@,
                old(self).metrics,
                readings@,
                timestamp,
                covered(old(self).metric_and_counter@.len(), readings@.len()),
            ),
            forall|k: int|
                old(measurements)@.len() <= k < final(measurements)@.len() ==> (
                #[trigger] final(measurements)@[k]).timestamp == timestamp,
            r == match failure {
                Some(e) => Err::<(), PollError>(e),
                None => Ok::<(), PollError>(()),
            },
    {
        let mut i: usize = 0;
        while i < self.metric_and_counter.len() && i < readings.len()
            invariant
                self.wf(),
                self.metrics == old(self).metrics,
                self.metric_and_counter@.len() == old(self).metric_and_counter@.len(),
                i <= self.metric_and_counter@.len(),
                i <= readings@.len(),
                forall|k: int|
                    0 <= k < self.metric_and_counter@.len() ==> (
                    #[trigger] self.metric_and_counter@[k]) == if k < i {
                        entry_after(old(self).metric_and_counter@[k], readings@[k])
                    } else {
                        old(self).metric_and_counter@[k]
                    },
                points_view(measurements@) == points_view(old(measurements)@) + polled_points(
                    old(self).metric_and_counter@,
                    old(self).metrics,
                    readings@,
                    timestamp,
                    i as int,
                ),
                old(measurements)@.len() <= measurements@.len(),
                forall|k: int|
                    old(measurements)@.len() <= k < measurements@.len() ==> (
                    #[trigger] measurements@[k]).timestamp == timestamp,
            decreases readings@.len() - i,
        {
            let reading = &readings[i];
            let ghost before = *self;
            let ghost acc0 = measurements@;
            assert(before.metric_and_counter@[i as int] == old(self).metric_and_counter@[i as int]);
            let diff_tot = self.metric_and_counter[i].1.update(reading.time_used_tot);
            let diff_usr = self.metric_and_counter[i].2.update(reading.time_used_user_mode);
            let diff_sys = self.metric_and_counter[i].3.update(reading.time_used_system_mode);
            let path = self.metric_and_counter[i].0.path.clone();
            if let Some(value_tot) = diff_tot.difference() {
                let p_tot = new_usage_point(
                    timestamp,
                    self.metrics.time_used_tot,
                    &path,
                    &reading.name,
                    value_tot,
                );
                measurements.push(p_tot);
            }
            let ghost acc1 = measurements@;
            if let Some(value_usr) = diff_usr.difference() {
                let p_usr = new_usage_point(
                    timestamp,
                    self.metrics.time_used_user_mode,
                    &path,
                    &reading.name,
                    value_usr,
                );
                measurements.push(p_usr);
            }
            let ghost acc2 = measurements@;
            if let Some(value_sys) = diff_sys.difference() {
                let p_sys = new_usage_point(
                    timestamp,
                    self.metrics.time_used_system_mode,
                    &path,
                    &reading.name,
                    value_sys,
                );
                measurements.push(p_sys);
            }
            proof {
                let e = old(self).metric_and_counter@[i as int];
                let m = old(self).metrics;
                let r = readings@[i as int];
                let a = counter_points(
                    update_of(e.1.max_value, e.1.previous_value, r.time_used_tot),
                    timestamp,
                    m.time_used_tot.spec_untyped_id(),
                    e.0.path,
                    r.name,
                );
                let b = counter_points(
                    update_of(e.2.max_value, e.2.previous_value, r.time_used_user_mode),
                    timestamp,
                    m.time_used_user_mode.spec_untyped_id(),
                    e.0.path,
                    r.name,
                );
                let c = counter_points(
                    update_of(e.3.max_value, e.3.previous_value, r.time_used_system_mode),
                    timestamp,
                    m.time_used_system_mode.spec_untyped_id(),
                    e.0.path,
                    r.name,
                );
                assert(points_view(acc1) =~= points_view(acc0) + a);
                assert(points_view(acc2) =~= points_view(acc1) + b);
                assert(points_view(measurements@) =~= points_view(acc2) + c);
                assert(points_view(measurements@) =~= points_view(acc0) + (a + b + c));
                assert(points_view(measurements@) =~= points_view(old(measurements)@) + (
                polled_points(
                    old(self).metric_and_counter@,
                    old(self).metrics,
                    readings@,
                    timestamp,
                    i as int,
                ) + file_points(e, m, r, timestamp)));
                assert(self.metric_and_counter@[i as int] == entry_after(e, r));
            }
            i += 1;
        }
        match failure {
            Some(e) => Err(e),
            None => Ok(()),
        }
    }
}

} // verus!
