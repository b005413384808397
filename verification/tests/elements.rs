use alumet::k8s_probe::{CgroupV2Metric, CgroupV2MetricFile, K8SProbe, Metrics, CGROUP_MAX_TIME_COUNTER};
use alumet::measurement::{
    AttributeValue, FloatBits, MeasurementAccumulator, MeasurementPoint, Timestamp,
    WrappedMeasurementType, WrappedMeasurementValue,
};
use alumet::metrics::{MetricId, TypedMetricId, UntypedMetricId};
use alumet::pipeline::{
    Output, PollError, Severity, Source, Transform, TransformError, WriteError,
};
use alumet::plugin::{AlumetStart, ConfigValue};
use alumet::registry::{ElementRegistry, MetricRegistry};
use alumet::resources::{Resource, ResourceConsumer};
use alumet::units::{PrefixedUnit, Unit};

struct NoSource;

impl Source for NoSource {
    fn poll(&mut self, _m: &mut MeasurementAccumulator, _t: Timestamp) -> Result<(), PollError> {
        Ok(())
    }
}

struct NoTransform;

impl Transform for NoTransform {
    fn apply(&mut self, _m: &mut Vec<MeasurementPoint>) -> Result<(), TransformError> {
        Ok(())
    }
}

struct NoOutput;

impl Output for NoOutput {
    fn write(&mut self, _m: &Vec<MeasurementPoint>) -> Result<(), WriteError> {
        Ok(())
    }
}

fn start(metrics: MetricRegistry) -> AlumetStart<NoSource, NoTransform, NoOutput> {
    AlumetStart::new(
        metrics,
        ElementRegistry::new(),
        String::from("k8s"),
        vec![(String::from("poll_interval"), ConfigValue::String(String::from("1s")))],
    )
}

fn file(name: &str, path: &str) -> CgroupV2MetricFile {
    CgroupV2MetricFile { name: String::from(name), path: String::from(path) }
}

fn reading(name: &str, tot: u64, usr: u64, sys: u64) -> CgroupV2Metric {
    CgroupV2Metric {
        name: String::from(name),
        time_used_tot: tot,
        time_used_user_mode: usr,
        time_used_system_mode: sys,
    }
}

#[test]
fn element_registry_counts() {
    let mut reg: ElementRegistry<NoSource, NoTransform, NoOutput> = ElementRegistry::new();
    assert_eq!(reg.source_count(), 0);
    assert_eq!(reg.transform_count(), 0);
    assert_eq!(reg.output_count(), 0);
    reg.add_source(String::from("a"), NoSource);
    reg.add_source(String::from("b"), NoSource);
    reg.add_transform(String::from("a"), NoTransform);
    reg.add_output(String::from("c"), NoOutput);
    reg.add_output(String::from("d"), NoOutput);
    reg.add_output(String::from("e"), NoOutput);
    assert_eq!(reg.source_count(), 2);
    assert_eq!(reg.transform_count(), 1);
    assert_eq!(reg.output_count(), 3);
    assert_eq!(reg.sources[1].1, "b");
    assert_eq!(reg.transforms[0].plugin_name, "a");
    assert_eq!(reg.outputs[2].plugin_name, "e");
}

#[test]
fn start_handle_registers_under_the_plugin_name() {
    let mut alumet = start(MetricRegistry::new());
    let id: TypedMetricId<u64> = alumet
        .create_metric("energy", PrefixedUnit::milli(Unit::Joule), "consumed energy")
        .unwrap();
    assert_eq!(id.untyped_id(), UntypedMetricId(0));
    let bits: TypedMetricId<FloatBits> =
        alumet.create_metric("power", Unit::Watt.into(), "power").unwrap();
    assert_eq!(bits.untyped_id(), UntypedMetricId(1));
    let err = alumet
        .create_metric::<u64>("energy", Unit::Joule.into(), "")
        .unwrap_err();
    assert_eq!(err.key, "A metric with this name already exist: energy");
    alumet.add_source(NoSource);
    alumet.add_transform(NoTransform);
    alumet.add_output(NoOutput);
    assert_eq!(alumet.plugin_config().len(), 1);
    assert_eq!(alumet.plugin_config()[0].0, "poll_interval");
    let (metrics, elements) = alumet.into_registries();
    assert_eq!(metrics.len(), 2);
    assert_eq!(metrics.with_name("energy").unwrap().unit, PrefixedUnit::milli(Unit::Joule));
    assert_eq!(metrics.with_name("power").unwrap().value_type, WrappedMeasurementType::F64);
    assert_eq!(elements.source_count(), 1);
    assert_eq!(elements.sources[0].1, "k8s");
    assert_eq!(elements.transforms[0].plugin_name, "k8s");
    assert_eq!(elements.outputs[0].plugin_name, "k8s");
}

#[test]
fn probe_metrics_are_registered_in_order() {
    let mut alumet = start(MetricRegistry::new());
    let m = Metrics::new(&mut alumet).unwrap();
    assert_eq!(m.time_used_tot.untyped_id(), UntypedMetricId(0));
    assert_eq!(m.time_used_user_mode.untyped_id(), UntypedMetricId(1));
    assert_eq!(m.time_used_system_mode.untyped_id(), UntypedMetricId(2));
    let (metrics, _) = alumet.into_registries();
    assert_eq!(metrics.len(), 3);
    let tot = metrics.with_name("total_usage_usec").unwrap();
    assert_eq!(tot.description, "Total CPU usage time by the group");
    assert_eq!(tot.unit, PrefixedUnit::micro(Unit::Second));
    assert_eq!(tot.value_type, WrappedMeasurementType::U64);
    assert_eq!(
        metrics.with_name("user_usage_usec").unwrap().description,
        "User CPU usage time by the group"
    );
    assert_eq!(
        metrics.with_name("system_usage_usec").unwrap().description,
        "System CPU usage time by the group"
    );
}

#[test]
fn probe_metrics_stop_at_the_first_taken_name() {
    let mut metrics = MetricRegistry::new();
    metrics
        .create_metric("user_usage_usec", WrappedMeasurementType::U64, Unit::Second.into(), "")
        .unwrap();
    let mut alumet = start(metrics);
    let err = Metrics::new(&mut alumet).err().unwrap();
    assert_eq!(err.key, "A metric with this name already exist: user_usage_usec");
    let (metrics, _) = alumet.into_registries();
    assert_eq!(metrics.len(), 2);
    assert_eq!(metrics.with_name("total_usage_usec").unwrap().id, UntypedMetricId(1));
    assert!(metrics.with_name("system_usage_usec").is_none());
}

#[test]
fn probe_starts_with_fresh_counters() {
    let mut alumet = start(MetricRegistry::new());
    let m = Metrics::new(&mut alumet).unwrap();
    let probe = K8SProbe::new(m, vec![file("pod-a", "/sys/a"), file("pod-b", "/sys/b")]).unwrap();
    assert_eq!(probe.metric_and_counter.len(), 2);
    assert_eq!(probe.metric_and_counter[0].0.path, "/sys/a");
    assert_eq!(probe.metric_and_counter[1].0.name, "pod-b");
    for e in probe.metric_and_counter.iter() {
        assert_eq!(e.1.max_value, CGROUP_MAX_TIME_COUNTER);
        assert_eq!(e.1.previous_value, None);
        assert_eq!(e.2.previous_value, None);
        assert_eq!(e.3.previous_value, None);
    }
    assert_eq!(CGROUP_MAX_TIME_COUNTER, u64::MAX);
}

#[test]
fn probe_reports_differences_with_the_tick_timestamp() {
    let mut alumet = start(MetricRegistry::new());
    let m = Metrics::new(&mut alumet).unwrap();
    let mut probe = K8SProbe::new(m, vec![file("pod-a", "/sys/a"), file("pod-b", "/sys/b")]).unwrap();

    let t0 = Timestamp { secs: 10, nanos: 0 };
    let mut acc = MeasurementAccumulator::new();
    let first = vec![reading("pod-a", 100, 60, 40), reading("pod-b", 5, 3, 2)];
    assert!(probe.poll(&first, None, &mut acc, t0).is_ok());
    assert_eq!(acc.len(), 0);

    let t1 = Timestamp { secs: 11, nanos: 500 };
    let mut acc = MeasurementAccumulator::new();
    let second = vec![reading("pod-a", 130, 70, 60), reading("pod-b", 4, 3, 1)];
    assert!(probe.poll(&second, None, &mut acc, t1).is_ok());
    assert_eq!(acc.len(), 6);
    assert!(acc.get(6).is_none());
    let points = acc.into_points();
    let expected: [(usize, u64, &str, &str); 6] = [
        (0, 30, "/sys/a", "pod-a"),
        (1, 10, "/sys/a", "pod-a"),
        (2, 20, "/sys/a", "pod-a"),
        (0, u64::MAX, "/sys/b", "pod-b"),
        (1, 0, "/sys/b", "pod-b"),
        (2, u64::MAX, "/sys/b", "pod-b"),
    ];
    for (p, e) in points.iter().zip(expected.iter()) {
        assert_eq!(p.timestamp, t1);
        assert_eq!(p.metric, UntypedMetricId(e.0));
        assert_eq!(p.value, WrappedMeasurementValue::U64(e.1));
        assert_eq!(p.resource, Resource::LocalMachine);
        assert_eq!(p.consumer, ResourceConsumer::ControlGroup { path: String::from(e.2) });
        assert_eq!(p.attributes.len(), 1);
        assert_eq!(p.attributes[0].0, "pod");
        assert_eq!(p.attributes[0].1, AttributeValue::String(String::from(e.3)));
    }
}

#[test]
fn probe_reports_the_failure_after_the_files_that_were_read() {
    let mut alumet = start(MetricRegistry::new());
    let m = Metrics::new(&mut alumet).unwrap();
    let mut probe = K8SProbe::new(m, vec![file("pod-a", "/sys/a"), file("pod-b", "/sys/b")]).unwrap();
    let t = Timestamp { secs: 1, nanos: 1 };
    let mut acc = MeasurementAccumulator::new();
    let failure = PollError { severity: Severity::Transient, detail: String::from("gone") };
    let r = probe.poll(&vec![reading("pod-a", 1, 1, 0)], Some(failure), &mut acc, t);
    let e = r.unwrap_err();
    assert_eq!(e.severity, Severity::Transient);
    assert_eq!(e.detail, "gone");
    assert_eq!(acc.len(), 0);
    assert_eq!(probe.metric_and_counter[0].1.previous_value, Some(1));
    assert_eq!(probe.metric_and_counter[0].3.previous_value, Some(0));
    assert_eq!(probe.metric_and_counter[1].1.previous_value, None);

    let more = vec![reading("pod-a", 4, 2, 2), reading("pod-b", 9, 9, 9), reading("pod-c", 1, 1, 1)];
    assert!(probe.poll(&more, None, &mut acc, t).is_ok());
    assert_eq!(acc.len(), 3);
    assert_eq!(acc.get(0).unwrap().value, WrappedMeasurementValue::U64(3));
    assert_eq!(acc.get(2).unwrap().value, WrappedMeasurementValue::U64(2));
    assert_eq!(probe.metric_and_counter[1].2.previous_value, Some(9));
}

#[test]
fn points_and_attributes() {
    let mut metrics = MetricRegistry::new();
    for name in ["m0", "m1", "m2", "m3", "m4", "m5", "m6", "m7"] {
        metrics
            .create_metric(name, WrappedMeasurementType::F64, Unit::Watt.into(), "")
            .unwrap();
    }
    let id: TypedMetricId<FloatBits> = metrics.typed_id(UntypedMetricId(7)).unwrap();
    let t = Timestamp { secs: 3, nanos: 4 };
    let bits = FloatBits(1.5f64.to_bits());
    let p = MeasurementPoint::new(t, id, Resource::CpuCore { id: 2 }, ResourceConsumer::Process { pid: 9 }, bits)
        .with_attr("a", AttributeValue::Bool(true))
        .with_attr("b", AttributeValue::U64(8));
    assert_eq!(p.metric, UntypedMetricId(7));
    assert_eq!(p.value, WrappedMeasurementValue::F64(bits));
    assert_eq!(p.value.measurement_type(), WrappedMeasurementType::F64);
    assert_eq!(WrappedMeasurementValue::U64(1).measurement_type(), WrappedMeasurementType::U64);
    assert_eq!(p.consumer.clone(), ResourceConsumer::Process { pid: 9 });
    assert_eq!(p.attributes.len(), 2);
    assert_eq!(p.attributes[0], (String::from("a"), AttributeValue::Bool(true)));
    assert_eq!(p.attributes[1], (String::from("b"), AttributeValue::U64(8)));
    let mut acc = MeasurementAccumulator::new();
    acc.push(p);
    assert_eq!(acc.len(), 1);
    assert_eq!(acc.get(0).unwrap().timestamp, t);
}
