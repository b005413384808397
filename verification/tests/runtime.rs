use alumet::pipeline::{PollError, Severity, TransformError, WriteError};
use alumet::runtime::{
    after_apply, after_poll, after_write, leaves_pipeline, ElementKind, TickReport,
    Delivery, ElementStatus, OutputQueue, OverflowPolicy, PipelineEvent, PipelineState, SourceTask,
    TickDecision,
};

fn outcome(d: &Delivery<u32>) -> (u8, Option<u32>) {
    match d {
        Delivery::Queued => (0, None),
        Delivery::QueuedAfterDrop(b) => (1, Some(*b)),
        Delivery::WriteNow(b) => (2, Some(*b)),
        Delivery::Full(b) => (3, Some(*b)),
    }
}

#[test]
fn lifecycle() {
    let s = PipelineState::Building;
    assert!(s.accepts_registrations());
    assert_eq!(s.on_event(PipelineEvent::ShutdownSignal), PipelineState::Building);
    let s = s.on_event(PipelineEvent::Start);
    assert_eq!(s, PipelineState::Running);
    assert!(!s.accepts_registrations());
    assert_eq!(s.on_event(PipelineEvent::Start), PipelineState::Running);
    assert_eq!(s.on_event(PipelineEvent::Drained), PipelineState::Running);
    let s = s.on_event(PipelineEvent::ShutdownSignal);
    assert_eq!(s, PipelineState::Stopping);
    assert_eq!(s.on_event(PipelineEvent::GracePeriodElapsed), PipelineState::Stopped);
    let s = s.on_event(PipelineEvent::Drained);
    assert_eq!(s, PipelineState::Stopped);
    assert_eq!(s.on_event(PipelineEvent::Start), PipelineState::Stopped);
}

#[test]
fn fatal_failures_disable_an_element() {
    let s = ElementStatus::Active;
    assert_eq!(s.after(None), ElementStatus::Active);
    assert_eq!(s.after(Some(Severity::Transient)), ElementStatus::Active);
    assert_eq!(s.after(Some(Severity::Fatal)), ElementStatus::Disabled);
    assert_eq!(ElementStatus::Disabled.after(None), ElementStatus::Disabled);
}

#[test]
fn queue_is_first_in_first_out() {
    let mut q: OutputQueue<u32> = OutputQueue::new(3, OverflowPolicy::BlockSender);
    assert_eq!(outcome(&q.offer(1)), (0, None));
    assert_eq!(outcome(&q.offer(2)), (0, None));
    assert_eq!(outcome(&q.offer(3)), (0, None));
    assert_eq!(outcome(&q.offer(4)), (3, Some(4)));
    assert_eq!(q.len(), 3);
    assert_eq!(q.take(), Some(1));
    assert_eq!(outcome(&q.offer(4)), (0, None));
    assert_eq!(q.take(), Some(2));
    assert_eq!(q.take(), Some(3));
    assert_eq!(q.take(), Some(4));
    assert_eq!(q.take(), None);
    assert_eq!(q.dropped(), 0);
}

#[test]
fn queue_drops_the_oldest_when_told_to() {
    let mut q: OutputQueue<u32> = OutputQueue::new(2, OverflowPolicy::DropOldest);
    assert_eq!(outcome(&q.offer(1)), (0, None));
    assert_eq!(outcome(&q.offer(2)), (0, None));
    assert_eq!(outcome(&q.offer(3)), (1, Some(1)));
    assert_eq!(outcome(&q.offer(4)), (1, Some(2)));
    assert_eq!(q.dropped(), 2);
    assert_eq!(q.len(), 2);
    assert_eq!(q.take(), Some(3));
    assert_eq!(q.take(), Some(4));
}

#[test]
fn queue_of_length_zero_is_synchronous() {
    let mut q: OutputQueue<u32> = OutputQueue::new(0, OverflowPolicy::DropOldest);
    assert_eq!(outcome(&q.offer(5)), (2, Some(5)));
    assert_eq!(q.len(), 0);
    assert_eq!(q.dropped(), 0);
    assert_eq!(q.take(), None);

    let mut task = SourceTask::new();
    assert_eq!(task.on_timer(PipelineState::Running), TickDecision::Poll);
    task.on_poll_result(None);
    task.on_delivery(&q.offer(6));
    assert_eq!(task.pending_writes, 1);
    assert_eq!(task.on_timer(PipelineState::Running), TickDecision::Wait);
    task.on_write_done();
    assert_eq!(task.on_timer(PipelineState::Running), TickDecision::Poll);
    task.on_write_done();
    assert_eq!(task.pending_writes, 0);
}

#[test]
fn source_task_decisions() {
    let mut task = SourceTask::new();
    assert_eq!(task.on_timer(PipelineState::Building), TickDecision::Wait);
    assert_eq!(task.on_timer(PipelineState::Stopping), TickDecision::Stop);
    assert_eq!(task.on_timer(PipelineState::Stopped), TickDecision::Stop);
    task.on_delivery(&Delivery::<u32>::Queued);
    assert_eq!(task.pending_writes, 0);
    task.on_poll_result(Some(Severity::Transient));
    assert_eq!(task.on_timer(PipelineState::Running), TickDecision::Poll);
    task.on_poll_result(Some(Severity::Fatal));
    assert_eq!(task.status, ElementStatus::Disabled);
    assert_eq!(task.on_timer(PipelineState::Running), TickDecision::Stop);
    task.on_poll_result(None);
    assert_eq!(task.on_timer(PipelineState::Running), TickDecision::Stop);
}

struct Counting {
    polls: u32,
    fail: Option<Severity>,
}

fn first_metric() -> alumet::metrics::TypedMetricId<u64> {
    let mut metrics = alumet::registry::MetricRegistry::new();
    let id = metrics
        .create_metric(
            "m",
            alumet::measurement::WrappedMeasurementType::U64,
            alumet::units::PrefixedUnit::from(alumet::units::Unit::Joule),
            "",
        )
        .unwrap();
    metrics.typed_id(id).unwrap()
}

impl alumet::pipeline::Source for Counting {
    fn poll(
        &mut self,
        m: &mut alumet::measurement::MeasurementAccumulator,
        t: alumet::measurement::Timestamp,
    ) -> Result<(), alumet::pipeline::PollError> {
        self.polls += 1;
        if let Some(severity) = self.fail {
            return Err(alumet::pipeline::PollError { severity, detail: String::from("no data") });
        }
        let id = first_metric();
        for v in 0..3u64 {
            m.push(alumet::measurement::MeasurementPoint::new(
                t,
                id,
                alumet::resources::Resource::LocalMachine,
                alumet::resources::ResourceConsumer::LocalMachine,
                v,
            ));
        }
        Ok(())
    }
}

struct DropFirst {
    fail: Option<Severity>,
}

impl alumet::pipeline::Transform for DropFirst {
    fn apply(
        &mut self,
        m: &mut Vec<alumet::measurement::MeasurementPoint>,
    ) -> Result<(), alumet::pipeline::TransformError> {
        if let Some(severity) = self.fail {
            return Err(alumet::pipeline::TransformError { severity, detail: String::from("t") });
        }
        m.remove(0);
        Ok(())
    }
}

struct Recording {
    seen: Vec<(u64, u64)>,
    fail: Option<Severity>,
}

impl alumet::pipeline::Output for Recording {
    fn write(
        &mut self,
        m: &Vec<alumet::measurement::MeasurementPoint>,
    ) -> Result<(), alumet::pipeline::WriteError> {
        for p in m {
            if let alumet::measurement::WrappedMeasurementValue::U64(v) = p.value {
                self.seen.push((p.timestamp.secs, v));
            }
        }
        match self.fail {
            Some(severity) => Err(alumet::pipeline::WriteError { severity, detail: String::from("w") }),
            None => Ok(()),
        }
    }
}

fn transform(fail: Option<Severity>, plugin: &str) -> alumet::pipeline::ConfiguredTransform<DropFirst> {
    alumet::pipeline::ConfiguredTransform { transform: DropFirst { fail }, plugin_name: String::from(plugin) }
}

fn output(fail: Option<Severity>, plugin: &str) -> alumet::pipeline::ConfiguredOutput<Recording> {
    alumet::pipeline::ConfiguredOutput {
        output: Recording { seen: Vec::new(), fail },
        plugin_name: String::from(plugin),
    }
}

#[test]
fn tick_delivers_in_order_with_one_timestamp() {
    let mut task = SourceTask::new();
    let mut source = (Counting { polls: 0, fail: None }, String::from("src"));
    let mut transforms = vec![transform(None, "t1")];
    let mut outputs = vec![output(None, "o1"), output(None, "o2")];
    let t = alumet::measurement::Timestamp { secs: 42, nanos: 0 };
    let r = alumet::runtime::run_tick(
        &mut task,
        &mut source,
        &mut transforms,
        &mut outputs,
        PipelineState::Running,
        t,
    );
    assert_eq!(r.decision, TickDecision::Poll);
    assert_eq!(r.poll_failure, None);
    assert_eq!(r.written(), 2);
    assert_eq!(r.transform_outcomes, vec![None]);
    assert_eq!(r.output_outcomes, vec![None, None]);
    assert!(r.failures.is_empty());
    assert_eq!(source.0.polls, 1);
    assert_eq!(outputs[0].output.seen, vec![(42, 1), (42, 2)]);
    assert_eq!(outputs[1].output.seen, vec![(42, 1), (42, 2)]);
    assert_eq!(task.pending_writes, 0);
    assert_eq!(task.on_timer(PipelineState::Running), TickDecision::Poll);
}

#[test]
fn tick_removes_elements_that_fail_for_good() {
    let mut task = SourceTask::new();
    let mut source = (Counting { polls: 0, fail: None }, String::from("src"));
    let mut transforms = vec![
        transform(Some(Severity::Fatal), "t1"),
        transform(Some(Severity::Transient), "t2"),
        transform(None, "t3"),
    ];
    let mut outputs = vec![
        output(Some(Severity::Transient), "o1"),
        output(Some(Severity::Fatal), "o2"),
        output(None, "o3"),
    ];
    let t = alumet::measurement::Timestamp { secs: 1, nanos: 0 };
    let r = alumet::runtime::run_tick(
        &mut task,
        &mut source,
        &mut transforms,
        &mut outputs,
        PipelineState::Running,
        t,
    );
    assert_eq!(r.written(), 3);
    assert_eq!(
        r.transform_outcomes,
        vec![Some(Severity::Fatal), Some(Severity::Transient), None]
    );
    assert_eq!(
        r.output_outcomes,
        vec![Some(Severity::Transient), Some(Severity::Fatal), None]
    );
    let names: Vec<&str> = transforms.iter().map(|t| t.plugin_name.as_str()).collect();
    assert_eq!(names, vec!["t2", "t3"]);
    let names: Vec<&str> = outputs.iter().map(|o| o.plugin_name.as_str()).collect();
    assert_eq!(names, vec!["o1", "o3"]);
    assert_eq!(outputs[1].output.seen, vec![(1, 1), (1, 2)]);
    let failed: Vec<(alumet::runtime::ElementKind, &str, Severity)> =
        r.failures.iter().map(|f| (f.kind, f.plugin_name.as_str(), f.severity)).collect();
    assert_eq!(
        failed,
        vec![
            (alumet::runtime::ElementKind::Transform, "t1", Severity::Fatal),
            (alumet::runtime::ElementKind::Transform, "t2", Severity::Transient),
            (alumet::runtime::ElementKind::Output, "o1", Severity::Transient),
            (alumet::runtime::ElementKind::Output, "o2", Severity::Fatal),
        ]
    );
}

#[test]
fn tick_with_a_failed_poll_delivers_nothing() {
    let mut task = SourceTask::new();
    let mut source = (Counting { polls: 0, fail: Some(Severity::Transient) }, String::from("src"));
    let mut transforms = vec![transform(None, "t1")];
    let mut outputs = vec![output(None, "o1")];
    let t = alumet::measurement::Timestamp { secs: 1, nanos: 0 };
    let r = alumet::runtime::run_tick(&mut task, &mut source, &mut transforms, &mut outputs, PipelineState::Running, t);
    assert_eq!(r.poll_failure, Some(Severity::Transient));
    assert_eq!(r.written(), 0);
    assert_eq!(r.failures.len(), 1);
    assert_eq!(r.failures[0].plugin_name, "src");
    assert_eq!(r.failures[0].detail, "no data");
    assert!(outputs[0].output.seen.is_empty());
    assert_eq!(task.status, ElementStatus::Active);

    source.0.fail = Some(Severity::Fatal);
    let r = alumet::runtime::run_tick(&mut task, &mut source, &mut transforms, &mut outputs, PipelineState::Running, t);
    assert_eq!(r.poll_failure, Some(Severity::Fatal));
    assert_eq!(task.status, ElementStatus::Disabled);
    let r = alumet::runtime::run_tick(&mut task, &mut source, &mut transforms, &mut outputs, PipelineState::Running, t);
    assert_eq!(r.decision, TickDecision::Stop);
    assert_eq!(source.0.polls, 2);
}

#[test]
fn tick_outside_the_running_state_polls_nothing() {
    let mut task = SourceTask::new();
    let mut source = (Counting { polls: 0, fail: None }, String::from("src"));
    let mut transforms: Vec<alumet::pipeline::ConfiguredTransform<DropFirst>> = Vec::new();
    let mut outputs = vec![output(None, "o1")];
    let t = alumet::measurement::Timestamp { secs: 1, nanos: 0 };
    for (state, decision) in [
        (PipelineState::Building, TickDecision::Wait),
        (PipelineState::Stopping, TickDecision::Stop),
        (PipelineState::Stopped, TickDecision::Stop),
    ] {
        let r = alumet::runtime::run_tick(&mut task, &mut source, &mut transforms, &mut outputs, state, t);
        assert_eq!(r.decision, decision);
        assert_eq!(r.written(), 0);
    }
    assert_eq!(source.0.polls, 0);
    assert!(outputs[0].output.seen.is_empty());
}

struct Silent;

impl alumet::pipeline::Source for Silent {
    fn poll(
        &mut self,
        _m: &mut alumet::measurement::MeasurementAccumulator,
        _t: alumet::measurement::Timestamp,
    ) -> Result<(), alumet::pipeline::PollError> {
        Ok(())
    }
}

#[test]
fn tick_runs_without_points_and_without_outputs() {
    let mut task = SourceTask::new();
    let mut source = (Silent, String::from("src"));
    let mut transforms: Vec<alumet::pipeline::ConfiguredTransform<DropFirst>> = Vec::new();
    let mut outputs: Vec<alumet::pipeline::ConfiguredOutput<Recording>> = Vec::new();
    let t = alumet::measurement::Timestamp { secs: 1, nanos: 0 };
    let r = alumet::runtime::run_tick(&mut task, &mut source, &mut transforms, &mut outputs, PipelineState::Running, t);
    assert_eq!(r.decision, TickDecision::Poll);
    assert_eq!(r.written(), 0);
    assert!(r.failures.is_empty());

    let mut outputs = vec![output(None, "o1")];
    let r = alumet::runtime::run_tick(&mut task, &mut source, &mut transforms, &mut outputs, PipelineState::Running, t);
    assert_eq!(r.written(), 1);
    assert!(outputs[0].output.seen.is_empty());
}

#[test]
fn results_of_the_elements_are_recorded() {
    assert!(leaves_pipeline(Some(Severity::Fatal)));
    assert!(!leaves_pipeline(Some(Severity::Transient)));
    assert!(!leaves_pipeline(None));

    let plugin = String::from("p");
    let mut task = SourceTask::new();
    let mut report = TickReport::new(TickDecision::Poll);
    after_poll(&mut task, &plugin, Ok(()), &mut report);
    assert_eq!(report.poll_failure, None);
    assert!(report.failures.is_empty());
    assert_eq!(task.status, ElementStatus::Active);

    let keep = after_apply(&plugin, Ok(()), &mut report);
    assert!(!keep);
    let transient = TransformError { severity: Severity::Transient, detail: String::from("slow") };
    assert!(!after_apply(&plugin, Err(transient), &mut report));
    let fatal = TransformError { severity: Severity::Fatal, detail: String::from("broken") };
    assert!(after_apply(&plugin, Err(fatal), &mut report));
    assert_eq!(
        report.transform_outcomes,
        vec![None, Some(Severity::Transient), Some(Severity::Fatal)]
    );

    assert!(!after_write(&plugin, Ok(()), &mut report));
    let transient = WriteError { severity: Severity::Transient, detail: String::from("busy") };
    assert!(!after_write(&plugin, Err(transient), &mut report));
    let fatal = WriteError { severity: Severity::Fatal, detail: String::from("closed") };
    assert!(after_write(&plugin, Err(fatal), &mut report));
    assert_eq!(report.written(), 3);
    assert_eq!(
        report.output_outcomes,
        vec![None, Some(Severity::Transient), Some(Severity::Fatal)]
    );

    let seen: Vec<(ElementKind, &str, Severity, &str)> = report
        .failures
        .iter()
        .map(|f| (f.kind, f.plugin_name.as_str(), f.severity, f.detail.as_str()))
        .collect();
    assert_eq!(
        seen,
        vec![
            (ElementKind::Transform, "p", Severity::Transient, "slow"),
            (ElementKind::Transform, "p", Severity::Fatal, "broken"),
            (ElementKind::Output, "p", Severity::Transient, "busy"),
            (ElementKind::Output, "p", Severity::Fatal, "closed"),
        ]
    );

    let failure = PollError { severity: Severity::Fatal, detail: String::from("gone") };
    after_poll(&mut task, &plugin, Err(failure), &mut report);
    assert_eq!(report.poll_failure, Some(Severity::Fatal));
    assert_eq!(task.status, ElementStatus::Disabled);
    assert_eq!(report.failures.last().unwrap().kind, ElementKind::Source);
    assert_eq!(report.failures.last().unwrap().detail, "gone");
}

#[test]
fn elements_of_one_plugin_are_told_apart_by_position() {
    let mut task = SourceTask::new();
    let mut source = (Counting { polls: 0, fail: None }, String::from("src"));
    let mut transforms: Vec<alumet::pipeline::ConfiguredTransform<DropFirst>> = Vec::new();
    let mut outputs = vec![
        output(None, "same"),
        output(Some(Severity::Fatal), "same"),
        output(Some(Severity::Transient), "same"),
    ];
    let t = alumet::measurement::Timestamp { secs: 1, nanos: 0 };
    let r = alumet::runtime::run_tick(&mut task, &mut source, &mut transforms, &mut outputs, PipelineState::Running, t);
    assert_eq!(r.output_outcomes, vec![None, Some(Severity::Fatal), Some(Severity::Transient)]);
    assert_eq!(outputs.len(), 2);
    assert_eq!(outputs[0].output.fail, None);
    assert_eq!(outputs[1].output.fail, Some(Severity::Transient));
}

#[test]
fn pipeline_stops_when_no_source_is_scheduled() {
    assert_eq!(PipelineState::Running.after_round(true), PipelineState::Running);
    assert_eq!(PipelineState::Stopping.after_round(true), PipelineState::Stopping);
    assert_eq!(PipelineState::Running.after_round(false), PipelineState::Stopped);
    assert_eq!(PipelineState::Stopping.after_round(false), PipelineState::Stopped);
    assert_eq!(PipelineState::Stopped.after_round(false), PipelineState::Stopped);
    assert_eq!(PipelineState::Building.after_round(false), PipelineState::Building);
}
