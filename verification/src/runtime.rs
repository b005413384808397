//! The decisions of the running pipeline: its lifecycle, what a failure does
//! to an element, the bounded queue in front of an output, and the rule that
//! keeps a source from polling while a synchronous write is under way.
//!
//! These are functions from a state and an event to the next state and an
//! action. The caller performs the action (it polls, writes, sleeps) and
//! reports the event that follows.

use std::collections::VecDeque;
use vstd::prelude::*;

use crate::measurement::MeasurementAccumulator;
use crate::measurement::Timestamp;
use crate::pipeline::ConfiguredOutput;
use crate::pipeline::ConfiguredTransform;
use crate::pipeline::Output;
use crate::pipeline::PollError;
use crate::pipeline::Severity;
use crate::pipeline::Source;
use crate::pipeline::Transform;
use crate::pipeline::TransformError;
use crate::pipeline::WriteError;

verus! {

/// The lifecycle of the pipeline.
#[derive(Clone, Copy, Debug, PartialEq, Eq, Structural)]
pub enum PipelineState {
    /// Plugins register metrics and elements.
    Building,
    /// Sources are polled and batches flow to the outputs.
    Running,
    /// No new poll is scheduled; pending batches are drained.
    Stopping,
    /// Nothing runs any more.
    Stopped,
}

/// What can happen to the pipeline as a whole.
#[derive(Clone, Copy, Debug, PartialEq, Eq, Structural)]
pub enum PipelineEvent {
    /// The pipeline is started with its configuration.
    Start,
    /// An external signal asks the pipeline to stop.
    ShutdownSignal,
    /// Every pending batch has reached its outputs.
    Drained,
    /// The time allowed for draining is over.
    GracePeriodElapsed,
}

impl PipelineState {
    /// The state that follows `self` on `event`. An event that does not
    /// apply to a state leaves it as it is.
    pub open spec fn spec_on_event(self, event: PipelineEvent) -> PipelineState {
        match (self, event) {
            (PipelineState::Building, PipelineEvent::Start) => PipelineState::Running,
            (PipelineState::Running, PipelineEvent::ShutdownSignal) => PipelineState::Stopping,
            (PipelineState::Stopping, PipelineEvent::Drained) => PipelineState::Stopped,
            (PipelineState::Stopping, PipelineEvent::GracePeriodElapsed) => PipelineState::Stopped,
            _ => self,
        }
    }

    /// The position of a state in the lifecycle.
    pub open spec fn rank(self) -> int {
        match self {
            PipelineState::Building => 0,
            PipelineState::Running => 1,
            PipelineState::Stopping => 2,
            PipelineState::Stopped => 3,
        }
    }

    /// The state that follows `self` on `event`.
    pub fn on_event(self, event: PipelineEvent) -> (r: PipelineState)
        ensures
            r == self.spec_on_event(event),
    {
        match (self, event) {
            (PipelineState::Building, PipelineEvent::Start) => PipelineState::Running,
            (PipelineState::Running, PipelineEvent::ShutdownSignal) => PipelineState::Stopping,
            (PipelineState::Stopping, PipelineEvent::Drained) => PipelineState::Stopped,
            (PipelineState::Stopping, PipelineEvent::GracePeriodElapsed) => PipelineState::Stopped,
            _ => self,
        }
    }

    /// The state after a round of ticks with synchronous delivery, in which
    /// `scheduled` says whether any source is still scheduled. While one is,
    /// the state stays as it is. When none is (each source is disabled, or
    /// the pipeline is stopping), nothing is left to poll or to drain, and
    /// the pipeline goes on to stop.
    pub open spec fn spec_after_round(self, scheduled: bool) -> PipelineState {
        if scheduled {
            self
        } else {
            self.spec_on_event(PipelineEvent::ShutdownSignal).spec_on_event(PipelineEvent::Drained)
        }
    }

    /// The state after a round of ticks with synchronous delivery.
    pub fn after_round(self, scheduled: bool) -> (r: PipelineState)
        ensures
            r == self.spec_after_round(scheduled),
    {
        if scheduled {
            self
        } else {
            self.on_event(PipelineEvent::ShutdownSignal).on_event(PipelineEvent::Drained)
        }
    }

    /// Whether the registries may still change: only while building.
    pub fn accepts_registrations(self) -> (r: bool)
        ensures
            r == (self == PipelineState::Building),
    {
        matches!(self, PipelineState::Building)
    }
}

/// The lifecycle only moves forward, one step at a time, and nothing leaves
/// the stopped state.
pub proof fn lemma_lifecycle_moves_forward(state: PipelineState, event: PipelineEvent)
    ensures
        state.rank() <= state.spec_on_event(event).rank() <= state.rank() + 1,
        PipelineState::Stopped.spec_on_event(event) == PipelineState::Stopped,
{
}

/// Whether an element is still part of the pipeline.
#[derive(Clone, Copy, Debug, PartialEq, Eq, Structural)]
pub enum ElementStatus {
    Active,
    /// The element failed for good and is not used again.
    Disabled,
}

impl ElementStatus {
    /// The status after a call of the element that ended as `outcome` says
    /// (`None` for success): a fatal failure disables the element for good,
    /// anything else leaves the status as it is.
    pub open spec fn spec_after(self, outcome: Option<Severity>) -> ElementStatus {
        match outcome {
            Some(Severity::Fatal) => ElementStatus::Disabled,
            _ => self,
        }
    }

    /// The status after a call of the element that ended as `outcome` says.
    pub fn after(self, outcome: Option<Severity>) -> (r: ElementStatus)
        ensures
            r == self.spec_after(outcome),
    {
        match outcome {
            Some(Severity::Fatal) => ElementStatus::Disabled,
            _ => self,
        }
    }
}

/// A disabled element stays disabled whatever its later calls report.
pub proof fn lemma_disabled_is_permanent(outcome: Option<Severity>)
    ensures
        ElementStatus::Disabled.spec_after(outcome) == ElementStatus::Disabled,
{
}

/// What a full queue does with a new batch.
#[derive(Clone, Copy, Debug, PartialEq, Eq, Structural)]
pub enum OverflowPolicy {
    /// The sender keeps the batch and has to offer it again later.
    BlockSender,
    /// The oldest batch of the queue makes room for the new one.
    DropOldest,
}

/// What became of a batch that was offered to a queue.
pub enum Delivery<B> {
    /// The batch is in the queue.
    Queued,
    /// The batch is in the queue, and the oldest batch, given here, left it.
    QueuedAfterDrop(B),
    /// The queue holds nothing: the batch, given back here, is to be written
    /// at once, before anything else is done for its source.
    WriteNow(B),
    /// The queue is full: the batch is given back to be offered again.
    Full(B),
}

/// The queue after `batch` has been offered to it, and what became of the batch.
pub open spec fn offered<B>(
    queue: Seq<B>,
    buffer_max_length: usize,
    policy: OverflowPolicy,
    batch: B,
) -> (Seq<B>, Delivery<B>) {
    if buffer_max_length == 0 {
        (queue, Delivery::WriteNow(batch))
    } else if queue.len() < buffer_max_length {
        (queue.push(batch), Delivery::Queued)
    } else if policy == OverflowPolicy::BlockSender {
        (queue, Delivery::Full(batch))
    } else {
        (queue.drop_first().push(batch), Delivery::QueuedAfterDrop(queue[0]))
    }
}

/// The number of dropped batches after one more drop: the count stops at
/// the largest value it can hold.
pub open spec fn one_more(count: u64) -> u64 {
    if count < u64::MAX {
        (count + 1) as u64
    } else {
        count
    }
}

/// The bounded first-in, first-out queue of batches in front of an output.
pub struct OutputQueue<B> {
    buffer_max_length: usize,
    policy: OverflowPolicy,
    batches: VecDeque<B>,
    dropped: u64,
}

impl<B> View for OutputQueue<B> {
    type V = Seq<B>;

    closed spec fn view(&self) -> Seq<B> {
        self.batches@
    }
}

impl<B> OutputQueue<B> {
    /// The largest number of batches that the queue holds; 0 stands for
    /// synchronous delivery.
    pub closed spec fn spec_buffer_max_length(&self) -> usize {
        self.buffer_max_length
    }

    /// What the queue does when it is full.
    pub closed spec fn spec_policy(&self) -> OverflowPolicy {
        self.policy
    }

    /// The number of batches dropped so far.
    pub closed spec fn spec_dropped(&self) -> u64 {
        self.dropped
    }

    /// An empty queue.
    pub fn new(buffer_max_length: usize, policy: OverflowPolicy) -> (r: Self)
        ensures
            r@ == Seq::<B>::empty(),
            r.spec_buffer_max_length() == buffer_max_length,
            r.spec_policy() == policy,
            r.spec_dropped() == 0,
    {
        OutputQueue { buffer_max_length, policy, batches: VecDeque::new(), dropped: 0 }
    }

    /// The number of batches in the queue.
    pub fn len(&self) -> (r: usize)
        ensures
            r == self@.len(),
    {
        self.batches.len()
    }

    /// The number of batches dropped so far.
    pub fn dropped(&self) -> (r: u64)
        ensures
            r == self.spec_dropped(),
    {
        self.dropped
    }

    /// Offers `batch` to the queue. With a maximal length of 0 the batch
    /// comes back to be written at once. Otherwise it goes to the end of the
    /// queue if there is room; if there is none, the policy decides: the
    /// batch comes back, or the oldest batch leaves and is counted.
    pub fn offer(&mut self, batch: B) -> (r: Delivery<B>)
        ensures
            (final(self)@, r) == offered(
                old(self)@,
                old(self).spec_buffer_max_length(),
                old(self).spec_policy(),
                batch,
            ),
            final(self).spec_buffer_max_length() == old(self).spec_buffer_max_length(),
            final(self).spec_policy() == old(self).spec_policy(),
            final(self).spec_dropped() == if r is QueuedAfterDrop {
                one_more(old(self).spec_dropped())
            } else {
                old(self).spec_dropped()
            },
    {
        if self.buffer_max_length == 0 {
            Delivery::WriteNow(batch)
        } else if self.batches.len() < self.buffer_max_length {
            self.batches.push_back(batch);
            Delivery::Queued
        } else {
            match self.policy {
                OverflowPolicy::BlockSender => Delivery::Full(batch),
                OverflowPolicy::DropOldest => {
                    match self.batches.pop_front() {
                        Some(oldest) => {
                            self.batches.push_back(batch);
                            if self.dropped < u64::MAX {
                                self.dropped += 1;
                            }
                            proof {
                                let before = old(self)@;
                                assert(before.subrange(1, before.len() as int)
                                    =~= before.drop_first());
                            }
                            Delivery::QueuedAfterDrop(oldest)
                        },
                        None => {
                            // A full queue of a positive length holds a batch.
                            proof {
                                assert(false);
                            }
                            Delivery::Full(batch)
                        },
                    }
                },
            }
        }
    }

    /// Takes the oldest batch out of the queue, if there is one.
    pub fn take(&mut self) -> (r: Option<B>)
        ensures
            old(self)@.len() == 0 ==> r is None && final(self)@ == old(self)@,
            old(self)@.len() > 0 ==> r == Some(old(self)@[0]) && final(self)@ == old(self)@.drop_first(),
            final(self).spec_buffer_max_length() == old(self).spec_buffer_max_length(),
            final(self).spec_policy() == old(self).spec_policy(),
            final(self).spec_dropped() == old(self).spec_dropped(),
    {
        let r = self.batches.pop_front();
        proof {
            if old(self)@.len() > 0 {
                assert(old(self)@.subrange(1, old(self)@.len() as int) =~= old(self)@.drop_first());
            }
        }
        r
    }
}

/// The queue after each batch of `batches` has been offered in turn.
pub open spec fn offered_all<B>(
    queue: Seq<B>,
    buffer_max_length: usize,
    policy: OverflowPolicy,
    batches: Seq<B>,
) -> Seq<B>
    decreases batches.len(),
{
    if batches.len() == 0 {
        queue
    } else {
        offered(
            offered_all(queue, buffer_max_length, policy, batches.drop_last()),
            buffer_max_length,
            policy,
            batches.last(),
        ).0
    }
}

/// First in, first out: while there is room for them, the batches offered
/// to a queue stand in it behind the batches it held, in the order in which
/// they were offered. Taking hands them out from the front, so they leave
/// in that order too.
pub proof fn lemma_queue_keeps_order<B>(
    queue: Seq<B>,
    buffer_max_length: usize,
    policy: OverflowPolicy,
    batches: Seq<B>,
)
    requires
        queue.len() + batches.len() <= buffer_max_length,
        batches.len() > 0,
    ensures
        offered_all(queue, buffer_max_length, policy, batches) == queue + batches,
    decreases batches.len(),
{
    if batches.len() > 1 {
        lemma_queue_keeps_order(queue, buffer_max_length, policy, batches.drop_last());
    } else {
        assert(offered_all(queue, buffer_max_length, policy, batches.drop_last()) == queue);
        assert(queue + batches.drop_last() =~= queue);
    }
    assert((queue + batches.drop_last()).push(batches.last()) =~= queue + batches);
}

/// What the scheduler does for a source when its timer fires.
#[derive(Clone, Copy, Debug, PartialEq, Eq, Structural)]
pub enum TickDecision {
    /// Poll the source now.
    Poll,
    /// Skip this tick: a batch of the source is still being written, or the
    /// pipeline has not started.
    Wait,
    /// Stop the timer: the source is disabled or the pipeline is stopping.
    Stop,
}

/// What the scheduler knows of one source.
#[derive(Clone, Copy, Debug, PartialEq, Eq, Structural)]
pub struct SourceTask {
    pub status: ElementStatus,
    /// The number of synchronous writes of this source's last batch that
    /// have not completed.
    pub pending_writes: usize,
}

impl SourceTask {
    pub open spec fn spec_on_timer(self, pipeline: PipelineState) -> TickDecision {
        if self.status == ElementStatus::Disabled || pipeline == PipelineState::Stopping
            || pipeline == PipelineState::Stopped {
            TickDecision::Stop
        } else if pipeline == PipelineState::Building || self.pending_writes > 0 {
            TickDecision::Wait
        } else {
            TickDecision::Poll
        }
    }

    /// The task after one output answered the offer of a batch with
    /// `write_now`: a batch that is to be written at once is a pending write.
    pub open spec fn spec_on_delivery(self, write_now: bool) -> SourceTask {
        if write_now && self.pending_writes < usize::MAX {
            SourceTask { status: self.status, pending_writes: (self.pending_writes + 1) as usize }
        } else {
            self
        }
    }

    pub open spec fn spec_on_write_done(self) -> SourceTask {
        if self.pending_writes > 0 {
            SourceTask { status: self.status, pending_writes: (self.pending_writes - 1) as usize }
        } else {
            self
        }
    }

    /// The task of a source that has not been polled yet.
    pub fn new() -> (r: SourceTask)
        ensures
            r == (SourceTask { status: ElementStatus::Active, pending_writes: 0 }),
    {
        SourceTask { status: ElementStatus::Active, pending_writes: 0 }
    }

    /// Decides what to do when the timer of the source fires: a poll is
    /// due only while the pipeline runs, the source is active and no
    /// synchronous write of its last batch is pending.
    pub fn on_timer(&self, pipeline: PipelineState) -> (r: TickDecision)
        ensures
            r == self.spec_on_timer(pipeline),
    {
        if matches!(self.status, ElementStatus::Disabled) || matches!(
            pipeline,
            PipelineState::Stopping | PipelineState::Stopped
        ) {
            TickDecision::Stop
        } else if matches!(pipeline, PipelineState::Building) || self.pending_writes > 0 {
            TickDecision::Wait
        } else {
            TickDecision::Poll
        }
    }

    /// Records how a poll ended (`None` for success).
    pub fn on_poll_result(&mut self, outcome: Option<Severity>)
        ensures
            final(self).status == old(self).status.spec_after(outcome),
            final(self).pending_writes == old(self).pending_writes,
    {
        self.status = self.status.after(outcome);
    }

    /// Records what one output's queue answered when the batch was offered.
    pub fn on_delivery<B>(&mut self, delivery: &Delivery<B>)
        ensures
            *final(self) == old(self).spec_on_delivery(delivery is WriteNow),
    {
        if let Delivery::WriteNow(_) = delivery {
            if self.pending_writes < usize::MAX {
                self.pending_writes += 1;
            }
        }
    }

    /// Records that one synchronous write of the last batch has completed.
    pub fn on_write_done(&mut self)
        ensures
            *final(self) == old(self).spec_on_write_done(),
    {
        if self.pending_writes > 0 {
            self.pending_writes -= 1;
        }
    }
}

/// The kind of a pipeline element.
#[derive(Clone, Copy, Debug, PartialEq, Eq, Structural)]
pub enum ElementKind {
    Source,
    Transform,
    Output,
}

/// The failure of one element during a tick, for the log.
#[derive(Debug)]
pub struct ElementFailure {
    pub kind: ElementKind,
    /// The plugin that registered the element.
    pub plugin_name: String,
    pub severity: Severity,
    pub detail: String,
}

/// How a poll ended: `None` for success, else the severity of the failure.
pub open spec fn poll_outcome(polled: Result<(), PollError>) -> Option<Severity> {
    match polled {
        Ok(_) => None,
        Err(e) => Some(e.severity),
    }
}

/// How the call of a transform ended.
pub open spec fn apply_outcome(applied: Result<(), TransformError>) -> Option<Severity> {
    match applied {
        Ok(_) => None,
        Err(e) => Some(e.severity),
    }
}

/// How the call of an output ended.
pub open spec fn write_outcome(written: Result<(), WriteError>) -> Option<Severity> {
    match written {
        Ok(_) => None,
        Err(e) => Some(e.severity),
    }
}

/// An element leaves the pipeline exactly when it failed for good.
pub open spec fn spec_leaves_pipeline(outcome: Option<Severity>) -> bool {
    outcome == Some(Severity::Fatal)
}

/// Whether an element whose call ended as `outcome` says leaves the pipeline.
pub fn leaves_pipeline(outcome: Option<Severity>) -> (r: bool)
    ensures
        r == spec_leaves_pipeline(outcome),
{
    match outcome {
        Some(Severity::Fatal) => true,
        _ => false,
    }
}

/// The names of the plugins that registered the transforms, in order.
pub open spec fn transform_plugins<T: Transform>(transforms: Seq<ConfiguredTransform<T>>) -> Seq<
    Seq<char>,
> {
    transforms.map_values(|t: ConfiguredTransform<T>| t.plugin_name@)
}

/// The names of the plugins that registered the outputs, in order.
pub open spec fn output_plugins<O: Output>(outputs: Seq<ConfiguredOutput<O>>) -> Seq<Seq<char>> {
    outputs.map_values(|o: ConfiguredOutput<O>| o.plugin_name@)
}

/// The elements that stay, by the name of their plugin, when the element at
/// position `k` was called with the outcome `outcomes[k]`: those that did
/// not fail for good, in their order.
pub open spec fn kept(names: Seq<Seq<char>>, outcomes: Seq<Option<Severity>>) -> Seq<Seq<char>>
    decreases outcomes.len(),
{
    if outcomes.len() == 0 {
        Seq::empty()
    } else {
        let rest = kept(names, outcomes.drop_last());
        if spec_leaves_pipeline(outcomes.last()) {
            rest
        } else {
            rest.push(names[outcomes.len() - 1])
        }
    }
}

/// What identifies a failure in the log: the kind of the element, the name
/// of its plugin and the severity.
pub open spec fn failure_key(f: ElementFailure) -> (ElementKind, Seq<char>, Severity) {
    (f.kind, f.plugin_name@, f.severity)
}

/// The keys of a list of failures, in order.
pub open spec fn failure_keys(failures: Seq<ElementFailure>) -> Seq<
    (ElementKind, Seq<char>, Severity),
> {
    failures.map_values(|f: ElementFailure| failure_key(f))
}

/// The failures to report when the element at position `k` was called with
/// the outcome `outcomes[k]`: one per failed call, in the order of the calls.
pub open spec fn reported(
    kind: ElementKind,
    names: Seq<Seq<char>>,
    outcomes: Seq<Option<Severity>>,
) -> Seq<(ElementKind, Seq<char>, Severity)>
    decreases outcomes.len(),
{
    if outcomes.len() == 0 {
        Seq::empty()
    } else {
        let rest = reported(kind, names, outcomes.drop_last());
        match outcomes.last() {
            Some(severity) => rest.push((kind, names[outcomes.len() - 1], severity)),
            None => rest,
        }
    }
}

/// What one tick of a source did.
#[derive(Debug)]
pub struct TickReport {
    /// What was decided when the timer fired.
    pub decision: TickDecision,
    /// How the poll failed, if it was made and failed.
    pub poll_failure: Option<Severity>,
    /// How the call of each transform ended, in the order of the transforms
    /// as they stood before the tick.
    pub transform_outcomes: Vec<Option<Severity>>,
    /// How the call of each output ended, in the order of the outputs as
    /// they stood before the tick.
    pub output_outcomes: Vec<Option<Severity>>,
    /// The failures of this tick, in the order in which they happened.
    pub failures: Vec<ElementFailure>,
}

impl TickReport {
    /// The report of a tick in which nothing has been called yet.
    pub fn new(decision: TickDecision) -> (r: TickReport)
        ensures
            r.decision == decision,
            r.poll_failure is None,
            r.transform_outcomes@.len() == 0,
            r.output_outcomes@.len() == 0,
            r.failures@.len() == 0,
    {
        TickReport {
            decision,
            poll_failure: None,
            transform_outcomes: Vec::new(),
            output_outcomes: Vec::new(),
            failures: Vec::new(),
        }
    }

    /// The number of outputs that the batch was written to.
    pub fn written(&self) -> (r: usize)
        ensures
            r == self.output_outcomes@.len(),
    {
        self.output_outcomes.len()
    }
}

/// Records how the poll of the source of the plugin `plugin_name` ended: a
/// failure goes to the report, and a fatal one disables the source.
pub fn after_poll(
    task: &mut SourceTask,
    plugin_name: &String,
    polled: Result<(), PollError>,
    report: &mut TickReport,
)
    ensures
        final(task).status == old(task).status.spec_after(poll_outcome(polled)),
        final(task).pending_writes == old(task).pending_writes,
        final(report).poll_failure == poll_outcome(polled),
        final(report).decision == old(report).decision,
        final(report).transform_outcomes == old(report).transform_outcomes,
        final(report).output_outcomes == old(report).output_outcomes,
        final(report).failures@ == match polled {
            Ok(_) => old(report).failures@,
            Err(e) => old(report).failures@.push(
                (ElementFailure {
                    kind: ElementKind::Source,
                    plugin_name: *plugin_name,
                    severity: e.severity,
                    detail: e.detail,
                }),
            ),
        },
{
    match polled {
        Ok(_) => {
            report.poll_failure = None;
            task.on_poll_result(None);
        },
        Err(e) => {
            report.poll_failure = Some(e.severity);
            task.on_poll_result(Some(e.severity));
            report.failures.push(
                ElementFailure {
                    kind: ElementKind::Source,
                    plugin_name: plugin_name.clone(),
                    severity: e.severity,
                    detail: e.detail,
                },
            );
        },
    }
}

/// Records how the call of a transform of the plugin `plugin_name` ended,
/// and says whether the transform leaves the pipeline: exactly when it
/// failed for good.
pub fn after_apply(
    plugin_name: &String,
    applied: Result<(), TransformError>,
    report: &mut TickReport,
) -> (remove: bool)
    ensures
        remove == spec_leaves_pipeline(apply_outcome(applied)),
        final(report).transform_outcomes@ == old(report).transform_outcomes@.push(
            apply_outcome(applied),
        ),
        final(report).decision == old(report).decision,
        final(report).poll_failure == old(report).poll_failure,
        final(report).output_outcomes == old(report).output_outcomes,
        final(report).failures@ == match applied {
            Ok(_) => old(report).failures@,
            Err(e) => old(report).failures@.push(
                (ElementFailure {
                    kind: ElementKind::Transform,
                    plugin_name: *plugin_name,
                    severity: e.severity,
                    detail: e.detail,
                }),
            ),
        },
{
    match applied {
        Ok(_) => {
            report.transform_outcomes.push(None);
            false
        },
        Err(e) => {
            report.transform_outcomes.push(Some(e.severity));
            report.failures.push(
                ElementFailure {
                    kind: ElementKind::Transform,
                    plugin_name: plugin_name.clone(),
                    severity: e.severity,
                    detail: e.detail,
                },
            );
            leaves_pipeline(Some(e.severity))
        },
    }
}

/// Records how the call of an output of the plugin `plugin_name` ended, and
/// says whether the output leaves the pipeline: exactly when it failed for
/// good.
pub fn after_write(
    plugin_name: &String,
    written: Result<(), WriteError>,
    report: &mut TickReport,
) -> (remove: bool)
    ensures
        remove == spec_leaves_pipeline(write_outcome(written)),
        final(report).output_outcomes@ == old(report).output_outcomes@.push(
            write_outcome(written),
        ),
        final(report).decision == old(report).decision,
        final(report).poll_failure == old(report).poll_failure,
        final(report).transform_outcomes == old(report).transform_outcomes,
        final(report).failures@ == match written {
            Ok(_) => old(report).failures@,
            Err(e) => old(report).failures@.push(
                (ElementFailure {
                    kind: ElementKind::Output,
                    plugin_name: *plugin_name,
                    severity: e.severity,
                    detail: e.detail,
                }),
            ),
        },
{
    match written {
        Ok(_) => {
            report.output_outcomes.push(None);
            false
        },
        Err(e) => {
            report.output_outcomes.push(Some(e.severity));
            report.failures.push(
                ElementFailure {
                    kind: ElementKind::Output,
                    plugin_name: plugin_name.clone(),
                    severity: e.severity,
                    detail: e.detail,
                },
            );
            leaves_pipeline(Some(e.severity))
        },
    }
}

/// Runs one tick of `source` with synchronous delivery. If a poll is due,
/// the source is polled with a fresh batch and `timestamp`, and
/// [`after_poll`] records how that ended. A failed poll ends the tick: the
/// batch is not delivered. Otherwise the batch goes through every transform
/// in order and is then written to every output in turn; [`after_apply`]
/// and [`after_write`] record how each call ended, and an element leaves
/// the pipeline exactly where they say so, the others keeping their order.
/// Every write has completed when the tick returns, so none is pending at
/// the next tick.
pub fn run_tick<S: Source, T: Transform, O: Output>(
    task: &mut SourceTask,
    source: &mut (S, String),
    transforms: &mut Vec<ConfiguredTransform<T>>,
    outputs: &mut Vec<ConfiguredOutput<O>>,
    pipeline: PipelineState,
    timestamp: Timestamp,
) -> (r: TickReport)
    ensures
        r.decision == old(task).spec_on_timer(pipeline),
        final(source).1 == old(source).1,
        r.decision != TickDecision::Poll ==> {
            &&& *final(task) == *old(task)
            &&& *final(source) == *old(source)
            &&& final(transforms)@ == old(transforms)@
            &&& final(outputs)@ == old(outputs)@
            &&& r.poll_failure is None
            &&& r.transform_outcomes@.len() == 0
            &&& r.output_outcomes@.len() == 0
            &&& r.failures@.len() == 0
        },
        r.decision == TickDecision::Poll ==> {
            &&& final(task).status == old(task).status.spec_after(r.poll_failure)
            &&& final(task).pending_writes == 0
        },
        r.poll_failure is Some ==> {
            &&& final(transforms)@ == old(transforms)@
            &&& final(outputs)@ == old(outputs)@
            &&& r.transform_outcomes@.len() == 0
            &&& r.output_outcomes@.len() == 0
            &&& failure_keys(r.failures@) == seq![
                (ElementKind::Source, old(source).1@, r.poll_failure->0),
            ]
        },
        r.decision == TickDecision::Poll && r.poll_failure is None ==> {
            &&& r.transform_outcomes@.len() == old(transforms)@.len()
            &&& r.output_outcomes@.len() == old(outputs)@.len()
            &&& transform_plugins(final(transforms)@) == kept(
                transform_plugins(old(transforms)@),
                r.transform_outcomes@,
            )
            &&& output_plugins(final(outputs)@) == kept(
                output_plugins(old(outputs)@),
                r.output_outcomes@,
            )
            &&& failure_keys(r.failures@) == reported(
                ElementKind::Transform,
                transform_plugins(old(transforms)@),
                r.transform_outcomes@,
            ) + reported(
                ElementKind::Output,
                output_plugins(old(outputs)@),
                r.output_outcomes@,
            )
        },
{
    let decision = task.on_timer(pipeline);
    let mut report = TickReport::new(decision);
    if !matches!(decision, TickDecision::Poll) {
        return report;
    }
    let mut measurements = MeasurementAccumulator::new();
    let polled = source.0.poll(&mut measurements, timestamp);
    after_poll(task, &source.1, polled, &mut report);
    if report.poll_failure.is_some() {
        proof {
            assert(failure_keys(report.failures@) =~= seq![
                (ElementKind::Source, old(source).1@, report.poll_failure->0),
            ]);
        }
        return report;
    }
    let mut batch = measurements.into_points();
    let ghost transform_names = transform_plugins(old(transforms)@);
    let ghost output_names = output_plugins(old(outputs)@);
    let mut i: usize = 0;
    proof {
        assert(transform_plugins(transforms@.take(0)) =~= kept(
            transform_names,
            report.transform_outcomes@,
        ));
        assert(failure_keys(report.failures@) =~= reported(
            ElementKind::Transform,
            transform_names,
            report.transform_outcomes@,
        ));
    }
    while i < transforms.len()
        invariant
            i <= transforms@.len(),
            outputs@ == old(outputs)@,
            transform_names == transform_plugins(old(transforms)@),
            report.decision == decision,
            report.poll_failure is None,
            report.output_outcomes@.len() == 0,
            i <= report.transform_outcomes@.len(),
            transforms@.len() - i == old(transforms)@.len() - report.transform_outcomes@.len(),
            forall|k: int|
                i <= k < transforms@.len() ==> #[trigger] transforms@[k] == old(transforms)@[k
                    + report.transform_outcomes@.len() - i],
            transform_plugins(transforms@.take(i as int)) == kept(
                transform_names,
                report.transform_outcomes@,
            ),
            failure_keys(report.failures@) == reported(
                ElementKind::Transform,
                transform_names,
                report.transform_outcomes@,
            ),
        decreases transforms@.len() - i,
    {
        let ghost before = transforms@;
        let ghost outcomes = report.transform_outcomes@;
        let ghost failures = report.failures@;
        let applied = transforms[i].transform.apply(&mut batch);
        assert(transforms@.len() == before.len());
        assert(transforms@[i as int].plugin_name == before[i as int].plugin_name);
        assert(forall|k: int|
            0 <= k < transforms@.len() && k != i ==> #[trigger] transforms@[k] == before[k]);
        assert(transforms@.take(i as int) =~= before.take(i as int));
        let ghost called = transforms@;
        let remove = after_apply(&transforms[i].plugin_name, applied, &mut report);
        proof {
            assert(report.transform_outcomes@.drop_last() =~= outcomes);
            assert(transform_names[outcomes.len() as int] == called[i as int].plugin_name@);
            if applied is Err {
                assert(failure_keys(report.failures@) =~= failure_keys(failures).push(
                    (
                        ElementKind::Transform,
                        called[i as int].plugin_name@,
                        applied->Err_0.severity,
                    ),
                ));
            }
        }
        if remove {
            let _ = transforms.remove(i);
            proof {
                assert(transforms@.take(i as int) =~= called.take(i as int));
            }
        } else {
            proof {
                assert(transform_plugins(transforms@.take(i + 1)) =~= transform_plugins(
                    transforms@.take(i as int),
                ).push(called[i as int].plugin_name@));
            }
            i += 1;
        }
    }
    proof {
        assert(transforms@.take(i as int) =~= transforms@);
    }
    let ghost transform_failures = failure_keys(report.failures@);
    let mut j: usize = 0;
    proof {
        assert(output_plugins(outputs@.take(0)) =~= kept(output_names, report.output_outcomes@));
        assert(transform_failures + reported(
            ElementKind::Output,
            output_names,
            report.output_outcomes@,
        ) =~= transform_failures);
    }
    while j < outputs.len()
        invariant
            j <= outputs@.len(),
            output_names == output_plugins(old(outputs)@),
            transform_names == transform_plugins(old(transforms)@),
            report.decision == decision,
            report.poll_failure is None,
            report.transform_outcomes@.len() == old(transforms)@.len(),
            transform_plugins(transforms@) == kept(transform_names, report.transform_outcomes@),
            transform_failures == reported(
                ElementKind::Transform,
                transform_names,
                report.transform_outcomes@,
            ),
            j <= report.output_outcomes@.len(),
            outputs@.len() - j == old(outputs)@.len() - report.output_outcomes@.len(),
            forall|k: int|
                j <= k < outputs@.len() ==> #[trigger] outputs@[k] == old(outputs)@[k
                    + report.output_outcomes@.len() - j],
            output_plugins(outputs@.take(j as int)) == kept(
                output_names,
                report.output_outcomes@,
            ),
            failure_keys(report.failures@) == transform_failures + reported(
                ElementKind::Output,
                output_names,
                report.output_outcomes@,
            ),
        decreases outputs@.len() - j,
    {
        let ghost before = outputs@;
        let ghost outcomes = report.output_outcomes@;
        let ghost failures = report.failures@;
        let written = outputs[j].output.write(&batch);
        assert(outputs@.len() == before.len());
        assert(outputs@[j as int].plugin_name == before[j as int].plugin_name);
        assert(forall|k: int|
            0 <= k < outputs@.len() && k != j ==> #[trigger] outputs@[k] == before[k]);
        assert(outputs@.take(j as int) =~= before.take(j as int));
        let ghost called = outputs@;
        let remove = after_write(&outputs[j].plugin_name, written, &mut report);
        proof {
            assert(report.output_outcomes@.drop_last() =~= outcomes);
            assert(output_names[outcomes.len() as int] == called[j as int].plugin_name@);
            let earlier = reported(ElementKind::Output, output_names, outcomes);
            if written is Err {
                let key = (
                    ElementKind::Output,
                    called[j as int].plugin_name@,
                    written->Err_0.severity,
                );
                assert(failure_keys(report.failures@) =~= failure_keys(failures).push(key));
                assert((transform_failures + earlier).push(key) =~= transform_failures
                    + earlier.push(key));
            }
        }
        if remove {
            let _ = outputs.remove(j);
            proof {
                assert(outputs@.take(j as int) =~= called.take(j as int));
            }
        } else {
            proof {
                assert(output_plugins(outputs@.take(j + 1)) =~= output_plugins(
                    outputs@.take(j as int),
                ).push(called[j as int].plugin_name@));
            }
            j += 1;
        }
    }
    proof {
        assert(outputs@.take(j as int) =~= outputs@);
    }
    report
}

/// With a maximal queue length of 0, delivery is synchronous: the batch is
/// not queued but handed back to be written at once, and from the moment the
/// scheduler has recorded that answer until the write is reported as done,
/// no tick of the same source leads to a poll.
pub proof fn lemma_synchronous_write_comes_before_next_tick<B>(
    task: SourceTask,
    queue: Seq<B>,
    policy: OverflowPolicy,
    batch: B,
    pipeline: PipelineState,
)
    requires
        task.pending_writes == 0,
    ensures
        offered(queue, 0, policy, batch) == (queue, Delivery::WriteNow(batch)),
        task.spec_on_delivery(true).spec_on_timer(pipeline) != TickDecision::Poll,
        task.spec_on_delivery(true).spec_on_write_done() == task,
        task.status == ElementStatus::Active ==> task.spec_on_timer(PipelineState::Running)
            == TickDecision::Poll,
{
}

/// Once the pipeline is stopping or has stopped, and before it has started,
/// no tick leads to a poll.
pub proof fn lemma_polls_only_while_running(task: SourceTask, pipeline: PipelineState)
    requires
        pipeline != PipelineState::Running,
    ensures
        task.spec_on_timer(pipeline) != TickDecision::Poll,
{
}

} // verus!
