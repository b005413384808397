//! The registry of metrics, its one-shot publication, and the registry of
//! pipeline elements.

use std::collections::HashMap;
use vstd::prelude::*;
use vstd::std_specs::hash::group_hash_axioms;
use vstd::string::StringExecFns;

use crate::measurement::MeasurementType;
use crate::measurement::WrappedMeasurementType;
use crate::metrics::Metric;
use crate::metrics::MetricCreationError;
use crate::metrics::MetricId;
use crate::metrics::TypedMetricId;
use crate::metrics::UntypedMetricId;
use crate::pipeline::ConfiguredOutput;
use crate::pipeline::ConfiguredTransform;
use crate::pipeline::Output;
use crate::pipeline::Source;
use crate::pipeline::Transform;
use crate::units::PrefixedUnit;

verus! {

/// A registry of metrics.
///
/// Its model is the sequence of the registered descriptors in the order of
/// their registration. A registry is well formed when identifiers are dense
/// (the descriptor at position `i` has the identifier `i`), no two
/// descriptors have the same name and no name is empty. The empty registry
/// is well formed and every operation keeps it so.
///
/// The descriptors are held in a map keyed by the number of their
/// identifier; a name is looked up by comparing it with the names in turn.
pub struct MetricRegistry {
    metrics_by_id: HashMap<usize, Metric>,
}

/// The descriptors of a map whose keys are `0`, `1`, .. in the order of the keys.
pub open spec fn in_key_order(metrics: Map<usize, Metric>) -> Seq<Metric> {
    Seq::new(metrics.len(), |i: int| metrics[i as usize])
}

/// The keys of the map are the numbers below its length.
pub open spec fn keys_are_dense(metrics: Map<usize, Metric>) -> bool {
    forall|k: usize| metrics.contains_key(k) <==> k < metrics.len()
}

/// The descriptor at position `i` has the identifier `i`.
pub open spec fn ids_are_dense(metrics: Seq<Metric>) -> bool {
    forall|i: int| 0 <= i < metrics.len() ==> (#[trigger] metrics[i]).id.0 == i
}

/// No two descriptors have the same name.
pub open spec fn names_are_unique(metrics: Seq<Metric>) -> bool {
    forall|i: int, j: int|
        0 <= i < metrics.len() && 0 <= j < metrics.len() && i != j ==> (#[trigger] metrics[i]).name@
            != (#[trigger] metrics[j]).name@
}

/// No descriptor has the empty name.
pub open spec fn names_are_nonempty(metrics: Seq<Metric>) -> bool {
    forall|i: int| 0 <= i < metrics.len() ==> (#[trigger] metrics[i]).name@.len() > 0
}

/// Some descriptor of `metrics` has the name `name`.
pub open spec fn has_name(metrics: Seq<Metric>, name: Seq<char>) -> bool {
    exists|i: int| 0 <= i < metrics.len() && (#[trigger] metrics[i]).name@ == name
}

/// The position of a descriptor named `name`.
pub open spec fn position_of_name(metrics: Seq<Metric>, name: Seq<char>) -> int {
    choose|i: int| 0 <= i < metrics.len() && (#[trigger] metrics[i]).name@ == name
}

/// The text that the refusal of a second metric named `name` carries.
pub open spec fn conflict_text(name: Seq<char>) -> Seq<char> {
    "A metric with this name already exist: "@ + name
}

/// `after` is `before` with one more descriptor at its end, which has the
/// next free identifier and the given name, type, unit and description.
pub open spec fn appended(
    before: Seq<Metric>,
    after: Seq<Metric>,
    name: Seq<char>,
    value_type: WrappedMeasurementType,
    unit: PrefixedUnit,
    description: Seq<char>,
) -> bool {
    &&& after.len() == before.len() + 1
    &&& after.drop_last() == before
    &&& after.last().id.0 == before.len()
    &&& after.last().name@ == name
    &&& after.last().description@ == description
    &&& after.last().value_type == value_type
    &&& after.last().unit == unit
}

impl View for MetricRegistry {
    type V = Seq<Metric>;

    closed spec fn view(&self) -> Seq<Metric> {
        in_key_order(self.metrics_by_id@)
    }
}

impl MetricRegistry {
    /// The keys of the map behind the registry are the numbers of the
    /// identifiers in use.
    pub closed spec fn keyed_by_id(self) -> bool {
        keys_are_dense(self.metrics_by_id@)
    }

    /// Identifiers are dense, names are unique and none is empty.
    pub open spec fn wf(self) -> bool {
        self.keyed_by_id() && ids_are_dense(self@) && names_are_unique(self@)
            && names_are_nonempty(self@)
    }

    /// The descriptor that `id` refers to, if any.
    pub open spec fn spec_with_id(self, id: UntypedMetricId) -> Option<Metric> {
        if id.0 < self@.len() {
            Some(self@[id.0 as int])
        } else {
            None
        }
    }

    /// The descriptor named `name`, if any.
    pub open spec fn spec_with_name(self, name: Seq<char>) -> Option<Metric> {
        if has_name(self@, name) {
            Some(self@[position_of_name(self@, name)])
        } else {
            None
        }
    }

    /// Creates an empty registry.
    pub fn new() -> (r: MetricRegistry)
        ensures
            r@ == Seq::<Metric>::empty(),
            r.wf(),
    {
        broadcast use group_hash_axioms;

        let r = MetricRegistry { metrics_by_id: HashMap::new() };
        assert(r.metrics_by_id@.len() == 0);
        r
    }

    /// Finds the metric that has the given id.
    pub fn with_id<M: MetricId>(&self, id: &M) -> (r: Option<&Metric>)
        requires
            self.wf(),
        ensures
            match r {
                Some(m) => self.spec_with_id(id.spec_untyped_id()) == Some(*m) && m.id
                    == id.spec_untyped_id(),
                None => self.spec_with_id(id.spec_untyped_id()) is None,
            },
    {
        broadcast use group_hash_axioms;

        let index: usize = id.untyped_id().0;
        self.metrics_by_id.get(&index)
    }

    /// Finds the metric that has the given name.
    pub fn with_name(&self, name: &str) -> (r: Option<&Metric>)
        requires
            self.wf(),
        ensures
            match r {
                Some(m) => self.spec_with_name(name@) == Some(*m) && m.name@ == name@,
                None => self.spec_with_name(name@) is None,
            },
    {
        broadcast use group_hash_axioms;

        let wanted = String::from_str(name);
        let count: usize = self.metrics_by_id.len();
        let mut i: usize = 0;
        while i < count
            invariant
                self.wf(),
                count == self@.len(),
                i <= count,
                wanted@ == name@,
                forall|k: int| 0 <= k < i ==> (#[trigger] self@[k]).name@ != name@,
            decreases count - i,
        {
            if let Some(m) = self.metrics_by_id.get(&i) {
                assert(*m == self@[i as int]);
                if m.name == wanted {
                    proof {
                        assert(has_name(self@, name@));
                        let p = position_of_name(self@, name@);
                        assert(self@[p].name@ == name@);
                        assert(p == i);
                    }
                    return Some(m);
                }
            }
            i += 1;
        }
        None
    }

    /// Narrows `id` to the value type `T`, if this registry holds a metric
    /// `id` whose values have that type.
    pub fn typed_id<T: MeasurementType>(&self, id: UntypedMetricId) -> (r: Option<
        TypedMetricId<T>,
    >)
        requires
            self.wf(),
        ensures
            r is Some <==> id.0 < self@.len() && self@[id.0 as int].value_type
                == T::spec_wrapped_type(),
            r is Some ==> r->0.spec_untyped_id() == id,
    {
        broadcast use group_hash_axioms;

        match self.metrics_by_id.get(&id.0) {
            Some(m) => if m.value_type == T::wrapped_type() {
                Some(TypedMetricId::narrowed(id))
            } else {
                None
            },
            None => None,
        }
    }

    /// The number of metrics in the registry.
    pub fn len(&self) -> (r: usize)
        ensures
            r == self@.len(),
    {
        self.metrics_by_id.len()
    }

    /// An iterator on the registered metrics, in the order of their ids.
    pub fn iter(&self) -> (r: MetricIter<'_>)
        requires
            self.wf(),
        ensures
            r.wf(),
            r.remaining() == self@,
    {
        MetricIter { metrics: &self.metrics_by_id, position: 0 }
    }

    /// Creates a new metric and registers it, unless a metric of that name
    /// exists. The name of a metric is not empty. A refusal leaves the registry as it was. A new metric gets
    /// the next free identifier and leaves the earlier descriptors as they were.
    pub fn create_metric(
        &mut self,
        name: &str,
        value_type: WrappedMeasurementType,
        unit: PrefixedUnit,
        description: &str,
    ) -> (r: Result<UntypedMetricId, MetricCreationError>)
        requires
            old(self).wf(),
            name@.len() > 0,
        ensures
            final(self).wf(),
            has_name(old(self)@, name@) ==> r is Err && r.unwrap_err().key@ == conflict_text(name@)
                && final(self)@ == old(self)@,
            !has_name(old(self)@, name@) ==> r == Ok::<UntypedMetricId, MetricCreationError>(
                UntypedMetricId(old(self)@.len() as usize),
            ) && appended(old(self)@, final(self)@, name@, value_type, unit, description@),
    {
        if self.with_name(name).is_some() {
            return Err(
                MetricCreationError::new(
                    String::from_str("A metric with this name already exist: ").concat(name),
                ),
            );
        }
        broadcast use group_hash_axioms;

        let id = UntypedMetricId(self.metrics_by_id.len());
        let m = Metric {
            id,
            name: String::from_str(name),
            description: String::from_str(description),
            value_type,
            unit,
        };
        let ghost before = self.metrics_by_id@;
        let _ = self.metrics_by_id.insert(id.0, m);
        proof {
            let after = self.metrics_by_id@;
            assert(!before.contains_key(id.0));
            assert(after.dom() =~= before.dom().insert(id.0));
            assert(after.len() == before.len() + 1);
            let old_seq = in_key_order(before);
            let new_seq = in_key_order(after);
            assert(new_seq.drop_last() =~= old_seq);
            assert(new_seq.last() == m);
            assert(keys_are_dense(after));
            assert forall|i: int| 0 <= i < old_seq.len() implies #[trigger] new_seq[i]
                == old_seq[i] && new_seq[i].name@ != name@ by {
                assert(new_seq.drop_last()[i] == new_seq[i]);
                if old_seq[i].name@ == name@ {
                    assert(has_name(old_seq, name@));
                }
            }
            assert(ids_are_dense(new_seq));
            assert(names_are_nonempty(new_seq));
            assert(names_are_unique(new_seq));
        }
        Ok(id)
    }
}

/// Why the published registry could not be set or read.
#[derive(Clone, Copy, Debug, PartialEq, Eq, Structural)]
pub enum GlobalRegistryError {
    /// A registry has been published before.
    AlreadyInitialized,
    /// No registry has been published yet.
    NotInitialized,
}

/// The one-shot cell that holds the published registry: empty at first,
/// filled once, and read-only from then on.
pub struct GlobalMetrics {
    slot: Option<MetricRegistry>,
}

/// What publishing `reg` does to a cell that holds `state`: the new content
/// of the cell and the outcome of the call.
pub open spec fn publish(state: Option<MetricRegistry>, reg: MetricRegistry) -> (
    Option<MetricRegistry>,
    Result<(), GlobalRegistryError>,
) {
    match state {
        None => (Some(reg), Ok(())),
        Some(_) => (state, Err(GlobalRegistryError::AlreadyInitialized)),
    }
}

/// What reading a cell that holds `state` gives.
pub open spec fn read_published(state: Option<MetricRegistry>) -> Result<
    MetricRegistry,
    GlobalRegistryError,
> {
    match state {
        None => Err(GlobalRegistryError::NotInitialized),
        Some(reg) => Ok(reg),
    }
}

impl GlobalMetrics {
    /// The registry that the cell holds, if one has been published.
    pub closed spec fn published(&self) -> Option<MetricRegistry> {
        self.slot
    }

    /// An empty cell.
    pub fn new() -> (r: GlobalMetrics)
        ensures
            r.published() is None,
    {
        GlobalMetrics { slot: None }
    }
}

impl MetricRegistry {
    /// Returns the published registry, or `NotInitialized` if none has been
    /// published to `cell` yet.
    pub fn global(cell: &GlobalMetrics) -> (r: Result<&MetricRegistry, GlobalRegistryError>)
        ensures
            match r {
                Ok(reg) => read_published(cell.published()) == Ok::<
                    MetricRegistry,
                    GlobalRegistryError,
                >(*reg),
                Err(e) => read_published(cell.published()) == Err::<
                    MetricRegistry,
                    GlobalRegistryError,
                >(e),
            },
    {
        match &cell.slot {
            Some(reg) => Ok(reg),
            None => Err(GlobalRegistryError::NotInitialized),
        }
    }

    /// Publishes `reg` to `cell`. Only the first publication succeeds; a
    /// later one fails with `AlreadyInitialized` and leaves the cell as it is.
    pub fn init_global(cell: &mut GlobalMetrics, reg: MetricRegistry) -> (r: Result<
        (),
        GlobalRegistryError,
    >)
        ensures
            (final(cell).published(), r) == publish(old(cell).published(), reg),
    {
        if cell.slot.is_some() {
            Err(GlobalRegistryError::AlreadyInitialized)
        } else {
            cell.slot = Some(reg);
            Ok(())
        }
    }
}

/// A cell accepts exactly one publication: reading an empty cell fails, the
/// first publication succeeds and is what later reads return, and every
/// publication after another one fails and changes nothing.
pub proof fn lemma_publish_once(
    state: Option<MetricRegistry>,
    first: MetricRegistry,
    second: MetricRegistry,
)
    ensures
        read_published(None) == Err::<MetricRegistry, GlobalRegistryError>(
            GlobalRegistryError::NotInitialized,
        ),
        publish(None, first) == (Some(first), Ok::<(), GlobalRegistryError>(())),
        read_published(publish(None, first).0) == Ok::<MetricRegistry, GlobalRegistryError>(first),
        publish(publish(state, first).0, second).1 == Err::<(), GlobalRegistryError>(
            GlobalRegistryError::AlreadyInitialized,
        ),
        publish(publish(state, first).0, second).0 == publish(state, first).0,
        publish(state, first).1 is Ok <==> state is None,
{
}

/// In a well-formed registry every descriptor is found again by its
/// identifier and by its name, and no other descriptor shares either.
pub proof fn lemma_registered_metric_resolves(reg: MetricRegistry, i: int)
    requires
        reg.wf(),
        0 <= i < reg@.len(),
    ensures
        reg.spec_with_id(reg@[i].id) == Some(reg@[i]),
        reg.spec_with_name(reg@[i].name@) == Some(reg@[i]),
        forall|j: int| 0 <= j < reg@.len() && j != i ==> (#[trigger] reg@[j]).id != reg@[i].id,
        forall|j: int| 0 <= j < reg@.len() && j != i ==> (#[trigger] reg@[j]).name@ != reg@[i].name@,
{
    assert(has_name(reg@, reg@[i].name@));
    let p = position_of_name(reg@, reg@[i].name@);
    assert(reg@[p].name@ == reg@[i].name@);
    assert(p == i);
}

/// `after` is `before` with one more descriptor at its end, which has the
/// next free identifier and the name `name`.
pub open spec fn extended_by(before: Seq<Metric>, after: Seq<Metric>, name: Seq<char>) -> bool {
    &&& after.len() == before.len() + 1
    &&& after.drop_last() == before
    &&& after.last().id.0 == before.len()
    &&& after.last().name@ == name
}

/// After a registration the registry knows the names it knew before and the
/// new one, and no others.
pub proof fn lemma_names_after_registration(
    before: Seq<Metric>,
    after: Seq<Metric>,
    name: Seq<char>,
    other: Seq<char>,
)
    requires
        extended_by(before, after, name),
    ensures
        has_name(after, other) <==> (has_name(before, other) || other == name),
{
    if has_name(before, other) {
        let i = position_of_name(before, other);
        assert(after.drop_last()[i] == after[i]);
        assert(after[i].name@ == other);
    }
    if other == name {
        assert(after[after.len() - 1].name@ == other);
    }
    if has_name(after, other) {
        let i = position_of_name(after, other);
        if i < before.len() {
            assert(after.drop_last()[i] == after[i]);
            assert(before[i].name@ == other);
        }
    }
}

/// A run of registrations: `states[0]` is the registry before the first
/// one, and the registration of `names[i]` leads from `states[i]` to
/// `states[i + 1]`.
pub open spec fn registration_run(states: Seq<Seq<Metric>>, names: Seq<Seq<char>>) -> bool {
    &&& states.len() == names.len() + 1
    &&& forall|i: int|
        0 <= i < names.len() ==> extended_by(#[trigger] states[i], states[i + 1], names[i])
}

/// In a run of registrations, the registry before the `i`-th one holds `i`
/// descriptors more than at the start, and knows no name but those of the
/// start and those registered so far.
pub proof fn lemma_run_grows_by_its_names(
    states: Seq<Seq<Metric>>,
    names: Seq<Seq<char>>,
    i: int,
    other: Seq<char>,
)
    requires
        registration_run(states, names),
        0 <= i <= names.len(),
    ensures
        states[i].len() == states[0].len() + i,
        has_name(states[i], other) ==> has_name(states[0], other) || exists|j: int|
            0 <= j < i && #[trigger] names[j] == other,
    decreases i,
{
    if i > 0 {
        lemma_run_grows_by_its_names(states, names, i - 1, other);
        assert(extended_by(states[i - 1], states[i - 1 + 1], names[i - 1]));
        lemma_names_after_registration(states[i - 1], states[i], names[i - 1], other);
        if has_name(states[i], other) && !has_name(states[0], other) {
            if other == names[i - 1] {
                assert(names[i - 1] == other);
            } else {
                let j = choose|j: int| 0 <= j < i - 1 && #[trigger] names[j] == other;
                assert(0 <= j < i && names[j] == other);
            }
        }
    }
}

/// Registrations with names that differ from each other and from the names
/// already known all succeed: no name is taken when its turn comes. The
/// `i`-th one gets the identifier that follows the `i - 1` before it, so the
/// identifiers differ from each other and from every identifier that the
/// registry held at the start.
pub proof fn lemma_distinct_names_get_distinct_ids(
    states: Seq<Seq<Metric>>,
    names: Seq<Seq<char>>,
    i: int,
    j: int,
)
    requires
        ids_are_dense(states[0]),
        registration_run(states, names),
        forall|a: int, b: int|
            0 <= a < names.len() && 0 <= b < names.len() && a != b ==> #[trigger] names[a]
                != #[trigger] names[b],
        forall|a: int| 0 <= a < names.len() ==> !has_name(states[0], #[trigger] names[a]),
        0 <= i < names.len(),
        0 <= j < names.len(),
        i != j,
    ensures
        !has_name(states[i], names[i]),
        states[i + 1].last().id.0 == states[0].len() + i,
        states[i + 1].last().id != states[j + 1].last().id,
        forall|k: int|
            0 <= k < states[0].len() ==> (#[trigger] states[0][k]).id != states[i + 1].last().id,
{
    lemma_run_grows_by_its_names(states, names, i, names[i]);
    lemma_run_grows_by_its_names(states, names, j, names[j]);
    assert(extended_by(states[i], states[i + 1], names[i]));
    assert(extended_by(states[j], states[j + 1], names[j]));
}

/// The content of a cell after each registry of `regs` has been published
/// to it in turn.
pub open spec fn published_after(
    state: Option<MetricRegistry>,
    regs: Seq<MetricRegistry>,
) -> Option<MetricRegistry>
    decreases regs.len(),
{
    if regs.len() == 0 {
        state
    } else {
        publish(published_after(state, regs.drop_last()), regs.last()).0
    }
}

/// The number of publications that succeed when each registry of `regs` is
/// published in turn.
pub open spec fn successful_publications(
    state: Option<MetricRegistry>,
    regs: Seq<MetricRegistry>,
) -> nat
    decreases regs.len(),
{
    if regs.len() == 0 {
        0
    } else {
        successful_publications(state, regs.drop_last()) + if publish(
            published_after(state, regs.drop_last()),
            regs.last(),
        ).1 is Ok {
            1nat
        } else {
            0nat
        }
    }
}

/// Of any number of publications to an empty cell exactly one succeeds,
/// the first: every later one fails with `AlreadyInitialized`, and the cell
/// holds the first registry from then on, which is what a read returns.
pub proof fn lemma_exactly_one_publication_succeeds(regs: Seq<MetricRegistry>)
    requires
        regs.len() >= 1,
    ensures
        successful_publications(None, regs) == 1,
        published_after(None, regs) == Some(regs[0]),
        read_published(published_after(None, regs)) == Ok::<MetricRegistry, GlobalRegistryError>(
            regs[0],
        ),
        regs.len() >= 2 ==> publish(published_after(None, regs.drop_last()), regs.last()).1
            == Err::<(), GlobalRegistryError>(GlobalRegistryError::AlreadyInitialized),
    decreases regs.len(),
{
    if regs.len() == 1 {
        assert(published_after(None, regs.drop_last()) == None::<MetricRegistry>);
        assert(successful_publications(None, regs.drop_last()) == 0);
    } else {
        lemma_exactly_one_publication_succeeds(regs.drop_last());
        assert(regs.drop_last()[0] == regs[0]);
    }
}

/// Registrations never reuse or change what was registered before: when a
/// well-formed registry `after` extends `before`, every descriptor of
/// `before` is found in `after` by the same identifier and the same name, and
/// every descriptor that was added has an identifier that `before` did not
/// know.
pub proof fn lemma_registration_is_stable(before: MetricRegistry, after: MetricRegistry, i: int)
    requires
        before.wf(),
        after.wf(),
        before@.is_prefix_of(after@),
        0 <= i < before@.len(),
    ensures
        after.spec_with_id(before@[i].id) == Some(before@[i]),
        after.spec_with_name(before@[i].name@) == Some(before@[i]),
        forall|j: int|
            before@.len() <= j < after@.len() ==> before.spec_with_id((#[trigger] after@[j]).id)
                is None,
{
    assert(after@[i] == before@[i]);
    lemma_registered_metric_resolves(after, i);
}

/// An iterator on the metrics of a registry.
pub struct MetricIter<'a> {
    metrics: &'a HashMap<usize, Metric>,
    position: usize,
}

impl<'a> MetricIter<'a> {
    /// The descriptors that are yet to come, in order.
    pub closed spec fn remaining(&self) -> Seq<Metric> {
        if self.position <= self.metrics@.len() {
            in_key_order(self.metrics@).skip(self.position as int)
        } else {
            Seq::empty()
        }
    }

    /// The iterator walks a map whose keys are the numbers of the
    /// identifiers in use, as that of a well-formed registry is.
    pub closed spec fn wf(&self) -> bool {
        keys_are_dense(self.metrics@)
    }

    /// Yields the next descriptor, or `None` when all have been seen.
    pub fn next(&mut self) -> (r: Option<&'a Metric>)
        requires
            old(self).wf(),
        ensures
            final(self).wf(),
            old(self).remaining().len() == 0 ==> {
                &&& r is None
                &&& final(self).remaining() == old(self).remaining()
            },
            old(self).remaining().len() > 0 ==> {
                &&& r == Some(&old(self).remaining()[0])
                &&& final(self).remaining() == old(self).remaining().drop_first()
            },
    {
        broadcast use group_hash_axioms;

        if self.position < self.metrics.len() {
            let m = self.metrics.get(&self.position);
            self.position += 1;
            proof {
                assert(final(self).remaining() =~= old(self).remaining().drop_first());
            }
            m
        } else {
            None
        }
    }
}

/// A registry of pipeline elements, each with the name of the plugin that
/// registered it, in the order of registration.
pub struct ElementRegistry<S: Source, T: Transform, O: Output> {
    pub sources: Vec<(S, String)>,
    pub transforms: Vec<ConfiguredTransform<T>>,
    pub outputs: Vec<ConfiguredOutput<O>>,
}

impl<S: Source, T: Transform, O: Output> ElementRegistry<S, T, O> {
    /// Creates an empty registry.
    pub fn new() -> (r: Self)
        ensures
            r.sources@.len() == 0,
            r.transforms@.len() == 0,
            r.outputs@.len() == 0,
    {
        ElementRegistry { sources: Vec::new(), transforms: Vec::new(), outputs: Vec::new() }
    }

    /// Returns the total number of sources in the registry (all plugins included).
    pub fn source_count(&self) -> (r: usize)
        ensures
            r == self.sources@.len(),
    {
        self.sources.len()
    }

    /// Returns the total number of transforms in the registry (all plugins included).
    pub fn transform_count(&self) -> (r: usize)
        ensures
            r == self.transforms@.len(),
    {
        self.transforms.len()
    }

    /// Returns the total number of outputs in the registry (all plugins included).
    pub fn output_count(&self) -> (r: usize)
        ensures
            r == self.outputs@.len(),
    {
        self.outputs.len()
    }

    /// Appends a source registered by the plugin `plugin_name`.
    pub fn add_source(&mut self, plugin_name: String, source: S)
        ensures
            final(self).sources@ == old(self).sources@.push((source, plugin_name)),
            final(self).transforms == old(self).transforms,
            final(self).outputs == old(self).outputs,
    {
        self.sources.push((source, plugin_name));
    }

    /// Appends a transform registered by the plugin `plugin_name`.
    pub fn add_transform(&mut self, plugin_name: String, transform: T)
        ensures
            final(self).transforms@ == old(self).transforms@.push(
                (ConfiguredTransform { transform, plugin_name }),
            ),
            final(self).sources == old(self).sources,
            final(self).outputs == old(self).outputs,
    {
        self.transforms.push(ConfiguredTransform { transform, plugin_name });
    }

    /// Appends an output registered by the plugin `plugin_name`.
    pub fn add_output(&mut self, plugin_name: String, output: O)
        ensures
            final(self).outputs@ == old(self).outputs@.push(
                (ConfiguredOutput { output, plugin_name }),
            ),
            final(self).sources == old(self).sources,
            final(self).transforms == old(self).transforms,
    {
        self.outputs.push(ConfiguredOutput { output, plugin_name });
    }
}

} // verus!
