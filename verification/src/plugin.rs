//! What a plugin sees while it starts: it can create metrics, register
//! pipeline elements and read its own configuration, and nothing else.

use vstd::prelude::*;

use crate::measurement::MeasurementType;
use crate::metrics::Metric;
use crate::metrics::MetricCreationError;
use crate::metrics::MetricId;
use crate::metrics::TypedMetricId;
use crate::pipeline::ConfiguredOutput;
use crate::pipeline::ConfiguredTransform;
use crate::pipeline::Output;
use crate::pipeline::Source;
use crate::pipeline::Transform;
use crate::registry::appended;
use crate::registry::conflict_text;
use crate::registry::has_name;
use crate::registry::ElementRegistry;
use crate::registry::MetricRegistry;
use crate::units::PrefixedUnit;

verus! {

/// A value of a plugin's configuration.
#[derive(Debug, PartialEq, Eq)]
pub enum ConfigValue {
    String(String),
    Integer(i64),
    Boolean(bool),
}

/// The handle that a plugin gets during its start-up phase.
pub struct AlumetStart<S: Source, T: Transform, O: Output> {
    metrics: MetricRegistry,
    pipeline_elements: ElementRegistry<S, T, O>,
    current_plugin_name: String,
    plugin_config: Vec<(String, ConfigValue)>,
}

impl<S: Source, T: Transform, O: Output> AlumetStart<S, T, O> {
    /// The descriptors of the metrics registered so far.
    pub closed spec fn metrics(&self) -> Seq<Metric> {
        self.metrics@
    }

    /// The sources registered so far, each with its plugin's name.
    pub closed spec fn sources(&self) -> Seq<(S, String)> {
        self.pipeline_elements.sources@
    }

    /// The transforms registered so far, each with its plugin's name.
    pub closed spec fn transforms(&self) -> Seq<ConfiguredTransform<T>> {
        self.pipeline_elements.transforms@
    }

    /// The outputs registered so far, each with its plugin's name.
    pub closed spec fn outputs(&self) -> Seq<ConfiguredOutput<O>> {
        self.pipeline_elements.outputs@
    }

    /// The name of the plugin that holds this handle.
    pub closed spec fn plugin_name(&self) -> String {
        self.current_plugin_name
    }

    /// The configuration entries of the plugin that holds this handle.
    pub closed spec fn config(&self) -> Seq<(String, ConfigValue)> {
        self.plugin_config@
    }

    /// The metric registry behind the handle is well formed.
    pub closed spec fn wf(&self) -> bool {
        self.metrics.wf()
    }

    /// A handle for the plugin `plugin_name` on the two registries.
    pub fn new(
        metrics: MetricRegistry,
        pipeline_elements: ElementRegistry<S, T, O>,
        plugin_name: String,
        plugin_config: Vec<(String, ConfigValue)>,
    ) -> (r: Self)
        requires
            metrics.wf(),
        ensures
            r.wf(),
            r.metrics() == metrics@,
            r.sources() == pipeline_elements.sources@,
            r.transforms() == pipeline_elements.transforms@,
            r.outputs() == pipeline_elements.outputs@,
            r.plugin_name() == plugin_name,
            r.config() == plugin_config@,
    {
        AlumetStart { metrics, pipeline_elements, current_plugin_name: plugin_name, plugin_config }
    }

    /// Gives the two registries back when the plugin has started.
    pub fn into_registries(self) -> (r: (MetricRegistry, ElementRegistry<S, T, O>))
        requires
            self.wf(),
        ensures
            r.0.wf(),
            r.0@ == self.metrics(),
            r.1.sources@ == self.sources(),
            r.1.transforms@ == self.transforms(),
            r.1.outputs@ == self.outputs(),
    {
        (self.metrics, self.pipeline_elements)
    }

    /// Creates a metric whose values have the type `V` and whose name is not
    /// empty, unless a metric of that name exists; a refusal changes nothing. The identifier returned
    /// is the next free one, narrowed to `V`.
    pub fn create_metric<V: MeasurementType>(
        &mut self,
        name: &str,
        unit: PrefixedUnit,
        description: &str,
    ) -> (r: Result<TypedMetricId<V>, MetricCreationError>)
        requires
            old(self).wf(),
            name@.len() > 0,
        ensures
            final(self).wf(),
            final(self).sources() == old(self).sources(),
            final(self).transforms() == old(self).transforms(),
            final(self).outputs() == old(self).outputs(),
            final(self).plugin_name() == old(self).plugin_name(),
            final(self).config() == old(self).config(),
            has_name(old(self).metrics(), name@) ==> r is Err && r->Err_0.key@
                == conflict_text(name@) && final(self).metrics() == old(self).metrics(),
            !has_name(old(self).metrics(), name@) ==> r is Ok && r->Ok_0.spec_untyped_id().0
                == old(self).metrics().len() && appended(
                old(self).metrics(),
                final(self).metrics(),
                name@,
                V::spec_wrapped_type(),
                unit,
                description@,
            ),
    {
        match self.metrics.create_metric(name, V::wrapped_type(), unit, description) {
            Ok(id) => Ok(TypedMetricId::narrowed(id)),
            Err(e) => Err(e),
        }
    }

    /// Registers `source` under the name of this plugin.
    pub fn add_source(&mut self, source: S)
        ensures
            final(self).sources() == old(self).sources().push((source, old(self).plugin_name())),
            final(self).transforms() == old(self).transforms(),
            final(self).outputs() == old(self).outputs(),
            final(self).metrics() == old(self).metrics(),
            final(self).wf() == old(self).wf(),
            final(self).plugin_name() == old(self).plugin_name(),
            final(self).config() == old(self).config(),
    {
        let plugin = self.current_plugin_name.clone();
        self.pipeline_elements.add_source(plugin, source);
    }

    /// Registers `transform` under the name of this plugin.
    pub fn add_transform(&mut self, transform: T)
        ensures
            final(self).transforms() == old(self).transforms().push(
                (ConfiguredTransform { transform, plugin_name: old(self).plugin_name() }),
            ),
            final(self).sources() == old(self).sources(),
            final(self).outputs() == old(self).outputs(),
            final(self).metrics() == old(self).metrics(),
            final(self).wf() == old(self).wf(),
            final(self).plugin_name() == old(self).plugin_name(),
            final(self).config() == old(self).config(),
    {
        let plugin = self.current_plugin_name.clone();
        self.pipeline_elements.add_transform(plugin, transform);
    }

    /// Registers `output` under the name of this plugin.
    pub fn add_output(&mut self, output: O)
        ensures
            final(self).outputs() == old(self).outputs().push(
                (ConfiguredOutput { output, plugin_name: old(self).plugin_name() }),
            ),
            final(self).sources() == old(self).sources(),
            final(self).transforms() == old(self).transforms(),
            final(self).metrics() == old(self).metrics(),
            final(self).wf() == old(self).wf(),
            final(self).plugin_name() == old(self).plugin_name(),
            final(self).config() == old(self).config(),
    {
        let plugin = self.current_plugin_name.clone();
        self.pipeline_elements.add_output(plugin, output);
    }

    /// The configuration entries of this plugin.
    pub fn plugin_config(&self) -> (r: &Vec<(String, ConfigValue)>)
        ensures
            r@ == self.config(),
    {
        &self.plugin_config
    }
}

} // verus!
