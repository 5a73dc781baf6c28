//! Instances of plugins, each of which processes one request.
use crate::context::{ContextView, RequestContext};
use crate::decision::{DecisionComponents, Outcome};
use crate::interface::{copy_strings, Response};
use crate::plugin::{Plugin, PluginView};
use std::sync::Arc;
use vstd::prelude::*;

verus! {

/// An instance of a [`Plugin`], associated with a [`RequestContext`].
pub struct PluginInstance {
    /// A reference to the parent `Plugin` and its configuration.
    pub plugin: Arc<Plugin>,
    /// The state associated with the incoming request.
    pub context: RequestContext,
}

/// What an instance runs and on what.
pub ghost struct InstanceView {
    pub plugin: PluginView,
    pub context: ContextView,
}

impl View for PluginInstance {
    type V = InstanceView;

    open spec fn view(&self) -> InstanceView {
        InstanceView { plugin: self.plugin@, context: self.context@ }
    }
}

impl InstanceView {
    /// The instance after the host recorded a response.
    pub open spec fn with_response(self, response: Response) -> InstanceView {
        InstanceView {
            context: self.context.with_host(self.context.host.with_response(response@)),
            ..self
        }
    }

    /// The instance after the host recorded a combined decision.
    pub open spec fn with_combined_decision(
        self,
        components: DecisionComponents,
        outcome: Outcome,
    ) -> InstanceView {
        InstanceView {
            context: self.context.with_host(
                self.context.host.with_combined_decision(components@, outcome),
            ),
            ..self
        }
    }
}

impl PluginInstance {
    /// Associates a [`Plugin`] with the state of a request.
    ///
    /// # Arguments
    ///
    /// * `plugin` - The plugin we are creating a `PluginInstance` for.
    /// * `request_context` - The request context stores all of the state associated with an
    ///   incoming request and its corresponding response.
    pub fn new(plugin: Arc<Plugin>, request_context: RequestContext) -> (instance: PluginInstance)
        ensures
            instance.plugin == plugin,
            instance.context == request_context,
    {
        PluginInstance { plugin, context: request_context }
    }

    /// Returns the configured weight value for tuning decision values, as the bits of an IEEE 754
    /// double.
    pub fn weight(&self) -> (weight: u64)
        ensures
            weight == self@.plugin.config.weight,
    {
        self.plugin.config.weight
    }

    /// Records a [`Response`] so that it will be accessible to the plugin guest environment.
    pub fn record_response(&mut self, response: Arc<Response>)
        ensures
            final(self)@ == old(self)@.with_response(*response),
    {
        self.context.record_response(response);
    }

    /// Records the combined decision, its tags, and the associated [`Outcome`] so that they will
    /// be accessible to the plugin guest environment.
    pub fn record_combined_decision(
        &mut self,
        decision_components: &DecisionComponents,
        outcome: Outcome,
    )
        ensures
            final(self)@ == old(self)@.with_combined_decision(*decision_components, outcome),
    {
        self.context.record_combined_decision(decision_components, outcome);
    }

    /// Returns the plugin's identifier.
    pub fn plugin_reference(&self) -> (reference: String)
        ensures
            reference@ == self@.plugin.reference,
    {
        self.plugin.reference.clone()
    }

    /// Returns the decision components from the [`RequestContext`].
    pub fn decision(&self) -> (components: DecisionComponents)
        ensures
            components@ == self@.context.components(),
    {
        DecisionComponents {
            decision: self.context.decision,
            tags: copy_strings(&self.context.tags),
        }
    }
}

} // verus!
