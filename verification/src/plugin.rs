//! The plugin record: a name, a configuration, and the inspectors it makes.

use crate::history::Tally;
use crate::HelloWorldInspector;
use core::convert::Infallible;
use vstd::prelude::*;

verus! {

/// What a host may ask of the plugin: three independent flags. They are
/// carried for the host's sake; no hook of the inspector consults them.
#[derive(Debug, Clone, Copy)]
pub struct HelloWorldInspectorConfig {
    /// Verbose logging is wanted.
    pub verbose: bool,
    /// Logging of single execution steps is wanted.
    pub log_steps: bool,
    /// Tracing of calls is wanted.
    pub trace_calls: bool,
}

impl Default for HelloWorldInspectorConfig {
    /// The configuration with every flag off.
    fn default() -> (config: Self)
        ensures
            !config.verbose,
            !config.log_steps,
            !config.trace_calls,
    {
        HelloWorldInspectorConfig { verbose: false, log_steps: false, trace_calls: false }
    }
}

/// The plugin that offers the HelloWorldInspector to a host. It owns one
/// configuration and keeps no inspector of its own.
#[derive(Debug, Clone, Copy)]
pub struct HelloWorldInspectorPlugin {
    config: HelloWorldInspectorConfig,
}

impl View for HelloWorldInspectorPlugin {
    type V = HelloWorldInspectorConfig;

    /// A plugin is, to its users, the configuration it holds.
    closed spec fn view(&self) -> HelloWorldInspectorConfig {
        self.config
    }
}

impl Default for HelloWorldInspectorPlugin {
    /// The plugin with every flag of its configuration off.
    fn default() -> (plugin: Self)
        ensures
            plugin@ == (HelloWorldInspectorConfig {
                verbose: false,
                log_steps: false,
                trace_calls: false,
            }),
    {
        HelloWorldInspectorPlugin { config: HelloWorldInspectorConfig::default() }
    }
}

/// The name under which a host's plugin registry knows the plugin.
pub open spec fn plugin_name() -> Seq<char> {
    "hello-world-inspector"@
}

/// What the plugin is called when it is displayed.
pub open spec fn plugin_label() -> Seq<char> {
    "HelloWorldInspectorPlugin"@
}

impl HelloWorldInspectorPlugin {
    /// The plugin that holds `config`.
    pub fn new(config: HelloWorldInspectorConfig) -> (plugin: Self)
        ensures
            plugin@ == config,
    {
        HelloWorldInspectorPlugin { config }
    }

    /// The plugin's name, the same for every configuration.
    pub fn name(&self) -> (name: &'static str)
        ensures
            name@ == plugin_name(),
    {
        "hello-world-inspector"
    }

    /// The configuration that the plugin holds.
    pub fn config(&self) -> (config: &HelloWorldInspectorConfig)
        ensures
            *config == self@,
    {
        &self.config
    }

    /// Makes the plugin ready. There is nothing to prepare and no registry
    /// to refuse the plugin, so this succeeds on every plugin.
    pub fn init(&self) -> (outcome: Result<(), Infallible>)
        ensures
            outcome is Ok,
    {
        Ok(())
    }

    /// Makes an inspector for one traced execution: a new one at each call,
    /// with both counters at zero.
    pub fn create_inspector(&self) -> (inspector: HelloWorldInspector)
        ensures
            inspector.step_count == 0,
            inspector.call_count == 0,
            inspector@ == Tally::zero(),
    {
        HelloWorldInspector::default()
    }

    /// The text that the plugin is displayed as.
    pub fn label(&self) -> (text: String)
        ensures
            text@ == plugin_label(),
    {
        String::from_str("HelloWorldInspectorPlugin")
    }
}

/// Makes the plugin with the default configuration, every flag off.
pub fn create_plugin() -> (plugin: HelloWorldInspectorPlugin)
    ensures
        plugin@ == (HelloWorldInspectorConfig {
            verbose: false,
            log_steps: false,
            trace_calls: false,
        }),
{
    HelloWorldInspectorPlugin::default()
}

/// Makes a configuration with step logging and call tracing on, and
/// verbosity as given.
pub fn create_config(verbose: bool) -> (config: HelloWorldInspectorConfig)
    ensures
        config == (HelloWorldInspectorConfig { verbose, log_steps: true, trace_calls: true }),
{
    HelloWorldInspectorConfig { verbose, log_steps: true, trace_calls: true }
}

/// Makes a configuration with each flag as given.
pub fn create_detailed_config(verbose: bool, log_steps: bool, trace_calls: bool) -> (config:
    HelloWorldInspectorConfig)
    ensures
        config == (HelloWorldInspectorConfig { verbose, log_steps, trace_calls }),
{
    HelloWorldInspectorConfig { verbose, log_steps, trace_calls }
}

} // verus!
