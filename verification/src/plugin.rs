//! Detection plugins: their configuration and the component that holds their code.
use crate::json::{clone_value, json_text, to_vec};
use crate::permissions::{Permissions, PermissionsView};
use crate::wasm::{
    compile_any, compile_binary, new_engine, CompileError, CompiledComponent, ComponentOrigin,
    EngineError, EngineSettings, WasmEngine,
};
use std::sync::Arc;
use vstd::prelude::*;
use vstd::string::StringSliceAdditionalSpecFns;

verus! {

/// The configuration of a plugin.
pub struct PluginConfig {
    /// The name that the plugin is known by.
    pub reference: String,
    /// How much the decisions of the plugin count, as the bits of an IEEE 754 double.
    pub weight: u64,
    /// The configuration that is handed to the plugin's code.
    pub config: serde_json::Value,
    /// What the plugin may reach outside its sandbox.
    pub permissions: Permissions,
}

/// What a plugin's configuration says, the part for the plugin's code as its JSON text.
pub ghost struct PluginConfigView {
    pub reference: Seq<char>,
    pub weight: u64,
    pub config: Seq<u8>,
    pub permissions: PermissionsView,
}

impl View for PluginConfig {
    type V = PluginConfigView;

    open spec fn view(&self) -> PluginConfigView {
        PluginConfigView {
            reference: self.reference@,
            weight: self.weight,
            config: json_text(self.config),
            permissions: self.permissions@,
        }
    }
}

impl Clone for PluginConfig {
    fn clone(&self) -> (copy: Self)
        ensures
            copy@ == self@,
    {
        PluginConfig {
            reference: self.reference.clone(),
            weight: self.weight,
            config: clone_value(&self.config),
            permissions: self.permissions.clone(),
        }
    }
}

/// Why a plugin could not be loaded.
pub enum PluginLoadError {
    /// The engine could not be made.
    Engine(EngineError),
    /// The compiler refused the plugin's code.
    Compile(CompileError),
}

impl PluginLoadError {
    /// Whether this is the answer to an attempt to load the code `bytes`: no engine for plugins
    /// could be made, or the compiler refused these very bytes, in this format and on an engine
    /// made for plugins.
    pub open spec fn answers(self, bytes: Seq<u8>, text_accepted: bool) -> bool {
        match self {
            PluginLoadError::Engine(refused) => refused.settings()
                == EngineSettings::for_plugins_spec(),
            PluginLoadError::Compile(refused) => {
                &&& refused.origin().bytes == bytes
                &&& refused.origin().text_accepted == text_accepted
                &&& refused.origin().settings == EngineSettings::for_plugins_spec()
            },
        }
    }
}

/// Why a plugin's configuration could not be serialized.
pub enum ConfigSerializationError {
    Json(serde_json::Error),
}

/// A singular detection plugin. It provides the interface between WASM host and guest.
///
/// One `Plugin` may spawn many plugin instances, which will handle the incoming request data.
pub struct Plugin {
    pub reference: String,
    pub config: Arc<PluginConfig>,
    pub engine: WasmEngine,
    pub component: CompiledComponent,
}

/// What a plugin is known by, how it is configured and what it runs.
pub ghost struct PluginView {
    pub reference: Seq<char>,
    pub config: PluginConfigView,
    pub engine: wasmtime::Engine,
    pub settings: EngineSettings,
    pub origin: ComponentOrigin,
}

impl View for Plugin {
    type V = PluginView;

    open spec fn view(&self) -> PluginView {
        PluginView {
            reference: self.reference@,
            config: self.config@,
            engine: self.engine.engine,
            settings: self.engine.settings,
            origin: self.component.origin(),
        }
    }
}

impl Clone for Plugin {
    fn clone(&self) -> (copy: Self)
        ensures
            copy@ == self@,
            copy.engine == self.engine,
            copy.component == self.component,
    {
        Plugin {
            reference: self.reference.clone(),
            config: self.config.clone(),
            engine: self.engine.clone(),
            component: self.component.clone(),
        }
    }
}

impl PluginView {
    /// Whether the plugin can be run: its code was compiled for the engine that it keeps.
    pub open spec fn is_runnable(self) -> bool {
        self.origin.engine == self.engine && self.origin.settings == self.settings
    }

    /// A plugin whose code was compiled from `bytes` for `engine`, which was made for plugins and
    /// which the plugin keeps.
    pub open spec fn compiled(
        reference: Seq<char>,
        config: PluginConfigView,
        engine: wasmtime::Engine,
        bytes: Seq<u8>,
        text_accepted: bool,
    ) -> PluginView {
        PluginView {
            reference,
            config,
            engine,
            settings: EngineSettings::for_plugins_spec(),
            origin: ComponentOrigin {
                bytes,
                text_accepted,
                engine,
                settings: EngineSettings::for_plugins_spec(),
            },
        }
    }
}

impl Plugin {
    /// Creates and compiles a new [`Plugin`] from a string of
    /// [WAT](https://webassembly.github.io/spec/core/text/index.html)-formatted WASM.
    pub fn from_wat(name: String, wat: &str, config: &PluginConfig) -> (r: Result<
        Plugin,
        PluginLoadError,
    >)
        ensures
            match r {
                Ok(plugin) => plugin@ == PluginView::compiled(
                    name@,
                    config@,
                    plugin.engine.engine,
                    wat.spec_bytes(),
                    true,
                ),
                Err(error) => error.answers(wat.spec_bytes(), true),
            },
    {
        Plugin::from_engine(
            name,
            config,
            new_engine(EngineSettings::for_plugins()),
            wat.as_bytes(),
            true,
        )
    }

    /// Creates and compiles a new [`Plugin`] from a byte slice of WASM.
    ///
    /// The bytes it expects are what you'd get if you read in a `*.wasm` file.
    pub fn from_bytes(name: String, bytes: &[u8], config: &PluginConfig) -> (r: Result<
        Plugin,
        PluginLoadError,
    >)
        ensures
            match r {
                Ok(plugin) => plugin@ == PluginView::compiled(
                    name@,
                    config@,
                    plugin.engine.engine,
                    bytes@,
                    false,
                ),
                Err(error) => error.answers(bytes@, false),
            },
    {
        Plugin::from_engine(
            name,
            config,
            new_engine(EngineSettings::for_plugins()),
            bytes,
            false,
        )
    }

    /// Creates and compiles a new [`Plugin`] from the contents of a file in either `*.wasm` or
    /// `*.wat` format. It is known by the name in its configuration.
    pub fn from_file(contents: &[u8], config: &PluginConfig) -> (r: Result<Plugin, PluginLoadError>)
        ensures
            match r {
                Ok(plugin) => plugin@ == PluginView::compiled(
                    config@.reference,
                    config@,
                    plugin.engine.engine,
                    contents@,
                    true,
                ),
                Err(error) => error.answers(contents@, true),
            },
    {
        let name: String = config.reference.clone();
        Plugin::from_engine(
            name,
            config,
            new_engine(EngineSettings::for_plugins()),
            contents,
            true,
        )
    }

    /// Compiles a plugin on the engine that was made for it; where none could be made, says why.
    /// The code may be in the text format only where `text_accepted` says so.
    pub fn from_engine(
        reference: String,
        config: &PluginConfig,
        engine: Result<WasmEngine, EngineError>,
        code: &[u8],
        text_accepted: bool,
    ) -> (r: Result<Plugin, PluginLoadError>)
        ensures
            match engine {
                Ok(made) => match r {
                    Ok(plugin) => {
                        &&& plugin@ == PluginView {
                            reference: reference@,
                            config: config@,
                            engine: made.engine,
                            settings: made.settings,
                            origin: ComponentOrigin::of(code@, text_accepted, made),
                        }
                        &&& plugin.engine == made
                    },
                    Err(PluginLoadError::Compile(refused)) => refused.origin()
                        == ComponentOrigin::of(code@, text_accepted, made),
                    Err(PluginLoadError::Engine(_)) => false,
                },
                Err(refused) => r == Err::<Plugin, PluginLoadError>(
                    PluginLoadError::Engine(refused),
                ),
            },
    {
        match engine {
            Ok(made) => {
                let component = if text_accepted {
                    compile_any(&made, code)
                } else {
                    compile_binary(&made, code)
                };
                Plugin::from_component(reference, config, made, component)
            },
            Err(refused) => Err(PluginLoadError::Engine(refused)),
        }
    }

    /// Makes a plugin of what the compiler answered.
    pub fn from_component(
        reference: String,
        config: &PluginConfig,
        engine: WasmEngine,
        component: Result<CompiledComponent, CompileError>,
    ) -> (r: Result<Plugin, PluginLoadError>)
        ensures
            match component {
                Ok(compiled) => {
                    &&& r is Ok
                    &&& r->Ok_0@ == PluginView {
                        reference: reference@,
                        config: config@,
                        engine: engine.engine,
                        settings: engine.settings,
                        origin: compiled.origin(),
                    }
                    &&& r->Ok_0.engine == engine
                    &&& r->Ok_0.component == compiled
                },
                Err(refused) => r == Err::<Plugin, PluginLoadError>(
                    PluginLoadError::Compile(refused),
                ),
            },
    {
        match component {
            Ok(compiled) => Ok(
                Plugin {
                    reference,
                    config: Arc::new(config.clone()),
                    engine,
                    component: compiled,
                },
            ),
            Err(refused) => Err(PluginLoadError::Compile(refused)),
        }
    }

    /// Makes the guest's configuration available as serialized JSON bytes.
    pub fn guest_config(&self) -> (r: Result<Vec<u8>, ConfigSerializationError>)
        ensures
            r is Ok,
            r->Ok_0@ == self@.config.config,
    {
        match to_vec(&self.config.config) {
            Ok(text) => Ok(text),
            Err(error) => Err(ConfigSerializationError::Json(error)),
        }
    }

    /// Makes the permissions the plugin has been granted available to the guest environment.
    pub fn permissions(&self) -> (permissions: Permissions)
        ensures
            permissions@ == self@.config.permissions,
    {
        self.config.permissions.clone()
    }
}

} // verus!
