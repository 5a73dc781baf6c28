//! The WebAssembly engine that plugins run on and the components that are compiled for it.
use vstd::prelude::*;

verus! {

#[verifier::external_type_specification]
#[verifier::external_body]
pub struct ExWasmtimeEngine(wasmtime::Engine);

#[verifier::external_type_specification]
#[verifier::external_body]
pub struct ExWasmtimeComponent(wasmtime::component::Component);

#[verifier::external_type_specification]
#[verifier::external_body]
pub struct ExWasmtimeError(wasmtime::Error);

/// When backtraces of a plugin are resolved to the source that it was compiled from.
#[derive(Clone, Copy, PartialEq, Eq, Structural, Debug)]
pub enum BacktraceDetails {
    Enable,
    Disable,
    Environment,
}

/// How an engine is configured.
#[derive(Clone, Copy, PartialEq, Eq, Structural, Debug)]
pub struct EngineSettings {
    pub backtrace_details: BacktraceDetails,
    pub multi_memory: bool,
    pub component_model: bool,
    pub async_support: bool,
}

impl EngineSettings {
    /// The configuration of every engine that a plugin runs on.
    pub open spec fn for_plugins_spec() -> EngineSettings {
        EngineSettings {
            backtrace_details: BacktraceDetails::Enable,
            multi_memory: true,
            component_model: true,
            async_support: true,
        }
    }

    /// Makes the configuration of every engine that a plugin runs on.
    pub fn for_plugins() -> (settings: EngineSettings)
        ensures
            settings == EngineSettings::for_plugins_spec(),
    {
        EngineSettings {
            backtrace_details: BacktraceDetails::Enable,
            multi_memory: true,
            component_model: true,
            async_support: true,
        }
    }
}

/// An engine and the configuration that it was made with.
pub struct WasmEngine {
    pub engine: wasmtime::Engine,
    pub settings: EngineSettings,
}

/// Why an engine could not be made, and with which configuration that was tried.
pub struct EngineError {
    pub error: wasmtime::Error,
    settings: Ghost<EngineSettings>,
}

impl EngineError {
    /// The configuration that no engine could be made with.
    pub closed spec fn settings(self) -> EngineSettings {
        self.settings@
    }
}

/// What is handed to the compiler.
pub ghost struct ComponentOrigin {
    /// The bytes that are to be compiled.
    pub bytes: Seq<u8>,
    /// Whether the bytes may be the text format, or have to be the binary format.
    pub text_accepted: bool,
    /// The engine that they are compiled for. The component runs on no other.
    pub engine: wasmtime::Engine,
    /// The configuration of that engine.
    pub settings: EngineSettings,
}

impl ComponentOrigin {
    /// These bytes are to be compiled for this engine.
    pub open spec fn of(bytes: Seq<u8>, text_accepted: bool, engine: WasmEngine) -> ComponentOrigin {
        ComponentOrigin { bytes, text_accepted, engine: engine.engine, settings: engine.settings }
    }
}

/// A compiled component and what it was compiled from.
pub struct CompiledComponent {
    pub component: wasmtime::component::Component,
    origin: Ghost<ComponentOrigin>,
}

impl CompiledComponent {
    /// What the component was compiled from.
    pub closed spec fn origin(self) -> ComponentOrigin {
        self.origin@
    }
}

/// Why the compiler refused, and what it was that it refused.
pub struct CompileError {
    pub error: wasmtime::Error,
    origin: Ghost<ComponentOrigin>,
}

impl CompileError {
    /// What the compiler refused.
    pub closed spec fn origin(self) -> ComponentOrigin {
        self.origin@
    }
}

/// Fills in a `wasmtime::Config` from the settings, by its methods of the same names, and calls
/// `wasmtime::Engine::new` with it. Whether an engine can be made is up to the machine, and
/// nothing is claimed of it. An engine that is made is configured by these settings, and an error
/// is the answer to them.
#[verifier::external_body]
pub(crate) fn new_engine(settings: EngineSettings) -> (r: Result<WasmEngine, EngineError>)
    ensures
        match r {
            Ok(made) => made.settings == settings,
            Err(refused) => refused.settings() == settings,
        },
{
    let mut config = wasmtime::Config::new();
    config.wasm_backtrace_details(match settings.backtrace_details {
        BacktraceDetails::Enable => wasmtime::WasmBacktraceDetails::Enable,
        BacktraceDetails::Disable => wasmtime::WasmBacktraceDetails::Disable,
        BacktraceDetails::Environment => wasmtime::WasmBacktraceDetails::Environment,
    });
    config.wasm_multi_memory(settings.multi_memory);
    config.wasm_component_model(settings.component_model);
    config.async_support(settings.async_support);
    match wasmtime::Engine::new(&config) {
        Ok(engine) => Ok(WasmEngine { engine, settings }),
        Err(error) => Err(EngineError { error, settings: Ghost(settings) }),
    }
}

/// Calls `wasmtime::component::Component::new`, which takes both formats. Whether the compiler
/// accepts the bytes is up to it and to the machine, and nothing is claimed of it. A component
/// that comes back was compiled from these bytes for this engine, and an error is the answer to
/// these bytes on this engine.
#[verifier::external_body]
pub(crate) fn compile_any(engine: &WasmEngine, bytes: &[u8]) -> (r: Result<
    CompiledComponent,
    CompileError,
>)
    ensures
        match r {
            Ok(made) => made.origin() == ComponentOrigin::of(bytes@, true, *engine),
            Err(refused) => refused.origin() == ComponentOrigin::of(bytes@, true, *engine),
        },
{
    let origin = Ghost(ComponentOrigin::of(bytes@, true, *engine));
    match wasmtime::component::Component::new(&engine.engine, bytes) {
        Ok(component) => Ok(CompiledComponent { component, origin }),
        Err(error) => Err(CompileError { error, origin }),
    }
}

/// Calls `wasmtime::component::Component::from_binary`, which takes the binary format alone.
/// Whether the compiler accepts the bytes is up to it and to the machine, and nothing is claimed
/// of it. A component that comes back was compiled from these bytes for this engine, and an error
/// is the answer to these bytes on this engine.
#[verifier::external_body]
pub(crate) fn compile_binary(engine: &WasmEngine, bytes: &[u8]) -> (r: Result<
    CompiledComponent,
    CompileError,
>)
    ensures
        match r {
            Ok(made) => made.origin() == ComponentOrigin::of(bytes@, false, *engine),
            Err(refused) => refused.origin() == ComponentOrigin::of(bytes@, false, *engine),
        },
{
    let origin = Ghost(ComponentOrigin::of(bytes@, false, *engine));
    match wasmtime::component::Component::from_binary(&engine.engine, bytes) {
        Ok(component) => Ok(CompiledComponent { component, origin }),
        Err(error) => Err(CompileError { error, origin }),
    }
}

/// Calls `wasmtime::Engine::clone`, which makes another handle to the same engine: the copy can
/// stand wherever the engine can.
#[verifier::external_body]
fn clone_engine(engine: &WasmEngine) -> (copy: WasmEngine)
    ensures
        copy == *engine,
{
    WasmEngine { engine: engine.engine.clone(), settings: engine.settings }
}

/// Calls `wasmtime::component::Component::clone`, which makes another handle to the same compiled
/// code: the copy can stand wherever the component can.
#[verifier::external_body]
fn clone_component(component: &CompiledComponent) -> (copy: CompiledComponent)
    ensures
        copy == *component,
{
    CompiledComponent { component: component.component.clone(), origin: component.origin }
}

impl Clone for WasmEngine {
    fn clone(&self) -> (copy: Self)
        ensures
            copy == *self,
    {
        clone_engine(self)
    }
}

impl Clone for CompiledComponent {
    fn clone(&self) -> (copy: Self)
        ensures
            copy == *self,
    {
        clone_component(self)
    }
}

} // verus!
