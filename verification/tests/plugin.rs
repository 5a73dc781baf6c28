use std::sync::Arc;
use wasm_host::context::RequestContext;
use wasm_host::decision::{
    Decision, DecisionComponents, DecisionInterface, Outcome, OutcomeInterface,
};
use wasm_host::instance::PluginInstance;
use wasm_host::interface::{BodyChunk, HeaderInterface, HttpVersion, Request, Response};
use wasm_host::permissions::Permissions;
use wasm_host::plugin::{Plugin, PluginConfig, PluginLoadError};
use wasm_host::wasm::CompileError;
use wasm_host::refusal::Refusal;

/// A component that imports nothing, holds nothing and exports nothing.
const BLANK_COMPONENT: [u8; 8] = [0x00, 0x61, 0x73, 0x6d, 0x0d, 0x00, 0x01, 0x00];

fn config() -> PluginConfig {
    PluginConfig {
        reference: "blank".to_string(),
        weight: 1.0f64.to_bits(),
        config: serde_json::Value::Object(serde_json::Map::new()),
        permissions: Permissions { env: vec![], http: vec![], state: vec![] },
    }
}

fn plugin(name: &str, config: &PluginConfig) -> Arc<Plugin> {
    match Plugin::from_bytes(name.to_string(), &BLANK_COMPONENT, config) {
        Ok(plugin) => Arc::new(plugin),
        Err(_) => panic!("the blank component does not load"),
    }
}

fn header(name: &str, value: &str) -> HeaderInterface {
    HeaderInterface { name: name.to_string(), value: value.as_bytes().to_vec() }
}

fn context(plugin: &Arc<Plugin>, request: Request) -> RequestContext {
    match RequestContext::new(plugin.clone(), None, Arc::new(request)) {
        Ok(context) => context,
        Err(_) => panic!("no context"),
    }
}

fn get_request() -> Request {
    Request {
        method: "GET".to_string(),
        uri: "/".to_string(),
        version: HttpVersion::Http11,
        headers: vec![],
        body: BodyChunk { content: vec![], start: 0, size: 0, end_of_stream: true },
        forwarded_ip: None,
    }
}

fn post_request(headers: Vec<HeaderInterface>) -> Request {
    Request {
        method: "POST".to_string(),
        uri: "/example".to_string(),
        version: HttpVersion::Http11,
        headers,
        body: BodyChunk {
            content: "{\"number\": 42}".as_bytes().to_vec(),
            start: 0,
            size: 14,
            end_of_stream: true,
        },
        forwarded_ip: None,
    }
}

/// What a plugin that looks for the evil bit does when it is asked for its decision.
fn decide_on_evil_bit(context: &mut RequestContext) {
    let request = context.get_request();
    let mut evil = false;
    for header in request.headers.iter() {
        if header.name.eq_ignore_ascii_case("Evil") && header.value == "true".as_bytes() {
            evil = true;
        }
    }
    if evil {
        context.set_decision(DecisionInterface {
            accept: 0.0f64.to_bits(),
            restrict: 1.0f64.to_bits(),
            unknown: 0.0f64.to_bits(),
        });
        context.set_tags(vec!["evil".to_string()]);
    }
}

#[test]
fn test_wasm_execution() {
    let plugin = plugin("bulwark-blank-slate.wasm", &config());
    let request_context = context(&plugin, get_request());
    let plugin_instance = PluginInstance::new(plugin, request_context);
    let decision_components = plugin_instance.decision();
    assert_eq!(f64::from_bits(decision_components.decision.accept), 0.0);
    assert_eq!(f64::from_bits(decision_components.decision.restrict), 0.0);
    assert_eq!(f64::from_bits(decision_components.decision.unknown), 1.0);
    assert_eq!(decision_components.tags, vec![""; 0]);
}

#[test]
fn test_wasm_logic() {
    let plugin = plugin("bulwark-evil-bit.wasm", &config());

    let request = post_request(vec![header("Content-Type", "application/json")]);
    let mut typical_plugin_instance = PluginInstance::new(plugin.clone(), context(&plugin, request));
    decide_on_evil_bit(&mut typical_plugin_instance.context);
    let typical_decision = typical_plugin_instance.decision();
    assert_eq!(f64::from_bits(typical_decision.decision.accept), 0.0);
    assert_eq!(f64::from_bits(typical_decision.decision.restrict), 0.0);
    assert_eq!(f64::from_bits(typical_decision.decision.unknown), 1.0);
    assert_eq!(typical_decision.tags, vec![""; 0]);

    let request = post_request(vec![
        header("Content-Type", "application/json"),
        header("Evil", "true"),
    ]);
    let mut evil_plugin_instance = PluginInstance::new(plugin.clone(), context(&plugin, request));
    decide_on_evil_bit(&mut evil_plugin_instance.context);
    let evil_decision = evil_plugin_instance.decision();
    assert_eq!(f64::from_bits(evil_decision.decision.accept), 0.0);
    assert_eq!(f64::from_bits(evil_decision.decision.restrict), 1.0);
    assert_eq!(f64::from_bits(evil_decision.decision.unknown), 0.0);
    assert_eq!(evil_decision.tags, vec!["evil"]);
}

#[test]
fn text_and_binary_formats() {
    let config = config();
    let text = "(component)";
    assert!(Plugin::from_wat("text".to_string(), text, &config).is_ok());
    assert!(Plugin::from_bytes("text".to_string(), text.as_bytes(), &config).is_err());
    assert!(Plugin::from_file(text.as_bytes(), &config).is_ok());
    assert!(Plugin::from_file(&BLANK_COMPONENT, &config).is_ok());
    assert!(Plugin::from_wat("text".to_string(), "(component", &config).is_err());
    assert!(Plugin::from_bytes("module".to_string(), b"\0asm\x01\0\0\0", &config).is_err());
}

fn refusal(loaded: Result<Plugin, PluginLoadError>) -> CompileError {
    match loaded {
        Ok(_) => panic!("loaded"),
        Err(PluginLoadError::Engine(_)) => panic!("no engine"),
        Err(PluginLoadError::Compile(refused)) => refused,
    }
}

#[test]
fn failures_to_load_are_handed_on() {
    let config = config();
    let name = "failed".to_string();
    let engine = plugin("engine", &config).engine.clone();
    let text = "(component (nothing))";
    let direct = match wasmtime::component::Component::new(&engine.engine, text) {
        Ok(_) => panic!("compiled"),
        Err(error) => error.to_string(),
    };
    let refused = refusal(Plugin::from_wat(name.clone(), text, &config));
    assert_eq!(refused.error.to_string(), direct);
    let again = refusal(Plugin::from_component(name, &config, engine, Err(refused)));
    assert_eq!(again.error.to_string(), direct);
}

#[test]
fn answers_to_load_make_the_plugin() {
    let config = config();
    let engine = plugin("engine", &config).engine.clone();
    let text = b"(component)";
    let load = |text_accepted: bool| {
        Plugin::from_engine("text".to_string(), &config, Ok(engine.clone()), text, text_accepted)
    };
    assert!(load(false).is_err());
    let loaded = match load(true) {
        Ok(plugin) => plugin,
        Err(_) => panic!("not loaded"),
    };
    assert!(wasmtime::Engine::same(&loaded.engine.engine, &engine.engine));
    let component = loaded.component.clone();
    match Plugin::from_component("again".to_string(), &config, engine, Ok(component)) {
        Ok(plugin) => assert_eq!(plugin.reference, "again"),
        Err(_) => panic!("not loaded"),
    }
}

#[test]
fn engine_is_made_for_plugins() {
    let plugin = plugin("engine", &config());
    assert!(plugin.engine.settings.multi_memory);
    assert!(plugin.engine.settings.component_model);
    assert!(plugin.engine.settings.async_support);
    let two_memories = "(component (core module (memory 1) (memory 1)))";
    assert!(Plugin::from_wat("two".to_string(), two_memories, &config()).is_ok());
    let copy = Plugin::clone(&plugin);
    assert_eq!(copy.reference, "engine");
    assert!(wasmtime::Engine::same(&copy.engine.engine, &plugin.engine.engine));
}

#[test]
fn plugin_is_known_by_its_name() {
    let config = config();
    let loaded = plugin("name", &config);
    let instance = PluginInstance::new(loaded.clone(), context(&loaded, get_request()));
    assert_eq!(instance.plugin_reference(), "name");
    assert_eq!(f64::from_bits(instance.weight()), 1.0);
    let from_file = match Plugin::from_file(&BLANK_COMPONENT, &config) {
        Ok(plugin) => plugin,
        Err(_) => panic!("not loaded"),
    };
    assert_eq!(from_file.reference, "blank");
}

#[test]
fn configuration_is_handed_on() {
    let mut settings = serde_json::Map::new();
    settings.insert("limit".to_string(), serde_json::Value::from(5));
    let mut config = config();
    config.config = serde_json::Value::Object(settings);
    config.permissions.env.push("HOME".to_string());
    let plugin = plugin("configured", &config);
    assert_eq!(plugin.guest_config().ok(), Some(b"{\"limit\":5}".to_vec()));
    assert_eq!(plugin.permissions().env, vec!["HOME"]);
    let context = context(&plugin, get_request());
    assert_eq!(context.get_config(), b"{\"limit\":5}".to_vec());
    assert_eq!(context.check_env("HOME"), Ok(()));
}

#[test]
fn recorded_values_are_read_back() {
    let plugin = plugin("feedback", &config());
    let mut instance = PluginInstance::new(plugin.clone(), context(&plugin, get_request()));
    assert_eq!(instance.context.check_response(), Err(Refusal::NotRecorded));
    assert_eq!(instance.context.check_combined_decision(), Err(Refusal::NotRecorded));
    assert_eq!(instance.context.check_combined_tags(), Err(Refusal::NotRecorded));
    assert_eq!(instance.context.check_outcome(), Err(Refusal::NotRecorded));

    instance.record_response(Arc::new(Response {
        status: 404,
        headers: vec![header("server", "x")],
        body: BodyChunk { content: b"no".to_vec(), start: 0, size: 2, end_of_stream: true },
    }));
    instance.record_combined_decision(
        &DecisionComponents {
            decision: Decision {
                accept: 0.25f64.to_bits(),
                restrict: 0.5f64.to_bits(),
                unknown: 0.25f64.to_bits(),
            },
            tags: vec!["a".to_string(), "b".to_string()],
        },
        Outcome::Suspected,
    );

    assert_eq!(instance.context.check_response(), Ok(()));
    let response = instance.context.get_response();
    assert_eq!(response.status, 404);
    assert_eq!(response.headers[0].name, "server");
    assert_eq!(response.chunk, b"no".to_vec());
    assert_eq!(response.chunk_length, 2);
    assert!(response.end_of_stream);
    assert_eq!(instance.context.check_combined_decision(), Ok(()));
    assert_eq!(f64::from_bits(instance.context.get_combined_decision().restrict), 0.5);
    assert_eq!(instance.context.check_combined_tags(), Ok(()));
    assert_eq!(instance.context.get_combined_tags(), vec!["a", "b"]);
    assert_eq!(instance.context.check_outcome(), Ok(()));
    assert_eq!(instance.context.get_outcome(), OutcomeInterface::Suspected);
    // The plugin's own decision is not what the host recorded.
    assert_eq!(f64::from_bits(instance.decision().decision.unknown), 1.0);
}

#[test]
fn last_stated_decision_counts() {
    let plugin = plugin("twice", &config());
    let mut instance = PluginInstance::new(plugin.clone(), context(&plugin, get_request()));
    instance.context.set_decision(DecisionInterface { accept: 1, restrict: 2, unknown: 3 });
    instance.context.set_tags(vec!["first".to_string()]);
    instance.context.set_decision(DecisionInterface { accept: 4, restrict: 5, unknown: 6 });
    instance.context.set_tags(vec!["second".to_string(), "third".to_string()]);
    let components = instance.decision();
    assert_eq!(components.decision, Decision { accept: 4, restrict: 5, unknown: 6 });
    assert_eq!(components.tags, vec!["second", "third"]);
}
