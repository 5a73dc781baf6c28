use std::sync::Arc;
use wasm_host::context::RequestContext;
use wasm_host::interface::{BodyChunk, ForwardedIP, HttpVersion, IpAddr, IpInterface, Request};
use wasm_host::outbound::HttpMethod;
use wasm_host::permissions::Permissions;
use wasm_host::plugin::{Plugin, PluginConfig};
use wasm_host::refusal::Refusal;
use wasm_host::remote::{RedisCommand, RedisInfo};
use wasm_host::scripts::{
    Script, ScriptRegistry, CHECK_BREAKER, CHECK_RATE_LIMIT, INCREMENT_BREAKER,
    INCREMENT_RATE_LIMIT,
};

fn context(redis: bool) -> RequestContext {
    let config = PluginConfig {
        reference: "calls".to_string(),
        weight: 1.0f64.to_bits(),
        config: serde_json::Value::Null,
        permissions: Permissions {
            env: vec!["TOKEN".to_string()],
            http: vec!["example.com".to_string(), "example.org".to_string()],
            state: vec!["limits:".to_string(), "seen".to_string()],
        },
    };
    let plugin = match Plugin::from_wat("calls".to_string(), "(component)", &config) {
        Ok(plugin) => Arc::new(plugin),
        Err(_) => panic!("not loaded"),
    };
    let request = Request {
        method: "GET".to_string(),
        uri: "/".to_string(),
        version: HttpVersion::H2,
        headers: vec![],
        body: BodyChunk { content: vec![], start: 0, size: 0, end_of_stream: true },
        forwarded_ip: Some(ForwardedIP(IpAddr::V4([192, 0, 2, 7]))),
    };
    let info = if redis {
        Some(Arc::new(RedisInfo { registry: ScriptRegistry::default() }))
    } else {
        None
    };
    match RequestContext::new(plugin, info, Arc::new(request)) {
        Ok(context) => context,
        Err(_) => panic!("no context"),
    }
}

fn now() -> i64 {
    chrono::Utc::now().timestamp()
}

#[test]
fn client_address_is_shown() {
    assert_eq!(context(false).get_client_ip(), Some(IpInterface::V4((192, 0, 2, 7))));
    assert_eq!(context(false).get_request().version, "HTTP/2.0");
    assert_eq!(context(false).get_config(), b"null".to_vec());
}

#[test]
fn environment_by_exact_name() {
    let context = context(false);
    assert_eq!(context.check_env("TOKEN"), Ok(()));
    assert_eq!(context.check_env("token"), Err(Refusal::EnvironmentDenied));
    assert_eq!(context.check_env("TOKEN2"), Err(Refusal::EnvironmentDenied));
    assert_eq!(context.check_env(""), Err(Refusal::EnvironmentDenied));
    assert_eq!(context.get_env_bytes("TOKEN", "h\u{e9}".to_string()), vec![0x68, 0xc3, 0xa9]);
    assert_eq!(Refusal::EnvironmentDenied.message(), "access to environment variable denied");
}

#[test]
fn requests_are_checked() {
    let context = context(false);
    assert_eq!(context.check_request("GET", "https://example.com/a?b=c"), Ok(()));
    assert_eq!(context.check_request("get", "http://EXAMPLE.org:8080/"), Ok(()));
    assert_eq!(context.check_request("GET", "/relative"), Err(Refusal::UriInvalid));
    assert_eq!(context.check_request("NONE", "nothing"), Err(Refusal::UriInvalid));
    assert_eq!(context.check_request("GET", "https://127.0.0.1/"), Err(Refusal::UriWithoutDomain));
    assert_eq!(
        context.check_request("GET", "mailto:someone@example.com"),
        Err(Refusal::UriWithoutDomain)
    );
    assert_eq!(context.check_request("GET", "https://www.example.com/"), Err(Refusal::HttpDenied));
    assert_eq!(context.check_request("NONE", "https://example.net/"), Err(Refusal::HttpDenied));
    assert_eq!(
        context.check_request("CONNECT", "https://example.com/"),
        Err(Refusal::UnsupportedMethod)
    );
    assert_eq!(Refusal::HttpDenied.message(), "access to http resource denied");
    assert_eq!(Refusal::UnsupportedMethod.message(), "unsupported http method");
}

#[test]
fn request_is_assembled_and_sent() {
    let mut context = context(false);
    let uri = "https://example.com/submit".to_string();
    assert_eq!(context.check_request("post", &uri), Ok(()));
    let id = context.prepare_request("post".to_string(), uri);
    assert_eq!(id, 0);
    assert_eq!(context.check_pending(0), Ok(()));
    assert_eq!(context.check_pending(1), Err(Refusal::UnknownRequest));
    context.add_request_header(id, "accept".to_string(), b"a".to_vec());
    context.add_request_header(id, "accept".to_string(), b"b".to_vec());
    let request = context.set_request_body(id, b"body".to_vec());
    assert_eq!(request.method, HttpMethod::Post);
    assert_eq!(request.uri, "https://example.com/submit");
    assert_eq!(request.headers.len(), 2);
    assert_eq!(request.headers[0].value, b"a".to_vec());
    assert_eq!(request.headers[1].name, "accept");
    assert_eq!(request.headers[1].value, b"b".to_vec());
    assert_eq!(request.body, Some(b"body".to_vec()));
    assert_eq!(context.check_pending(0), Err(Refusal::UnknownRequest));
}

#[test]
fn request_ids_stay_apart() {
    let mut context = context(false);
    let prepare = |context: &mut RequestContext, path: &str| {
        context.try_prepare_request("GET".to_string(), format!("https://example.com/{}", path))
    };
    assert_eq!(prepare(&mut context, "a"), Ok(0));
    assert_eq!(prepare(&mut context, "b"), Ok(1));
    assert_eq!(prepare(&mut context, "c"), Ok(2));
    assert_eq!(context.set_request_body(0, vec![]).uri, "https://example.com/a");
    // Two are left, and the ID 2 is taken.
    assert_eq!(prepare(&mut context, "d"), Ok(0));
    assert_eq!(prepare(&mut context, "e"), Ok(3));
    assert_eq!(context.set_request_body(2, vec![]).uri, "https://example.com/c");
    assert_eq!(context.set_request_body(1, vec![]).uri, "https://example.com/b");
    assert_eq!(prepare(&mut context, "f"), Ok(2));
    assert_eq!(context.set_request_body(0, vec![]).uri, "https://example.com/d");
    assert_eq!(context.set_request_body(3, vec![]).uri, "https://example.com/e");
    assert_eq!(context.set_request_body(2, vec![]).uri, "https://example.com/f");
    assert_eq!(prepare(&mut context, "g"), Ok(0));
}

#[test]
fn header_goes_to_the_request_it_is_added_to() {
    let mut context = context(false);
    let uri = "https://example.com/".to_string();
    assert_eq!(context.try_prepare_request("GET".to_string(), uri.clone()), Ok(0));
    assert_eq!(context.try_prepare_request("PUT".to_string(), uri), Ok(1));
    context.add_request_header(1, "accept".to_string(), b"a".to_vec());
    assert_eq!(context.check_pending(0), Ok(()));
    assert_eq!(context.set_request_body(0, vec![]).headers.len(), 0);
    assert_eq!(context.set_request_body(1, vec![]).headers.len(), 1);
}

#[test]
fn refused_request_is_not_begun() {
    let mut context = context(false);
    let denied =
        context.try_prepare_request("GET".to_string(), "https://example.net/".to_string());
    assert_eq!(denied, Err(Refusal::HttpDenied));
    assert_eq!(context.check_pending(0), Err(Refusal::UnknownRequest));
}

#[test]
fn state_by_prefix() {
    let context = context(true);
    assert_eq!(context.check_state("limits:a"), Ok(()));
    assert_eq!(context.check_state("limits:"), Ok(()));
    assert_eq!(context.check_state("limits"), Err(Refusal::StateDenied));
    assert_eq!(context.check_state("seen\u{e9}"), Ok(()));
    assert_eq!(context.check_state("Seen"), Err(Refusal::StateDenied));
    assert_eq!(context.check_state(""), Err(Refusal::StateDenied));
    assert_eq!(Refusal::StateDenied.message(), "access to state value by prefix denied");
}

#[test]
fn state_needs_a_server() {
    let context = context(false);
    assert_eq!(context.check_state("limits:a"), Err(Refusal::RemoteStateUnavailable));
    assert_eq!(context.check_state("other"), Err(Refusal::StateDenied));
}

#[test]
fn plain_commands() {
    let context = context(true);
    let key = "limits:a".to_string();
    match context.get_remote_state(key.clone()) {
        RedisCommand::Read { key } => assert_eq!(key, "limits:a"),
        _ => panic!("another command"),
    }
    match context.set_remote_state(key.clone(), vec![1, 2]) {
        RedisCommand::Write { key, value } => {
            assert_eq!(key, "limits:a");
            assert_eq!(value, vec![1, 2]);
        }
        _ => panic!("another command"),
    }
    match context.increment_remote_state(key.clone()) {
        RedisCommand::Increment { key, delta } => {
            assert_eq!(key, "limits:a");
            assert_eq!(delta, 1);
        }
        _ => panic!("another command"),
    }
    match context.increment_remote_state_by(key.clone(), -7) {
        RedisCommand::Increment { key, delta } => {
            assert_eq!(key, "limits:a");
            assert_eq!(delta, -7);
        }
        _ => panic!("another command"),
    }
    assert_eq!(context.check_remote_ttl("limits:a", 60), Ok(()));
    assert_eq!(context.check_remote_ttl("limits:a", 0), Ok(()));
    assert_eq!(context.check_remote_ttl("limits:a", -1), Err(Refusal::InvalidTtl));
    assert_eq!(context.check_remote_ttl("other", -1), Err(Refusal::StateDenied));
    match context.set_remote_ttl(key, 60) {
        RedisCommand::Expire { key, seconds } => {
            assert_eq!(key, "limits:a");
            assert_eq!(seconds, 60);
        }
        _ => panic!("another command"),
    }
}

fn run(command: RedisCommand) -> (Script, String, Vec<i64>) {
    match command {
        RedisCommand::Run { script, key, args } => (script, key, args),
        _ => panic!("another command"),
    }
}

#[test]
fn script_commands() {
    let context = context(true);
    let before = now();
    let (script, key, args) = run(context.increment_rate_limit("limits:a".to_string(), 2, 60));
    let after = now();
    assert_eq!(script.code, INCREMENT_RATE_LIMIT);
    assert_eq!(key, "limits:a");
    assert_eq!(args[..2], [2, 60]);
    assert_eq!(args.len(), 3);
    assert!(before <= args[2] && args[2] <= after);

    let before = now();
    let (script, key, args) = run(context.check_rate_limit("limits:b".to_string()));
    let after = now();
    assert_eq!(script.code, CHECK_RATE_LIMIT);
    assert_eq!(key, "limits:b");
    assert_eq!(args.len(), 1);
    assert!(before <= args[0] && args[0] <= after);

    let before = now();
    let (script, key, args) = run(context.increment_breaker("seen:c".to_string(), 0, 1, 30));
    let after = now();
    assert_eq!(script.code, INCREMENT_BREAKER);
    assert_eq!(key, "seen:c");
    assert_eq!(args[..3], [0, 1, 30]);
    assert_eq!(args.len(), 4);
    assert!(before <= args[3] && args[3] <= after);

    let before = now();
    let (script, key, args) = run(context.check_breaker("seen:d".to_string()));
    let after = now();
    assert_eq!(script.code, CHECK_BREAKER);
    assert_eq!(key, "seen:d");
    assert_eq!(args.len(), 1);
    assert!(before <= args[0] && args[0] <= after);
}

#[test]
fn commands_at_a_given_time() {
    let registry = ScriptRegistry::default();
    let (_, key, args) = run(registry.increment_rate_limit_at("k".to_string(), 1, 2, 3));
    assert_eq!(key, "k");
    assert_eq!(args, vec![1, 2, 3]);
    assert_eq!(run(registry.check_rate_limit_at("k".to_string(), 4)).2, vec![4]);
    let (_, _, args) = run(registry.increment_breaker_at("k".to_string(), 1, 2, 3, 4));
    assert_eq!(args, vec![1, 2, 3, 4]);
    assert_eq!(run(registry.check_breaker_at("k".to_string(), 5)).2, vec![5]);
}
