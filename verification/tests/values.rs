use wasm_host::decision::{Decision, DecisionInterface, Outcome, OutcomeInterface};
use wasm_host::interface::{
    BodyChunk, HeaderInterface, HttpVersion, IpAddr, IpInterface, Request, RequestInterface,
    Response, ResponseInterface,
};
use wasm_host::json::Params;
use wasm_host::outbound::{decide_outbound, parse_method, HttpMethod, OutboundRequests};
use wasm_host::permissions::Permissions;
use wasm_host::refusal::Refusal;
use wasm_host::remote::{BreakerInterface, RateInterface};
use wasm_host::scripts::{Script, ScriptRegistry};

#[test]
fn params_read_back() {
    let mut params = Params::new();
    assert_eq!(params.get_param_value("a").ok(), Some(b"null".to_vec()));
    let written = b" { \"z\" : [1, 2.5, true] , \"b\": null } ".to_vec();
    assert!(params.set_param_value("a".to_string(), written).is_ok());
    assert_eq!(
        params.get_param_value("a").ok(),
        Some(b"{\"b\":null,\"z\":[1,2.5,true]}".to_vec())
    );
    assert_eq!(params.get_param_value("b").ok(), Some(b"null".to_vec()));
    assert!(params.set_param_value("b".to_string(), b"\"x\"".to_vec()).is_ok());
    assert!(params.set_param_value("a".to_string(), b"7".to_vec()).is_ok());
    assert_eq!(params.get_param_value("a").ok(), Some(b"7".to_vec()));
    assert_eq!(params.get_param_value("b").ok(), Some(b"\"x\"".to_vec()));
}

#[test]
fn params_parse_to_what_was_written() {
    let written = [
        "[-9223372036854775808, 18446744073709551615, 0]",
        "{\"b\" : [true, null], \"a\": \"\\u00e9\\u0001\\\"\\\\\"}",
        "\" true\"",
        "[\"10.0.0.1\", \"v1.2\", \"1e5\", \"\\\"1.5\"]",
        "[0.5, -0.0, 0.000123, 12345678901234.5, -1.25]",
    ];
    for text in written {
        let mut params = Params::new();
        assert!(params.set_param_value("a".to_string(), text.as_bytes().to_vec()).is_ok());
        let read = match params.get_param_value("a") {
            Ok(read) => read,
            Err(_) => panic!("not read"),
        };
        let value: Option<serde_json::Value> = serde_json::from_str(text).ok();
        assert!(value.is_some());
        assert_eq!(serde_json::from_slice(&read).ok(), value);
        assert!(params.set_param_value("b".to_string(), read.clone()).is_ok());
        assert_eq!(params.get_param_value("b").ok(), Some(read));
    }
}

#[test]
fn last_of_many_param_writes_counts() {
    let mut params = Params::new();
    for (key, text) in [("a", "1"), ("b", "2"), ("a", "3"), ("c", "4"), ("a", "{"), ("b", "5")] {
        let _ = params.set_param_value(key.to_string(), text.as_bytes().to_vec());
    }
    assert_eq!(params.get_param_value("a").ok(), Some(b"3".to_vec()));
    assert_eq!(params.get_param_value("b").ok(), Some(b"5".to_vec()));
    assert_eq!(params.get_param_value("c").ok(), Some(b"4".to_vec()));
}

#[test]
fn params_refuse_what_is_not_json() {
    let mut params = Params::new();
    assert!(params.set_param_value("a".to_string(), b"1".to_vec()).is_ok());
    assert!(params.set_param_value("a".to_string(), b"{".to_vec()).is_err());
    assert!(params.set_param_value("a".to_string(), b"".to_vec()).is_err());
    assert!(params.set_param_value("a".to_string(), b"1 2".to_vec()).is_err());
    assert!(params.set_param_value("a".to_string(), vec![0x22, 0xff, 0x22]).is_err());
    assert_eq!(params.get_param_value("a").ok(), Some(b"1".to_vec()));
}

#[test]
fn params_record_what_was_parsed() {
    let mut params = Params::new();
    assert!(params.record("a".to_string(), Ok(serde_json::Value::Bool(true))).is_ok());
    assert_eq!(params.get_param_value("a").ok(), Some(b"true".to_vec()));
    let failed: Result<serde_json::Value, serde_json::Error> = serde_json::from_slice(b"nope");
    assert!(params.record("a".to_string(), failed).is_err());
    assert_eq!(params.get_param_value("a").ok(), Some(b"true".to_vec()));
}

#[test]
fn addresses() {
    assert_eq!(IpInterface::from(IpAddr::V4([1, 2, 3, 255])), IpInterface::V4((1, 2, 3, 255)));
    let v6 = IpAddr::V6([0x20, 0x01, 0x0d, 0xb8, 0, 0, 0, 0, 0, 0, 0, 0, 0xff, 0xff, 0x01, 0x00]);
    assert_eq!(
        IpInterface::from(v6),
        IpInterface::V6((0x2001, 0x0db8, 0, 0, 0, 0, 0xffff, 0x0100))
    );
}

#[test]
fn decisions_cross_unchanged() {
    let decision = Decision {
        accept: f64::NAN.to_bits(),
        restrict: (-0.0f64).to_bits(),
        unknown: 0.1f64.to_bits(),
    };
    let shown = DecisionInterface::from(decision);
    assert_eq!(shown.restrict, (-0.0f64).to_bits());
    assert_eq!(Decision::from(shown), decision);
}

#[test]
fn outcomes_are_shown() {
    assert_eq!(OutcomeInterface::from(Outcome::Trusted), OutcomeInterface::Trusted);
    assert_eq!(OutcomeInterface::from(Outcome::Accepted), OutcomeInterface::Accepted);
    assert_eq!(OutcomeInterface::from(Outcome::Suspected), OutcomeInterface::Suspected);
    assert_eq!(OutcomeInterface::from(Outcome::Restricted), OutcomeInterface::Restricted);
}

#[test]
fn request_is_shown_whole() {
    let request = Request {
        method: "PUT".to_string(),
        uri: "/x".to_string(),
        version: HttpVersion::Http10,
        headers: vec![HeaderInterface { name: "a".to_string(), value: vec![0xff] }],
        body: BodyChunk { content: vec![1, 2, 3], start: 10, size: 20, end_of_stream: false },
        forwarded_ip: None,
    };
    let shown = RequestInterface::from(&request).clone();
    assert_eq!(shown.method, "PUT");
    assert_eq!(shown.uri, "/x");
    assert_eq!(shown.version, "HTTP/1.0");
    assert_eq!(shown.headers[0].name, "a");
    assert_eq!(shown.headers[0].value, vec![0xff]);
    assert_eq!(shown.chunk_start, 10);
    assert_eq!(shown.chunk_length, 20);
    assert!(!shown.end_of_stream);
    assert_eq!(shown.chunk, vec![1, 2, 3]);
}

#[test]
fn versions_are_written() {
    // The words are those of the HTTP library that requests come in through.
    assert_eq!(HttpVersion::Http09.to_text(), format!("{:?}", http::Version::HTTP_09));
    assert_eq!(HttpVersion::Http10.to_text(), format!("{:?}", http::Version::HTTP_10));
    assert_eq!(HttpVersion::Http11.to_text(), format!("{:?}", http::Version::HTTP_11));
    assert_eq!(HttpVersion::H2.to_text(), format!("{:?}", http::Version::HTTP_2));
    assert_eq!(HttpVersion::H3.to_text(), format!("{:?}", http::Version::HTTP_3));
}

#[test]
fn responses_are_shown_whole() {
    let response = Response {
        status: 503,
        headers: vec![],
        body: BodyChunk { content: vec![9], start: 4, size: 5, end_of_stream: false },
    };
    let shown = ResponseInterface::from(&response).clone();
    assert_eq!(shown.status, 503);
    assert_eq!(shown.headers.len(), 0);
    assert_eq!(shown.chunk_start, 4);
    assert_eq!(shown.chunk_length, 5);
    assert_eq!(shown.chunk, vec![9]);

    let header = HeaderInterface { name: "n".to_string(), value: vec![1] };
    let complete = ResponseInterface::from_complete(200, vec![header], vec![7, 8, 9]);
    assert_eq!(complete.status, 200);
    assert_eq!(complete.headers[0].name, "n");
    assert_eq!(complete.chunk_start, 0);
    assert_eq!(complete.chunk_length, 3);
    assert!(complete.end_of_stream);
    assert_eq!(complete.chunk, vec![7, 8, 9]);
}

#[test]
fn methods_in_any_case() {
    assert_eq!(parse_method("GET"), Some(HttpMethod::Get));
    assert_eq!(parse_method("hEaD"), Some(HttpMethod::Head));
    assert_eq!(parse_method("post"), Some(HttpMethod::Post));
    assert_eq!(parse_method("Put"), Some(HttpMethod::Put));
    assert_eq!(parse_method("patch"), Some(HttpMethod::Patch));
    assert_eq!(parse_method("DELETE"), Some(HttpMethod::Delete));
    assert_eq!(parse_method("options"), Some(HttpMethod::Options));
    assert_eq!(parse_method("trace"), Some(HttpMethod::Trace));
    assert_eq!(parse_method("CONNECT"), None);
    assert_eq!(parse_method(""), None);
    assert_eq!(parse_method(" GET"), None);
    // A letter outside ASCII has no upper case here: this one's would be an ASCII letter.
    assert_eq!(parse_method("po\u{17f}t"), None);
}

#[test]
fn outbound_decisions() {
    let permissions =
        Permissions { env: vec![], http: vec!["a".to_string(), "b".to_string()], state: vec![] };
    let name = |text: &str| Some(Some(text.to_string()));
    assert_eq!(decide_outbound(&permissions, "get", name("b")), Ok(HttpMethod::Get));
    assert_eq!(decide_outbound(&permissions, "x", name("b")), Err(Refusal::UnsupportedMethod));
    assert_eq!(decide_outbound(&permissions, "x", name("c")), Err(Refusal::HttpDenied));
    assert_eq!(decide_outbound(&permissions, "get", Some(None)), Err(Refusal::UriWithoutDomain));
    assert_eq!(decide_outbound(&permissions, "get", None), Err(Refusal::UriInvalid));
}

#[test]
fn outbound_ids() {
    let mut requests = OutboundRequests::new();
    assert!(!requests.is_pending(0));
    assert_eq!(requests.begin(HttpMethod::Get, "a".to_string()), 0);
    assert_eq!(requests.begin(HttpMethod::Put, "b".to_string()), 1);
    let sent = requests.complete(0, vec![]);
    assert_eq!(sent.method, HttpMethod::Get);
    assert_eq!(sent.body, Some(vec![]));
    assert_eq!(requests.begin(HttpMethod::Trace, "c".to_string()), 0);
    assert!(requests.is_pending(0));
    assert!(requests.is_pending(1));
}

#[test]
fn grants() {
    let permissions = Permissions {
        env: vec!["A".to_string(), "A".to_string()],
        http: vec![],
        state: vec!["".to_string()],
    }
    .clone();
    assert!(permissions.allows_env("A"));
    assert!(!permissions.allows_env("AB"));
    assert!(!permissions.allows_domain("A"));
    assert!(permissions.allows_state("anything"));
    assert!(permissions.allows_state(""));
}

#[test]
fn refusals_in_words() {
    assert_eq!(Refusal::UriInvalid.message(), "invalid uri");
    assert_eq!(Refusal::UriWithoutDomain.message(), "uri without domain");
    assert_eq!(Refusal::UnknownRequest.message(), "unknown request id");
    assert_eq!(Refusal::RemoteStateUnavailable.message(), "remote state unavailable");
    assert_eq!(Refusal::InvalidTtl.message(), "invalid time-to-live");
    assert_eq!(Refusal::NotRecorded.message(), "value not recorded");
}

#[test]
fn scripts_are_known_by_their_digest() {
    let script = Script::new("return 1").clone();
    assert_eq!(script.code, "return 1");
    assert_eq!(script.hash, "e0e1f9fabfc9d4800c877a703b823ac0578ff8db");
    let registry = ScriptRegistry::default();
    assert_eq!(
        registry.increment_rate_limit.hash,
        redis::Script::new(&registry.increment_rate_limit.code).get_hash()
    );
    assert!(registry.increment_rate_limit.code.contains("\"incrby\", counter_key"));
    assert!(!registry.check_rate_limit.code.contains("incrby"));
    assert!(registry.increment_breaker.code.contains("\"bulwark:bk:cf:\" .. KEYS[1]"));
    assert!(!registry.check_breaker.code.contains("incrby"));
    for script in [&registry.increment_breaker, &registry.check_breaker] {
        assert!(script.code.contains("local timestamp = tonumber(ARGV["));
        assert!(script.code.contains("timestamp > "));
        assert!(script.code.contains("\"expiretime\", generation_key"));
    }
    assert!(registry.increment_breaker.code.contains("\"incrby\", success_key, success_delta"));
    assert!(registry.increment_breaker.code.contains("\"incrby\", failure_key, failure_delta"));
}

#[test]
fn replies_are_shown() {
    assert_eq!(
        RateInterface::from_reply((3, 1700000000)),
        RateInterface { attempts: 3, expiration: 1700000000 }
    );
    assert_eq!(
        BreakerInterface::from_reply((1, 2, 3, 4, 5, 6)),
        BreakerInterface {
            generation: 1,
            successes: 2,
            failures: 3,
            consecutive_successes: 4,
            consecutive_failures: 5,
            expiration: 6,
        }
    );
}
