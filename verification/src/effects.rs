//! What each operation does, said of its arguments and its results alone.
//!
//! Every law here is about whatever an operation may return, or may leave behind in what it was
//! given to change. It speaks of the parts of the values themselves: of texts, bytes, numbers and
//! the entries of lists.
use crate::decision::{Decision, DecisionInterface, Outcome, OutcomeInterface};
use crate::interface::{
    header_views, texts, HeaderInterface, HttpVersion, IpAddr, IpInterface, Request,
    RequestInterface, Response, ResponseInterface,
};
use crate::json::{json_map_contents, json_parse, json_text, ParamError, Params};
use crate::outbound::{
    ascii_upper, ascii_uppercase, uri_domain, HttpMethod, OutboundRequest, OutboundRequests,
};
use crate::permissions::Permissions;
use crate::plugin::{ConfigSerializationError, Plugin, PluginConfig, PluginLoadError};
use crate::refusal::Refusal;
use crate::remote::{BreakerInterface, RateInterface, RedisCommand};
use crate::scripts::{
    script_digest, Script, ScriptRegistry, CHECK_BREAKER, CHECK_RATE_LIMIT, INCREMENT_BREAKER,
    INCREMENT_RATE_LIMIT,
};
use crate::wasm::{
    BacktraceDetails, CompileError, CompiledComponent, EngineError, EngineSettings, WasmEngine,
};
use vstd::prelude::*;
use vstd::string::StringSliceAdditionalSpecFns;

verus! {

// Lists

/// Whether two lists hold the same texts in the same order.
pub open spec fn same_strings(a: Seq<String>, b: Seq<String>) -> bool {
    &&& a.len() == b.len()
    &&& forall|i: int| 0 <= i < a.len() ==> (#[trigger] a[i])@ == b[i]@
}

/// Whether two lists hold the same headers in the same order.
pub open spec fn same_headers(a: Seq<HeaderInterface>, b: Seq<HeaderInterface>) -> bool {
    &&& a.len() == b.len()
    &&& forall|i: int|
        0 <= i < a.len() ==> (#[trigger] a[i]).name@ == b[i].name@ && a[i].value@ == b[i].value@
}

/// Lists with the same texts are the same lists of texts.
pub(crate) proof fn lemma_texts_tell_strings(a: Seq<String>, b: Seq<String>)
    ensures
        texts(a) == texts(b) <==> same_strings(a, b),
{
    if texts(a) == texts(b) {
        assert(a.len() == texts(a).len() && b.len() == texts(b).len());
        assert forall|i: int| 0 <= i < a.len() implies (#[trigger] a[i])@ == b[i]@ by {
            assert(texts(a)[i] == a[i]@ && texts(b)[i] == b[i]@);
        }
    }
    if same_strings(a, b) {
        assert(texts(a) =~= texts(b));
    }
}

/// Lists with the same names and values are the same lists of headers.
pub(crate) proof fn lemma_views_tell_headers(a: Seq<HeaderInterface>, b: Seq<HeaderInterface>)
    ensures
        header_views(a) == header_views(b) <==> same_headers(a, b),
{
    if header_views(a) == header_views(b) {
        assert(a.len() == header_views(a).len() && b.len() == header_views(b).len());
        assert forall|i: int| 0 <= i < a.len() implies (#[trigger] a[i]).name@ == b[i].name@
            && a[i].value@ == b[i].value@ by {
            assert(header_views(a)[i] == a[i]@ && header_views(b)[i] == b[i]@);
        }
    }
    if same_headers(a, b) {
        assert(header_views(a) =~= header_views(b));
    }
}

/// Copies hold what was copied.
pub proof fn copies_are_faithful(
    strings: &Vec<String>,
    strings_copy: Vec<String>,
    bytes: &Vec<u8>,
    bytes_copy: Vec<u8>,
    headers: &Vec<HeaderInterface>,
    headers_copy: Vec<HeaderInterface>,
)
    requires
        call_ensures(crate::interface::copy_strings, (strings,), strings_copy),
        call_ensures(crate::interface::copy_bytes, (bytes,), bytes_copy),
        call_ensures(crate::interface::copy_headers, (headers,), headers_copy),
    ensures
        same_strings(strings_copy@, strings@),
        bytes_copy@ == bytes@,
        same_headers(headers_copy@, headers@),
{
    lemma_texts_tell_strings(strings_copy@, strings@);
    lemma_views_tell_headers(headers_copy@, headers@);
}

// Addresses

/// Component `i` of the address that a plugin sees is octet `i` of an IPv4 address, and the octets
/// `2 * i` and `2 * i + 1` of an IPv6 address, the first of them the higher.
pub proof fn address_is_shown_in_order(ip: IpAddr, shown: IpInterface)
    requires
        call_ensures(<IpInterface as From<IpAddr>>::from, (ip,), shown),
    ensures
        match ip {
            IpAddr::V4(o) => match shown {
                IpInterface::V4(s) => {
                    &&& s.0 == o@[0]
                    &&& s.1 == o@[1]
                    &&& s.2 == o@[2]
                    &&& s.3 == o@[3]
                },
                IpInterface::V6(_) => false,
            },
            IpAddr::V6(o) => match shown {
                IpInterface::V4(_) => false,
                IpInterface::V6(s) => {
                    &&& s.0 == o@[0] * 256 + o@[1]
                    &&& s.1 == o@[2] * 256 + o@[3]
                    &&& s.2 == o@[4] * 256 + o@[5]
                    &&& s.3 == o@[6] * 256 + o@[7]
                    &&& s.4 == o@[8] * 256 + o@[9]
                    &&& s.5 == o@[10] * 256 + o@[11]
                    &&& s.6 == o@[12] * 256 + o@[13]
                    &&& s.7 == o@[14] * 256 + o@[15]
                },
            },
        },
{
}

// Requests and responses

/// A version is written as the protocol's name, a slash, and its two numbers with a point between.
pub proof fn version_is_written(version: HttpVersion, text: String)
    requires
        call_ensures(HttpVersion::to_text, (version,), text),
    ensures
        text@ == version.text(),
        match version {
            HttpVersion::Http09 => text@ == "HTTP/0.9"@,
            HttpVersion::Http10 => text@ == "HTTP/1.0"@,
            HttpVersion::Http11 => text@ == "HTTP/1.1"@,
            HttpVersion::H2 => text@ == "HTTP/2.0"@,
            HttpVersion::H3 => text@ == "HTTP/3.0"@,
        },
{
}

/// Whether a plugin that is shown `shown` sees every part of `request`.
pub open spec fn shows_request(shown: RequestInterface, request: Request) -> bool {
    &&& shown.method@ == request.method@
    &&& shown.uri@ == request.uri@
    &&& shown.version@ == match request.version {
        HttpVersion::Http09 => "HTTP/0.9"@,
        HttpVersion::Http10 => "HTTP/1.0"@,
        HttpVersion::Http11 => "HTTP/1.1"@,
        HttpVersion::H2 => "HTTP/2.0"@,
        HttpVersion::H3 => "HTTP/3.0"@,
    }
    &&& same_headers(shown.headers@, request.headers@)
    &&& shown.chunk@ == request.body.content@
    &&& shown.chunk_start == request.body.start
    &&& shown.chunk_length == request.body.size
    &&& shown.end_of_stream == request.body.end_of_stream
}

/// Whether a plugin that is shown `shown` sees every part of `response`.
pub open spec fn shows_response(shown: ResponseInterface, response: Response) -> bool {
    &&& shown.status == response.status
    &&& same_headers(shown.headers@, response.headers@)
    &&& shown.chunk@ == response.body.content@
    &&& shown.chunk_start == response.body.start
    &&& shown.chunk_length == response.body.size
    &&& shown.end_of_stream == response.body.end_of_stream
}

/// Whether two requests look the same to a plugin in every part.
pub open spec fn same_request(a: RequestInterface, b: RequestInterface) -> bool {
    &&& a.method@ == b.method@
    &&& a.uri@ == b.uri@
    &&& a.version@ == b.version@
    &&& same_headers(a.headers@, b.headers@)
    &&& a.chunk@ == b.chunk@
    &&& a.chunk_start == b.chunk_start
    &&& a.chunk_length == b.chunk_length
    &&& a.end_of_stream == b.end_of_stream
}

/// Whether two responses look the same to a plugin in every part.
pub open spec fn same_response(a: ResponseInterface, b: ResponseInterface) -> bool {
    &&& a.status == b.status
    &&& same_headers(a.headers@, b.headers@)
    &&& a.chunk@ == b.chunk@
    &&& a.chunk_start == b.chunk_start
    &&& a.chunk_length == b.chunk_length
    &&& a.end_of_stream == b.end_of_stream
}

/// What a request says is the whole of it: where a plugin's view of it agrees, every part does.
pub(crate) proof fn lemma_request_view_is_complete(
    shown: &RequestInterface,
    request: &Request,
    b: &RequestInterface,
)
    ensures
        shown@ == request@ ==> shows_request(*shown, *request),
        shown@ == b@ ==> same_request(*shown, *b),
{
    lemma_views_tell_headers(shown.headers@, request.headers@);
    lemma_views_tell_headers(shown.headers@, b.headers@);
}

/// What a response says is the whole of it.
pub(crate) proof fn lemma_response_view_is_complete(
    shown: &ResponseInterface,
    response: &Response,
    b: &ResponseInterface,
)
    ensures
        shown@ == response@ ==> shows_response(*shown, *response),
        shown@ == b@ ==> same_response(*shown, *b),
{
    lemma_views_tell_headers(shown.headers@, response.headers@);
    lemma_views_tell_headers(shown.headers@, b.headers@);
}

/// A request is shown to plugins in every part.
pub proof fn request_is_shown_whole(request: &Request, shown: RequestInterface)
    requires
        call_ensures(RequestInterface::from, (request,), shown),
    ensures
        shown.method@ == request.method@,
        shown.uri@ == request.uri@,
        same_headers(shown.headers@, request.headers@),
        shown.chunk@ == request.body.content@,
        shown.chunk_start == request.body.start,
        shown.chunk_length == request.body.size,
        shown.end_of_stream == request.body.end_of_stream,
        shows_request(shown, *request),
{
    lemma_request_view_is_complete(&shown, request, &shown);
}

/// A response is shown to plugins in every part.
pub proof fn response_is_shown_whole(response: &Response, shown: ResponseInterface)
    requires
        call_ensures(ResponseInterface::from, (response,), shown),
    ensures
        shown.status == response.status,
        same_headers(shown.headers@, response.headers@),
        shown.chunk@ == response.body.content@,
        shown.chunk_start == response.body.start,
        shown.chunk_length == response.body.size,
        shown.end_of_stream == response.body.end_of_stream,
{
    lemma_response_view_is_complete(&shown, response, &shown);
}

/// The answer to an outbound request is shown with its status, its headers and its whole body, as
/// one chunk that starts at zero, is as long as the body and ends the stream.
pub proof fn answer_is_shown_whole(
    status: u16,
    headers: Vec<HeaderInterface>,
    body: Vec<u8>,
    shown: ResponseInterface,
)
    requires
        call_ensures(ResponseInterface::from_complete, (status, headers, body), shown),
    ensures
        shown.status == status,
        same_headers(shown.headers@, headers@),
        shown.chunk@ == body@,
        shown.chunk_start == 0,
        shown.chunk_length == body@.len(),
        shown.end_of_stream,
{
    lemma_views_tell_headers(shown.headers@, headers@);
}

/// A copy of a shown request or response is the same in every part.
pub proof fn shown_copies_are_faithful(
    request: &RequestInterface,
    request_copy: RequestInterface,
    response: &ResponseInterface,
    response_copy: ResponseInterface,
)
    requires
        call_ensures(<RequestInterface as Clone>::clone, (request,), request_copy),
        call_ensures(<ResponseInterface as Clone>::clone, (response,), response_copy),
    ensures
        same_request(request_copy, *request),
        same_response(response_copy, *response),
{
    lemma_views_tell_headers(request_copy.headers@, request.headers@);
    lemma_views_tell_headers(response_copy.headers@, response.headers@);
}

// Decisions

/// Each component of a decision stays the component that it is, whichever way it crosses the
/// sandbox boundary.
pub proof fn components_keep_their_places(
    stated: DecisionInterface,
    taken: Decision,
    decision: Decision,
    shown: DecisionInterface,
)
    requires
        call_ensures(<Decision as From<DecisionInterface>>::from, (stated,), taken),
        call_ensures(<DecisionInterface as From<Decision>>::from, (decision,), shown),
    ensures
        taken.accept == stated.accept,
        taken.restrict == stated.restrict,
        taken.unknown == stated.unknown,
        shown.accept == decision.accept,
        shown.restrict == decision.restrict,
        shown.unknown == decision.unknown,
{
}

/// Each outcome is shown as the outcome that it is.
pub proof fn outcome_is_shown_as_it_is(outcome: Outcome, shown: OutcomeInterface)
    requires
        call_ensures(<OutcomeInterface as From<Outcome>>::from, (outcome,), shown),
    ensures
        shown is Trusted <==> outcome is Trusted,
        shown is Accepted <==> outcome is Accepted,
        shown is Suspected <==> outcome is Suspected,
        shown is Restricted <==> outcome is Restricted,
{
}

// Permissions

/// Whether a text is in a list.
pub open spec fn is_listed(list: Seq<String>, text: Seq<char>) -> bool {
    exists|i: int| 0 <= i < list.len() && (#[trigger] list[i])@ == text
}

/// Whether a text begins with one of a list, character by character.
pub open spec fn begins_with_listed(list: Seq<String>, text: Seq<char>) -> bool {
    exists|i: int|
        0 <= i < list.len() && (#[trigger] list[i])@.len() <= text.len() && forall|k: int|
            0 <= k < list[i]@.len() ==> list[i]@[k] == #[trigger] text[k]
}

/// A text is in a list of strings where it is in the list of their texts.
pub(crate) proof fn lemma_texts_tell_listed(list: Seq<String>, text: Seq<char>)
    ensures
        texts(list).contains(text) <==> is_listed(list, text),
{
    if texts(list).contains(text) {
        let i = choose|i: int| 0 <= i < texts(list).len() && texts(list)[i] == text;
        assert(list[i]@ == text);
    }
    if is_listed(list, text) {
        let i = choose|i: int| 0 <= i < list.len() && (#[trigger] list[i])@ == text;
        assert(texts(list)[i] == text);
    }
}

/// A text begins with one of a list of strings where it begins with one of their texts.
pub(crate) proof fn lemma_texts_tell_prefixes(permissions: &Permissions, text: Seq<char>)
    ensures
        permissions@.allows_state(text) <==> begins_with_listed(permissions.state@, text),
{
    let list = permissions.state@;
    let all = permissions@.state;
    if permissions@.allows_state(text) {
        let i = choose|i: int| 0 <= i < all.len() && (#[trigger] all[i]).is_prefix_of(text);
        assert(all[i] == list[i]@);
        assert forall|k: int| 0 <= k < list[i]@.len() implies list[i]@[k] == #[trigger] text[k] by {
            assert(text.subrange(0, list[i]@.len() as int)[k] == text[k]);
        }
    }
    if begins_with_listed(list, text) {
        let i = choose|i: int|
            0 <= i < list.len() && (#[trigger] list[i])@.len() <= text.len() && forall|k: int|
                0 <= k < list[i]@.len() ==> list[i]@[k] == #[trigger] text[k];
        assert(all[i] == list[i]@);
        assert(list[i]@ =~= text.subrange(0, list[i]@.len() as int));
        assert(all[i].is_prefix_of(text));
    }
}

/// A variable and a domain are allowed exactly where they are listed, and a state key exactly where
/// it begins with a prefix that is listed.
pub proof fn allowed_is_listed(
    permissions: &Permissions,
    name: &str,
    env: bool,
    domain: bool,
    state: bool,
)
    requires
        call_ensures(Permissions::allows_env, (permissions, name), env),
        call_ensures(Permissions::allows_domain, (permissions, name), domain),
        call_ensures(Permissions::allows_state, (permissions, name), state),
    ensures
        env <==> is_listed(permissions.env@, name@),
        domain <==> is_listed(permissions.http@, name@),
        state <==> begins_with_listed(permissions.state@, name@),
{
    lemma_texts_tell_listed(permissions.env@, name@);
    lemma_texts_tell_listed(permissions.http@, name@);
    lemma_texts_tell_prefixes(permissions, name@);
}

/// Whether two plugins are granted the same.
pub open spec fn same_permissions(a: Permissions, b: Permissions) -> bool {
    &&& same_strings(a.env@, b.env@)
    &&& same_strings(a.http@, b.http@)
    &&& same_strings(a.state@, b.state@)
}

/// Grants with the same texts are the same grants.
pub(crate) proof fn lemma_views_tell_permissions(a: &Permissions, b: &Permissions)
    ensures
        a@ == b@ <==> same_permissions(*a, *b),
{
    lemma_texts_tell_strings(a.env@, b.env@);
    lemma_texts_tell_strings(a.http@, b.http@);
    lemma_texts_tell_strings(a.state@, b.state@);
}

/// A copy of grants grants the same.
pub proof fn grants_are_copied(permissions: &Permissions, copy: Permissions)
    requires
        call_ensures(<Permissions as Clone>::clone, (permissions,), copy),
    ensures
        same_permissions(copy, *permissions),
{
    lemma_views_tell_permissions(&copy, permissions);
}

/// A call is turned down in these words.
pub proof fn refusal_is_worded(refusal: Refusal, text: String)
    requires
        call_ensures(Refusal::message, (refusal,), text),
    ensures
        match refusal {
            Refusal::EnvironmentDenied => text@ == "access to environment variable denied"@,
            Refusal::UriInvalid => text@ == "invalid uri"@,
            Refusal::UriWithoutDomain => text@ == "uri without domain"@,
            Refusal::HttpDenied => text@ == "access to http resource denied"@,
            Refusal::UnsupportedMethod => text@ == "unsupported http method"@,
            Refusal::UnknownRequest => text@ == "unknown request id"@,
            Refusal::StateDenied => text@ == "access to state value by prefix denied"@,
            Refusal::RemoteStateUnavailable => text@ == "remote state unavailable"@,
            Refusal::InvalidTtl => text@ == "invalid time-to-live"@,
            Refusal::NotRecorded => text@ == "value not recorded"@,
        },
{
}

// Outbound requests

/// Whether `text` is a name of capital letters in whatever case: each of its characters is the
/// capital letter or the small letter of it.
pub open spec fn is_written_as(text: Seq<char>, name: Seq<char>) -> bool {
    &&& text.len() == name.len()
    &&& forall|i: int|
        0 <= i < text.len() ==> #[trigger] text[i] == name[i] || text[i] as int == name[i] as int
            + 32
}

/// Whether `text` names a method, in whatever case.
pub open spec fn asks_for(text: Seq<char>, method: HttpMethod) -> bool {
    match method {
        HttpMethod::Get => is_written_as(text, "GET"@),
        HttpMethod::Head => is_written_as(text, "HEAD"@),
        HttpMethod::Post => is_written_as(text, "POST"@),
        HttpMethod::Put => is_written_as(text, "PUT"@),
        HttpMethod::Patch => is_written_as(text, "PATCH"@),
        HttpMethod::Delete => is_written_as(text, "DELETE"@),
        HttpMethod::Options => is_written_as(text, "OPTIONS"@),
        HttpMethod::Trace => is_written_as(text, "TRACE"@),
    }
}

/// Whether `text` names one of the eight methods that the host sends.
pub open spec fn asks_for_some(text: Seq<char>) -> bool {
    ||| asks_for(text, HttpMethod::Get)
    ||| asks_for(text, HttpMethod::Head)
    ||| asks_for(text, HttpMethod::Post)
    ||| asks_for(text, HttpMethod::Put)
    ||| asks_for(text, HttpMethod::Patch)
    ||| asks_for(text, HttpMethod::Delete)
    ||| asks_for(text, HttpMethod::Options)
    ||| asks_for(text, HttpMethod::Trace)
}

/// The upper case of a text is a name of capital letters where the text is that name in whatever
/// case.
pub(crate) proof fn lemma_upper_case_tells_names(text: Seq<char>, name: Seq<char>)
    requires
        forall|i: int| 0 <= i < name.len() ==> 'A' <= #[trigger] name[i] <= 'Z',
    ensures
        ascii_uppercase(text) == name <==> is_written_as(text, name),
{
    let upper = ascii_uppercase(text);
    assert(upper.len() == text.len());
    if upper == name {
        assert forall|i: int| 0 <= i < text.len() implies #[trigger] text[i] == name[i]
            || text[i] as int == name[i] as int + 32 by {
            assert(upper[i] == ascii_upper(text[i]));
        }
    }
    if is_written_as(text, name) {
        assert forall|i: int| 0 <= i < text.len() implies upper[i] == name[i] by {
            assert(upper[i] == ascii_upper(text[i]));
            assert('A' <= name[i] <= 'Z');
        }
        assert(upper =~= name);
    }
}

/// The text of a method's name tells the method.
pub(crate) proof fn lemma_method_is_told_by_its_name(text: Seq<char>, method: HttpMethod)
    ensures
        crate::outbound::method_of(text) == Some(method) <==> asks_for(text, method),
        crate::outbound::method_of(text) is Some <==> asks_for_some(text),
{
    reveal_strlit("GET");
    reveal_strlit("HEAD");
    reveal_strlit("POST");
    reveal_strlit("PUT");
    reveal_strlit("PATCH");
    reveal_strlit("DELETE");
    reveal_strlit("OPTIONS");
    reveal_strlit("TRACE");
    lemma_upper_case_tells_names(text, "GET"@);
    lemma_upper_case_tells_names(text, "HEAD"@);
    lemma_upper_case_tells_names(text, "POST"@);
    lemma_upper_case_tells_names(text, "PUT"@);
    lemma_upper_case_tells_names(text, "PATCH"@);
    lemma_upper_case_tells_names(text, "DELETE"@);
    lemma_upper_case_tells_names(text, "OPTIONS"@);
    lemma_upper_case_tells_names(text, "TRACE"@);
    assert("GET"@[0] != "PUT"@[0]);
    assert("HEAD"@[0] != "POST"@[0]);
    assert("PATCH"@[0] != "TRACE"@[0]);
}

/// Each of the eight methods is read from its name in whatever case, and nothing else is a method.
pub proof fn method_is_read_by_name(text: &str, read: Option<HttpMethod>, method: HttpMethod)
    requires
        call_ensures(crate::outbound::parse_method, (text,), read),
    ensures
        read == Some(method) <==> asks_for(text@, method),
        read is None <==> !asks_for_some(text@),
{
    lemma_method_is_told_by_its_name(text@, method);
}

/// A request whose URI was found to name a domain is let through exactly where the domain was
/// granted and the method is one of the eight, and then by that method. Otherwise it is turned down
/// for the first of the reasons that holds, in the order of the URI, the grant and the method.
pub proof fn request_is_let_through_where_granted(
    permissions: &Permissions,
    method: &str,
    domain: Option<Option<String>>,
    decision: Result<HttpMethod, Refusal>,
    asked: HttpMethod,
)
    requires
        call_ensures(crate::outbound::decide_outbound, (permissions, method, domain), decision),
    ensures
        match domain {
            None => decision == Err::<HttpMethod, Refusal>(Refusal::UriInvalid),
            Some(None) => decision == Err::<HttpMethod, Refusal>(Refusal::UriWithoutDomain),
            Some(Some(name)) => {
                let granted = is_listed(permissions.http@, name@);
                &&& !granted ==> decision == Err::<HttpMethod, Refusal>(Refusal::HttpDenied)
                &&& granted && asks_for(method@, asked) ==> decision == Ok::<HttpMethod, Refusal>(
                    asked,
                )
                &&& granted && asks_for_some(method@) ==> decision is Ok
                &&& granted && !asks_for_some(method@) ==> decision == Err::<HttpMethod, Refusal>(
                    Refusal::UnsupportedMethod,
                )
            },
        },
{
    lemma_method_is_told_by_its_name(method@, asked);
    if domain is Some && domain->0 is Some {
        lemma_texts_tell_listed(permissions.http@, domain->0->0@);
    }
}

/// The same of a request whose URI is still to be read.
pub proof fn uri_is_let_through_where_granted(
    permissions: &Permissions,
    method: &str,
    uri: &str,
    decision: Result<HttpMethod, Refusal>,
    asked: HttpMethod,
)
    requires
        call_ensures(crate::outbound::check_outbound, (permissions, method, uri), decision),
    ensures
        match uri_domain(uri@) {
            None => decision == Err::<HttpMethod, Refusal>(Refusal::UriInvalid),
            Some(None) => decision == Err::<HttpMethod, Refusal>(Refusal::UriWithoutDomain),
            Some(Some(name)) => {
                let granted = is_listed(permissions.http@, name);
                &&& !granted ==> decision == Err::<HttpMethod, Refusal>(Refusal::HttpDenied)
                &&& granted && asks_for(method@, asked) ==> decision == Ok::<HttpMethod, Refusal>(
                    asked,
                )
                &&& granted && asks_for_some(method@) ==> decision is Ok
                &&& granted && !asks_for_some(method@) ==> decision == Err::<HttpMethod, Refusal>(
                    Refusal::UnsupportedMethod,
                )
            },
        },
{
    lemma_method_is_told_by_its_name(method@, asked);
    if uri_domain(uri@) is Some && uri_domain(uri@)->0 is Some {
        lemma_texts_tell_listed(permissions.http@, uri_domain(uri@)->0->0);
    }
}

/// Whether two outbound requests are the same in every part.
pub open spec fn same_outbound(a: OutboundRequest, b: OutboundRequest) -> bool {
    &&& a.method == b.method
    &&& a.uri@ == b.uri@
    &&& same_headers(a.headers@, b.headers@)
    &&& a.body is Some <==> b.body is Some
    &&& a.body is Some ==> a.body->0@ == b.body->0@
}

/// Whether `a` is `b` with one more header behind the others.
pub open spec fn has_one_more_header(
    a: OutboundRequest,
    b: OutboundRequest,
    name: Seq<char>,
    value: Seq<u8>,
) -> bool {
    &&& a.method == b.method
    &&& a.uri@ == b.uri@
    &&& a.headers@.len() == b.headers@.len() + 1
    &&& forall|i: int|
        0 <= i < b.headers@.len() ==> (#[trigger] a.headers@[i]).name@ == b.headers@[i].name@
            && a.headers@[i].value@ == b.headers@[i].value@
    &&& a.headers@[b.headers@.len() as int].name@ == name
    &&& a.headers@[b.headers@.len() as int].value@ == value
    &&& a.body is Some <==> b.body is Some
    &&& a.body is Some ==> a.body->0@ == b.body->0@
}

/// Whether every request in `a` but `id` is in `b` and the same there, and the other way round.
pub open spec fn same_requests_but(a: OutboundRequests, b: OutboundRequests, id: u64) -> bool {
    forall|other: u64|
        other != id ==> {
            &&& #[trigger] a.requests@.contains_key(other) <==> b.requests@.contains_key(other)
            &&& a.requests@.contains_key(other) ==> same_outbound(
                a.requests@[other],
                b.requests@[other],
            )
        }
}

/// Whether `id` belongs to no request, and is the number of requests where that is free, and
/// otherwise the smallest that is free.
pub open spec fn is_fresh(requests: OutboundRequests, id: u64) -> bool {
    &&& !requests.requests@.contains_key(id)
    &&& requests.requests@.contains_key(requests.requests@.len() as u64) ==> forall|j: u64|
        j < id ==> requests.requests@.contains_key(j)
    &&& !requests.requests@.contains_key(requests.requests@.len() as u64) ==> id
        == requests.requests@.len() as u64
}

/// An outbound request is told by what it says.
pub(crate) proof fn lemma_views_tell_outbound(a: OutboundRequest, b: OutboundRequest)
    ensures
        a@ == b@ <==> same_outbound(a, b),
{
    lemma_views_tell_headers(a.headers@, b.headers@);
}

/// What is said of the requests by their IDs holds of each of them.
pub(crate) proof fn lemma_views_tell_requests(
    a: &OutboundRequests,
    b: &OutboundRequests,
    id: u64,
)
    ensures
        a@.dom() == a.requests@.dom(),
        forall|k: u64| a.requests@.contains_key(k) ==> #[trigger] a@[k] == a.requests@[k]@,
        a@.remove(id) == b@.remove(id) ==> same_requests_but(*a, *b, id),
        a@ == b@ ==> same_requests_but(*a, *b, id) && (a.requests@.contains_key(id)
            <==> b.requests@.contains_key(id)) && (a.requests@.contains_key(id) ==> same_outbound(
            a.requests@[id],
            b.requests@[id],
        )),
{
    assert(a@.dom() =~= a.requests@.dom());
    assert(b@.dom() =~= b.requests@.dom());
    if a@ == b@ {
        assert(a@.remove(id) == b@.remove(id));
        assert(a@.dom().contains(id) <==> b@.dom().contains(id));
        if a.requests@.contains_key(id) {
            assert(b@.dom().contains(id));
            assert(a@[id] == a.requests@[id]@ && b@[id] == b.requests@[id]@);
            lemma_views_tell_outbound(a.requests@[id], b.requests@[id]);
        }
    }
    if a@.remove(id) == b@.remove(id) {
        assert forall|other: u64| other != id implies {
            &&& #[trigger] a.requests@.contains_key(other) <==> b.requests@.contains_key(other)
            &&& a.requests@.contains_key(other) ==> same_outbound(
                a.requests@[other],
                b.requests@[other],
            )
        } by {
            assert(a@.remove(id).dom().contains(other) <==> a@.dom().contains(other));
            assert(b@.remove(id).dom().contains(other) <==> b@.dom().contains(other));
            if a.requests@.contains_key(other) {
                assert(a@.remove(id)[other] == a.requests@[other]@);
                assert(b@.remove(id)[other] == b.requests@[other]@);
                lemma_views_tell_outbound(a.requests@[other], b.requests@[other]);
            }
        }
    }
}

/// At first no request is being assembled, and asking for one tells whether it is.
pub proof fn pending_is_told(made: OutboundRequests, requests: &OutboundRequests, id: u64, told: bool)
    requires
        call_ensures(OutboundRequests::new, (), made),
        call_ensures(OutboundRequests::is_pending, (requests, id), told),
    ensures
        !made.requests@.contains_key(id),
        told <==> requests.requests@.contains_key(id),
{
    lemma_views_tell_requests(&made, &made, id);
    lemma_views_tell_requests(&*requests, &*requests, id);
    assert(!made@.dom().contains(id));
}

/// A request begins under a fresh ID with its method and URI, without headers and without a body.
pub proof fn request_begins_empty(
    requests: &mut OutboundRequests,
    method: HttpMethod,
    uri: String,
    id: u64,
)
    requires
        call_ensures(OutboundRequests::begin, (requests, method, uri), id),
    ensures
        is_fresh(*old(requests), id),
        final(requests).requests@.contains_key(id),
        final(requests).requests@[id].method == method,
        final(requests).requests@[id].uri@ == uri@,
        final(requests).requests@[id].headers@.len() == 0,
        final(requests).requests@[id].body is None,
        same_requests_but(*final(requests), *old(requests), id),
{
    lemma_begun_request(&*requests, &*final(requests), method, uri@, id);
}

/// What is said of beginning a request holds of the requests before and after.
pub(crate) proof fn lemma_begun_request(
    before: &OutboundRequests,
    after: &OutboundRequests,
    method: HttpMethod,
    uri: Seq<char>,
    id: u64,
)
    requires
        crate::outbound::is_next_id(before@.dom(), id),
        after@ == before@.insert(id, crate::outbound::OutboundView::begun(method, uri)),
    ensures
        is_fresh(*before, id),
        after.requests@.contains_key(id),
        after.requests@[id].method == method,
        after.requests@[id].uri@ == uri,
        after.requests@[id].headers@.len() == 0,
        after.requests@[id].body is None,
        same_requests_but(*after, *before, id),
{
    lemma_views_tell_requests(before, before, id);
    assert(after@.remove(id) =~= before@.remove(id));
    lemma_views_tell_requests(after, before, id);
    assert(after@.dom().contains(id));
    let made = after.requests@[id];
    assert(after@[id] == made@);
    assert(made.headers@.len() == header_views(made.headers@).len());
    assert(before.requests@.len() == before.requests@.dom().len());
}

/// A header is put behind the others of the request that it is added to, and no other request is
/// touched.
pub proof fn header_is_added_last(requests: &mut OutboundRequests, id: u64, header: HeaderInterface)
    requires
        requests.requests@.contains_key(id),
        call_ensures(OutboundRequests::add_header, (requests, id, header), ()),
    ensures
        final(requests).requests@.contains_key(id),
        has_one_more_header(
            final(requests).requests@[id],
            old(requests).requests@[id],
            header.name@,
            header.value@,
        ),
        same_requests_but(*final(requests), *old(requests), id),
{
    lemma_views_tell_requests(&*requests, &*requests, id);
    lemma_added_header(&*requests, &*final(requests), id, header.name@, header.value@);
}

/// What is said of adding a header holds of the requests before and after.
pub(crate) proof fn lemma_added_header(
    before: &OutboundRequests,
    after: &OutboundRequests,
    id: u64,
    name: Seq<char>,
    value: Seq<u8>,
)
    requires
        before.requests@.contains_key(id),
        after@ == before@.insert(
            id,
            before@[id].with_header(crate::interface::HeaderView { name, value }),
        ),
    ensures
        after.requests@.contains_key(id),
        has_one_more_header(after.requests@[id], before.requests@[id], name, value),
        same_requests_but(*after, *before, id),
{
    lemma_views_tell_requests(before, before, id);
    assert(after@.remove(id) =~= before@.remove(id));
    lemma_views_tell_requests(after, before, id);
    assert(after@.dom().contains(id));
    let a = after.requests@[id];
    let b = before.requests@[id];
    assert(after@[id] == a@);
    assert(before@[id] == b@);
    let n = b.headers@.len() as int;
    assert(header_views(a.headers@) == header_views(b.headers@).push(
        crate::interface::HeaderView { name, value },
    ));
    assert(a.headers@.len() == header_views(a.headers@).len());
    assert(b.headers@.len() == header_views(b.headers@).len());
    assert(header_views(a.headers@)[n] == a.headers@[n]@);
    assert forall|i: int| 0 <= i < b.headers@.len() implies (#[trigger] a.headers@[i]).name@
        == b.headers@[i].name@ && a.headers@[i].value@ == b.headers@[i].value@ by {
        assert(header_views(a.headers@)[i] == a.headers@[i]@);
        assert(header_views(b.headers@)[i] == b.headers@[i]@);
    }
}

/// A completed request is handed out with what was assembled and with its body, its ID is given up,
/// and no other request is touched.
pub proof fn request_is_handed_out_complete(
    requests: &mut OutboundRequests,
    id: u64,
    body: Vec<u8>,
    request: OutboundRequest,
)
    requires
        requests.requests@.contains_key(id),
        call_ensures(OutboundRequests::complete, (requests, id, body), request),
    ensures
        request.method == old(requests).requests@[id].method,
        request.uri@ == old(requests).requests@[id].uri@,
        same_headers(request.headers@, old(requests).requests@[id].headers@),
        request.body is Some,
        request.body->0@ == body@,
        !final(requests).requests@.contains_key(id),
        same_requests_but(*final(requests), *old(requests), id),
{
    lemma_views_tell_requests(&*requests, &*requests, id);
    lemma_completed_request(&*requests, &*final(requests), id, body@, &request);
}

/// What is said of completing a request holds of the requests before and after.
pub(crate) proof fn lemma_completed_request(
    before: &OutboundRequests,
    after: &OutboundRequests,
    id: u64,
    body: Seq<u8>,
    request: &OutboundRequest,
)
    requires
        before.requests@.contains_key(id),
        request@ == before@[id].with_body(body),
        after@ == before@.remove(id),
    ensures
        request.method == before.requests@[id].method,
        request.uri@ == before.requests@[id].uri@,
        same_headers(request.headers@, before.requests@[id].headers@),
        request.body is Some,
        request.body->0@ == body,
        !after.requests@.contains_key(id),
        same_requests_but(*after, *before, id),
{
    lemma_views_tell_requests(before, before, id);
    assert(after@.remove(id) =~= before@.remove(id));
    lemma_views_tell_requests(after, before, id);
    assert(!after@.dom().contains(id));
    lemma_views_tell_headers(request.headers@, before.requests@[id].headers@);
}

// Remote state

/// Whether a command runs this script on this key.
pub open spec fn runs(command: RedisCommand, script: Script, key: Seq<char>) -> bool {
    match command {
        RedisCommand::Run { script: s, key: k, args: _ } => {
            &&& s.code@ == script.code@
            &&& s.hash@ == script.hash@
            &&& k@ == key
        },
        _ => false,
    }
}

/// The arguments that a script is run with.
pub open spec fn arguments(command: RedisCommand) -> Seq<i64>
    recommends
        command is Run,
{
    command->args@
}

/// The command that increments a rate limit runs that script on the key, with the amount, the
/// period and the time as its arguments, in this order and with no others.
pub proof fn rate_limit_is_incremented_by(
    scripts: &ScriptRegistry,
    key: String,
    delta: i64,
    window: i64,
    timestamp: i64,
    command: RedisCommand,
)
    requires
        call_ensures(
            ScriptRegistry::increment_rate_limit_at,
            (scripts, key, delta, window, timestamp),
            command,
        ),
    ensures
        runs(command, scripts.increment_rate_limit, key@),
        arguments(command).len() == 3,
        arguments(command)[0] == delta,
        arguments(command)[1] == window,
        arguments(command)[2] == timestamp,
{
}

/// The command that checks a rate limit runs that script on the key, with the time as its only
/// argument.
pub proof fn rate_limit_is_checked_at(
    scripts: &ScriptRegistry,
    key: String,
    timestamp: i64,
    command: RedisCommand,
)
    requires
        call_ensures(ScriptRegistry::check_rate_limit_at, (scripts, key, timestamp), command),
    ensures
        runs(command, scripts.check_rate_limit, key@),
        arguments(command).len() == 1,
        arguments(command)[0] == timestamp,
{
}

/// The command that increments a circuit breaker runs that script on the key, with the successes,
/// the failures, the period and the time as its arguments, in this order and with no others.
pub proof fn breaker_is_incremented_by(
    scripts: &ScriptRegistry,
    key: String,
    success_delta: i64,
    failure_delta: i64,
    window: i64,
    timestamp: i64,
    command: RedisCommand,
)
    requires
        call_ensures(
            ScriptRegistry::increment_breaker_at,
            (scripts, key, success_delta, failure_delta, window, timestamp),
            command,
        ),
    ensures
        runs(command, scripts.increment_breaker, key@),
        arguments(command).len() == 4,
        arguments(command)[0] == success_delta,
        arguments(command)[1] == failure_delta,
        arguments(command)[2] == window,
        arguments(command)[3] == timestamp,
{
}

/// The command that checks a circuit breaker runs that script on the key, with the time as its only
/// argument.
pub proof fn breaker_is_checked_at(
    scripts: &ScriptRegistry,
    key: String,
    timestamp: i64,
    command: RedisCommand,
)
    requires
        call_ensures(ScriptRegistry::check_breaker_at, (scripts, key, timestamp), command),
    ensures
        runs(command, scripts.check_breaker, key@),
        arguments(command).len() == 1,
        arguments(command)[0] == timestamp,
{
}

/// The numbers of an answer are shown each in its place.
pub proof fn answers_are_shown_in_order(
    rate: (i64, i64),
    shown_rate: RateInterface,
    breaker: (i64, i64, i64, i64, i64, i64),
    shown_breaker: BreakerInterface,
)
    requires
        call_ensures(RateInterface::from_reply, (rate,), shown_rate),
        call_ensures(BreakerInterface::from_reply, (breaker,), shown_breaker),
    ensures
        shown_rate.attempts == rate.0,
        shown_rate.expiration == rate.1,
        shown_breaker.generation == breaker.0,
        shown_breaker.successes == breaker.1,
        shown_breaker.failures == breaker.2,
        shown_breaker.consecutive_successes == breaker.3,
        shown_breaker.consecutive_failures == breaker.4,
        shown_breaker.expiration == breaker.5,
{
}

/// A script holds the code that it was made of and the digest of that code, and so does a copy.
pub proof fn script_holds_its_code(code: &str, script: Script, copy: Script)
    requires
        call_ensures(Script::new, (code,), script),
        call_ensures(<Script as Clone>::clone, (&script,), copy),
    ensures
        script.code@ == code@,
        script.hash@ == script_digest(code@),
        copy.code@ == code@,
        copy.hash@ == script_digest(code@),
{
}

/// The predefined registry holds each script under its own name.
pub proof fn scripts_are_registered_by_name(registry: ScriptRegistry)
    requires
        call_ensures(<ScriptRegistry as Default>::default, (), registry),
    ensures
        registry.increment_rate_limit.code@ == INCREMENT_RATE_LIMIT@,
        registry.increment_rate_limit.hash@ == script_digest(INCREMENT_RATE_LIMIT@),
        registry.check_rate_limit.code@ == CHECK_RATE_LIMIT@,
        registry.check_rate_limit.hash@ == script_digest(CHECK_RATE_LIMIT@),
        registry.increment_breaker.code@ == INCREMENT_BREAKER@,
        registry.increment_breaker.hash@ == script_digest(INCREMENT_BREAKER@),
        registry.check_breaker.code@ == CHECK_BREAKER@,
        registry.check_breaker.hash@ == script_digest(CHECK_BREAKER@),
{
}

// Parameters

/// A new map of parameters has no entries.
pub proof fn params_begin_empty(made: Params, key: Seq<char>)
    requires
        call_ensures(Params::new, (), made),
    ensures
        !json_map_contents(made.map).contains_key(key),
{
}

/// A parameter that is in the map is read as the text of its value, and one that is not is read as
/// the four letters of `null`.
pub proof fn param_is_read_from_the_map(
    params: &Params,
    key: &str,
    r: Result<Vec<u8>, ParamError>,
)
    requires
        call_ensures(Params::get_param_value, (params, key), r),
    ensures
        r is Ok,
        json_map_contents(params.map).contains_key(key@) ==> r->Ok_0@ == json_map_contents(
            params.map,
        )[key@],
        !json_map_contents(params.map).contains_key(key@) ==> r->Ok_0@ == seq![
            0x6eu8,
            0x75u8,
            0x6cu8,
            0x6cu8,
        ],
{
}

/// JSON is put into the map at its key and nowhere else; what is not JSON is refused and changes
/// nothing.
pub proof fn param_is_put_into_the_map(
    params: &mut Params,
    key: String,
    value: Vec<u8>,
    r: Result<(), ParamError>,
    other: Seq<char>,
)
    requires
        call_ensures(Params::set_param_value, (params, key, value), r),
    ensures
        r is Ok <==> json_parse(value@) is Some,
        r is Ok ==> {
            let after = json_map_contents(final(params).map);
            let before = json_map_contents(old(params).map);
            &&& after.contains_key(key@)
            &&& after[key@] == json_parse(value@)->0
            &&& other != key@ ==> (after.contains_key(other) <==> before.contains_key(other))
            &&& other != key@ && before.contains_key(other) ==> after[other] == before[other]
        },
        r is Err ==> json_map_contents(final(params).map) == json_map_contents(old(params).map),
{
}

/// What one plugin writes, another reads: the text of the same value.
pub proof fn param_written_is_read(
    params: &mut Params,
    key: String,
    value: Vec<u8>,
    written: Result<(), ParamError>,
    again: &str,
    read: Result<Vec<u8>, ParamError>,
)
    requires
        call_ensures(Params::set_param_value, (params, key, value), written),
        written is Ok,
        again@ == key@,
        call_ensures(Params::get_param_value, (&*final(params), again), read),
    ensures
        read is Ok,
        json_parse(value@) == Some(read->Ok_0@),
{
}

/// A value that was parsed is put into the map at its key and nowhere else; where the parser
/// failed, its error is handed on and nothing changes.
pub proof fn parsed_param_is_put_into_the_map(
    params: &mut Params,
    key: String,
    parsed: Result<serde_json::Value, serde_json::Error>,
    r: Result<(), ParamError>,
    other: Seq<char>,
)
    requires
        call_ensures(Params::record, (params, key, parsed), r),
    ensures
        match parsed {
            Ok(value) => {
                let after = json_map_contents(final(params).map);
                let before = json_map_contents(old(params).map);
                &&& r is Ok
                &&& after.contains_key(key@)
                &&& after[key@] == json_text(value)
                &&& other != key@ ==> (after.contains_key(other) <==> before.contains_key(other))
                &&& other != key@ && before.contains_key(other) ==> after[other] == before[other]
            },
            Err(error) => {
                &&& r is Err
                &&& r->Err_0->Json_0 == error
                &&& json_map_contents(final(params).map) == json_map_contents(old(params).map)
            },
        },
{
}

// Plugins

/// Engines for plugins resolve backtraces, and have several memories, the component model and
/// asynchronous calls switched on.
pub proof fn plugin_engines_are_set_up(settings: EngineSettings)
    requires
        call_ensures(EngineSettings::for_plugins, (), settings),
    ensures
        settings.backtrace_details == BacktraceDetails::Enable,
        settings.multi_memory,
        settings.component_model,
        settings.async_support,
{
}

/// Whether an engine is set up for plugins.
pub open spec fn is_for_plugins(settings: EngineSettings) -> bool {
    &&& settings.backtrace_details == BacktraceDetails::Enable
    &&& settings.multi_memory
    &&& settings.component_model
    &&& settings.async_support
}

/// Whether two configurations say the same.
pub open spec fn same_config(a: PluginConfig, b: PluginConfig) -> bool {
    &&& a.reference@ == b.reference@
    &&& a.weight == b.weight
    &&& json_text(a.config) == json_text(b.config)
    &&& same_permissions(a.permissions, b.permissions)
}

/// A configuration is told by what it says.
pub(crate) proof fn lemma_views_tell_configs(a: &PluginConfig, b: &PluginConfig)
    ensures
        a@ == b@ <==> same_config(*a, *b),
{
    lemma_views_tell_permissions(&a.permissions, &b.permissions);
}

/// Whether a plugin is known by this name, is configured like this, and runs code that was compiled
/// from these bytes for the engine that it keeps, which is set up for plugins.
pub open spec fn is_loaded_from(
    plugin: Plugin,
    name: Seq<char>,
    config: PluginConfig,
    bytes: Seq<u8>,
    text_accepted: bool,
) -> bool {
    &&& plugin.reference@ == name
    &&& same_config(*plugin.config, config)
    &&& is_for_plugins(plugin.engine.settings)
    &&& plugin.component.origin().bytes == bytes
    &&& plugin.component.origin().text_accepted == text_accepted
    &&& plugin.component.origin().engine == plugin.engine.engine
    &&& plugin.component.origin().settings == plugin.engine.settings
}

/// Whether loading failed on the way to compiling these bytes: on an engine set up for plugins, or
/// on these bytes themselves.
pub open spec fn failed_on(error: PluginLoadError, bytes: Seq<u8>, text_accepted: bool) -> bool {
    match error {
        PluginLoadError::Engine(refused) => is_for_plugins(refused.settings()),
        PluginLoadError::Compile(refused) => {
            &&& refused.origin().bytes == bytes
            &&& refused.origin().text_accepted == text_accepted
            &&& is_for_plugins(refused.origin().settings)
        },
    }
}

/// A plugin is loaded from exactly the code that it is to be loaded from, under its name and with
/// its configuration, or loading failed on exactly that code: from text, from the binary format
/// alone, and from either, by the name in the configuration.
pub proof fn plugin_is_loaded_from_its_code(
    name: String,
    wat: &str,
    bytes: &[u8],
    config: &PluginConfig,
    from_wat: Result<Plugin, PluginLoadError>,
    from_bytes: Result<Plugin, PluginLoadError>,
    from_file: Result<Plugin, PluginLoadError>,
)
    requires
        call_ensures(Plugin::from_wat, (name, wat, config), from_wat),
        call_ensures(Plugin::from_bytes, (name, bytes, config), from_bytes),
        call_ensures(Plugin::from_file, (bytes, config), from_file),
    ensures
        match from_wat {
            Ok(plugin) => is_loaded_from(plugin, name@, *config, wat.spec_bytes(), true),
            Err(error) => failed_on(error, wat.spec_bytes(), true),
        },
        match from_bytes {
            Ok(plugin) => is_loaded_from(plugin, name@, *config, bytes@, false),
            Err(error) => failed_on(error, bytes@, false),
        },
        match from_file {
            Ok(plugin) => is_loaded_from(plugin, config.reference@, *config, bytes@, true),
            Err(error) => failed_on(error, bytes@, true),
        },
{
    if from_wat is Ok {
        lemma_views_tell_configs(&*from_wat->Ok_0.config, config);
    }
    if from_bytes is Ok {
        lemma_views_tell_configs(&*from_bytes->Ok_0.config, config);
    }
    if from_file is Ok {
        lemma_views_tell_configs(&*from_file->Ok_0.config, config);
    }
}

/// Given an engine, a plugin is compiled on that very engine from exactly the given code, or the
/// compiler refused exactly that code on that engine. Without one the error is handed on.
pub proof fn plugin_is_compiled_on_its_engine(
    name: String,
    config: &PluginConfig,
    engine: Result<WasmEngine, EngineError>,
    code: &[u8],
    text_accepted: bool,
    r: Result<Plugin, PluginLoadError>,
)
    requires
        call_ensures(Plugin::from_engine, (name, config, engine, code, text_accepted), r),
    ensures
        match engine {
            Ok(made) => match r {
                Ok(plugin) => {
                    &&& plugin.reference@ == name@
                    &&& same_config(*plugin.config, *config)
                    &&& plugin.engine.engine == made.engine
                    &&& plugin.engine.settings == made.settings
                    &&& plugin.component.origin().bytes == code@
                    &&& plugin.component.origin().text_accepted == text_accepted
                    &&& plugin.component.origin().engine == made.engine
                    &&& plugin.component.origin().settings == made.settings
                },
                Err(error) => {
                    &&& error is Compile
                    &&& error->Compile_0.origin().bytes == code@
                    &&& error->Compile_0.origin().text_accepted == text_accepted
                    &&& error->Compile_0.origin().engine == made.engine
                    &&& error->Compile_0.origin().settings == made.settings
                },
            },
            Err(refused) => r is Err && r->Err_0 is Engine && r->Err_0->Engine_0 == refused,
        },
{
    if engine is Ok && r is Ok {
        lemma_views_tell_configs(&*r->Ok_0.config, config);
    }
}

/// A plugin is made of the name, the configuration, the engine and the component that are given;
/// an error of the compiler is handed on.
pub proof fn plugin_is_made_of_its_parts(
    name: String,
    config: &PluginConfig,
    engine: WasmEngine,
    component: Result<CompiledComponent, CompileError>,
    r: Result<Plugin, PluginLoadError>,
)
    requires
        call_ensures(Plugin::from_component, (name, config, engine, component), r),
    ensures
        match component {
            Ok(compiled) => {
                &&& r is Ok
                &&& r->Ok_0.reference@ == name@
                &&& same_config(*r->Ok_0.config, *config)
                &&& r->Ok_0.engine == engine
                &&& r->Ok_0.component == compiled
            },
            Err(refused) => r is Err && r->Err_0 is Compile && r->Err_0->Compile_0 == refused,
        },
{
    if component is Ok {
        lemma_views_tell_configs(&*r->Ok_0.config, config);
    }
}

/// A plugin hands out the JSON text of its own configuration and its own grants.
pub proof fn plugin_hands_out_its_own(
    plugin: &Plugin,
    config: Result<Vec<u8>, ConfigSerializationError>,
    permissions: Permissions,
)
    requires
        call_ensures(Plugin::guest_config, (plugin,), config),
        call_ensures(Plugin::permissions, (plugin,), permissions),
    ensures
        config is Ok,
        config->Ok_0@ == json_text(plugin.config.config),
        same_permissions(permissions, plugin.config.permissions),
{
    lemma_views_tell_permissions(&permissions, &plugin.config.permissions);
}

/// A copy of a plugin, of its configuration, of its engine or of its component is the same.
pub proof fn plugin_copies_are_faithful(
    plugin: &Plugin,
    plugin_copy: Plugin,
    config: &PluginConfig,
    config_copy: PluginConfig,
    engine: &WasmEngine,
    engine_copy: WasmEngine,
    component: &CompiledComponent,
    component_copy: CompiledComponent,
)
    requires
        call_ensures(<Plugin as Clone>::clone, (plugin,), plugin_copy),
        call_ensures(<PluginConfig as Clone>::clone, (config,), config_copy),
        call_ensures(<WasmEngine as Clone>::clone, (engine,), engine_copy),
        call_ensures(<CompiledComponent as Clone>::clone, (component,), component_copy),
    ensures
        plugin_copy.reference@ == plugin.reference@,
        same_config(*plugin_copy.config, *plugin.config),
        plugin_copy.engine == plugin.engine,
        plugin_copy.component == plugin.component,
        same_config(config_copy, *config),
        engine_copy == *engine,
        component_copy == *component,
{
    lemma_views_tell_configs(&*plugin_copy.config, &*plugin.config);
    lemma_views_tell_configs(&config_copy, config);
}

} // verus!
