//! What each call of a plugin and each record of the host does, said of the parts of the context
//! before and after and of what comes back.
use crate::context::{ContextInstantiationError, RequestContext};
use crate::decision::{DecisionComponents, DecisionInterface, Outcome, OutcomeInterface};
use crate::effects::{
    arguments, asks_for, asks_for_some, begins_with_listed, has_one_more_header, is_fresh,
    is_listed, lemma_added_header, lemma_begun_request, lemma_completed_request,
    lemma_method_is_told_by_its_name, lemma_request_view_is_complete,
    lemma_response_view_is_complete, lemma_texts_tell_listed, lemma_texts_tell_prefixes,
    lemma_texts_tell_strings, lemma_views_tell_permissions, lemma_views_tell_requests, runs,
    same_headers, same_outbound, same_permissions, same_request, same_requests_but, same_response, same_strings,
    shows_request, shows_response,
};
use crate::instance::PluginInstance;
use crate::interface::{
    IpAddr, IpInterface, Request, RequestInterface, Response, ResponseInterface,
};
use crate::json::json_text;
use crate::outbound::{uri_domain, HttpMethod, OutboundRequest};
use crate::plugin::Plugin;
use crate::refusal::Refusal;
use crate::remote::{RedisCommand, RedisInfo};
use crate::scripts::{Script, ScriptRegistry};
use std::sync::Arc;
use vstd::prelude::*;

verus! {

// Contexts

/// Whether two registries hold the same scripts.
pub open spec fn same_scripts(a: ScriptRegistry, b: ScriptRegistry) -> bool {
    &&& same_script(a.increment_rate_limit, b.increment_rate_limit)
    &&& same_script(a.check_rate_limit, b.check_rate_limit)
    &&& same_script(a.increment_breaker, b.increment_breaker)
    &&& same_script(a.check_breaker, b.check_breaker)
}

/// Whether two scripts are the same.
pub open spec fn same_script(a: Script, b: Script) -> bool {
    a.code@ == b.code@ && a.hash@ == b.hash@
}

/// Whether the same Redis server is known, with the same scripts.
pub open spec fn same_redis(a: Option<Arc<RedisInfo>>, b: Option<Arc<RedisInfo>>) -> bool {
    &&& a is Some <==> b is Some
    &&& a is Some ==> same_scripts(a->0.registry, b->0.registry)
}

/// Whether a plugin that is shown `shown` sees the address `ip`.
pub open spec fn shows_address(shown: IpInterface, ip: IpAddr) -> bool {
    match ip {
        IpAddr::V4(o) => shown == IpInterface::V4((o@[0], o@[1], o@[2], o@[3])),
        IpAddr::V6(o) => match shown {
            IpInterface::V4(_) => false,
            IpInterface::V6(s) => {
                &&& s.0 == o@[0] * 256 + o@[1]
                &&& s.1 == o@[2] * 256 + o@[3]
                &&& s.2 == o@[4] * 256 + o@[5]
                &&& s.3 == o@[6] * 256 + o@[7]
                &&& s.4 == o@[8] * 256 + o@[9]
                &&& s.5 == o@[10] * 256 + o@[11]
                &&& s.6 == o@[12] * 256 + o@[13]
                &&& s.7 == o@[14] * 256 + o@[15]
            },
        },
    }
}

/// A new context shows the plugin the request that it was made for, in every part.
pub proof fn new_context_shows_its_request(
    plugin: Arc<Plugin>,
    redis_info: Option<Arc<RedisInfo>>,
    request: Arc<Request>,
    r: Result<RequestContext, ContextInstantiationError>,
    shown: RequestInterface,
)
    requires
        call_ensures(RequestContext::new, (plugin, redis_info, request), r),
        r is Ok,
        call_ensures(RequestContext::get_request, (&r->Ok_0,), shown),
    ensures
        shown.method@ == request.method@,
        shown.uri@ == request.uri@,
        same_headers(shown.headers@, request.headers@),
        shown.chunk@ == request.body.content@,
        shown.chunk_start == request.body.start,
        shown.chunk_length == request.body.size,
        shown.end_of_stream == request.body.end_of_stream,
        shows_request(shown, *request),
        shows_request(r->Ok_0.request, *request),
{
    lemma_request_view_is_complete(&shown, &*request, &shown);
    lemma_request_view_is_complete(&r->Ok_0.request, &*request, &shown);
}

/// A new context shows the plugin the address that its request was forwarded for, where there is
/// one.
pub proof fn new_context_shows_its_client(
    plugin: Arc<Plugin>,
    redis_info: Option<Arc<RedisInfo>>,
    request: Arc<Request>,
    r: Result<RequestContext, ContextInstantiationError>,
    shown: Option<IpInterface>,
)
    requires
        call_ensures(RequestContext::new, (plugin, redis_info, request), r),
        r is Ok,
        call_ensures(RequestContext::get_client_ip, (&r->Ok_0,), shown),
    ensures
        shown is Some <==> request.forwarded_ip is Some,
        shown is Some ==> shows_address(shown->0, (request.forwarded_ip->0).0),
{
}

/// A new context always comes about. It has the configuration and the grants of its plugin and the
/// scripts of its server; nothing is being assembled, nothing is recorded, and the plugin leaves
/// everything unknown.
pub proof fn new_context_begins_afresh(
    plugin: Arc<Plugin>,
    redis_info: Option<Arc<RedisInfo>>,
    request: Arc<Request>,
    r: Result<RequestContext, ContextInstantiationError>,
    id: u64,
)
    requires
        call_ensures(RequestContext::new, (plugin, redis_info, request), r),
    ensures
        r is Ok,
        r->Ok_0.config@ == json_text(plugin.config.config),
        same_permissions(r->Ok_0.permissions, plugin.config.permissions),
        same_redis(r->Ok_0.redis_info, redis_info),
        !r->Ok_0.outbound_http.requests@.contains_key(id),
        r->Ok_0.decision.accept == 0,
        r->Ok_0.decision.restrict == 0,
        r->Ok_0.decision.unknown == 0x3ff0_0000_0000_0000u64,
        r->Ok_0.tags@.len() == 0,
        r->Ok_0.host_mutable_context.response is None,
        r->Ok_0.host_mutable_context.combined_decision is None,
        r->Ok_0.host_mutable_context.combined_tags is None,
        r->Ok_0.host_mutable_context.outcome is None,
{
    let context = &r->Ok_0;
    lemma_views_tell_permissions(&context.permissions, &plugin.config.permissions);
    lemma_views_tell_requests(&context.outbound_http, &context.outbound_http, id);
    assert(context@.outbound == Map::<u64, crate::outbound::OutboundView>::empty());
    assert(!context.outbound_http@.dom().contains(id));
    assert(context.tags@.len() == crate::interface::texts(context.tags@).len());
}

/// Whether nothing that is fixed for the whole request has changed: the configuration, the grants,
/// the request, the client and the server.
pub open spec fn keeps_fixed(before: RequestContext, after: RequestContext) -> bool {
    &&& after.config@ == before.config@
    &&& same_permissions(after.permissions, before.permissions)
    &&& same_request(after.request, before.request)
    &&& after.client_ip == before.client_ip
    &&& same_redis(after.redis_info, before.redis_info)
}

/// Whether the plugin's own decision has not changed.
pub open spec fn keeps_stated(before: RequestContext, after: RequestContext) -> bool {
    &&& after.decision == before.decision
    &&& same_strings(after.tags@, before.tags@)
}

/// Whether no outbound request has changed.
pub open spec fn keeps_outbound(before: RequestContext, after: RequestContext) -> bool {
    let a = after.outbound_http.requests@;
    let b = before.outbound_http.requests@;
    &&& forall|id: u64| #[trigger] a.contains_key(id) <==> b.contains_key(id)
    &&& forall|id: u64| #[trigger] a.contains_key(id) ==> same_outbound(a[id], b[id])
}

/// Whether the recorded response has not changed.
pub open spec fn keeps_response(before: RequestContext, after: RequestContext) -> bool {
    let a = after.host_mutable_context;
    let b = before.host_mutable_context;
    &&& a.response is Some <==> b.response is Some
    &&& a.response is Some ==> same_response(a.response->0, b.response->0)
}

/// Whether the recorded combined decision has not changed.
pub open spec fn keeps_combined(before: RequestContext, after: RequestContext) -> bool {
    let a = after.host_mutable_context;
    let b = before.host_mutable_context;
    &&& a.combined_decision == b.combined_decision
    &&& a.combined_tags is Some <==> b.combined_tags is Some
    &&& a.combined_tags is Some ==> same_strings(a.combined_tags->0@, b.combined_tags->0@)
    &&& a.outcome == b.outcome
}

/// What stays the same of what a context says stays the same of the context.
pub(crate) proof fn lemma_what_is_kept(before: &RequestContext, after: &RequestContext)
    ensures
        ({
            &&& after@.config == before@.config
            &&& after@.permissions == before@.permissions
            &&& after@.request == before@.request
            &&& after@.client_ip == before@.client_ip
            &&& after@.scripts == before@.scripts
        }) ==> keeps_fixed(*before, *after),
        after@.decision == before@.decision && after@.tags == before@.tags ==> keeps_stated(
            *before,
            *after,
        ),
        after@.outbound == before@.outbound ==> keeps_outbound(*before, *after),
        after@.host.response == before@.host.response ==> keeps_response(*before, *after),
        ({
            &&& after@.host.combined_decision == before@.host.combined_decision
            &&& after@.host.combined_tags == before@.host.combined_tags
            &&& after@.host.outcome == before@.host.outcome
        }) ==> keeps_combined(*before, *after),
{
    lemma_views_tell_permissions(&after.permissions, &before.permissions);
    lemma_request_view_is_complete(&after.request, arbitrary(), &before.request);
    lemma_texts_tell_strings(after.tags@, before.tags@);
    let a = &after.host_mutable_context;
    let b = &before.host_mutable_context;
    if a.response is Some && b.response is Some {
        lemma_response_view_is_complete(&a.response->0, arbitrary(), &b.response->0);
    }
    if a.combined_tags is Some && b.combined_tags is Some {
        lemma_texts_tell_strings(a.combined_tags->0@, b.combined_tags->0@);
    }
    if after@.outbound == before@.outbound {
        let m = after.outbound_http.requests@;
        let n = before.outbound_http.requests@;
        assert forall|id: u64|
            (#[trigger] m.contains_key(id) <==> n.contains_key(id)) && (m.contains_key(id)
                ==> same_outbound(m[id], n[id])) by {
            lemma_views_tell_requests(&after.outbound_http, &before.outbound_http, id);
        }
    }
}

// What is read

/// The plugin reads its configuration, the request and the client as the context has them.
pub proof fn context_is_read_as_it_is(
    context: &RequestContext,
    config: Vec<u8>,
    request: RequestInterface,
    client: Option<IpInterface>,
)
    requires
        call_ensures(RequestContext::get_config, (context,), config),
        call_ensures(RequestContext::get_request, (context,), request),
        call_ensures(RequestContext::get_client_ip, (context,), client),
    ensures
        config@ == context.config@,
        same_request(request, context.request),
        client == context.client_ip,
{
    lemma_request_view_is_complete(&request, arbitrary(), &context.request);
}

/// An environment variable may be read exactly where its name was granted, and its value comes back
/// in UTF-8.
pub proof fn environment_is_read_where_granted(
    context: &RequestContext,
    key: &str,
    checked: Result<(), Refusal>,
    value: String,
    bytes: Vec<u8>,
)
    requires
        call_ensures(RequestContext::check_env, (context, key), checked),
        call_ensures(RequestContext::get_env_bytes, (context, key, value), bytes),
    ensures
        checked is Ok <==> is_listed(context.permissions.env@, key@),
        checked is Err ==> checked->Err_0 == Refusal::EnvironmentDenied,
        bytes@ == vstd::utf8::encode_utf8(value@),
{
    lemma_texts_tell_listed(context.permissions.env@, key@);
}

/// The plugin can read exactly what was recorded, and reads it as it was recorded.
pub proof fn records_are_read_as_they_are(
    context: &RequestContext,
    checks: (Result<(), Refusal>, Result<(), Refusal>, Result<(), Refusal>, Result<(), Refusal>),
    response: ResponseInterface,
    decision: DecisionInterface,
    tags: Vec<String>,
    outcome: OutcomeInterface,
)
    requires
        call_ensures(RequestContext::check_response, (context,), checks.0),
        call_ensures(RequestContext::check_combined_decision, (context,), checks.1),
        call_ensures(RequestContext::check_combined_tags, (context,), checks.2),
        call_ensures(RequestContext::check_outcome, (context,), checks.3),
        checks.0 is Ok ==> call_ensures(RequestContext::get_response, (context,), response),
        checks.1 is Ok ==> call_ensures(
            RequestContext::get_combined_decision,
            (context,),
            decision,
        ),
        checks.2 is Ok ==> call_ensures(RequestContext::get_combined_tags, (context,), tags),
        checks.3 is Ok ==> call_ensures(RequestContext::get_outcome, (context,), outcome),
    ensures
        ({
            let host = context.host_mutable_context;
            &&& checks.0 is Ok <==> host.response is Some
            &&& checks.1 is Ok <==> host.combined_decision is Some
            &&& checks.2 is Ok <==> host.combined_tags is Some
            &&& checks.3 is Ok <==> host.outcome is Some
            &&& checks.0 is Err ==> checks.0->Err_0 == Refusal::NotRecorded
            &&& checks.1 is Err ==> checks.1->Err_0 == Refusal::NotRecorded
            &&& checks.2 is Err ==> checks.2->Err_0 == Refusal::NotRecorded
            &&& checks.3 is Err ==> checks.3->Err_0 == Refusal::NotRecorded
            &&& checks.0 is Ok ==> same_response(response, host.response->0)
            &&& checks.1 is Ok ==> decision == host.combined_decision->0
            &&& checks.2 is Ok ==> same_strings(tags@, host.combined_tags->0@)
            &&& checks.3 is Ok ==> outcome == host.outcome->0
        }),
{
    let host = &context.host_mutable_context;
    if host.response is Some {
        lemma_response_view_is_complete(&response, arbitrary(), &host.response->0);
    }
    if host.combined_tags is Some {
        lemma_texts_tell_strings(tags@, host.combined_tags->0@);
    }
}

// Decisions

/// The host reads each component of the decision that a plugin stated last, and the tags that it
/// set last; nothing else changes.
pub proof fn stated_decision_reaches_the_host(
    context: &mut RequestContext,
    decision: DecisionInterface,
    instance: PluginInstance,
    components: DecisionComponents,
)
    requires
        call_ensures(RequestContext::set_decision, (context, decision), ()),
        instance.context == *final(context),
        call_ensures(PluginInstance::decision, (&instance,), components),
    ensures
        components.decision.accept == decision.accept,
        components.decision.restrict == decision.restrict,
        components.decision.unknown == decision.unknown,
        final(context).decision.accept == decision.accept,
        final(context).decision.restrict == decision.restrict,
        final(context).decision.unknown == decision.unknown,
        same_strings(components.tags@, old(context).tags@),
        same_strings(final(context).tags@, old(context).tags@),
        keeps_fixed(*old(context), *final(context)),
        keeps_outbound(*old(context), *final(context)),
        keeps_response(*old(context), *final(context)),
        keeps_combined(*old(context), *final(context)),
{
    lemma_what_is_kept(&*context, &*final(context));
    lemma_texts_tell_strings(final(context).tags@, context.tags@);
    lemma_texts_tell_strings(components.tags@, context.tags@);
}

/// The host reads the tags that a plugin set last, in their order; nothing else changes.
pub proof fn set_tags_reach_the_host(
    context: &mut RequestContext,
    tags: Vec<String>,
    instance: PluginInstance,
    components: DecisionComponents,
)
    requires
        call_ensures(RequestContext::set_tags, (context, tags), ()),
        instance.context == *final(context),
        call_ensures(PluginInstance::decision, (&instance,), components),
    ensures
        same_strings(components.tags@, tags@),
        same_strings(final(context).tags@, tags@),
        components.decision == old(context).decision,
        final(context).decision == old(context).decision,
        keeps_fixed(*old(context), *final(context)),
        keeps_outbound(*old(context), *final(context)),
        keeps_response(*old(context), *final(context)),
        keeps_combined(*old(context), *final(context)),
{
    lemma_what_is_kept(&*context, &*final(context));
    lemma_texts_tell_strings(final(context).tags@, tags@);
    lemma_texts_tell_strings(components.tags@, tags@);
}

/// An instance belongs to its plugin and its context, and tells the name and the weight of its
/// plugin and the decision of its context.
pub proof fn instance_tells_its_own(
    plugin: Arc<Plugin>,
    context: RequestContext,
    instance: PluginInstance,
    weight: u64,
    reference: String,
    components: DecisionComponents,
)
    requires
        call_ensures(PluginInstance::new, (plugin, context), instance),
        call_ensures(PluginInstance::weight, (&instance,), weight),
        call_ensures(PluginInstance::plugin_reference, (&instance,), reference),
        call_ensures(PluginInstance::decision, (&instance,), components),
    ensures
        instance.plugin == plugin,
        instance.context == context,
        weight == plugin.config.weight,
        reference@ == plugin.reference@,
        components.decision.accept == context.decision.accept,
        components.decision.restrict == context.decision.restrict,
        components.decision.unknown == context.decision.unknown,
        same_strings(components.tags@, context.tags@),
{
    lemma_texts_tell_strings(components.tags@, context.tags@);
}

// What the host records

/// Whether a combined decision, its tags and its outcome are recorded, part by part.
pub open spec fn is_combined_recorded(
    context: RequestContext,
    components: DecisionComponents,
    outcome: Outcome,
) -> bool {
    let host = context.host_mutable_context;
    &&& host.combined_decision is Some
    &&& host.combined_decision->0.accept == components.decision.accept
    &&& host.combined_decision->0.restrict == components.decision.restrict
    &&& host.combined_decision->0.unknown == components.decision.unknown
    &&& host.combined_tags is Some
    &&& same_strings(host.combined_tags->0@, components.tags@)
    &&& host.outcome is Some
    &&& host.outcome->0 is Trusted <==> outcome is Trusted
    &&& host.outcome->0 is Accepted <==> outcome is Accepted
    &&& host.outcome->0 is Suspected <==> outcome is Suspected
    &&& host.outcome->0 is Restricted <==> outcome is Restricted
}

/// A response that is recorded is there for the plugin in every part; nothing else changes.
pub proof fn response_is_recorded_whole(context: &mut RequestContext, response: Arc<Response>)
    requires
        call_ensures(RequestContext::record_response, (context, response), ()),
    ensures
        final(context).host_mutable_context.response is Some,
        shows_response(final(context).host_mutable_context.response->0, *response),
        keeps_fixed(*old(context), *final(context)),
        keeps_stated(*old(context), *final(context)),
        keeps_outbound(*old(context), *final(context)),
        keeps_combined(*old(context), *final(context)),
{
    lemma_what_is_kept(&*context, &*final(context));
    let shown = &final(context).host_mutable_context.response->0;
    lemma_response_view_is_complete(shown, &*response, shown);
}

/// A combined decision that is recorded is there for the plugin component by component, with its
/// tags in their order and its outcome; nothing else changes.
pub proof fn combined_decision_is_recorded_whole(
    context: &mut RequestContext,
    components: &DecisionComponents,
    outcome: Outcome,
)
    requires
        call_ensures(RequestContext::record_combined_decision, (context, components, outcome), ()),
    ensures
        is_combined_recorded(*final(context), *components, outcome),
        keeps_fixed(*old(context), *final(context)),
        keeps_stated(*old(context), *final(context)),
        keeps_outbound(*old(context), *final(context)),
        keeps_response(*old(context), *final(context)),
{
    lemma_what_is_kept(&*context, &*final(context));
    lemma_texts_tell_strings(
        final(context).host_mutable_context.combined_tags->0@,
        components.tags@,
    );
}

/// What the host records through an instance is recorded in its context in the same way.
pub proof fn instance_records_whole(
    instance: &mut PluginInstance,
    response: Arc<Response>,
    other: &mut PluginInstance,
    components: &DecisionComponents,
    outcome: Outcome,
)
    requires
        call_ensures(PluginInstance::record_response, (instance, response), ()),
        call_ensures(PluginInstance::record_combined_decision, (other, components, outcome), ()),
    ensures
        final(instance).context.host_mutable_context.response is Some,
        shows_response(final(instance).context.host_mutable_context.response->0, *response),
        keeps_fixed(old(instance).context, final(instance).context),
        keeps_stated(old(instance).context, final(instance).context),
        keeps_outbound(old(instance).context, final(instance).context),
        keeps_combined(old(instance).context, final(instance).context),
        is_combined_recorded(final(other).context, *components, outcome),
        keeps_fixed(old(other).context, final(other).context),
        keeps_stated(old(other).context, final(other).context),
        keeps_outbound(old(other).context, final(other).context),
        keeps_response(old(other).context, final(other).context),
{
    lemma_what_is_kept(&instance.context, &final(instance).context);
    lemma_what_is_kept(&other.context, &final(other).context);
    let shown = &final(instance).context.host_mutable_context.response->0;
    lemma_response_view_is_complete(shown, &*response, shown);
    lemma_texts_tell_strings(
        final(other).context.host_mutable_context.combined_tags->0@,
        components.tags@,
    );
}

// Outbound requests

/// Why an outbound request is turned down, or that it is let through: what comes first of the URI,
/// the grant and the method decides.
pub open spec fn is_answer_to_request(
    answer: Result<(), Refusal>,
    context: RequestContext,
    method: Seq<char>,
    uri: Seq<char>,
) -> bool {
    match uri_domain(uri) {
        None => answer == Err::<(), Refusal>(Refusal::UriInvalid),
        Some(None) => answer == Err::<(), Refusal>(Refusal::UriWithoutDomain),
        Some(Some(name)) => if !is_listed(context.permissions.http@, name) {
            answer == Err::<(), Refusal>(Refusal::HttpDenied)
        } else if !asks_for_some(method) {
            answer == Err::<(), Refusal>(Refusal::UnsupportedMethod)
        } else {
            answer is Ok
        },
    }
}

/// What is said of refusing a request holds of the grants and the method.
pub(crate) proof fn lemma_request_refusal(
    context: &RequestContext,
    method: Seq<char>,
    uri: Seq<char>,
    answer: Result<(), Refusal>,
)
    requires
        match answer {
            Ok(_) => context@.request_refusal(method, uri) is None,
            Err(refusal) => context@.request_refusal(method, uri) == Some(refusal),
        },
    ensures
        is_answer_to_request(answer, *context, method, uri),
{
    lemma_method_is_told_by_its_name(method, HttpMethod::Get);
    if uri_domain(uri) is Some && uri_domain(uri)->0 is Some {
        lemma_texts_tell_listed(context.permissions.http@, uri_domain(uri)->0->0);
    }
}

/// A request is let through exactly where its URI names a domain that was granted and its method is
/// one of the eight.
pub proof fn request_is_checked_by_grant_and_method(
    context: &RequestContext,
    method: &str,
    uri: &str,
    checked: Result<(), Refusal>,
)
    requires
        call_ensures(RequestContext::check_request, (context, method, uri), checked),
    ensures
        checked is Ok <==> {
            &&& uri_domain(uri@) is Some
            &&& uri_domain(uri@)->0 is Some
            &&& is_listed(context.permissions.http@, uri_domain(uri@)->0->0)
            &&& asks_for_some(method@)
        },
        is_answer_to_request(checked, *context, method@, uri@),
{
    lemma_request_refusal(context, method@, uri@, checked);
}

/// Whether a request was begun under `id`: the ID was free, the request has this method and URI and
/// nothing else yet, and nothing else has changed.
pub open spec fn has_begun(
    before: RequestContext,
    after: RequestContext,
    id: u64,
    method: Seq<char>,
    uri: Seq<char>,
) -> bool {
    let requests = after.outbound_http.requests@;
    &&& is_fresh(before.outbound_http, id)
    &&& requests.contains_key(id)
    &&& asks_for(method, requests[id].method)
    &&& requests[id].uri@ == uri
    &&& requests[id].headers@.len() == 0
    &&& requests[id].body is None
    &&& same_requests_but(after.outbound_http, before.outbound_http, id)
    &&& keeps_fixed(before, after)
    &&& keeps_stated(before, after)
    &&& keeps_response(before, after)
    &&& keeps_combined(before, after)
}

/// What is said of beginning a request holds of the context before and after.
pub(crate) proof fn lemma_has_begun(
    before: &RequestContext,
    after: &RequestContext,
    id: u64,
    method: Seq<char>,
    uri: Seq<char>,
)
    requires
        before@.request_refusal(method, uri) is None,
        crate::outbound::is_next_id(before@.outbound.dom(), id),
        after@ == before@.with_request(id, method, uri),
    ensures
        has_begun(*before, *after, id, method, uri),
{
    lemma_what_is_kept(before, after);
    let known = crate::outbound::method_of(method)->0;
    lemma_method_is_told_by_its_name(method, known);
    lemma_begun_request(&before.outbound_http, &after.outbound_http, known, uri, id);
}

/// A request that is begun is begun under a free ID with its method and URI, and nothing else
/// changes.
pub proof fn request_is_begun(context: &mut RequestContext, method: String, uri: String, id: u64)
    requires
        uri_domain(uri@) is Some,
        uri_domain(uri@)->0 is Some,
        is_listed(context.permissions.http@, uri_domain(uri@)->0->0),
        asks_for_some(method@),
        call_ensures(RequestContext::prepare_request, (context, method, uri), id),
    ensures
        has_begun(*old(context), *final(context), id, method@, uri@),
{
    lemma_method_is_told_by_its_name(method@, HttpMethod::Get);
    lemma_texts_tell_listed(context.permissions.http@, uri_domain(uri@)->0->0);
    lemma_has_begun(&*context, &*final(context), id, method@, uri@);
}

/// A request is begun exactly where it is let through, and one that is turned down leaves
/// everything as it was.
pub proof fn request_is_begun_where_let_through(
    context: &mut RequestContext,
    method: String,
    uri: String,
    r: Result<u64, Refusal>,
)
    requires
        call_ensures(RequestContext::try_prepare_request, (context, method, uri), r),
    ensures
        r is Ok <==> {
            &&& uri_domain(uri@) is Some
            &&& uri_domain(uri@)->0 is Some
            &&& is_listed(old(context).permissions.http@, uri_domain(uri@)->0->0)
            &&& asks_for_some(method@)
        },
        match r {
            Ok(id) => has_begun(*old(context), *final(context), id, method@, uri@),
            Err(refusal) => {
                &&& is_answer_to_request(Err(refusal), *old(context), method@, uri@)
                &&& keeps_fixed(*old(context), *final(context))
                &&& keeps_stated(*old(context), *final(context))
                &&& keeps_outbound(*old(context), *final(context))
                &&& keeps_response(*old(context), *final(context))
                &&& keeps_combined(*old(context), *final(context))
            },
        },
{
    match r {
        Ok(id) => {
            lemma_request_refusal(&*context, method@, uri@, Ok(()));
            lemma_has_begun(&*context, &*final(context), id, method@, uri@);
        },
        Err(refusal) => {
            lemma_request_refusal(&*context, method@, uri@, Err(refusal));
            lemma_what_is_kept(&*context, &*final(context));
        },
    }
}

/// An ID is accepted exactly where a request with it is being assembled.
pub proof fn id_is_accepted_while_pending(
    context: &RequestContext,
    id: u64,
    checked: Result<(), Refusal>,
)
    requires
        call_ensures(RequestContext::check_pending, (context, id), checked),
    ensures
        checked is Ok <==> context.outbound_http.requests@.contains_key(id),
        checked is Err ==> checked->Err_0 == Refusal::UnknownRequest,
{
    lemma_views_tell_requests(&context.outbound_http, &context.outbound_http, id);
    assert(context.outbound_http@.dom().contains(id) <==> context@.outbound.contains_key(id));
}

/// A header goes behind the others of the request that it is added to, by its name and with its
/// value, and nothing else changes.
pub proof fn header_goes_where_it_is_added(
    context: &mut RequestContext,
    id: u64,
    name: String,
    value: Vec<u8>,
)
    requires
        context.outbound_http.requests@.contains_key(id),
        call_ensures(RequestContext::add_request_header, (context, id, name, value), ()),
    ensures
        final(context).outbound_http.requests@.contains_key(id),
        has_one_more_header(
            final(context).outbound_http.requests@[id],
            old(context).outbound_http.requests@[id],
            name@,
            value@,
        ),
        same_requests_but(final(context).outbound_http, old(context).outbound_http, id),
        keeps_fixed(*old(context), *final(context)),
        keeps_stated(*old(context), *final(context)),
        keeps_response(*old(context), *final(context)),
        keeps_combined(*old(context), *final(context)),
{
    lemma_what_is_kept(&*context, &*final(context));
    lemma_views_tell_requests(&context.outbound_http, &context.outbound_http, id);
    assert(context.outbound_http@.dom().contains(id));
    lemma_added_header(
        &context.outbound_http,
        &final(context).outbound_http,
        id,
        name@,
        value@,
    );
}

/// A request is handed out for sending with the method, the URI and the headers that it was
/// assembled with and with its body. Its ID is given up, and nothing else changes.
pub proof fn request_is_sent_with_its_body(
    context: &mut RequestContext,
    id: u64,
    body: Vec<u8>,
    request: OutboundRequest,
)
    requires
        context.outbound_http.requests@.contains_key(id),
        call_ensures(RequestContext::set_request_body, (context, id, body), request),
    ensures
        request.method == old(context).outbound_http.requests@[id].method,
        request.uri@ == old(context).outbound_http.requests@[id].uri@,
        same_headers(request.headers@, old(context).outbound_http.requests@[id].headers@),
        request.body is Some,
        request.body->0@ == body@,
        !final(context).outbound_http.requests@.contains_key(id),
        same_requests_but(final(context).outbound_http, old(context).outbound_http, id),
        keeps_fixed(*old(context), *final(context)),
        keeps_stated(*old(context), *final(context)),
        keeps_response(*old(context), *final(context)),
        keeps_combined(*old(context), *final(context)),
{
    lemma_what_is_kept(&*context, &*final(context));
    lemma_views_tell_requests(&context.outbound_http, &context.outbound_http, id);
    assert(context.outbound_http@.dom().contains(id));
    lemma_completed_request(
        &context.outbound_http,
        &final(context).outbound_http,
        id,
        body@,
        &request,
    );
}

// Remote state

/// A state key may be used exactly where it begins with a granted prefix and there is a server; a
/// key that is not granted is turned down as such. An expiration may be set where the key may be
/// used and the time is a number of seconds that fits.
pub proof fn state_is_checked_by_prefix(
    context: &RequestContext,
    key: &str,
    ttl: i64,
    checked: Result<(), Refusal>,
    ttl_checked: Result<(), Refusal>,
)
    requires
        call_ensures(RequestContext::check_state, (context, key), checked),
        call_ensures(RequestContext::check_remote_ttl, (context, key, ttl), ttl_checked),
    ensures
        ({
            let granted = begins_with_listed(context.permissions.state@, key@);
            let served = context.redis_info is Some;
            let fits = 0 <= ttl <= usize::MAX;
            &&& checked is Ok <==> granted && served
            &&& !granted ==> checked->Err_0 == Refusal::StateDenied
            &&& granted && !served ==> checked->Err_0 == Refusal::RemoteStateUnavailable
            &&& ttl_checked is Ok <==> granted && served && fits
            &&& !granted ==> ttl_checked->Err_0 == Refusal::StateDenied
            &&& granted && !served ==> ttl_checked->Err_0 == Refusal::RemoteStateUnavailable
            &&& granted && served && !fits ==> ttl_checked->Err_0 == Refusal::InvalidTtl
        }),
{
    lemma_texts_tell_prefixes(&context.permissions, key@);
}

/// Reading, writing, counting and expiring a value send the command of that kind, on the key that
/// was given and with the value, the amount or the time that was given. A plain increment counts
/// one.
pub proof fn state_commands_carry_what_was_given(
    context: &RequestContext,
    key: String,
    value: Vec<u8>,
    delta: i64,
    ttl: i64,
    read: RedisCommand,
    write: RedisCommand,
    increment: RedisCommand,
    increment_by: RedisCommand,
    expire: RedisCommand,
)
    requires
        0 <= ttl <= usize::MAX,
        call_ensures(RequestContext::get_remote_state, (context, key), read),
        call_ensures(RequestContext::set_remote_state, (context, key, value), write),
        call_ensures(RequestContext::increment_remote_state, (context, key), increment),
        call_ensures(RequestContext::increment_remote_state_by, (context, key, delta), increment_by),
        call_ensures(RequestContext::set_remote_ttl, (context, key, ttl), expire),
    ensures
        match read {
            RedisCommand::Read { key: k } => k@ == key@,
            _ => false,
        },
        match write {
            RedisCommand::Write { key: k, value: v } => k@ == key@ && v@ == value@,
            _ => false,
        },
        match increment {
            RedisCommand::Increment { key: k, delta: d } => k@ == key@ && d == 1,
            _ => false,
        },
        match increment_by {
            RedisCommand::Increment { key: k, delta: d } => k@ == key@ && d == delta,
            _ => false,
        },
        match expire {
            RedisCommand::Expire { key: k, seconds: s } => k@ == key@ && s == ttl,
            _ => false,
        },
{
}

/// A rate limit is incremented and checked by the scripts of the server, on the key that was given,
/// with the amount and the period that were given and the time of the clock behind them.
pub proof fn rate_limit_calls_carry_what_was_given(
    context: &RequestContext,
    key: String,
    delta: i64,
    window: i64,
    increment: RedisCommand,
    check: RedisCommand,
)
    requires
        context.redis_info is Some,
        call_ensures(RequestContext::increment_rate_limit, (context, key, delta, window), increment),
        call_ensures(RequestContext::check_rate_limit, (context, key), check),
    ensures
        runs(increment, context.redis_info->0.registry.increment_rate_limit, key@),
        arguments(increment).len() == 3,
        arguments(increment)[0] == delta,
        arguments(increment)[1] == window,
        arguments(increment)[2] >= 0,
        runs(check, context.redis_info->0.registry.check_rate_limit, key@),
        arguments(check).len() == 1,
        arguments(check)[0] >= 0,
{
}

/// A circuit breaker is incremented and checked by the scripts of the server, on the key that was
/// given, with the successes, the failures and the period that were given and the time of the clock
/// behind them.
pub proof fn breaker_calls_carry_what_was_given(
    context: &RequestContext,
    key: String,
    success_delta: i64,
    failure_delta: i64,
    window: i64,
    increment: RedisCommand,
    check: RedisCommand,
)
    requires
        context.redis_info is Some,
        call_ensures(
            RequestContext::increment_breaker,
            (context, key, success_delta, failure_delta, window),
            increment,
        ),
        call_ensures(RequestContext::check_breaker, (context, key), check),
    ensures
        runs(increment, context.redis_info->0.registry.increment_breaker, key@),
        arguments(increment).len() == 4,
        arguments(increment)[0] == success_delta,
        arguments(increment)[1] == failure_delta,
        arguments(increment)[2] == window,
        arguments(increment)[3] >= 0,
        runs(check, context.redis_info->0.registry.check_breaker, key@),
        arguments(check).len() == 1,
        arguments(check)[0] >= 0,
{
}

} // verus!
