//! What holds of the host as a whole.
use crate::context::{ContextView, HostView, RequestContext};
use crate::decision::{
    shown_decision, shown_outcome, stated_decision, ComponentsView, Decision, DecisionComponents,
    DecisionInterface, Outcome,
};
use crate::instance::InstanceView;
use crate::interface::{segment, shown_ip, HeaderView, IpAddr, Request, Response};
use crate::json::{json_parse, null_text, param_text, param_written};
use crate::outbound::{
    ascii_upper, ascii_uppercase, is_next_id, method_of, uri_domain, OutboundView,
};
use crate::permissions::PermissionsView;
use crate::plugin::{Plugin, PluginConfigView, PluginView};
use crate::refusal::Refusal;
use crate::remote::{CommandView, RedisInfo};
use std::sync::Arc;
use vstd::prelude::*;

verus! {

// Decisions

/// A plugin that has not spoken leaves everything unknown and attaches no tags.
pub proof fn silent_plugin_is_undecided(
    plugin: Plugin,
    redis_info: Option<Arc<RedisInfo>>,
    request: Request,
)
    ensures
        RequestContext::initial(plugin, redis_info, request).components() == (ComponentsView {
            decision: Decision::undecided(),
            tags: Seq::empty(),
        }),
{
}

/// What the host reads as an instance's decision is what the plugin stated last, in whichever
/// order it stated the decision and the tags.
pub proof fn stated_decision_is_reported(
    context: ContextView,
    earlier: DecisionInterface,
    decision: DecisionInterface,
    tags: Seq<Seq<char>>,
)
    ensures
        context.with_decision(decision).with_tags(tags).components() == (ComponentsView {
            decision: stated_decision(decision),
            tags,
        }),
        context.with_tags(tags).with_decision(decision) == context.with_decision(
            decision,
        ).with_tags(tags),
        context.with_decision(earlier).with_decision(decision) == context.with_decision(decision),
{
}

/// A decision crosses the sandbox boundary in either direction without loss.
pub proof fn decision_crosses_unchanged(decision: Decision, shown: DecisionInterface)
    ensures
        stated_decision(shown_decision(decision)) == decision,
        shown_decision(stated_decision(shown)) == shown,
{
}

/// Different outcomes look different to a plugin.
pub proof fn outcomes_stay_apart(a: Outcome, b: Outcome)
    requires
        shown_outcome(a) == shown_outcome(b),
    ensures
        a == b,
{
}

// What the host records

/// A plugin reads the response that the host recorded, and goes on reading it after the combined
/// decision is recorded.
pub proof fn recorded_response_is_shown(
    instance: InstanceView,
    response: Response,
    components: DecisionComponents,
    outcome: Outcome,
)
    ensures
        instance.with_response(response).context.host.response == Some(response@),
        instance.with_response(response).with_combined_decision(
            components,
            outcome,
        ).context.host.response == Some(response@),
{
}

/// A plugin reads the combined decision, the tags and the outcome that the host recorded, and goes
/// on reading them after a response is recorded.
pub proof fn recorded_combined_decision_is_shown(
    instance: InstanceView,
    components: DecisionComponents,
    outcome: Outcome,
    response: Response,
)
    ensures
        ({
            let host = instance.with_combined_decision(components, outcome).context.host;
            &&& host.combined_decision == Some(shown_decision(components.decision))
            &&& host.combined_tags == Some(components@.tags)
            &&& host.outcome == Some(shown_outcome(outcome))
        }),
        instance.with_combined_decision(components, outcome).with_response(response)
            == instance.with_response(response).with_combined_decision(components, outcome),
{
}

/// Recording leaves the plugin's own decision alone, and the plugin's decision leaves what was
/// recorded alone.
pub proof fn host_and_plugin_do_not_interfere(
    context: ContextView,
    host: HostView,
    decision: DecisionInterface,
    tags: Seq<Seq<char>>,
)
    ensures
        context.with_host(host).components() == context.components(),
        context.with_decision(decision).with_tags(tags).host == context.host,
{
}

// Parameters

/// A parameter reads as the JSON value that was written last.
pub proof fn param_read_gives_back_write(
    params: Map<Seq<char>, Seq<u8>>,
    key: Seq<char>,
    bytes: Seq<u8>,
)
    requires
        json_parse(bytes) is Some,
    ensures
        param_text(param_written(params, key, bytes), key) == json_parse(bytes)->0,
{
}

/// Writing one parameter leaves every other one as it was, and writing something that is not JSON
/// leaves them all.
pub proof fn param_write_is_local(
    params: Map<Seq<char>, Seq<u8>>,
    key: Seq<char>,
    bytes: Seq<u8>,
    other: Seq<char>,
)
    ensures
        other != key || json_parse(bytes) is None ==> param_text(
            param_written(params, key, bytes),
            other,
        ) == param_text(params, other),
{
}

/// The map after these writes, one after the other, by whichever of the plugins that share it.
pub open spec fn params_written(
    params: Map<Seq<char>, Seq<u8>>,
    writes: Seq<(Seq<char>, Seq<u8>)>,
) -> Map<Seq<char>, Seq<u8>>
    decreases writes.len(),
{
    if writes.len() == 0 {
        params
    } else {
        param_written(
            params_written(params, writes.drop_last()),
            writes.last().0,
            writes.last().1,
        )
    }
}

/// Among any writes of the plugins that share the parameters, every plugin reads at a key what the
/// last write of JSON to that key wrote.
pub proof fn last_write_is_read(
    params: Map<Seq<char>, Seq<u8>>,
    writes: Seq<(Seq<char>, Seq<u8>)>,
    last: int,
)
    requires
        0 <= last < writes.len(),
        json_parse(writes[last].1) is Some,
        forall|j: int|
            last < j < writes.len() ==> (#[trigger] writes[j]).0 != writes[last].0
                || json_parse(writes[j].1) is None,
    ensures
        param_text(params_written(params, writes), writes[last].0) == json_parse(
            writes[last].1,
        )->0,
    decreases writes.len(),
{
    if last < writes.len() - 1 {
        let earlier = writes.drop_last();
        assert forall|j: int| last < j < earlier.len() implies (#[trigger] earlier[j]).0
            != earlier[last].0 || json_parse(earlier[j].1) is None by {
            assert(earlier[j] == writes[j]);
        }
        last_write_is_read(params, earlier, last);
        assert(writes.last() == writes[writes.len() - 1]);
    }
}

/// A parameter that nobody wrote reads as `null`.
pub proof fn unwritten_param_is_null(params: Map<Seq<char>, Seq<u8>>, key: Seq<char>)
    requires
        !params.contains_key(key),
    ensures
        param_text(params, key) == null_text(),
{
}

// Plugins

/// A plugin that was loaded can be run: its code was compiled for the engine that it keeps.
pub proof fn loaded_plugin_is_runnable(
    reference: Seq<char>,
    config: PluginConfigView,
    engine: wasmtime::Engine,
    bytes: Seq<u8>,
    text_accepted: bool,
)
    ensures
        PluginView::compiled(reference, config, engine, bytes, text_accepted).is_runnable(),
        PluginView::compiled(reference, config, engine, bytes, text_accepted).engine == engine,
{
}

// Permissions

/// A key that may be used may be used with anything behind it.
pub proof fn state_grants_extend(
    permissions: PermissionsView,
    key: Seq<char>,
    suffix: Seq<char>,
)
    requires
        permissions.allows_state(key),
    ensures
        permissions.allows_state(key + suffix),
{
    let i = choose|i: int|
        0 <= i < permissions.state.len() && (#[trigger] permissions.state[i]).is_prefix_of(key);
    let prefix = permissions.state[i];
    assert(prefix =~= (key + suffix).subrange(0, prefix.len() as int));
    assert(permissions.state[i].is_prefix_of(key + suffix));
}

/// A granted prefix may itself be used as a key.
pub proof fn granted_prefix_is_usable(permissions: PermissionsView, prefix: Seq<char>)
    requires
        permissions.state.contains(prefix),
    ensures
        permissions.allows_state(prefix),
{
    let i = choose|i: int| 0 <= i < permissions.state.len() && permissions.state[i] == prefix;
    assert(prefix =~= prefix.subrange(0, prefix.len() as int));
    assert(permissions.state[i].is_prefix_of(prefix));
}

/// Without grants nothing is allowed.
pub proof fn nothing_is_allowed_by_default(permissions: PermissionsView, name: Seq<char>)
    ensures
        permissions.env.len() == 0 ==> !permissions.allows_env(name),
        permissions.http.len() == 0 ==> !permissions.allows_domain(name),
        permissions.state.len() == 0 ==> !permissions.allows_state(name),
{
}

/// More grants never take a permission away. In particular neither the order of the grants
/// matters nor how often one of them is repeated.
pub proof fn grants_only_add(less: PermissionsView, more: PermissionsView, name: Seq<char>)
    requires
        forall|s: Seq<char>| #[trigger] less.env.contains(s) ==> more.env.contains(s),
        forall|s: Seq<char>| #[trigger] less.http.contains(s) ==> more.http.contains(s),
        forall|s: Seq<char>| #[trigger] less.state.contains(s) ==> more.state.contains(s),
    ensures
        less.allows_env(name) ==> more.allows_env(name),
        less.allows_domain(name) ==> more.allows_domain(name),
        less.allows_state(name) ==> more.allows_state(name),
{
    if less.allows_state(name) {
        let i = choose|i: int|
            0 <= i < less.state.len() && (#[trigger] less.state[i]).is_prefix_of(name);
        assert(less.state.contains(less.state[i]));
        let j = choose|j: int| 0 <= j < more.state.len() && more.state[j] == less.state[i];
        assert(more.state[j].is_prefix_of(name));
    }
}

/// A call on a remote state key is turned down exactly where the key may not be used, and a key that
/// is not granted is turned down as such, whether or not there is remote state.
pub proof fn state_is_refused_or_usable(context: ContextView, key: Seq<char>)
    ensures
        context.state_refusal(key) is None <==> context.may_use_state(key),
        context.state_refusal(key) == Some(Refusal::StateDenied)
            <==> !context.permissions.allows_state(key),
{
}

/// Every command on a key that may be used is about that key, and so stays within the grants.
pub proof fn commands_stay_within_grants(
    context: ContextView,
    key: Seq<char>,
    value: Seq<u8>,
    amounts: (i64, i64, i64),
    timestamp: i64,
)
    requires
        context.may_use_state(key),
    ensures
        ({
            let (a, b, c) = amounts;
            let scripts = context.scripts->0;
            let within = |command: CommandView|
                command.key() == key && context.permissions.allows_state(command.key());
            &&& within(CommandView::Read { key })
            &&& within(CommandView::Write { key, value })
            &&& within(CommandView::Increment { key, delta: a })
            &&& within(CommandView::Expire { key, seconds: a as int })
            &&& within(scripts.rate_limit_increment(key, a, b, timestamp))
            &&& within(scripts.rate_limit_check(key, timestamp))
            &&& within(scripts.breaker_increment(key, a, b, c, timestamp))
            &&& within(scripts.breaker_check(key, timestamp))
        }),
{
}

/// An outbound request that is let through goes to a domain that was granted, by a method that the
/// host sends.
pub proof fn requests_stay_within_grants(context: ContextView, method: Seq<char>, uri: Seq<char>)
    requires
        context.request_refusal(method, uri) is None,
    ensures
        uri_domain(uri) is Some,
        uri_domain(uri)->0 is Some,
        context.permissions.allows_domain(uri_domain(uri)->0->0),
        method_of(method) is Some,
{
}

/// Nothing that a plugin or the host does changes what the plugin was granted, its configuration,
/// the request that it processes or the client that sent it.
pub proof fn grants_are_fixed(
    context: ContextView,
    id: u64,
    method: Seq<char>,
    uri: Seq<char>,
    header: HeaderView,
    decision: DecisionInterface,
    tags: Seq<Seq<char>>,
    host: HostView,
)
    ensures
        ({
            let same = |after: ContextView|
                {
                    &&& after.config == context.config
                    &&& after.permissions == context.permissions
                    &&& after.request == context.request
                    &&& after.client_ip == context.client_ip
                    &&& after.scripts == context.scripts
                };
            &&& same(context.with_request(id, method, uri))
            &&& same(context.with_request_header(id, header))
            &&& same(context.without_request(id))
            &&& same(context.with_decision(decision))
            &&& same(context.with_tags(tags))
            &&& same(context.with_host(host))
        }),
{
}

// Outbound requests

/// The method of an outbound request may be written in any case.
pub proof fn method_case_does_not_matter(method: Seq<char>)
    ensures
        method_of(ascii_uppercase(method)) == method_of(method),
{
    assert forall|c: char| ascii_upper(ascii_upper(c)) == #[trigger] ascii_upper(c) by {}
    assert(ascii_uppercase(ascii_uppercase(method)) =~= ascii_uppercase(method));
}

/// The ID of a new request belongs to no other request that is being assembled; it is accepted
/// from then on, and the other requests are untouched.
pub proof fn new_request_is_separate(
    context: ContextView,
    id: u64,
    method: Seq<char>,
    uri: Seq<char>,
    other: u64,
)
    requires
        is_next_id(context.outbound.dom(), id),
    ensures
        !context.outbound.contains_key(id),
        context.with_request(id, method, uri).outbound.contains_key(id),
        context.with_request(id, method, uri).outbound[id] == OutboundView::begun(
            method_of(method)->0,
            uri,
        ),
        context.outbound.contains_key(other) ==> {
            &&& other != id
            &&& context.with_request(id, method, uri).outbound.contains_key(other)
            &&& context.with_request(id, method, uri).outbound[other] == context.outbound[other]
        },
{
}

/// No two IDs are next at once: which ID a new request gets depends on the IDs in use alone.
pub proof fn next_id_is_unique(used: Set<u64>, a: u64, b: u64)
    requires
        is_next_id(used, a),
        is_next_id(used, b),
    ensures
        a == b,
{
    if a < b {
        assert(used.contains(a));
    } else if b < a {
        assert(used.contains(b));
    }
}

/// As long as no request has been sent, requests are numbered from zero upwards.
pub proof fn ids_count_up(used: Set<u64>, count: u64, id: u64)
    requires
        used.finite(),
        used.len() == count,
        forall|j: u64| used.contains(j) <==> j < count,
        is_next_id(used, id),
    ensures
        id == count,
{
}

/// Adding a header to one request leaves every other one as it was, and which requests are being
/// assembled.
pub proof fn header_goes_to_one_request(
    context: ContextView,
    id: u64,
    header: HeaderView,
    other: u64,
)
    requires
        context.outbound.contains_key(id),
    ensures
        context.with_request_header(id, header).outbound.dom() == context.outbound.dom(),
        other != id && context.outbound.contains_key(other) ==> context.with_request_header(
            id,
            header,
        ).outbound[other] == context.outbound[other],
{
    assert(context.with_request_header(id, header).outbound.dom() =~= context.outbound.dom());
}

/// The context after these headers were added to an outbound request, one after the other.
pub open spec fn with_request_headers(
    context: ContextView,
    id: u64,
    headers: Seq<HeaderView>,
) -> ContextView
    decreases headers.len(),
{
    if headers.len() == 0 {
        context
    } else {
        with_request_headers(context, id, headers.drop_last()).with_request_header(
            id,
            headers.last(),
        )
    }
}

/// A request that was begun, given headers and then its body is handed out for sending with that
/// method, URI and body and with those headers in that order.
pub proof fn request_is_sent_as_assembled(
    context: ContextView,
    id: u64,
    method: Seq<char>,
    uri: Seq<char>,
    headers: Seq<HeaderView>,
    body: Seq<u8>,
)
    requires
        method_of(method) is Some,
    ensures
        ({
            let assembled = with_request_headers(
                context.with_request(id, method, uri),
                id,
                headers,
            );
            &&& assembled.outbound.contains_key(id)
            &&& assembled.outbound[id].with_body(body) == OutboundView {
                method: method_of(method)->0,
                uri,
                headers,
                body: Some(body),
            }
        }),
{
    lemma_headers_accumulate(context.with_request(id, method, uri), id, headers);
    assert(Seq::<HeaderView>::empty() + headers =~= headers);
}

proof fn lemma_headers_accumulate(context: ContextView, id: u64, headers: Seq<HeaderView>)
    requires
        context.outbound.contains_key(id),
    ensures
        ({
            let after = with_request_headers(context, id, headers);
            &&& after.outbound.contains_key(id)
            &&& after.outbound[id] == OutboundView {
                headers: context.outbound[id].headers + headers,
                ..context.outbound[id]
            }
            &&& after.outbound.remove(id) == context.outbound.remove(id)
        }),
    decreases headers.len(),
{
    let before = context.outbound[id].headers;
    if headers.len() == 0 {
        assert(before + headers =~= before);
    } else {
        lemma_headers_accumulate(context, id, headers.drop_last());
        let shorter = with_request_headers(context, id, headers.drop_last());
        let after = with_request_headers(context, id, headers);
        assert((before + headers.drop_last()).push(headers.last()) =~= before + headers);
        assert(after.outbound.remove(id) =~= shorter.outbound.remove(id));
    }
}

/// Assembling a request and sending it leaves the context as it was: the other requests are
/// untouched, and the ID is free again.
pub proof fn sending_leaves_no_trace(
    context: ContextView,
    id: u64,
    method: Seq<char>,
    uri: Seq<char>,
    headers: Seq<HeaderView>,
)
    requires
        !context.outbound.contains_key(id),
    ensures
        with_request_headers(
            context.with_request(id, method, uri),
            id,
            headers,
        ).without_request(id) == context,
{
    let begun = context.with_request(id, method, uri);
    lemma_headers_accumulate(begun, id, headers);
    lemma_only_outbound_changes(begun, id, headers);
    assert(begun.outbound.remove(id) =~= context.outbound);
}

proof fn lemma_only_outbound_changes(context: ContextView, id: u64, headers: Seq<HeaderView>)
    ensures
        with_request_headers(context, id, headers) == (ContextView {
            outbound: with_request_headers(context, id, headers).outbound,
            ..context
        }),
    decreases headers.len(),
{
    if headers.len() > 0 {
        lemma_only_outbound_changes(context, id, headers.drop_last());
    }
}

// Addresses

/// The octets of an address.
pub open spec fn octets_of(ip: IpAddr) -> Seq<u8> {
    match ip {
        IpAddr::V4(octets) => octets@,
        IpAddr::V6(octets) => octets@,
    }
}

/// Different addresses look different to a plugin.
pub proof fn addresses_stay_apart(a: IpAddr, b: IpAddr)
    requires
        shown_ip(a) == shown_ip(b),
    ensures
        a is V4 <==> b is V4,
        octets_of(a) == octets_of(b),
{
    match (a, b) {
        (IpAddr::V6(x), IpAddr::V6(y)) => {
            assert forall|i: int| 0 <= i < 8 implies #[trigger] segment(x, i) == segment(y, i) by {}
            assert forall|k: int| 0 <= k < 16 implies x@[k] == y@[k] by {
                let i = k / 2;
                assert(segment(x, i) == segment(y, i));
                assert(k == 2 * i || k == 2 * i + 1);
            }
            assert(x@ =~= y@);
        },
        (IpAddr::V4(x), IpAddr::V4(y)) => {
            assert(x@ =~= y@);
        },
        _ => {},
    }
}

} // verus!
