//! The state that crosses the sandbox boundary while one plugin processes one request, and the
//! calls that the plugin makes on it.
//!
//! A call that needs the outside world is split: the context decides on it and says what is to be
//! done, and whoever runs the plugin does it. Each call that can be turned down has a check beside
//! it that says whether it would be.
use crate::decision::{
    shown_decision, shown_outcome, stated_decision, ComponentsView, Decision, DecisionComponents,
    DecisionInterface, Outcome, OutcomeInterface, MASS_ONE, MASS_ZERO,
};
use crate::interface::{
    copy_bytes, copy_strings, shown_ip, texts, HeaderInterface, HeaderView, IpInterface, Request,
    RequestInterface, RequestView, Response, ResponseInterface, ResponseView,
};
use crate::outbound::{
    check_outbound, is_next_id, method_of, outbound_refusal, uri_domain, OutboundRequest,
    OutboundRequests, OutboundView,
};
use crate::permissions::{Permissions, PermissionsView};
use crate::plugin::{ConfigSerializationError, Plugin};
use crate::refusal::Refusal;
use crate::remote::{current_timestamp, CommandView, RedisCommand, RedisInfo};
use crate::scripts::RegistryView;
use std::sync::Arc;
use vstd::prelude::*;

verus! {

/// A collection of values that the host environment will mutate over the lifecycle of a
/// request/response.
pub struct HostMutableContext {
    /// The HTTP response received from the interior service.
    pub response: Option<ResponseInterface>,
    /// The combined decision of all plugins at the end of the request phase.
    ///
    /// Accessible to plugins in the response and feedback phases.
    pub combined_decision: Option<DecisionInterface>,
    /// The combined union set of all tags attached by plugins across all phases.
    pub combined_tags: Option<Vec<String>>,
    /// The decision outcome after the decision has been checked against configured thresholds.
    pub outcome: Option<OutcomeInterface>,
}

/// What the host has recorded so far.
pub ghost struct HostView {
    pub response: Option<ResponseView>,
    pub combined_decision: Option<DecisionInterface>,
    pub combined_tags: Option<Seq<Seq<char>>>,
    pub outcome: Option<OutcomeInterface>,
}

impl View for HostMutableContext {
    type V = HostView;

    open spec fn view(&self) -> HostView {
        HostView {
            response: match self.response {
                Some(response) => Some(response@),
                None => None,
            },
            combined_decision: self.combined_decision,
            combined_tags: match self.combined_tags {
                Some(tags) => Some(texts(tags@)),
                None => None,
            },
            outcome: self.outcome,
        }
    }
}

impl HostView {
    /// Nothing has been recorded.
    pub open spec fn nothing() -> HostView {
        HostView { response: None, combined_decision: None, combined_tags: None, outcome: None }
    }

    /// A response has been recorded.
    pub open spec fn with_response(self, response: ResponseView) -> HostView {
        HostView { response: Some(response), ..self }
    }

    /// A combined decision, its tags and its outcome have been recorded.
    pub open spec fn with_combined_decision(
        self,
        components: ComponentsView,
        outcome: Outcome,
    ) -> HostView {
        HostView {
            combined_decision: Some(shown_decision(components.decision)),
            combined_tags: Some(components.tags),
            outcome: Some(shown_outcome(outcome)),
            ..self
        }
    }
}

/// The address of the client as a plugin sees it.
pub open spec fn shown_client(request: Request) -> Option<IpInterface> {
    match request.forwarded_ip {
        Some(ip) => Some(shown_ip(ip.0)),
        None => None,
    }
}

/// Why a request context could not be made.
pub enum ContextInstantiationError {
    /// The plugin's configuration could not be serialized.
    Config(ConfigSerializationError),
}

/// The RequestContext provides a store of information that needs to cross the plugin sandbox
/// boundary.
pub struct RequestContext {
    /// The guest environment's configuration value as serialized JSON.
    pub config: Vec<u8>,
    /// The set of permissions granted to a plugin.
    pub permissions: Permissions,
    /// The HTTP request that the plugin is processing.
    pub request: RequestInterface,
    /// The IP address of the client that originated the request, if available.
    pub client_ip: Option<IpInterface>,
    /// The Lua scripts of the Redis server that holds the remote state, if there is one.
    pub redis_info: Option<Arc<RedisInfo>>,
    /// A store of outbound requests being assembled by a plugin.
    pub outbound_http: OutboundRequests,
    /// The decision that the plugin stated last.
    pub decision: Decision,
    /// The tags annotating a plugins decision.
    pub tags: Vec<String>,
    /// Context values that will be mutated by the host environment.
    pub host_mutable_context: HostMutableContext,
}

/// What a request context holds.
pub ghost struct ContextView {
    pub config: Seq<u8>,
    pub permissions: PermissionsView,
    pub request: RequestView,
    pub client_ip: Option<IpInterface>,
    pub scripts: Option<RegistryView>,
    pub outbound: Map<u64, OutboundView>,
    pub decision: Decision,
    pub tags: Seq<Seq<char>>,
    pub host: HostView,
}

impl View for RequestContext {
    type V = ContextView;

    open spec fn view(&self) -> ContextView {
        ContextView {
            config: self.config@,
            permissions: self.permissions@,
            request: self.request@,
            client_ip: self.client_ip,
            scripts: match self.redis_info {
                Some(info) => Some(info.registry@),
                None => None,
            },
            outbound: self.outbound_http@,
            decision: self.decision,
            tags: texts(self.tags@),
            host: self.host_mutable_context@,
        }
    }
}

impl ContextView {
    /// Whether the remote state key may be used, and there is remote state to use it on.
    pub open spec fn may_use_state(self, key: Seq<char>) -> bool {
        self.permissions.allows_state(key) && self.scripts is Some
    }

    /// Why a call on the remote state key is turned down, if it is: the grants are looked at
    /// first.
    pub open spec fn state_refusal(self, key: Seq<char>) -> Option<Refusal> {
        if !self.permissions.allows_state(key) {
            Some(Refusal::StateDenied)
        } else if self.scripts is None {
            Some(Refusal::RemoteStateUnavailable)
        } else {
            None
        }
    }

    /// Why an outbound request is turned down, if it is.
    pub open spec fn request_refusal(self, method: Seq<char>, uri: Seq<char>) -> Option<Refusal> {
        outbound_refusal(self.permissions.http, method, uri_domain(uri))
    }

    /// The context after an outbound request was begun under this ID.
    pub open spec fn with_request(self, id: u64, method: Seq<char>, uri: Seq<char>) -> ContextView {
        ContextView {
            outbound: self.outbound.insert(id, OutboundView::begun(method_of(method)->0, uri)),
            ..self
        }
    }

    /// The context after a header was added to an outbound request.
    pub open spec fn with_request_header(self, id: u64, header: HeaderView) -> ContextView {
        ContextView {
            outbound: self.outbound.insert(id, self.outbound[id].with_header(header)),
            ..self
        }
    }

    /// The context after an outbound request was handed out for sending.
    pub open spec fn without_request(self, id: u64) -> ContextView {
        ContextView { outbound: self.outbound.remove(id), ..self }
    }

    /// The context after the plugin stated a decision.
    pub open spec fn with_decision(self, decision: DecisionInterface) -> ContextView {
        ContextView { decision: stated_decision(decision), ..self }
    }

    /// The context after the plugin set its tags.
    pub open spec fn with_tags(self, tags: Seq<Seq<char>>) -> ContextView {
        ContextView { tags, ..self }
    }

    /// The context after the host recorded something.
    pub open spec fn with_host(self, host: HostView) -> ContextView {
        ContextView { host, ..self }
    }

    /// What the plugin has decided so far.
    pub open spec fn components(self) -> ComponentsView {
        ComponentsView { decision: self.decision, tags: self.tags }
    }
}

impl RequestContext {
    /// The context in which `plugin` begins to process `request`.
    pub open spec fn initial(
        plugin: Plugin,
        redis_info: Option<Arc<RedisInfo>>,
        request: Request,
    ) -> ContextView {
        ContextView {
            config: plugin@.config.config,
            permissions: plugin@.config.permissions,
            request: request@,
            client_ip: shown_client(request),
            scripts: match redis_info {
                Some(info) => Some(info.registry@),
                None => None,
            },
            outbound: Map::empty(),
            decision: Decision::undecided(),
            tags: Seq::empty(),
            host: HostView::nothing(),
        }
    }

    /// Creates a new `RequestContext`.
    ///
    /// # Arguments
    ///
    /// * `plugin` - The [`Plugin`] and its associated configuration.
    /// * `redis_info` - The scripts of the Redis server.
    /// * `request` - The [`Request`] that plugins will be operating on.
    pub fn new(plugin: Arc<Plugin>, redis_info: Option<Arc<RedisInfo>>, request: Arc<Request>) -> (r:
        Result<RequestContext, ContextInstantiationError>)
        ensures
            r is Ok,
            r->Ok_0@ == RequestContext::initial(*plugin, redis_info, *request),
    {
        let client_ip: Option<IpInterface> = match request.forwarded_ip {
            Some(forwarded_ip) => Some(IpInterface::from(forwarded_ip.0)),
            None => None,
        };
        let config: Vec<u8> = match plugin.guest_config() {
            Ok(config) => config,
            Err(error) => return Err(ContextInstantiationError::Config(error)),
        };
        let context = RequestContext {
            config,
            permissions: plugin.permissions(),
            request: RequestInterface::from(&request),
            client_ip,
            redis_info,
            outbound_http: OutboundRequests::new(),
            decision: Decision { accept: MASS_ZERO, restrict: MASS_ZERO, unknown: MASS_ONE },
            tags: Vec::new(),
            host_mutable_context: HostMutableContext {
                response: None,
                combined_decision: None,
                combined_tags: None,
                outcome: None,
            },
        };
        assert(context@.tags =~= Seq::empty());
        Ok(context)
    }

    /// Returns the guest environment's configuration value as serialized JSON.
    pub fn get_config(&self) -> (config: Vec<u8>)
        ensures
            config@ == self@.config,
    {
        copy_bytes(&self.config)
    }

    /// Whether the environment variable named `key` may be read.
    pub fn check_env(&self, key: &str) -> (r: Result<(), Refusal>)
        ensures
            match r {
                Ok(_) => self@.permissions.allows_env(key@),
                Err(refusal) => !self@.permissions.allows_env(key@) && refusal
                    == Refusal::EnvironmentDenied,
            },
    {
        if self.permissions.allows_env(key) {
            Ok(())
        } else {
            Err(Refusal::EnvironmentDenied)
        }
    }

    /// Returns the value of an environment variable as bytes.
    ///
    /// # Arguments
    ///
    /// * `key` - The environment variable name. Case-sensitive.
    /// * `value` - What the environment holds under that name.
    pub fn get_env_bytes(&self, key: &str, value: String) -> (bytes: Vec<u8>)
        requires
            self@.permissions.allows_env(key@),
        ensures
            bytes@ == vstd::utf8::encode_utf8(value@),
    {
        vstd::slice::slice_to_vec(value.as_str().as_bytes())
    }

    /// Returns the incoming request associated with the request context.
    pub fn get_request(&self) -> (request: RequestInterface)
        ensures
            request@ == self@.request,
    {
        self.request.clone()
    }

    /// Whether the interior service's response has been recorded.
    pub fn check_response(&self) -> (r: Result<(), Refusal>)
        ensures
            match r {
                Ok(_) => self@.host.response is Some,
                Err(refusal) => self@.host.response is None && refusal == Refusal::NotRecorded,
            },
    {
        if self.host_mutable_context.response.is_some() {
            Ok(())
        } else {
            Err(Refusal::NotRecorded)
        }
    }

    /// Returns the response received from the interior service.
    pub fn get_response(&self) -> (response: ResponseInterface)
        requires
            self@.host.response is Some,
        ensures
            Some(response@) == self@.host.response,
    {
        self.host_mutable_context.response.as_ref().unwrap().clone()
    }

    /// Returns the originating client's IP address, if available.
    pub fn get_client_ip(&self) -> (ip: Option<IpInterface>)
        ensures
            ip == self@.client_ip,
    {
        self.client_ip
    }

    /// Whether an outbound request may be begun.
    pub fn check_request(&self, method: &str, uri: &str) -> (r: Result<(), Refusal>)
        ensures
            match r {
                Ok(_) => self@.request_refusal(method@, uri@) is None,
                Err(refusal) => self@.request_refusal(method@, uri@) == Some(refusal),
            },
    {
        match check_outbound(&self.permissions, method, uri) {
            Ok(_) => Ok(()),
            Err(refusal) => Err(refusal),
        }
    }

    /// Begins an outbound request. Returns a request ID used by `add_request_header` and
    /// `set_request_body`.
    ///
    /// # Arguments
    ///
    /// * `method` - The HTTP method
    /// * `uri` - The absolute URI of the resource to request
    pub fn prepare_request(&mut self, method: String, uri: String) -> (id: u64)
        requires
            old(self)@.request_refusal(method@, uri@) is None,
        ensures
            is_next_id(old(self)@.outbound.dom(), id),
            final(self)@ == old(self)@.with_request(id, method@, uri@),
    {
        match crate::outbound::parse_method(method.as_str()) {
            Some(known) => self.outbound_http.begin(known, uri),
            None => {
                assert(false);
                0
            },
        }
    }

    /// Begins an outbound request where nothing stands against it.
    pub fn try_prepare_request(&mut self, method: String, uri: String) -> (r: Result<u64, Refusal>)
        ensures
            match r {
                Ok(id) => {
                    &&& old(self)@.request_refusal(method@, uri@) is None
                    &&& is_next_id(old(self)@.outbound.dom(), id)
                    &&& final(self)@ == old(self)@.with_request(id, method@, uri@)
                },
                Err(refusal) => {
                    &&& old(self)@.request_refusal(method@, uri@) == Some(refusal)
                    &&& final(self)@ == old(self)@
                },
            },
    {
        match self.check_request(method.as_str(), uri.as_str()) {
            Ok(_) => Ok(self.prepare_request(method, uri)),
            Err(refusal) => Err(refusal),
        }
    }

    /// Whether an outbound request with this ID is being assembled.
    pub fn check_pending(&self, request_id: u64) -> (r: Result<(), Refusal>)
        ensures
            match r {
                Ok(_) => self@.outbound.contains_key(request_id),
                Err(refusal) => !self@.outbound.contains_key(request_id) && refusal
                    == Refusal::UnknownRequest,
            },
    {
        if self.outbound_http.is_pending(request_id) {
            Ok(())
        } else {
            Err(Refusal::UnknownRequest)
        }
    }

    /// Adds a request header to an outbound HTTP request.
    ///
    /// # Arguments
    ///
    /// * `request_id` - The request ID received from `prepare_request`.
    /// * `name` - The header name.
    /// * `value` - The header value bytes.
    pub fn add_request_header(&mut self, request_id: u64, name: String, value: Vec<u8>)
        requires
            old(self)@.outbound.contains_key(request_id),
        ensures
            final(self)@ == old(self)@.with_request_header(
                request_id,
                (HeaderView { name: name@, value: value@ }),
            ),
    {
        self.outbound_http.add_header(request_id, HeaderInterface { name, value });
    }

    /// Sets the request body, if any, and hands the request out for sending. What comes back is
    /// shown to the plugin by [`ResponseInterface::from_complete`].
    ///
    /// This function is still required even if the request does not have a body. An empty body is
    /// acceptable.
    ///
    /// # Arguments
    ///
    /// * `request_id` - The request ID received from `prepare_request`.
    /// * `body` - The request body in bytes or an empty slice for no body.
    pub fn set_request_body(&mut self, request_id: u64, body: Vec<u8>) -> (request: OutboundRequest)
        requires
            old(self)@.outbound.contains_key(request_id),
        ensures
            request@ == old(self)@.outbound[request_id].with_body(body@),
            final(self)@ == old(self)@.without_request(request_id),
    {
        self.outbound_http.complete(request_id, body)
    }

    /// Records the decision value the plugin wants to return.
    ///
    /// # Arguments
    ///
    /// * `decision` - The [`Decision`] output of the plugin.
    pub fn set_decision(&mut self, decision: DecisionInterface)
        ensures
            final(self)@ == old(self)@.with_decision(decision),
    {
        self.decision = Decision::from(decision);
    }

    /// Records the tags the plugin wants to associate with its decision.
    ///
    /// # Arguments
    ///
    /// * `tags` - The list of tags to associate with a [`Decision`].
    pub fn set_tags(&mut self, tags: Vec<String>)
        ensures
            final(self)@ == old(self)@.with_tags(texts(tags@)),
    {
        self.tags = tags;
    }

    /// Whether the combined decision has been recorded.
    pub fn check_combined_decision(&self) -> (r: Result<(), Refusal>)
        ensures
            match r {
                Ok(_) => self@.host.combined_decision is Some,
                Err(refusal) => self@.host.combined_decision is None && refusal
                    == Refusal::NotRecorded,
            },
    {
        if self.host_mutable_context.combined_decision.is_some() {
            Ok(())
        } else {
            Err(Refusal::NotRecorded)
        }
    }

    /// Returns the combined decision, if available.
    ///
    /// Typically used in the feedback phase.
    pub fn get_combined_decision(&self) -> (decision: DecisionInterface)
        requires
            self@.host.combined_decision is Some,
        ensures
            Some(decision) == self@.host.combined_decision,
    {
        self.host_mutable_context.combined_decision.unwrap()
    }

    /// Whether the combined tags have been recorded.
    pub fn check_combined_tags(&self) -> (r: Result<(), Refusal>)
        ensures
            match r {
                Ok(_) => self@.host.combined_tags is Some,
                Err(refusal) => self@.host.combined_tags is None && refusal == Refusal::NotRecorded,
            },
    {
        if self.host_mutable_context.combined_tags.is_some() {
            Ok(())
        } else {
            Err(Refusal::NotRecorded)
        }
    }

    /// Returns the combined set of tags associated with a decision, if available.
    ///
    /// Typically used in the feedback phase.
    pub fn get_combined_tags(&self) -> (tags: Vec<String>)
        requires
            self@.host.combined_tags is Some,
        ensures
            Some(texts(tags@)) == self@.host.combined_tags,
    {
        copy_strings(self.host_mutable_context.combined_tags.as_ref().unwrap())
    }

    /// Whether the outcome has been recorded.
    pub fn check_outcome(&self) -> (r: Result<(), Refusal>)
        ensures
            match r {
                Ok(_) => self@.host.outcome is Some,
                Err(refusal) => self@.host.outcome is None && refusal == Refusal::NotRecorded,
            },
    {
        if self.host_mutable_context.outcome.is_some() {
            Ok(())
        } else {
            Err(Refusal::NotRecorded)
        }
    }

    /// Returns the outcome of the combined decision, if available.
    ///
    /// Typically used in the feedback phase.
    pub fn get_outcome(&self) -> (outcome: OutcomeInterface)
        requires
            self@.host.outcome is Some,
        ensures
            Some(outcome) == self@.host.outcome,
    {
        self.host_mutable_context.outcome.unwrap()
    }

    /// Records a [`Response`] so that it will be accessible to the plugin guest environment.
    pub fn record_response(&mut self, response: Arc<Response>)
        ensures
            final(self)@ == old(self)@.with_host(old(self)@.host.with_response(response@)),
    {
        self.host_mutable_context.response = Some(ResponseInterface::from(&response));
    }

    /// Records the combined [`Decision`], its tags, and the associated [`Outcome`] so that they
    /// will be accessible to the plugin guest environment.
    pub fn record_combined_decision(
        &mut self,
        decision_components: &DecisionComponents,
        outcome: Outcome,
    )
        ensures
            final(self)@ == old(self)@.with_host(
                old(self)@.host.with_combined_decision(decision_components@, outcome),
            ),
    {
        self.host_mutable_context.combined_decision =
        Some(DecisionInterface::from(decision_components.decision));
        self.host_mutable_context.combined_tags = Some(copy_strings(&decision_components.tags));
        self.host_mutable_context.outcome = Some(OutcomeInterface::from(outcome));
    }

    /// Whether the remote state key may be used, and there is remote state to use it on.
    pub fn check_state(&self, key: &str) -> (r: Result<(), Refusal>)
        ensures
            match r {
                Ok(_) => self@.may_use_state(key@),
                Err(refusal) => !self@.may_use_state(key@) && self@.state_refusal(key@) == Some(
                    refusal,
                ),
            },
    {
        if !self.permissions.allows_state(key) {
            Err(Refusal::StateDenied)
        } else if self.redis_info.is_none() {
            Err(Refusal::RemoteStateUnavailable)
        } else {
            Ok(())
        }
    }

    /// Returns the named state value retrieved from Redis.
    ///
    /// Also used to retrieve a counter value.
    ///
    /// # Arguments
    ///
    /// * `key` - The key name corresponding to the state value.
    pub fn get_remote_state(&self, key: String) -> (command: RedisCommand)
        requires
            self@.may_use_state(key@),
        ensures
            command@ == (CommandView::Read { key: key@ }),
    {
        RedisCommand::Read { key }
    }

    /// Set a named value in Redis.
    ///
    /// # Arguments
    ///
    /// * `key` - The key name corresponding to the state value.
    /// * `value` - The value to record. Values are byte strings, but may be interpreted
    ///   differently by Redis depending on context.
    pub fn set_remote_state(&self, key: String, value: Vec<u8>) -> (command: RedisCommand)
        requires
            self@.may_use_state(key@),
        ensures
            command@ == (CommandView::Write { key: key@, value: value@ }),
    {
        RedisCommand::Write { key, value }
    }

    /// Increments a named counter in Redis.
    ///
    /// # Arguments
    ///
    /// * `key` - The key name corresponding to the state counter.
    pub fn increment_remote_state(&self, key: String) -> (command: RedisCommand)
        requires
            self@.may_use_state(key@),
        ensures
            command@ == (CommandView::Increment { key: key@, delta: 1 }),
    {
        RedisCommand::Increment { key, delta: 1 }
    }

    /// Increments a named counter in Redis by a specified delta value.
    ///
    /// # Arguments
    ///
    /// * `key` - The key name corresponding to the state counter.
    /// * `delta` - The amount to increase the counter by.
    pub fn increment_remote_state_by(&self, key: String, delta: i64) -> (command: RedisCommand)
        requires
            self@.may_use_state(key@),
        ensures
            command@ == (CommandView::Increment { key: key@, delta }),
    {
        RedisCommand::Increment { key, delta }
    }

    /// Whether an expiration may be set on the remote state key.
    pub fn check_remote_ttl(&self, key: &str, ttl: i64) -> (r: Result<(), Refusal>)
        ensures
            match r {
                Ok(_) => self@.may_use_state(key@) && 0 <= ttl <= usize::MAX,
                Err(refusal) => if self@.may_use_state(key@) {
                    !(0 <= ttl <= usize::MAX) && refusal == Refusal::InvalidTtl
                } else {
                    self@.state_refusal(key@) == Some(refusal)
                },
            },
    {
        match self.check_state(key) {
            Ok(_) => if ttl < 0 || ttl as u64 > usize::MAX as u64 {
                Err(Refusal::InvalidTtl)
            } else {
                Ok(())
            },
            Err(refusal) => Err(refusal),
        }
    }

    /// Sets an expiration on a named value in Redis.
    ///
    /// # Arguments
    ///
    /// * `key` - The key name corresponding to the state value.
    /// * `ttl` - The time-to-live for the value in seconds.
    pub fn set_remote_ttl(&self, key: String, ttl: i64) -> (command: RedisCommand)
        requires
            self@.may_use_state(key@),
            0 <= ttl <= usize::MAX,
        ensures
            command@ == (CommandView::Expire { key: key@, seconds: ttl as int }),
    {
        RedisCommand::Expire { key, seconds: ttl as usize }
    }

    /// Increments a rate limit, returning the number of attempts so far and the expiration time.
    ///
    /// The rate limiter is a counter over a period of time. At the end of the period, it will
    /// expire, beginning a new period. Window periods should be set to the longest amount of time
    /// that a client should be locked out for. The plugin is responsible for performing all
    /// rate-limiting logic with the counter value it receives.
    ///
    /// # Arguments
    ///
    /// * `key` - The key name corresponding to the state counter.
    /// * `delta` - The amount to increase the counter by.
    /// * `window` - How long each period should be in seconds.
    pub fn increment_rate_limit(&self, key: String, delta: i64, window: i64) -> (command:
        RedisCommand)
        requires
            self@.may_use_state(key@),
        ensures
            exists|timestamp: i64|
                0 <= timestamp && command@ == #[trigger] self@.scripts->0.rate_limit_increment(
                    key@,
                    delta,
                    window,
                    timestamp,
                ),
    {
        let timestamp: i64 = current_timestamp();
        let command = self.redis_info.as_ref().unwrap().registry.increment_rate_limit_at(
            key,
            delta,
            window,
            timestamp,
        );
        assert(command@ == self@.scripts->0.rate_limit_increment(key@, delta, window, timestamp));
        command
    }

    /// Checks a rate limit, returning the number of attempts so far and the expiration time.
    ///
    /// See `increment_rate_limit`.
    ///
    /// # Arguments
    ///
    /// * `key` - The key name corresponding to the state counter.
    pub fn check_rate_limit(&self, key: String) -> (command: RedisCommand)
        requires
            self@.may_use_state(key@),
        ensures
            exists|timestamp: i64|
                0 <= timestamp && command@ == #[trigger] self@.scripts->0.rate_limit_check(
                    key@,
                    timestamp,
                ),
    {
        let timestamp: i64 = current_timestamp();
        let command = self.redis_info.as_ref().unwrap().registry.check_rate_limit_at(
            key,
            timestamp,
        );
        assert(command@ == self@.scripts->0.rate_limit_check(key@, timestamp));
        command
    }

    /// Increments a circuit breaker, returning the generation count, success count, failure count,
    /// consecutive success count, consecutive failure count, and expiration time.
    ///
    /// The plugin is responsible for performing all circuit-breaking logic with the counter
    /// values it receives. The host environment does as little as possible to maximize how much
    /// control the plugin has over the behavior of the breaker.
    ///
    /// # Arguments
    ///
    /// * `key` - The key name corresponding to the state counter.
    /// * `success_delta` - The amount to increase the success counter by. Generally zero on
    ///   failure.
    /// * `failure_delta` - The amount to increase the failure counter by. Generally zero on
    ///   success.
    /// * `window` - How long each period should be in seconds.
    pub fn increment_breaker(
        &self,
        key: String,
        success_delta: i64,
        failure_delta: i64,
        window: i64,
    ) -> (command: RedisCommand)
        requires
            self@.may_use_state(key@),
        ensures
            exists|timestamp: i64|
                0 <= timestamp && command@ == #[trigger] self@.scripts->0.breaker_increment(
                    key@,
                    success_delta,
                    failure_delta,
                    window,
                    timestamp,
                ),
    {
        let timestamp: i64 = current_timestamp();
        let command = self.redis_info.as_ref().unwrap().registry.increment_breaker_at(
            key,
            success_delta,
            failure_delta,
            window,
            timestamp,
        );
        assert(command@ == self@.scripts->0.breaker_increment(
            key@,
            success_delta,
            failure_delta,
            window,
            timestamp,
        ));
        command
    }

    /// Checks a circuit breaker, returning the generation count, success count, failure count,
    /// consecutive success count, consecutive failure count, and expiration time.
    ///
    /// See `increment_breaker`.
    ///
    /// # Arguments
    ///
    /// * `key` - The key name corresponding to the state counter.
    pub fn check_breaker(&self, key: String) -> (command: RedisCommand)
        requires
            self@.may_use_state(key@),
        ensures
            exists|timestamp: i64|
                0 <= timestamp && command@ == #[trigger] self@.scripts->0.breaker_check(
                    key@,
                    timestamp,
                ),
    {
        let timestamp: i64 = current_timestamp();
        let command = self.redis_info.as_ref().unwrap().registry.check_breaker_at(key, timestamp);
        assert(command@ == self@.scripts->0.breaker_check(key@, timestamp));
        command
    }
}

} // verus!
