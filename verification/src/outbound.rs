//! Outbound HTTP requests that a plugin assembles piece by piece.
use crate::interface::{header_views, HeaderInterface, HeaderView};
use crate::permissions::Permissions;
use crate::refusal::Refusal;
use std::collections::HashMap;
use vstd::prelude::*;

verus! {

broadcast use vstd::std_specs::hash::group_hash_axioms;

/// The methods of the requests that the host sends for plugins.
#[derive(Clone, Copy, PartialEq, Eq, Structural, Debug)]
pub enum HttpMethod {
    Get,
    Head,
    Post,
    Put,
    Patch,
    Delete,
    Options,
    Trace,
}

/// The upper case of an ASCII letter, and every other character itself.
pub open spec fn ascii_upper(c: char) -> char {
    if 'a' <= c <= 'z' {
        (c as u32 - 32) as char
    } else {
        c
    }
}

/// A text with its ASCII letters in upper case.
pub open spec fn ascii_uppercase(text: Seq<char>) -> Seq<char> {
    text.map_values(|c: char| ascii_upper(c))
}

/// The method that has this name, in upper case.
pub open spec fn method_named(name: Seq<char>) -> Option<HttpMethod> {
    if name == "GET"@ {
        Some(HttpMethod::Get)
    } else if name == "HEAD"@ {
        Some(HttpMethod::Head)
    } else if name == "POST"@ {
        Some(HttpMethod::Post)
    } else if name == "PUT"@ {
        Some(HttpMethod::Put)
    } else if name == "PATCH"@ {
        Some(HttpMethod::Patch)
    } else if name == "DELETE"@ {
        Some(HttpMethod::Delete)
    } else if name == "OPTIONS"@ {
        Some(HttpMethod::Options)
    } else if name == "TRACE"@ {
        Some(HttpMethod::Trace)
    } else {
        None
    }
}

/// The method that a plugin asks for by `text`, in whatever case it is written.
pub open spec fn method_of(text: Seq<char>) -> Option<HttpMethod> {
    method_named(ascii_uppercase(text))
}

/// Calls `str::to_ascii_uppercase`: the letters `a` to `z` become `A` to `Z`, and every other
/// character stays as it is.
#[verifier::external_body]
fn to_ascii_uppercase(text: &str) -> (upper: String)
    ensures
        upper@ == ascii_uppercase(text@),
{
    text.to_ascii_uppercase()
}

/// Reads the name of a method, in whatever case it is written.
pub fn parse_method(text: &str) -> (method: Option<HttpMethod>)
    ensures
        method == method_of(text@),
{
    let upper: String = to_ascii_uppercase(text);
    if upper == "GET".to_owned() {
        Some(HttpMethod::Get)
    } else if upper == "HEAD".to_owned() {
        Some(HttpMethod::Head)
    } else if upper == "POST".to_owned() {
        Some(HttpMethod::Post)
    } else if upper == "PUT".to_owned() {
        Some(HttpMethod::Put)
    } else if upper == "PATCH".to_owned() {
        Some(HttpMethod::Patch)
    } else if upper == "DELETE".to_owned() {
        Some(HttpMethod::Delete)
    } else if upper == "OPTIONS".to_owned() {
        Some(HttpMethod::Options)
    } else if upper == "TRACE".to_owned() {
        Some(HttpMethod::Trace)
    } else {
        None
    }
}

#[verifier::external_type_specification]
#[verifier::external_body]
pub struct ExUrlParseError(url::ParseError);

/// The domain that a URI names: `None` where the text is not an absolute URI, and `Some(None)`
/// where the URI has no domain.
pub uninterp spec fn uri_domain(uri: Seq<char>) -> Option<Option<Seq<char>>>;

/// Calls `url::Url::parse` and reads the domain off the URL with `url::Url::domain`. What comes
/// back depends on the text alone.
#[verifier::external_body]
fn parse_domain(uri: &str) -> (r: Result<Option<String>, url::ParseError>)
    ensures
        match r {
            Ok(Some(domain)) => uri_domain(uri@) == Some(Some(domain@)),
            Ok(None) => uri_domain(uri@) == Some(None::<Seq<char>>),
            Err(_) => uri_domain(uri@) is None,
        },
{
    url::Url::parse(uri).map(|parsed| parsed.domain().map(|domain| domain.to_owned()))
}

/// Why an outbound request is turned down, if it is: the URI is looked at first, then the grants
/// of the plugin, then the method.
pub open spec fn outbound_refusal(
    domains: Seq<Seq<char>>,
    method: Seq<char>,
    domain: Option<Option<Seq<char>>>,
) -> Option<Refusal> {
    match domain {
        None => Some(Refusal::UriInvalid),
        Some(None) => Some(Refusal::UriWithoutDomain),
        Some(Some(name)) => if !domains.contains(name) {
            Some(Refusal::HttpDenied)
        } else if method_of(method) is None {
            Some(Refusal::UnsupportedMethod)
        } else {
            None
        },
    }
}

/// The texts of the domain that a URI was found to name.
pub open spec fn domain_text(domain: Option<Option<String>>) -> Option<Option<Seq<char>>> {
    match domain {
        None => None,
        Some(None) => Some(None),
        Some(Some(name)) => Some(Some(name@)),
    }
}

/// Decides on an outbound request whose URI was found to name `domain`: `None` where it is not an
/// absolute URI, and `Some(None)` where it has no domain.
pub fn decide_outbound(
    permissions: &Permissions,
    method: &str,
    domain: Option<Option<String>>,
) -> (decision: Result<HttpMethod, Refusal>)
    ensures
        match decision {
            Ok(m) => outbound_refusal(permissions@.http, method@, domain_text(domain)) is None
                && method_of(method@) == Some(m),
            Err(refusal) => outbound_refusal(permissions@.http, method@, domain_text(domain))
                == Some(refusal),
        },
{
    match domain {
        None => Err(Refusal::UriInvalid),
        Some(None) => Err(Refusal::UriWithoutDomain),
        Some(Some(name)) => {
            if !permissions.allows_domain(name.as_str()) {
                Err(Refusal::HttpDenied)
            } else {
                match parse_method(method) {
                    Some(m) => Ok(m),
                    None => Err(Refusal::UnsupportedMethod),
                }
            }
        },
    }
}

/// Decides on an outbound request.
pub fn check_outbound(permissions: &Permissions, method: &str, uri: &str) -> (decision: Result<
    HttpMethod,
    Refusal,
>)
    ensures
        match decision {
            Ok(m) => outbound_refusal(permissions@.http, method@, uri_domain(uri@)) is None
                && method_of(method@) == Some(m),
            Err(refusal) => outbound_refusal(permissions@.http, method@, uri_domain(uri@)) == Some(
                refusal,
            ),
        },
{
    match parse_domain(uri) {
        Ok(domain) => decide_outbound(permissions, method, Some(domain)),
        Err(_) => decide_outbound(permissions, method, None),
    }
}

/// An outbound request as far as it has been assembled.
pub struct OutboundRequest {
    pub method: HttpMethod,
    pub uri: String,
    pub headers: Vec<HeaderInterface>,
    pub body: Option<Vec<u8>>,
}

/// What an outbound request says.
pub ghost struct OutboundView {
    pub method: HttpMethod,
    pub uri: Seq<char>,
    pub headers: Seq<HeaderView>,
    pub body: Option<Seq<u8>>,
}

impl View for OutboundRequest {
    type V = OutboundView;

    open spec fn view(&self) -> OutboundView {
        OutboundView {
            method: self.method,
            uri: self.uri@,
            headers: header_views(self.headers@),
            body: match self.body {
                Some(body) => Some(body@),
                None => None,
            },
        }
    }
}

impl OutboundView {
    /// A request that has no headers and no body yet.
    pub open spec fn begun(method: HttpMethod, uri: Seq<char>) -> OutboundView {
        OutboundView { method, uri, headers: Seq::empty(), body: None }
    }

    /// The request with one more header, behind the others.
    pub open spec fn with_header(self, header: HeaderView) -> OutboundView {
        OutboundView { headers: self.headers.push(header), ..self }
    }

    /// The request with its body.
    pub open spec fn with_body(self, body: Seq<u8>) -> OutboundView {
        OutboundView { body: Some(body), ..self }
    }
}

/// The outbound requests that are being assembled, by the IDs that the plugin knows them by.
pub struct OutboundRequests {
    pub requests: HashMap<u64, OutboundRequest>,
}

impl View for OutboundRequests {
    type V = Map<u64, OutboundView>;

    open spec fn view(&self) -> Map<u64, OutboundView> {
        self.requests@.map_values(|r: OutboundRequest| r@)
    }
}

/// Whether `id` is the ID of the next request, where the IDs in `used` are taken: their number,
/// or where that is taken itself, the smallest ID that is free.
pub open spec fn is_next_id(used: Set<u64>, id: u64) -> bool {
    let count = used.len() as u64;
    if used.contains(count) {
        !used.contains(id) && forall|j: u64| j < id ==> used.contains(j)
    } else {
        id == count
    }
}

/// A finite set that holds every ID up to `n` has more than `n` elements.
proof fn lemma_initial_segment(used: Set<u64>, n: u64)
    requires
        used.finite(),
        forall|j: u64| j <= n ==> used.contains(j),
    ensures
        used.len() > n,
    decreases n,
{
    let rest = used.remove(n);
    if n > 0 {
        assert forall|j: u64| j <= n - 1 implies rest.contains(j) by {}
        lemma_initial_segment(rest, (n - 1) as u64);
    }
}

impl OutboundRequests {
    /// No requests.
    pub fn new() -> (made: OutboundRequests)
        ensures
            made@ == Map::<u64, OutboundView>::empty(),
    {
        let made = OutboundRequests { requests: HashMap::new() };
        assert(made@ =~= Map::<u64, OutboundView>::empty());
        made
    }

    /// Whether a request with this ID is being assembled.
    pub fn is_pending(&self, id: u64) -> (pending: bool)
        ensures
            pending == self@.contains_key(id),
    {
        self.requests.contains_key(&id)
    }

    /// Finds the ID of the next request.
    fn next_id(&self) -> (id: u64)
        ensures
            is_next_id(self@.dom(), id),
    {
        let count: u64 = self.requests.len() as u64;
        assert(self@.dom() =~= self.requests@.dom());
        if !self.requests.contains_key(&count) {
            return count;
        }
        let ghost used = self.requests@.dom();
        let mut id: u64 = 0;
        while self.requests.contains_key(&id)
            invariant
                used == self.requests@.dom(),
                used.finite(),
                used.len() == count,
                used.contains(count),
                id <= count,
                forall|j: u64| j < id ==> used.contains(j),
            decreases count - id,
        {
            proof {
                if id == count {
                    lemma_initial_segment(used, count);
                }
            }
            id = id + 1;
        }
        id
    }

    /// Begins a request.
    pub fn begin(&mut self, method: HttpMethod, uri: String) -> (id: u64)
        ensures
            is_next_id(old(self)@.dom(), id),
            final(self)@ == old(self)@.insert(id, OutboundView::begun(method, uri@)),
    {
        let id: u64 = self.next_id();
        let request = OutboundRequest { method, uri, headers: Vec::new(), body: None };
        assert(request@ == OutboundView::begun(method, uri@)) by {
            assert(header_views(request.headers@) =~= Seq::empty());
        }
        let ghost before = self@;
        self.requests.insert(id, request);
        assert(self@ =~= before.insert(id, OutboundView::begun(method, uri@)));
        id
    }

    /// Adds a header to a request, behind those that it has.
    pub fn add_header(&mut self, id: u64, header: HeaderInterface)
        requires
            old(self)@.contains_key(id),
        ensures
            final(self)@ == old(self)@.insert(id, old(self)@[id].with_header(header@)),
    {
        let ghost before = self@;
        let mut request = self.requests.remove(&id).unwrap();
        let ghost was = request@;
        request.headers.push(header);
        assert(request@ == was.with_header(header@)) by {
            assert(request@.headers =~= was.headers.push(header@));
        }
        self.requests.insert(id, request);
        assert(self@ =~= before.insert(id, before[id].with_header(header@)));
    }

    /// Completes a request with its body and hands it out for sending.
    pub fn complete(&mut self, id: u64, body: Vec<u8>) -> (request: OutboundRequest)
        requires
            old(self)@.contains_key(id),
        ensures
            request@ == old(self)@[id].with_body(body@),
            final(self)@ == old(self)@.remove(id),
    {
        let ghost before = self@;
        let mut request = self.requests.remove(&id).unwrap();
        request.body = Some(body);
        assert(self@ =~= before.remove(id));
        request
    }
}

} // verus!
