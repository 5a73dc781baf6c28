//! The values that cross the boundary between the host and a plugin's sandbox.
//!
//! Plain types such as [`Request`] and [`Response`] are what the host works with; the types whose
//! names end in `Interface` are what a plugin is shown.
use vstd::prelude::*;
use vstd::std_specs::convert::FromSpecImpl;

verus! {

/// The texts of a list of strings.
pub open spec fn texts(strings: Seq<String>) -> Seq<Seq<char>> {
    strings.map_values(|s: String| s@)
}

/// Copies a list of strings.
pub fn copy_strings(strings: &Vec<String>) -> (copy: Vec<String>)
    ensures
        copy@ == strings@,
{
    let copy = strings.clone();
    assert(copy@ =~= strings@);
    copy
}

/// Copies a run of bytes.
pub fn copy_bytes(bytes: &Vec<u8>) -> (copy: Vec<u8>)
    ensures
        copy@ == bytes@,
{
    let copy = bytes.clone();
    assert(copy@ =~= bytes@);
    copy
}

/// One HTTP header.
pub struct HeaderInterface {
    pub name: String,
    pub value: Vec<u8>,
}

/// What a header says.
pub ghost struct HeaderView {
    pub name: Seq<char>,
    pub value: Seq<u8>,
}

impl View for HeaderInterface {
    type V = HeaderView;

    open spec fn view(&self) -> HeaderView {
        HeaderView { name: self.name@, value: self.value@ }
    }
}

impl Clone for HeaderInterface {
    fn clone(&self) -> (copy: Self)
        ensures
            copy@ == self@,
    {
        HeaderInterface { name: self.name.clone(), value: copy_bytes(&self.value) }
    }
}

/// What a list of headers says, in its order.
pub open spec fn header_views(headers: Seq<HeaderInterface>) -> Seq<HeaderView> {
    headers.map_values(|h: HeaderInterface| h@)
}

/// Copies a list of headers.
pub fn copy_headers(headers: &Vec<HeaderInterface>) -> (copy: Vec<HeaderInterface>)
    ensures
        header_views(copy@) == header_views(headers@),
{
    let mut copy: Vec<HeaderInterface> = Vec::new();
    for i in 0..headers.len()
        invariant
            copy@.len() == i,
            forall|j: int| 0 <= j < i ==> (#[trigger] copy@[j])@ == headers@[j]@,
    {
        copy.push(headers[i].clone());
    }
    assert(header_views(copy@) =~= header_views(headers@));
    copy
}

/// A piece of an HTTP message's body.
pub struct BodyChunk {
    pub content: Vec<u8>,
    pub start: u64,
    pub size: u64,
    pub end_of_stream: bool,
}

/// What a piece of a body holds and where it belongs.
pub ghost struct ChunkView {
    pub content: Seq<u8>,
    pub start: u64,
    pub size: u64,
    pub end_of_stream: bool,
}

impl View for BodyChunk {
    type V = ChunkView;

    open spec fn view(&self) -> ChunkView {
        ChunkView {
            content: self.content@,
            start: self.start,
            size: self.size,
            end_of_stream: self.end_of_stream,
        }
    }
}

/// The version of HTTP that a message was sent with.
#[derive(Clone, Copy, PartialEq, Eq, Structural, Debug)]
pub enum HttpVersion {
    Http09,
    Http10,
    Http11,
    H2,
    H3,
}

impl HttpVersion {
    /// How the version is written.
    pub open spec fn text(self) -> Seq<char> {
        match self {
            HttpVersion::Http09 => "HTTP/0.9"@,
            HttpVersion::Http10 => "HTTP/1.0"@,
            HttpVersion::Http11 => "HTTP/1.1"@,
            HttpVersion::H2 => "HTTP/2.0"@,
            HttpVersion::H3 => "HTTP/3.0"@,
        }
    }

    /// Writes the version.
    pub fn to_text(self) -> (text: String)
        ensures
            text@ == self.text(),
    {
        match self {
            HttpVersion::Http09 => "HTTP/0.9".to_owned(),
            HttpVersion::Http10 => "HTTP/1.0".to_owned(),
            HttpVersion::Http11 => "HTTP/1.1".to_owned(),
            HttpVersion::H2 => "HTTP/2.0".to_owned(),
            HttpVersion::H3 => "HTTP/3.0".to_owned(),
        }
    }
}

/// An IP address, as the octets that it is written with on the wire.
#[derive(Clone, Copy, Debug)]
pub enum IpAddr {
    V4([u8; 4]),
    V6([u8; 16]),
}

/// Wraps an [`IpAddr`] representing the remote IP for the incoming request.
///
/// In an architecture with proxies or load balancers in front of the host, this IP will belong to
/// the immediately exterior proxy or load balancer rather than the IP address of the client that
/// originated the request.
#[derive(Clone, Copy, Debug)]
pub struct RemoteIP(pub IpAddr);

/// Wraps an [`IpAddr`] representing the forwarded IP for the incoming request.
///
/// In an architecture with proxies or load balancers in front of the host, this IP will belong to
/// the IP address of the client that originated the request rather than the immediately exterior
/// proxy or load balancer.
#[derive(Clone, Copy, Debug)]
pub struct ForwardedIP(pub IpAddr);

/// An IP address as a plugin sees it: four octets, or eight segments of sixteen bits.
#[derive(Clone, Copy, PartialEq, Eq, Debug)]
pub enum IpInterface {
    V4((u8, u8, u8, u8)),
    V6((u16, u16, u16, u16, u16, u16, u16, u16)),
}

/// The segment of an IPv6 address that two octets make up, the first of them the higher.
pub open spec fn segment(octets: [u8; 16], i: int) -> u16 {
    (octets@[2 * i] * 256 + octets@[2 * i + 1]) as u16
}

/// The address as a plugin sees it.
pub open spec fn shown_ip(ip: IpAddr) -> IpInterface {
    match ip {
        IpAddr::V4(octets) => IpInterface::V4((octets@[0], octets@[1], octets@[2], octets@[3])),
        IpAddr::V6(octets) => IpInterface::V6(
            (
                segment(octets, 0),
                segment(octets, 1),
                segment(octets, 2),
                segment(octets, 3),
                segment(octets, 4),
                segment(octets, 5),
                segment(octets, 6),
                segment(octets, 7),
            ),
        ),
    }
}

fn segment_at(octets: &[u8; 16], i: usize) -> (s: u16)
    requires
        i < 8,
    ensures
        s == segment(*octets, i as int),
        s == octets@[2 * i as int] * 256 + octets@[2 * i as int + 1],
{
    (octets[2 * i] as u16) * 256 + octets[2 * i + 1] as u16
}

impl From<IpAddr> for IpInterface {
    fn from(ip: IpAddr) -> (shown: IpInterface) {
        match ip {
            IpAddr::V4(octets) => IpInterface::V4((octets[0], octets[1], octets[2], octets[3])),
            IpAddr::V6(octets) => IpInterface::V6(
                (
                    segment_at(&octets, 0),
                    segment_at(&octets, 1),
                    segment_at(&octets, 2),
                    segment_at(&octets, 3),
                    segment_at(&octets, 4),
                    segment_at(&octets, 5),
                    segment_at(&octets, 6),
                    segment_at(&octets, 7),
                ),
            ),
        }
    }
}

impl FromSpecImpl<IpAddr> for IpInterface {
    open spec fn obeys_from_spec() -> bool {
        true
    }

    open spec fn from_spec(ip: IpAddr) -> IpInterface {
        shown_ip(ip)
    }
}

/// An HTTP request that came in from a client.
pub struct Request {
    pub method: String,
    pub uri: String,
    pub version: HttpVersion,
    pub headers: Vec<HeaderInterface>,
    pub body: BodyChunk,
    /// The address of the client that originated the request, if it is known.
    pub forwarded_ip: Option<ForwardedIP>,
}

/// An HTTP response that came back from the interior service.
pub struct Response {
    pub status: u16,
    pub headers: Vec<HeaderInterface>,
    pub body: BodyChunk,
}

/// An HTTP request as a plugin sees it.
pub struct RequestInterface {
    pub method: String,
    pub uri: String,
    pub version: String,
    pub headers: Vec<HeaderInterface>,
    pub chunk_start: u64,
    pub chunk_length: u64,
    pub end_of_stream: bool,
    pub chunk: Vec<u8>,
}

/// What a plugin can read off a request.
pub ghost struct RequestView {
    pub method: Seq<char>,
    pub uri: Seq<char>,
    pub version: Seq<char>,
    pub headers: Seq<HeaderView>,
    pub body: ChunkView,
}

/// What a plugin can read off a response.
pub ghost struct ResponseView {
    pub status: int,
    pub headers: Seq<HeaderView>,
    pub body: ChunkView,
}

impl View for Request {
    type V = RequestView;

    open spec fn view(&self) -> RequestView {
        RequestView {
            method: self.method@,
            uri: self.uri@,
            version: self.version.text(),
            headers: header_views(self.headers@),
            body: self.body@,
        }
    }
}

impl View for RequestInterface {
    type V = RequestView;

    open spec fn view(&self) -> RequestView {
        RequestView {
            method: self.method@,
            uri: self.uri@,
            version: self.version@,
            headers: header_views(self.headers@),
            body: ChunkView {
                content: self.chunk@,
                start: self.chunk_start,
                size: self.chunk_length,
                end_of_stream: self.end_of_stream,
            },
        }
    }
}

impl RequestInterface {
    /// Shows a request to plugins: every part of it, unchanged.
    pub fn from(request: &Request) -> (shown: RequestInterface)
        ensures
            shown@ == request@,
    {
        RequestInterface {
            method: request.method.clone(),
            uri: request.uri.clone(),
            version: request.version.to_text(),
            headers: copy_headers(&request.headers),
            chunk_start: request.body.start,
            chunk_length: request.body.size,
            end_of_stream: request.body.end_of_stream,
            chunk: copy_bytes(&request.body.content),
        }
    }
}

impl Clone for RequestInterface {
    fn clone(&self) -> (copy: Self)
        ensures
            copy@ == self@,
    {
        RequestInterface {
            method: self.method.clone(),
            uri: self.uri.clone(),
            version: self.version.clone(),
            headers: copy_headers(&self.headers),
            chunk_start: self.chunk_start,
            chunk_length: self.chunk_length,
            end_of_stream: self.end_of_stream,
            chunk: copy_bytes(&self.chunk),
        }
    }
}

/// An HTTP response as a plugin sees it.
pub struct ResponseInterface {
    pub status: u32,
    pub headers: Vec<HeaderInterface>,
    pub chunk_start: u64,
    pub chunk_length: u64,
    pub end_of_stream: bool,
    pub chunk: Vec<u8>,
}

impl View for Response {
    type V = ResponseView;

    open spec fn view(&self) -> ResponseView {
        ResponseView {
            status: self.status as int,
            headers: header_views(self.headers@),
            body: self.body@,
        }
    }
}

impl View for ResponseInterface {
    type V = ResponseView;

    open spec fn view(&self) -> ResponseView {
        ResponseView {
            status: self.status as int,
            headers: header_views(self.headers@),
            body: ChunkView {
                content: self.chunk@,
                start: self.chunk_start,
                size: self.chunk_length,
                end_of_stream: self.end_of_stream,
            },
        }
    }
}

impl ResponseInterface {
    /// Shows a response to plugins: every part of it, unchanged.
    pub fn from(response: &Response) -> (shown: ResponseInterface)
        ensures
            shown@ == response@,
    {
        ResponseInterface {
            status: response.status as u32,
            headers: copy_headers(&response.headers),
            chunk_start: response.body.start,
            chunk_length: response.body.size,
            end_of_stream: response.body.end_of_stream,
            chunk: copy_bytes(&response.body.content),
        }
    }

    /// Shows the complete answer to an outbound request: one chunk that starts at the beginning
    /// and is the whole body.
    pub fn from_complete(status: u16, headers: Vec<HeaderInterface>, body: Vec<u8>) -> (shown:
        ResponseInterface)
        ensures
            shown@ == (ResponseView {
                status: status as int,
                headers: header_views(headers@),
                body: ChunkView {
                    content: body@,
                    start: 0,
                    size: body@.len() as u64,
                    end_of_stream: true,
                },
            }),
            shown.chunk_length == body@.len(),
    {
        let content_length: u64 = body.len() as u64;
        ResponseInterface {
            status: status as u32,
            headers,
            chunk_start: 0,
            chunk_length: content_length,
            end_of_stream: true,
            chunk: body,
        }
    }
}

impl Clone for ResponseInterface {
    fn clone(&self) -> (copy: Self)
        ensures
            copy@ == self@,
    {
        ResponseInterface {
            status: self.status,
            headers: copy_headers(&self.headers),
            chunk_start: self.chunk_start,
            chunk_length: self.chunk_length,
            end_of_stream: self.end_of_stream,
            chunk: copy_bytes(&self.chunk),
        }
    }
}

} // verus!
