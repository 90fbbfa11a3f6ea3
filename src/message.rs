use vstd::prelude::*;
use crate::target::opt_view;

verus! {

/// The request method.
#[derive(Debug)]
pub enum Method {
    Options,
    Get,
    Post,
    Put,
    Delete,
    Head,
    Trace,
    Connect,
    Patch,
    /// A method outside the standard set, by name.
    Other(String),
}

/// The protocol version of a request.
#[derive(Clone, Copy, Debug, PartialEq, Eq, Structural)]
pub enum HttpVersion {
    Http09,
    Http10,
    Http11,
    Http2,
    Http3,
}

/// One header line: its name and its raw value.
#[derive(Debug)]
pub struct Header {
    pub name: String,
    pub value: Vec<u8>,
}

/// A request as a client sent it. The body `B` is a stream that the proxy
/// hands on without reading it.
pub struct InboundRequest<B> {
    pub method: Method,
    pub path: String,
    pub query: Option<String>,
    pub version: HttpVersion,
    pub headers: Vec<Header>,
    pub body: B,
}

/// The mathematical value of a destination.
pub struct DestinationView {
    pub scheme: Seq<char>,
    pub authority: Seq<char>,
    pub path: Seq<char>,
    pub query: Option<Seq<char>>,
}

/// Where an outbound request goes: an absolute URI by its components.
#[derive(Debug)]
pub struct Destination {
    pub scheme: String,
    pub authority: String,
    pub path: String,
    pub query: Option<String>,
}

impl View for Destination {
    type V = DestinationView;

    open spec fn view(&self) -> DestinationView {
        DestinationView {
            scheme: self.scheme@,
            authority: self.authority@,
            path: self.path@,
            query: opt_view(self.query),
        }
    }
}

/// The text of the URI `scheme://authority/path?query` for a destination.
pub open spec fn uri_text(d: DestinationView) -> Seq<char> {
    let base = d.scheme + "://"@ + d.authority + d.path;
    match d.query {
        Some(q) => base + "?"@ + q,
        None => base,
    }
}

impl Destination {
    /// The destination written out as an absolute URI.
    pub fn to_uri_string(&self) -> (r: String)
        ensures
            r@ == uri_text(self@),
    {
        let mut s = self.scheme.clone();
        s.append("://");
        s.append(self.authority.as_str());
        s.append(self.path.as_str());
        match &self.query {
            Some(q) => {
                s.append("?");
                s.append(q.as_str());
            },
            None => {},
        }
        s
    }
}

/// A request on its way to a backend.
pub struct OutboundRequest<B> {
    pub method: Method,
    pub destination: Destination,
    pub version: HttpVersion,
    pub headers: Vec<Header>,
    pub body: B,
}

/// A response as a backend sent it.
pub struct BackendResponse<B> {
    pub status: u16,
    pub headers: Vec<Header>,
    pub body: B,
}

/// A response on its way to the client; `None` as body stands for an empty
/// one.
pub struct ClientResponse<B> {
    pub status: u16,
    pub headers: Vec<Header>,
    pub body: Option<B>,
}

} // verus!
