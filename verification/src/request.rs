//! The canonical request descriptor and its construction.

use vstd::prelude::*;
use vstd::string::StringExecFns;

use crate::error::ConnectError;

verus! {

/// The protocol-selection token of a connection URL, reduced to the three
/// classes the resolver distinguishes.
#[derive(Clone, Copy, Debug, PartialEq, Eq, Structural)]
pub enum Scheme {
    /// The encrypted WebSocket scheme, written `wss`.
    Secure,
    /// The plain WebSocket scheme, written `ws`.
    Plain,
    /// Any other scheme, or none at all.
    Unrecognized,
}

/// A normalized connection request: immutable once built, consumed by the
/// resolver and handed on to the handshake.
#[derive(Debug)]
pub struct RequestDescriptor {
    pub scheme: Scheme,
    pub host: String,
    pub port: Option<u16>,
    pub headers: Vec<(String, String)>,
}

/// The mathematical shape of a descriptor: text as character sequences.
pub ghost struct DescriptorView {
    pub scheme: Scheme,
    pub host: Seq<char>,
    pub port: Option<u16>,
    pub headers: Seq<(Seq<char>, Seq<char>)>,
}

impl View for RequestDescriptor {
    type V = DescriptorView;

    open spec fn view(&self) -> DescriptorView {
        DescriptorView {
            scheme: self.scheme,
            host: self.host@,
            port: self.port,
            headers: self.headers@.map_values(|p: (String, String)| (p.0@, p.1@)),
        }
    }
}

/// The scheme class of an optional scheme text: `wss` is secure, `ws` is
/// plain, everything else (including no scheme at all) is unrecognized.
pub open spec fn scheme_class(s: Option<Seq<char>>) -> Scheme {
    if s == Some("wss"@) {
        Scheme::Secure
    } else if s == Some("ws"@) {
        Scheme::Plain
    } else {
        Scheme::Unrecognized
    }
}

/// The optional text of an optional string.
pub open spec fn opt_text(s: Option<String>) -> Option<Seq<char>> {
    match s {
        Some(x) => Some(x@),
        None => None,
    }
}

/// What a URL parses to, as far as this library reads it: the scheme token,
/// the host, and the explicit port, when each is present.
pub ghost struct UrlParts {
    pub scheme: Option<Seq<char>>,
    pub host: Option<Seq<char>>,
    pub port: Option<u16>,
}

/// The parts of a parsed URL as plain values, straight from the parser.
pub struct RawUrl {
    pub scheme: Option<String>,
    pub host: Option<String>,
    pub port: Option<u16>,
}

impl View for RawUrl {
    type V = UrlParts;

    open spec fn view(&self) -> UrlParts {
        UrlParts { scheme: opt_text(self.scheme), host: opt_text(self.host), port: self.port }
    }
}

/// What the URL parser yields for a given text: nothing when the text is not
/// a parseable request URL, else its scheme, host and explicit port.
pub uninterp spec fn url_parts_of(s: Seq<char>) -> Option<UrlParts>;

/// Relies on tungstenite's `IntoClientRequest` for `&str`: it parses the text
/// as a URI and builds a client request around it, or fails; whether it fails,
/// and the scheme, host and port of the request's URI, depend on the text
/// alone (the one generated header never makes it fail).
#[verifier::external_body]
fn parse_client_request(url: &str) -> (r: Option<RawUrl>)
    ensures
        match r {
            Some(raw) => url_parts_of(url@) == Some(raw@),
            None => url_parts_of(url@) is None,
        },
{
    match tungstenite::client::IntoClientRequest::into_client_request(url) {
        Ok(req) => Some(RawUrl {
            scheme: req.uri().scheme_str().map(|s| s.to_owned()),
            host: req.uri().host().map(|h| h.to_owned()),
            port: req.uri().port_u16(),
        }),
        Err(_) => None,
    }
}

/// Normalize a raw URL text into a request descriptor.
///
/// Succeeds exactly when the text parses as a request URL that names a host;
/// the descriptor then carries that host, the explicit port if any, the
/// classified scheme, and no headers. Every failure is a construction
/// failure: nothing was dialed yet.
pub fn normalize_url(url: &str) -> (r: Result<RequestDescriptor, ConnectError>)
    ensures
        match r {
            Ok(d) => {
                &&& url_parts_of(url@) matches Some(p)
                &&& p.host matches Some(h)
                &&& d@.host == h
                &&& d@.port == p.port
                &&& d@.scheme == scheme_class(p.scheme)
                &&& d@.headers == Seq::<(Seq<char>, Seq<char>)>::empty()
            },
            Err(e) => {
                &&& e == ConnectError::RequestConstruction
                &&& (url_parts_of(url@) is None || url_parts_of(url@)->0.host is None)
            },
        },
{
    match parse_client_request(url) {
        None => Err(ConnectError::RequestConstruction),
        Some(raw) => match raw.host {
            None => Err(ConnectError::RequestConstruction),
            Some(host) => {
                let scheme = classify_scheme(&raw.scheme);
                let d = RequestDescriptor { scheme, host, port: raw.port, headers: Vec::new() };
                assert(d@.headers =~= Seq::<(Seq<char>, Seq<char>)>::empty());
                Ok(d)
            },
        },
    }
}

/// Classify a scheme token as the resolver understands it.
pub fn classify_scheme(s: &Option<String>) -> (r: Scheme)
    ensures
        r == scheme_class(opt_text(*s)),
{
    match s {
        Some(x) => {
            let wss: String = String::from_str("wss");
            let ws: String = String::from_str("ws");
            if *x == wss {
                Scheme::Secure
            } else if *x == ws {
                Scheme::Plain
            } else {
                Scheme::Unrecognized
            }
        },
        None => Scheme::Unrecognized,
    }
}

} // verus!
