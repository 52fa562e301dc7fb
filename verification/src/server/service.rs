//! Routing of the server's connections: public HTTP requests to tunnels, and the first message
//! of a tunnel connection to a control or a proxy session.
use vstd::prelude::*;
use vstd::utf8::{valid_utf8, decode_utf8};
use crate::message::Message;
use crate::message::auth::AuthReq;
use crate::message::proxy::RegProxy;
use crate::server::registery::{Registry, get_tunnel_cache};
use crate::server::tunnel::Tunnel;
use crate::text::{str_equal, str_from_utf8};

verus! {

#[verifier::external_type_specification]
#[verifier::external_body]
pub struct ExHttparseError(httparse::Error);

/// The reply to a request that cannot be parsed.
pub const BadRequest: &'static str = "HTTP/1.0 400 Bad Request\nContent-Length: 12\n\nBad Request";

/// The number of headers that a request may have.
pub const MAX_HEADERS: usize = 64;

/// The number of bytes of a request that are read and parsed.
pub const REQUEST_BUFFER_LEN: usize = 1024;

/// A header of an HTTP request: its name and its raw value.
#[derive(Debug, Clone)]
pub struct HttpHeader {
    pub name: String,
    pub value: Vec<u8>,
}

/// The outcome of parsing the head of an HTTP request.
#[derive(Debug)]
pub enum HttpParse {
    /// The head is complete; these are its headers, in order.
    Complete(Vec<HttpHeader>),
    /// The bytes end before the head does. These are the parser's header slots, in order: the
    /// headers read in full before the bytes ended, then empty slots (empty name and value).
    Partial(Vec<HttpHeader>),
    /// The bytes are not an HTTP request head.
    Invalid(httparse::Error),
}

/// What the outcome of a parse holds: the headers as (name, value) pairs.
pub enum HttpParseView {
    Complete(Seq<(Seq<char>, Seq<u8>)>),
    Partial(Seq<(Seq<char>, Seq<u8>)>),
    Invalid,
}

/// The (name, value) pairs of headers.
pub open spec fn header_pairs(hs: Seq<HttpHeader>) -> Seq<(Seq<char>, Seq<u8>)> {
    Seq::new(hs.len(), |i: int| (hs[i].name@, hs[i].value@))
}

impl View for HttpParse {
    type V = HttpParseView;

    open spec fn view(&self) -> HttpParseView {
        match self {
            HttpParse::Complete(hs) => HttpParseView::Complete(header_pairs(hs@)),
            HttpParse::Partial(hs) => HttpParseView::Partial(header_pairs(hs@)),
            HttpParse::Invalid(_) => HttpParseView::Invalid,
        }
    }
}

/// What `httparse::Request::parse` makes of the bytes `buf` with room for `max_headers`
/// headers.
pub uninterp spec fn httparse_request(buf: Seq<u8>, max_headers: nat) -> HttpParseView;

/// Wraps `httparse::Request::parse` on a request with room for `max_headers` headers. Its
/// result depends on the bytes and the room alone; this states which kind of result it is and
/// the request's header slots after the call (for a complete head the parsed headers; for a
/// head cut short all the slots, which the parser hands back). Which `httparse::Error` an
/// invalid head gives is left unsaid.
#[verifier::external_body]
fn parse_http_request(buf: &[u8], max_headers: usize) -> (r: HttpParse)
    requires
        max_headers <= MAX_HEADERS,
    ensures
        r@ == httparse_request(buf@, max_headers as nat),
{
    let mut headers = vec![httparse::EMPTY_HEADER; max_headers];
    let mut req = httparse::Request::new(&mut headers);
    match req.parse(buf) {
        Ok(httparse::Status::Complete(_)) => HttpParse::Complete(
            req.headers.iter().map(|h| HttpHeader { name: h.name.to_owned(), value: h.value.to_vec() }).collect(),
        ),
        Ok(httparse::Status::Partial) => HttpParse::Partial(
            req.headers.iter().map(|h| HttpHeader { name: h.name.to_owned(), value: h.value.to_vec() }).collect(),
        ),
        Err(e) => HttpParse::Invalid(e),
    }
}

/// The headers that a parse read: none for an invalid head.
pub open spec fn read_headers(p: HttpParseView) -> Seq<(Seq<char>, Seq<u8>)> {
    match p {
        HttpParseView::Complete(hs) | HttpParseView::Partial(hs) => hs,
        HttpParseView::Invalid => Seq::empty(),
    }
}

/// The value of the first header named exactly `Host`.
pub open spec fn first_host(hs: Seq<(Seq<char>, Seq<u8>)>) -> Option<Seq<u8>>
    decreases hs.len(),
{
    if hs.len() == 0 {
        None
    } else if hs[0].0 == "Host"@ {
        Some(hs[0].1)
    } else {
        first_host(hs.drop_first())
    }
}

/// The tunnel URL that a request with the host text `host` asks for.
pub open spec fn request_url(host: Seq<u8>) -> Seq<char> {
    "http://"@ + decode_utf8(host)
}

/// Whether the server can route a parsed request: an invalid head is answered; a head,
/// complete or cut short, needs among its headers a `Host` header whose value is UTF-8 text.
/// On any other request the handling of the connection stops without a reply.
pub open spec fn route_ok(p: HttpParseView) -> bool {
    match p {
        HttpParseView::Invalid => true,
        HttpParseView::Complete(hs) | HttpParseView::Partial(hs) => match first_host(hs) {
            Some(h) => valid_utf8(h),
            None => false,
        },
    }
}

/// Where a public HTTP request goes.
#[derive(Debug)]
pub enum HttpRoute<'a, C> {
    /// The request is not HTTP: reply `BadRequest`.
    BadRequest(httparse::Error),
    /// No tunnel has this URL: reply `not_found_reply(url)`.
    NotFound { url: String },
    /// This tunnel takes the request.
    Proxy(&'a Tunnel<C>),
}

/// `r` is the route of the parsed request `p` among the tunnels `tunnels`.
pub open spec fn route_matches<C>(p: HttpParseView, tunnels: Map<Seq<char>, Tunnel<C>>, r: HttpRoute<C>) -> bool {
    match p {
        HttpParseView::Invalid => r is BadRequest,
        HttpParseView::Complete(hs) | HttpParseView::Partial(hs) => {
            let url = request_url(first_host(hs)->0);
            if tunnels.contains_key(url) {
                r matches HttpRoute::Proxy(t) && *t == tunnels[url]
            } else {
                r matches HttpRoute::NotFound { url: u } && u@ == url
            }
        },
    }
}

proof fn lemma_first_host_skip(hs: Seq<HttpHeader>, i: int)
    requires
        0 <= i < hs.len(),
    ensures
        first_host(header_pairs(hs.skip(i))) == if hs[i].name@ == "Host"@ {
            Some(hs[i].value@)
        } else {
            first_host(header_pairs(hs.skip(i + 1)))
        },
{
    assert(header_pairs(hs.skip(i)).drop_first() =~= header_pairs(hs.skip(i + 1)));
}

/// The text of the first `Host` header, if there is one and its value is UTF-8.
pub fn request_host(headers: &Vec<HttpHeader>) -> (r: Option<String>)
    ensures
        match first_host(header_pairs(headers@)) {
            Some(h) => (r is Some <==> valid_utf8(h)) && (r matches Some(s) ==> s@ == decode_utf8(h)),
            None => r is None,
        },
{
    let mut i: usize = 0;
    assert(headers@.skip(0) =~= headers@);
    while i < headers.len()
        invariant
            i <= headers@.len(),
            first_host(header_pairs(headers@)) == first_host(header_pairs(headers@.skip(i as int))),
        decreases headers@.len() - i,
    {
        proof { lemma_first_host_skip(headers@, i as int); }
        if str_equal(headers[i].name.as_str(), "Host") {
            return match str_from_utf8(headers[i].value.as_slice()) {
                Some(s) => Some(s.to_owned()),
                None => None,
            };
        }
        i = i + 1;
    }
    assert(header_pairs(headers@.skip(i as int)) =~= Seq::<(Seq<char>, Seq<u8>)>::empty());
    None
}

/// The reply to a request for a URL that no tunnel has.
pub fn not_found_reply(url: &String) -> (r: String)
    ensures
        r@ == "Tunnel:"@ + url@ + " not found,please check again!"@,
{
    let mut r = "Tunnel:".to_owned();
    r.append(url.as_str());
    r.append(" not found,please check again!");
    r
}

/// Routes a parsed request that the server can route: an invalid head is a bad request; a
/// head, complete or cut short, goes to the tunnel whose URL is `http://` followed by its
/// `Host` text, or is not found.
pub fn route_parsed_request<'a, C>(parsed: HttpParse, tunnels: &'a Registry<Tunnel<C>>) -> (r: HttpRoute<'a, C>)
    requires
        route_ok(parsed@),
    ensures
        route_matches(parsed@, tunnels@, r),
{
    match parsed {
        HttpParse::Invalid(e) => HttpRoute::BadRequest(e),
        HttpParse::Complete(hs) | HttpParse::Partial(hs) => {
            let host = request_host(&hs).unwrap();
            let mut url = "http://".to_owned();
            url.append(host.as_str());
            match get_tunnel_cache(tunnels, url.as_str()) {
                Some(t) => HttpRoute::Proxy(t),
                None => HttpRoute::NotFound { url },
            }
        },
    }
}

/// Routes the first bytes of a public HTTP connection (a buffer of `REQUEST_BUFFER_LEN`
/// bytes, zero after what was read). `None` where the server cannot route the request (no
/// `Host` header among those read, or a `Host` value that is not UTF-8): the connection's
/// handling then stops without a reply.
pub fn handle_http_conn<'a, C>(req_buf: &[u8], tunnels: &'a Registry<Tunnel<C>>) -> (r: Option<HttpRoute<'a, C>>)
    ensures
        route_ok(httparse_request(req_buf@, MAX_HEADERS as nat))
            ==> (r matches Some(x) && route_matches(httparse_request(req_buf@, MAX_HEADERS as nat), tunnels@, x)),
        !route_ok(httparse_request(req_buf@, MAX_HEADERS as nat)) ==> r is None,
{
    let parsed = parse_http_request(req_buf, MAX_HEADERS);
    let routable = match &parsed {
        HttpParse::Invalid(_) => true,
        HttpParse::Complete(hs) | HttpParse::Partial(hs) => request_host(hs).is_some(),
    };
    if routable {
        Some(route_parsed_request(parsed, tunnels))
    } else {
        None
    }
}

/// A request whose `Host` text gives the URL of a tunnel that was just filed is routed to that
/// tunnel (and so to the session that owns it), whether its head was read whole or cut short.
pub proof fn lemma_registered_tunnel_is_routed<C>(
    before: Map<Seq<char>, Tunnel<C>>,
    after: Map<Seq<char>, Tunnel<C>>,
    t: Tunnel<C>,
    parsed: HttpParseView,
    r: HttpRoute<C>,
)
    requires
        after == before.insert(t.url@, t),
        !(parsed is Invalid),
        route_ok(parsed),
        request_url(first_host(read_headers(parsed))->0) == t.url@,
        route_matches(parsed, after, r),
    ensures
        r matches HttpRoute::Proxy(x) && *x == t,
{
}

/// What a tunnel connection is, by its first message.
#[derive(Debug)]
pub enum TunnelConn {
    /// A control connection opening a session.
    Control(AuthReq),
    /// A proxy connection for a session.
    Proxy(RegProxy),
    /// Anything else: the connection is left alone.
    Other,
}

/// An `AuthReq` opens a control connection, a `RegProxy` a proxy connection; any other first
/// message is left alone.
pub fn handle_tunnel_conn(first: Message) -> (r: TunnelConn)
    ensures
        match first {
            Message::AuthReq(a) => r == TunnelConn::Control(a),
            Message::RegProxy(p) => r == TunnelConn::Proxy(p),
            _ => r is Other,
        },
{
    match first {
        Message::AuthReq(a) => TunnelConn::Control(a),
        Message::RegProxy(p) => TunnelConn::Proxy(p),
        _ => TunnelConn::Other,
    }
}

} // verus!
