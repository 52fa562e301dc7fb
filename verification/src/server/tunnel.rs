//! Tunnels: the session that opened them, the request, and their public URL.
use vstd::prelude::*;
use crate::message::tunnel::ReqTunnel;
use crate::server::cli::Options;
use crate::text::{decimal, decimal_value, lemma_decimal_reads_back, push_decimal};

verus! {

/// A tunnel routes public traffic to a client behind a firewall. `C` is the handle of the
/// control session that opened it.
#[derive(Debug, Clone)]
pub struct Tunnel<C> {
    /// The request that opened the tunnel.
    pub req: ReqTunnel,
    /// The public URL.
    pub url: String,
    /// The control session that owns the tunnel.
    pub ctl: C,
}

/// The URL of a virtually hosted tunnel: `protocol://subdomain.domain:port`.
pub open spec fn vhost_url(protocol: Seq<char>, subdomain: Seq<char>, domain: Seq<char>, port: u16) -> Seq<char> {
    protocol + "://"@ + subdomain + "."@ + domain + ":"@ + decimal(port as nat)
}

/// The URL that a tunnel receives: its virtual-host URL on the HTTP port when HTTP is served
/// and the request names a subdomain, else the placeholder `url`.
pub open spec fn tunnel_url(req: ReqTunnel, domain: Seq<char>, http_port: Option<u16>) -> Seq<char> {
    match http_port {
        Some(port) => if req.Subdomain@.len() != 0 {
            vhost_url(req.Protocol@, req.Subdomain@, domain, port)
        } else {
            "url"@
        },
        None => "url"@,
    }
}

/// The URL of a tunnel opened with a subdomain while HTTP is served is the request's protocol,
/// `://`, the subdomain, `.`, the domain, `:` and the HTTP port's decimal numeral (which reads
/// back as the port); so it begins with the request's protocol followed by `://`. A tunnel
/// opened without a subdomain, or while HTTP is not served, gets the placeholder `url`.
pub proof fn lemma_tunnel_url_parts(req: ReqTunnel, domain: Seq<char>, port: u16)
    ensures
        req.Subdomain@.len() != 0 ==> {
            &&& tunnel_url(req, domain, Some(port))
                == req.Protocol@ + "://"@ + req.Subdomain@ + "."@ + domain + ":"@ + decimal(port as nat)
            &&& tunnel_url(req, domain, Some(port)).subrange(0, req.Protocol@.len() as int + 3) == req.Protocol@ + "://"@
            &&& decimal_value(decimal(port as nat)) == port
        },
        req.Subdomain@.len() == 0 ==> tunnel_url(req, domain, Some(port)) == "url"@,
        tunnel_url(req, domain, None) == "url"@,
{
    lemma_decimal_reads_back(port as nat);
    if req.Subdomain@.len() != 0 {
        reveal_strlit("://");
        let u = tunnel_url(req, domain, Some(port));
        assert(u =~= req.Protocol@ + "://"@ + (req.Subdomain@ + "."@ + domain + ":"@ + decimal(port as nat)));
        assert(u.subrange(0, req.Protocol@.len() as int + 3) =~= req.Protocol@ + "://"@);
    }
}

impl<C> Tunnel<C> {
    /// The tunnel that `req_tunnel` opens for the session `ctl`, served on the HTTP port and
    /// under the domain of the server's options.
    pub fn new(ctl: C, req_tunnel: ReqTunnel, opts: &Options) -> (r: Tunnel<C>)
        ensures
            r.req == req_tunnel,
            r.ctl == ctl,
            r.url@ == tunnel_url(req_tunnel, opts.domain@, match opts.http_addr { Some(a) => Some(a.port), None => None }),
    {
        let proto = req_tunnel.Protocol.clone();
        let mut tunnel = Tunnel { req: req_tunnel, url: "url".to_owned(), ctl };
        match opts.http_port() {
            Some(port) => register_vhost(&mut tunnel, proto, port, opts.domain.as_str()),
            None => {},
        }
        tunnel
    }
}

/// Gives a tunnel whose request names a subdomain its virtual-host URL
/// `protocol://subdomain.domain:serving_port`; a tunnel without a subdomain keeps its URL.
pub fn register_vhost<C>(t: &mut Tunnel<C>, protocol: String, serving_port: u16, domain: &str)
    ensures
        final(t).req == old(t).req,
        final(t).ctl == old(t).ctl,
        old(t).req.Subdomain@.len() == 0 ==> final(t).url == old(t).url,
        old(t).req.Subdomain@.len() != 0 ==> final(t).url@ == vhost_url(protocol@, old(t).req.Subdomain@, domain@, serving_port),
{
    if !t.req.Subdomain.as_str().is_empty() {
        let mut url = protocol;
        url.append("://");
        url.append(t.req.Subdomain.as_str());
        url.append(".");
        url.append(domain);
        url.append(":");
        push_decimal(&mut url, serving_port as u32);
        t.url = url;
    }
}

} // verus!
