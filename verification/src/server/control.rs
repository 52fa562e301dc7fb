//! Control sessions: the decisions the server takes on a client's control connection.
use vstd::prelude::*;
use crate::message::{Message};
use crate::message::auth::{AuthReq, AuthResp};
use crate::message::heatbeat::Pong;
use crate::message::proxy::{ReqProxy, RegProxy};
use crate::message::tunnel::{NewTunnel, ReqTunnel};
use crate::server::cli::Options;
use crate::server::registery::{Registry, get_control_cache, zeros};
use crate::server::tunnel::{Tunnel, tunnel_url};
use crate::{VERSON_MARJOR, VERSON_MINI};

verus! {

/// The id that the first new session (one whose `AuthReq` carries an empty `ClientId`)
/// receives; later new sessions receive it followed by as many `0` characters as it takes to
/// find an id under which no session is filed.
pub const NEW_SESSION_ID: &'static str = "1234567890";

/// A control session of a client.
#[derive(Debug, Clone)]
pub struct Control {
    /// The session's id, by which proxy connections name it.
    pub id: String,
}

/// `id` is the first of `base`, `base0`, `base00`, ... under which nothing is filed in `filed`.
pub open spec fn first_free<C>(filed: Map<Seq<char>, C>, base: Seq<char>, id: Seq<char>) -> bool {
    &&& !filed.contains_key(id)
    &&& exists|k: nat| id == base + zeros(k)
            && forall|j: nat| j < k ==> #[trigger] filed.contains_key(base + zeros(j))
}

/// What the server sends when it registers a tunnel: a `NewTunnel` with the tunnel's URL and
/// the request's protocol and id, and no error.
pub open spec fn announces<C>(m: Message, t: Tunnel<C>) -> bool {
    m matches Message::NewTunnel(n) && n.Url == t.url && n.Protocol == t.req.Protocol
        && n.ReqId == t.req.ReqId && n.Error@.len() == 0
}

/// The tunnel that `req` opens for the session whose handle is `handle`, under the server's
/// options.
pub open spec fn opened_tunnel<C>(t: Tunnel<C>, req: ReqTunnel, opts: Options, handle: C) -> bool {
    &&& t.req == req
    &&& t.ctl == handle
    &&& t.url@ == tunnel_url(req, opts.domain@, match opts.http_addr { Some(a) => Some(a.port), None => None })
}

/// What the session does with one message from its client.
#[derive(Debug)]
pub enum ControlStep<C> {
    /// Send this message back to the client.
    Send(Message),
    /// Send this message back to the client, and once it is sent, file the tunnel under its URL.
    SendThenFile(Message, Tunnel<C>),
    /// Nothing to do.
    Nothing,
}

impl Control {
    /// The session that an `AuthReq` opens. A client that names its `ClientId` keeps it; a new
    /// session receives the first id, from `NEW_SESSION_ID` on, under which no session is filed
    /// in `controls`, so that each new session's id is its own.
    pub fn new<C>(msg: &AuthReq, controls: &Registry<C>) -> (r: Control)
        ensures
            msg.ClientId@.len() != 0 ==> r.id == msg.ClientId,
            msg.ClientId@.len() == 0 ==> first_free(controls@, NEW_SESSION_ID@, r.id@),
    {
        if msg.ClientId.as_str().is_empty() {
            Control { id: controls.fresh_id(NEW_SESSION_ID) }
        } else {
            Control { id: msg.ClientId.clone() }
        }
    }

    /// Opens the tunnel that `req_tunnel` asks for, owned by the session whose handle is
    /// `handle`: gives the `NewTunnel` message to send back and the tunnel to file under its URL
    /// once that message is sent.
    pub fn register_tunnel<C>(&self, req_tunnel: ReqTunnel, opts: &Options, handle: C) -> (r: (Message, Tunnel<C>))
        ensures
            opened_tunnel(r.1, req_tunnel, *opts, handle),
            announces(r.0, r.1),
    {
        let t = Tunnel::new(handle, req_tunnel, opts);
        let reply = Message::NewTunnel(NewTunnel {
            Url: t.url.clone(),
            Protocol: t.req.Protocol.clone(),
            ReqId: t.req.ReqId.clone(),
            Error: String::new(),
        });
        (reply, t)
    }

    /// The server's answer to one message on the control connection: a `ReqTunnel` opens a
    /// tunnel, answered by `NewTunnel` and filed once the answer is sent; a `Ping` is answered
    /// by `Pong`; anything else gets no answer.
    pub fn handle_message<C>(&self, msg: Message, opts: &Options, handle: C) -> (r: ControlStep<C>)
        ensures
            match msg {
                Message::ReqTunnel(req) => r matches ControlStep::SendThenFile(m, t)
                    && opened_tunnel(t, req, *opts, handle) && announces(m, t),
                Message::Ping(_) => r == ControlStep::<C>::Send(Message::Pong(Pong {})),
                _ => r is Nothing,
            },
    {
        match msg {
            Message::ReqTunnel(req) => {
                let (m, t) = self.register_tunnel(req, opts, handle);
                ControlStep::SendThenFile(m, t)
            },
            Message::Ping(_) => ControlStep::Send(Message::Pong(Pong {})),
            _ => ControlStep::Nothing,
        }
    }

    /// A proxy connection that is ready is used; otherwise the client is asked for a new one
    /// with `ReqProxy`.
    pub fn get_proxy_conn<P>(&self, ready: Option<P>) -> (r: ProxyStep<P>)
        ensures
            match ready {
                Some(p) => r == ProxyStep::Ready(p),
                None => r == ProxyStep::<P>::Request(Message::ReqProxy(ReqProxy {})),
            },
    {
        match ready {
            Some(p) => ProxyStep::Ready(p),
            None => ProxyStep::Request(Message::ReqProxy(ReqProxy {})),
        }
    }
}

/// The next step toward a proxy connection: use one that is ready, or ask the client for one.
#[derive(Debug)]
pub enum ProxyStep<P> {
    /// A proxy connection is ready.
    Ready(P),
    /// Send this message to the client and wait for its proxy connection.
    Request(Message),
}

/// The answer to a client's `AuthReq` on a new control connection: the session is filed under
/// its id, and the server sends `AuthResp` (the protocol versions, the session id, no error)
/// followed by `ReqProxy`.
pub fn handle_ctrl_conn<C>(controls: &mut Registry<C>, ctl: &Control, handle: C) -> (r: Vec<Message>)
    ensures
        final(controls)@ == old(controls)@.insert(ctl.id@, handle),
        r@.len() == 2,
        r@[0] matches Message::AuthResp(a) && a.Version@ == VERSON_MARJOR@ && a.MmVersion@ == VERSON_MINI@
            && a.ClientId == ctl.id && a.Error@.len() == 0,
        r@[1] == Message::ReqProxy(ReqProxy {}),
{
    controls.insert(ctl.id.clone(), handle);
    let mut replies: Vec<Message> = Vec::new();
    replies.push(Message::AuthResp(AuthResp {
        Version: VERSON_MARJOR.to_owned(),
        MmVersion: VERSON_MINI.to_owned(),
        ClientId: ctl.id.clone(),
        Error: String::new(),
    }));
    replies.push(Message::ReqProxy(ReqProxy {}));
    replies
}

/// The `ClientId` that the server hands out in its `AuthResp` leads a later proxy connection,
/// whose `RegProxy` carries that id, to the session that `handle_ctrl_conn` filed. (Sessions
/// opened later do not displace it: see `lemma_new_sessions_differ`.)
pub proof fn lemma_proxy_finds_its_session<C>(
    before: Map<Seq<char>, C>,
    after: Map<Seq<char>, C>,
    ctl: Control,
    handle: C,
    replies: Seq<Message>,
    reg_proxy: RegProxy,
)
    requires
        after == before.insert(ctl.id@, handle),
        replies.len() > 0,
        replies[0] matches Message::AuthResp(a) && a.ClientId == ctl.id && reg_proxy.ClientId@ == a.ClientId@,
    ensures
        after.contains_key(reg_proxy.ClientId@),
        after[reg_proxy.ClientId@] == handle,
{
}

/// Two new sessions, opened one after the other, receive different ids, and after both are
/// filed each is found under its own id: the second does not displace the first.
pub proof fn lemma_new_sessions_differ<C>(
    controls: Map<Seq<char>, C>,
    first: Control,
    first_handle: C,
    second: Control,
    second_handle: C,
)
    requires
        first_free(controls, NEW_SESSION_ID@, first.id@),
        first_free(controls.insert(first.id@, first_handle), NEW_SESSION_ID@, second.id@),
    ensures
        first.id@ != second.id@,
        controls.insert(first.id@, first_handle).insert(second.id@, second_handle)[first.id@] == first_handle,
        controls.insert(first.id@, first_handle).insert(second.id@, second_handle)[second.id@] == second_handle,
{
}

/// A session filed under an id that was free leaves every session filed before it in place.
pub proof fn lemma_new_session_keeps_others<C>(
    controls: Map<Seq<char>, C>,
    ctl: Control,
    handle: C,
    other: Seq<char>,
)
    requires
        first_free(controls, NEW_SESSION_ID@, ctl.id@),
        controls.contains_key(other),
    ensures
        controls.insert(ctl.id@, handle).contains_key(other),
        controls.insert(ctl.id@, handle)[other] == controls[other],
{
}

/// The control session that a proxy connection names by its `RegProxy`; the session must be
/// filed.
pub fn handle_proxy_conn<'a, C>(controls: &'a Registry<C>, reg_proxy: &RegProxy) -> (r: &'a C)
    requires
        controls@.contains_key(reg_proxy.ClientId@),
    ensures
        *r == controls@[reg_proxy.ClientId@],
{
    get_control_cache(controls, reg_proxy.ClientId.as_str()).unwrap()
}

} // verus!
