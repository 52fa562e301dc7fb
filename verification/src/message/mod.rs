//! The messages of the control protocol, the envelope that carries them, and their JSON form.
pub mod auth;
pub mod heatbeat;
pub mod proxy;
pub mod tunnel;

use vstd::prelude::*;
use crate::json::{JsonValue, member, member_text, member_port, object_with, text_field, distinct_names, lemma_lookup_object_with, get_text_field, text_member};
use crate::text::str_equal;
use auth::{AuthReq, AuthResp, auth_req_names, auth_resp_names, lemma_auth_req_json_round_trip, lemma_auth_req_json_members, lemma_auth_req_reads_members, lemma_auth_resp_json_members, lemma_auth_resp_reads_members};
use heatbeat::{Ping, Pong, ping_names, pong_names, lemma_ping_json_round_trip, lemma_pong_json_round_trip};
use proxy::{RegProxy, ReqProxy, StartProxy, reg_proxy_names, req_proxy_names, start_proxy_names, lemma_reg_proxy_json_round_trip, lemma_req_proxy_json_round_trip, lemma_reg_proxy_json_members, lemma_reg_proxy_reads_members, lemma_start_proxy_json_members, lemma_start_proxy_reads_members};
use tunnel::{NewTunnel, ReqTunnel, new_tunnel_names, req_tunnel_names, lemma_new_tunnel_json_round_trip, lemma_req_tunnel_json_round_trip, lemma_new_tunnel_json_members, lemma_new_tunnel_reads_members, lemma_req_tunnel_json_members, lemma_req_tunnel_reads_members};

verus! {

/// A message of a type that this side does not read.
#[derive(Debug, Clone, PartialEq, Eq)]
pub struct Unknown {
    pub err: String,
}

/// The names of the fields of `Unknown`, in order.
pub open spec fn unknown_names() -> Seq<Seq<char>> {
    seq!["err"@]
}

impl Unknown {
    /// The JSON values of the fields, in order.
    pub open spec fn json_fields(self) -> Seq<JsonValue> {
        seq![JsonValue::Str(self.err)]
    }

    /// The `Unknown` that a JSON value stands for: an object with each field as a member of
    /// the right kind (other members are ignored), or an array of exactly the fields in order.
    pub open spec fn spec_from_json(v: JsonValue) -> Option<Unknown> {
        let f0 = text_field(v, "err"@, 0, 1);
        if f0 is Some {
            Some(Unknown { err: f0->0 })
        } else {
            None
        }
    }

    /// This value as a JSON object with one member per field, in field order.
    pub fn to_json(&self) -> (r: JsonValue)
        ensures
            object_with(r, unknown_names(), self.json_fields()),
    {
        let mut members: Vec<(String, JsonValue)> = Vec::new();
        members.push(text_member("err", &self.err));
        proof { reveal_strlit("err"); }
        let r = JsonValue::Object(members);
        assert(object_with(r, unknown_names(), self.json_fields()));
        r
    }

    /// The `Unknown` that a JSON value stands for, if any.
    pub fn from_json(v: &JsonValue) -> (r: Option<Unknown>)
        ensures
            r == Unknown::spec_from_json(*v),
    {
        let err = get_text_field(v, "err", 0, 1)?;
        Some(Unknown { err })
    }
}

/// Reading back the JSON object that `Unknown::to_json` writes gives the same value.
pub proof fn lemma_unknown_json_round_trip(t: Unknown, v: JsonValue)
    requires
        object_with(v, unknown_names(), t.json_fields()),
    ensures
        Unknown::spec_from_json(v) == Some(t),
{
    reveal_strlit("err");
    assert(distinct_names(unknown_names()));
    lemma_lookup_object_with(v, unknown_names(), t.json_fields(), 0);
}

/// The wrapper in which every message travels: the name of its type and its fields as JSON.
#[derive(Debug, PartialEq)]
pub struct Envelope {
    pub Type: String,
    pub Payload: JsonValue,
}

/// A message of the control protocol.
#[derive(Debug, Clone, PartialEq, Eq)]
pub enum Message {
    AuthReq(AuthReq),
    AuthResp(AuthResp),
    ReqTunnel(ReqTunnel),
    NewTunnel(NewTunnel),
    RegProxy(RegProxy),
    ReqProxy(ReqProxy),
    Ping(Ping),
    Pong(Pong),
    StartProxy(StartProxy),
    Unknown(Unknown),
}

/// Why an envelope could not be read as a message.
#[derive(Debug, Clone, Copy, PartialEq, Eq)]
pub enum DecodeError {
    /// The payload does not fit the message type that the envelope names.
    PayloadMismatch,
}

/// The type names that a receiver reads; any other type name reads as `Unknown`.
pub open spec fn read_type(t: Seq<char>) -> bool {
    t == "Auth"@ || t == "AuthRes"@ || t == "ReqTunnel"@ || t == "ReqProxy"@ || t == "RegProxy"@ || t == "Ping"@ || t == "Pong"@ || t == "NewTunnel"@
}

/// The message that an envelope of a read type stands for, if its payload fits that type.
pub open spec fn spec_decode_read(e: Envelope) -> Option<Message> {
    let t = e.Type@;
    if t == "Auth"@ {
        match AuthReq::spec_from_json(e.Payload) {
            Some(x) => Some(Message::AuthReq(x)),
            None => None,
        }
    } else if t == "AuthRes"@ {
        match AuthResp::spec_from_json(e.Payload) {
            Some(x) => Some(Message::AuthResp(x)),
            None => None,
        }
    } else if t == "ReqTunnel"@ {
        match ReqTunnel::spec_from_json(e.Payload) {
            Some(x) => Some(Message::ReqTunnel(x)),
            None => None,
        }
    } else if t == "ReqProxy"@ {
        match ReqProxy::spec_from_json(e.Payload) {
            Some(x) => Some(Message::ReqProxy(x)),
            None => None,
        }
    } else if t == "RegProxy"@ {
        match RegProxy::spec_from_json(e.Payload) {
            Some(x) => Some(Message::RegProxy(x)),
            None => None,
        }
    } else if t == "Ping"@ {
        match Ping::spec_from_json(e.Payload) {
            Some(x) => Some(Message::Ping(x)),
            None => None,
        }
    } else if t == "Pong"@ {
        match Pong::spec_from_json(e.Payload) {
            Some(x) => Some(Message::Pong(x)),
            None => None,
        }
    } else if t == "NewTunnel"@ {
        match NewTunnel::spec_from_json(e.Payload) {
            Some(x) => Some(Message::NewTunnel(x)),
            None => None,
        }
    } else {
        None
    }
}

impl Message {
    /// The type name under which a message is sent.
    pub open spec fn kind_name(self) -> Seq<char> {
        match self {
            Message::AuthReq(_) => "Auth"@,
            Message::AuthResp(_) => "AuthResp"@,
            Message::ReqTunnel(_) => "ReqTunnel"@,
            Message::NewTunnel(_) => "NewTunnel"@,
            Message::RegProxy(_) => "RegProxy"@,
            Message::ReqProxy(_) => "ReqProxy"@,
            Message::Ping(_) => "Ping"@,
            Message::Pong(_) => "Pong"@,
            Message::StartProxy(_) => "StartProxy"@,
            Message::Unknown(_) => "unkown"@,
        }
    }

    /// `v` is the JSON object that the message's fields make.
    pub open spec fn payload_is(self, v: JsonValue) -> bool {
        match self {
            Message::AuthReq(x) => object_with(v, auth_req_names(), x.json_fields()),
            Message::AuthResp(x) => object_with(v, auth_resp_names(), x.json_fields()),
            Message::ReqTunnel(x) => object_with(v, req_tunnel_names(), x.json_fields()),
            Message::NewTunnel(x) => object_with(v, new_tunnel_names(), x.json_fields()),
            Message::RegProxy(x) => object_with(v, reg_proxy_names(), x.json_fields()),
            Message::ReqProxy(x) => object_with(v, req_proxy_names(), x.json_fields()),
            Message::Ping(x) => object_with(v, ping_names(), x.json_fields()),
            Message::Pong(x) => object_with(v, pong_names(), x.json_fields()),
            Message::StartProxy(x) => object_with(v, start_proxy_names(), x.json_fields()),
            Message::Unknown(x) => object_with(v, unknown_names(), x.json_fields()),
        }
    }

    /// The envelope in which the message is sent: its type name and its fields as a JSON object.
    pub fn to_envelop(&self) -> (r: Envelope)
        ensures
            r.Type@ == self.kind_name(),
            self.payload_is(r.Payload),
            payload_carries(*self, r.Payload),
    {
        let r = match self {
            Message::AuthReq(x) => Envelope { Type: "Auth".to_owned(), Payload: x.to_json() },
            Message::AuthResp(x) => Envelope { Type: "AuthResp".to_owned(), Payload: x.to_json() },
            Message::ReqTunnel(x) => Envelope { Type: "ReqTunnel".to_owned(), Payload: x.to_json() },
            Message::NewTunnel(x) => Envelope { Type: "NewTunnel".to_owned(), Payload: x.to_json() },
            Message::RegProxy(x) => Envelope { Type: "RegProxy".to_owned(), Payload: x.to_json() },
            Message::ReqProxy(x) => Envelope { Type: "ReqProxy".to_owned(), Payload: x.to_json() },
            Message::Ping(x) => Envelope { Type: "Ping".to_owned(), Payload: x.to_json() },
            Message::Pong(x) => Envelope { Type: "Pong".to_owned(), Payload: x.to_json() },
            Message::StartProxy(x) => Envelope { Type: "StartProxy".to_owned(), Payload: x.to_json() },
            Message::Unknown(x) => Envelope { Type: "unkown".to_owned(), Payload: x.to_json() },
        };
        proof { lemma_envelope_carries_fields(*self, r); }
        r
    }

    /// The message that an envelope stands for. A read type name whose payload does not fit
    /// gives `None`; a type name that is not read gives `Unknown` with the text `unkown`.
    pub fn decode_envelope(val: Envelope) -> (r: Option<Message>)
        ensures
            read_type(val.Type@) ==> r == spec_decode_read(val),
            !read_type(val.Type@) ==> (r matches Some(Message::Unknown(u)) && u.err@ == "unkown"@),
            read_type(val.Type@) && val.Payload is Object && r is Some ==> payload_carries(r->0, val.Payload),
    {
        let t = val.Type.as_str();
        let r = if str_equal(t, "Auth") {
            match AuthReq::from_json(&val.Payload) {
                Some(x) => Some(Message::AuthReq(x)),
                None => None,
            }
        } else if str_equal(t, "AuthRes") {
            match AuthResp::from_json(&val.Payload) {
                Some(x) => Some(Message::AuthResp(x)),
                None => None,
            }
        } else if str_equal(t, "ReqTunnel") {
            match ReqTunnel::from_json(&val.Payload) {
                Some(x) => Some(Message::ReqTunnel(x)),
                None => None,
            }
        } else if str_equal(t, "ReqProxy") {
            match ReqProxy::from_json(&val.Payload) {
                Some(x) => Some(Message::ReqProxy(x)),
                None => None,
            }
        } else if str_equal(t, "RegProxy") {
            match RegProxy::from_json(&val.Payload) {
                Some(x) => Some(Message::RegProxy(x)),
                None => None,
            }
        } else if str_equal(t, "Ping") {
            match Ping::from_json(&val.Payload) {
                Some(x) => Some(Message::Ping(x)),
                None => None,
            }
        } else if str_equal(t, "Pong") {
            match Pong::from_json(&val.Payload) {
                Some(x) => Some(Message::Pong(x)),
                None => None,
            }
        } else if str_equal(t, "NewTunnel") {
            match NewTunnel::from_json(&val.Payload) {
                Some(x) => Some(Message::NewTunnel(x)),
                None => None,
            }
        } else {
            Some(Message::Unknown(Unknown { err: "unkown".to_owned() }))
        };
        proof {
            if read_type(val.Type@) && val.Payload is Object && r is Some {
                lemma_decoded_message_carries_fields(val, r->0);
            }
        }
        r
    }

    /// The message that an envelope stands for, on envelopes whose payload fits their read type.
    pub fn frome_envelop(val: Envelope) -> (r: Result<Message, DecodeError>)
        requires
            read_type(val.Type@) ==> spec_decode_read(val) is Some,
        ensures
            r is Ok,
            read_type(val.Type@) ==> r == Ok::<Message, DecodeError>(spec_decode_read(val)->0),
            !read_type(val.Type@) ==> (r matches Ok(Message::Unknown(u)) && u.err@ == "unkown"@),
    {
        match Message::decode_envelope(val) {
            Some(m) => Ok(m),
            None => Err(DecodeError::PayloadMismatch),
        }
    }
}

/// The type names are pairwise different.
proof fn lemma_kind_names_differ()
    ensures
        "Auth"@ != "AuthRes"@,
        "Auth"@ != "AuthResp"@,
        "Auth"@ != "NewTunnel"@,
        "Auth"@ != "Ping"@,
        "Auth"@ != "Pong"@,
        "Auth"@ != "RegProxy"@,
        "Auth"@ != "ReqProxy"@,
        "Auth"@ != "ReqTunnel"@,
        "Auth"@ != "StartProxy"@,
        "Auth"@ != "unkown"@,
        "AuthRes"@ != "AuthResp"@,
        "AuthRes"@ != "NewTunnel"@,
        "AuthRes"@ != "Ping"@,
        "AuthRes"@ != "Pong"@,
        "AuthRes"@ != "RegProxy"@,
        "AuthRes"@ != "ReqProxy"@,
        "AuthRes"@ != "ReqTunnel"@,
        "AuthRes"@ != "StartProxy"@,
        "AuthRes"@ != "unkown"@,
        "AuthResp"@ != "NewTunnel"@,
        "AuthResp"@ != "Ping"@,
        "AuthResp"@ != "Pong"@,
        "AuthResp"@ != "RegProxy"@,
        "AuthResp"@ != "ReqProxy"@,
        "AuthResp"@ != "ReqTunnel"@,
        "AuthResp"@ != "StartProxy"@,
        "AuthResp"@ != "unkown"@,
        "NewTunnel"@ != "Ping"@,
        "NewTunnel"@ != "Pong"@,
        "NewTunnel"@ != "RegProxy"@,
        "NewTunnel"@ != "ReqProxy"@,
        "NewTunnel"@ != "ReqTunnel"@,
        "NewTunnel"@ != "StartProxy"@,
        "NewTunnel"@ != "unkown"@,
        "Ping"@ != "Pong"@,
        "Ping"@ != "RegProxy"@,
        "Ping"@ != "ReqProxy"@,
        "Ping"@ != "ReqTunnel"@,
        "Ping"@ != "StartProxy"@,
        "Ping"@ != "unkown"@,
        "Pong"@ != "RegProxy"@,
        "Pong"@ != "ReqProxy"@,
        "Pong"@ != "ReqTunnel"@,
        "Pong"@ != "StartProxy"@,
        "Pong"@ != "unkown"@,
        "RegProxy"@ != "ReqProxy"@,
        "RegProxy"@ != "ReqTunnel"@,
        "RegProxy"@ != "StartProxy"@,
        "RegProxy"@ != "unkown"@,
        "ReqProxy"@ != "ReqTunnel"@,
        "ReqProxy"@ != "StartProxy"@,
        "ReqProxy"@ != "unkown"@,
        "ReqTunnel"@ != "StartProxy"@,
        "ReqTunnel"@ != "unkown"@,
        "StartProxy"@ != "unkown"@,
{
    reveal_strlit("Auth");
    reveal_strlit("AuthRes");
    reveal_strlit("AuthResp");
    reveal_strlit("NewTunnel");
    reveal_strlit("Ping");
    reveal_strlit("Pong");
    reveal_strlit("RegProxy");
    reveal_strlit("ReqProxy");
    reveal_strlit("ReqTunnel");
    reveal_strlit("StartProxy");
    reveal_strlit("unkown");
    assert("Auth"@.len() != "AuthRes"@.len());
    assert("Auth"@.len() != "AuthResp"@.len());
    assert("Auth"@.len() != "NewTunnel"@.len());
    assert("Auth"@[0] != "Ping"@[0]);
    assert("Auth"@[0] != "Pong"@[0]);
    assert("Auth"@.len() != "RegProxy"@.len());
    assert("Auth"@.len() != "ReqProxy"@.len());
    assert("Auth"@.len() != "ReqTunnel"@.len());
    assert("Auth"@.len() != "StartProxy"@.len());
    assert("Auth"@.len() != "unkown"@.len());
    assert("AuthRes"@.len() != "AuthResp"@.len());
    assert("AuthRes"@.len() != "NewTunnel"@.len());
    assert("AuthRes"@.len() != "Ping"@.len());
    assert("AuthRes"@.len() != "Pong"@.len());
    assert("AuthRes"@.len() != "RegProxy"@.len());
    assert("AuthRes"@.len() != "ReqProxy"@.len());
    assert("AuthRes"@.len() != "ReqTunnel"@.len());
    assert("AuthRes"@.len() != "StartProxy"@.len());
    assert("AuthRes"@.len() != "unkown"@.len());
    assert("AuthResp"@.len() != "NewTunnel"@.len());
    assert("AuthResp"@.len() != "Ping"@.len());
    assert("AuthResp"@.len() != "Pong"@.len());
    assert("AuthResp"@[0] != "RegProxy"@[0]);
    assert("AuthResp"@[0] != "ReqProxy"@[0]);
    assert("AuthResp"@.len() != "ReqTunnel"@.len());
    assert("AuthResp"@.len() != "StartProxy"@.len());
    assert("AuthResp"@.len() != "unkown"@.len());
    assert("NewTunnel"@.len() != "Ping"@.len());
    assert("NewTunnel"@.len() != "Pong"@.len());
    assert("NewTunnel"@.len() != "RegProxy"@.len());
    assert("NewTunnel"@.len() != "ReqProxy"@.len());
    assert("NewTunnel"@[0] != "ReqTunnel"@[0]);
    assert("NewTunnel"@.len() != "StartProxy"@.len());
    assert("NewTunnel"@.len() != "unkown"@.len());
    assert("Ping"@[1] != "Pong"@[1]);
    assert("Ping"@.len() != "RegProxy"@.len());
    assert("Ping"@.len() != "ReqProxy"@.len());
    assert("Ping"@.len() != "ReqTunnel"@.len());
    assert("Ping"@.len() != "StartProxy"@.len());
    assert("Ping"@.len() != "unkown"@.len());
    assert("Pong"@.len() != "RegProxy"@.len());
    assert("Pong"@.len() != "ReqProxy"@.len());
    assert("Pong"@.len() != "ReqTunnel"@.len());
    assert("Pong"@.len() != "StartProxy"@.len());
    assert("Pong"@.len() != "unkown"@.len());
    assert("RegProxy"@[2] != "ReqProxy"@[2]);
    assert("RegProxy"@.len() != "ReqTunnel"@.len());
    assert("RegProxy"@.len() != "StartProxy"@.len());
    assert("RegProxy"@.len() != "unkown"@.len());
    assert("ReqProxy"@.len() != "ReqTunnel"@.len());
    assert("ReqProxy"@.len() != "StartProxy"@.len());
    assert("ReqProxy"@.len() != "unkown"@.len());
    assert("ReqTunnel"@.len() != "StartProxy"@.len());
    assert("ReqTunnel"@.len() != "unkown"@.len());
    assert("StartProxy"@.len() != "unkown"@.len());
}

/// A message of a type that both sides name alike comes back unchanged from its envelope:
/// `AuthReq`, `ReqTunnel`, `NewTunnel`, `RegProxy`, `ReqProxy`, `Ping` and `Pong`.
pub proof fn lemma_message_round_trip(m: Message, e: Envelope)
    requires
        e.Type@ == m.kind_name(),
        m.payload_is(e.Payload),
        !(m is AuthResp || m is StartProxy || m is Unknown),
    ensures
        read_type(e.Type@),
        spec_decode_read(e) == Some(m),
{
    lemma_kind_names_differ();
    match m {
        Message::AuthReq(x) => { lemma_auth_req_json_round_trip(x, e.Payload); },
        Message::AuthResp(_) => {},
        Message::ReqTunnel(x) => { lemma_req_tunnel_json_round_trip(x, e.Payload); },
        Message::NewTunnel(x) => { lemma_new_tunnel_json_round_trip(x, e.Payload); },
        Message::RegProxy(x) => { lemma_reg_proxy_json_round_trip(x, e.Payload); },
        Message::ReqProxy(x) => { lemma_req_proxy_json_round_trip(x, e.Payload); },
        Message::Ping(x) => { lemma_ping_json_round_trip(x, e.Payload); },
        Message::Pong(x) => { lemma_pong_json_round_trip(x, e.Payload); },
        Message::StartProxy(_) => {},
        Message::Unknown(_) => {},
    }
}

/// An `AuthResp`, a `StartProxy` or an `Unknown` is sent under a type name that the receiver
/// does not read (`AuthResp` is read under the name `AuthRes`), so it comes back as `Unknown`
/// with the text `unkown`.
pub proof fn lemma_unread_types(m: Message)
    requires
        m is AuthResp || m is StartProxy || m is Unknown,
    ensures
        !read_type(m.kind_name()),
{
    lemma_kind_names_differ();
}



/// `Unknown::to_json` writes each field under its own name: in the object it gives, the member
/// named after a field holds that field's value.
pub proof fn lemma_unknown_json_members(t: Unknown, v: JsonValue)
    requires
        object_with(v, unknown_names(), t.json_fields()),
    ensures
        member(v, "err"@) == Some(JsonValue::Str(t.err)),
{
    lemma_unknown_json_round_trip(t, v);
}

/// Reading a JSON object as a `Unknown` takes each field from the member of the same name, and
/// succeeds whenever every such member is there and of the right kind.
pub proof fn lemma_unknown_reads_members(v: JsonValue)
    requires
        v is Object,
    ensures
        Unknown::spec_from_json(v) matches Some(t) ==> member_text(v, "err"@) == Some(t.err),
        member_text(v, "err"@) is Some ==> Unknown::spec_from_json(v) is Some,
{
}


/// A payload carries the fields of `m`, each under its own name: the member named after a
/// field holds that field's value (for a message without fields, the payload is an object).
pub open spec fn payload_carries(m: Message, v: JsonValue) -> bool {
    match m {
        Message::AuthReq(x) => member_text(v, "Version"@) == Some(x.Version) && member_text(v, "MmVersion"@) == Some(x.MmVersion) && member_text(v, "User"@) == Some(x.User) && member_text(v, "Password"@) == Some(x.Password) && member_text(v, "OS"@) == Some(x.OS) && member_text(v, "Arch"@) == Some(x.Arch) && member_text(v, "ClientId"@) == Some(x.ClientId),
        Message::AuthResp(x) => member_text(v, "Version"@) == Some(x.Version) && member_text(v, "MmVersion"@) == Some(x.MmVersion) && member_text(v, "ClientId"@) == Some(x.ClientId) && member_text(v, "Error"@) == Some(x.Error),
        Message::ReqTunnel(x) => member_text(v, "ReqId"@) == Some(x.ReqId) && member_text(v, "Protocol"@) == Some(x.Protocol) && member_text(v, "Hostname"@) == Some(x.Hostname) && member_text(v, "Subdomain"@) == Some(x.Subdomain) && member_text(v, "HttpAuth"@) == Some(x.HttpAuth) && member_port(v, "RemotePort"@) == Some(x.RemotePort),
        Message::NewTunnel(x) => member_text(v, "ReqId"@) == Some(x.ReqId) && member_text(v, "Url"@) == Some(x.Url) && member_text(v, "Protocol"@) == Some(x.Protocol) && member_text(v, "Error"@) == Some(x.Error),
        Message::RegProxy(x) => member_text(v, "ClientId"@) == Some(x.ClientId),
        Message::StartProxy(x) => member_text(v, "Url"@) == Some(x.Url) && member_text(v, "ClientAddr"@) == Some(x.ClientAddr),
        Message::Unknown(x) => member_text(v, "err"@) == Some(x.err),
        Message::ReqProxy(_) => v is Object,
        Message::Ping(_) => v is Object,
        Message::Pong(_) => v is Object,
    }
}

/// The number of fields of a message.
pub open spec fn field_count(m: Message) -> nat {
    match m {
        Message::AuthReq(_) => 7,
        Message::AuthResp(_) => 4,
        Message::ReqTunnel(_) => 6,
        Message::NewTunnel(_) => 4,
        Message::RegProxy(_) => 1,
        Message::StartProxy(_) => 2,
        Message::Unknown(_) => 1,
        Message::ReqProxy(_) => 0,
        Message::Ping(_) => 0,
        Message::Pong(_) => 0,
    }
}

/// Sending: the envelope that `to_envelop` gives (its `ensures`) carries every field of the
/// message under its own name, and no other member.
pub proof fn lemma_envelope_carries_fields(m: Message, e: Envelope)
    requires
        e.Type@ == m.kind_name(),
        m.payload_is(e.Payload),
    ensures
        payload_carries(m, e.Payload),
        e.Payload matches JsonValue::Object(f) && f@.len() == field_count(m),
{
    match m {
        Message::AuthReq(x) => lemma_auth_req_json_members(x, e.Payload),
        Message::AuthResp(x) => lemma_auth_resp_json_members(x, e.Payload),
        Message::ReqTunnel(x) => lemma_req_tunnel_json_members(x, e.Payload),
        Message::NewTunnel(x) => lemma_new_tunnel_json_members(x, e.Payload),
        Message::RegProxy(x) => lemma_reg_proxy_json_members(x, e.Payload),
        Message::StartProxy(x) => lemma_start_proxy_json_members(x, e.Payload),
        Message::Unknown(x) => lemma_unknown_json_members(x, e.Payload),
        Message::ReqProxy(_) => {},
        Message::Ping(_) => {},
        Message::Pong(_) => {},
    }
}

/// Receiving: a message read from an envelope whose payload is an object holds in each field
/// the member of the same name.
pub proof fn lemma_decoded_message_carries_fields(e: Envelope, m: Message)
    requires
        e.Payload is Object,
        spec_decode_read(e) == Some(m),
    ensures
        payload_carries(m, e.Payload),
{
    lemma_auth_req_reads_members(e.Payload);
    lemma_auth_resp_reads_members(e.Payload);
    lemma_req_tunnel_reads_members(e.Payload);
    lemma_new_tunnel_reads_members(e.Payload);
    lemma_reg_proxy_reads_members(e.Payload);
    lemma_start_proxy_reads_members(e.Payload);
    lemma_unknown_reads_members(e.Payload);
}

} // verus!

