//! The messages that open tunnels.
use vstd::prelude::*;
use crate::json::{JsonValue, member, member_text, member_port, JsonNumber, object_with, text_field, port_field, distinct_names, lemma_lookup_object_with, get_text_field, get_port_field, text_member};

verus! {

/// A client asks the server to open a tunnel on its behalf. `ReqId` lets the client match the
/// `NewTunnel` answers to this request. `Hostname`, `Subdomain` and `HttpAuth` serve HTTP
/// tunnels, `RemotePort` TCP tunnels.
#[derive(Debug, Clone, PartialEq, Eq)]
pub struct ReqTunnel {
    pub ReqId: String,
    pub Protocol: String,
    pub Hostname: String,
    pub Subdomain: String,
    pub HttpAuth: String,
    pub RemotePort: u16,
}

/// The names of the fields of `ReqTunnel`, in order.
pub open spec fn req_tunnel_names() -> Seq<Seq<char>> {
    seq!["ReqId"@, "Protocol"@, "Hostname"@, "Subdomain"@, "HttpAuth"@, "RemotePort"@]
}

impl ReqTunnel {
    /// The JSON values of the fields, in order.
    pub open spec fn json_fields(self) -> Seq<JsonValue> {
        seq![JsonValue::Str(self.ReqId), JsonValue::Str(self.Protocol), JsonValue::Str(self.Hostname), JsonValue::Str(self.Subdomain), JsonValue::Str(self.HttpAuth), JsonValue::Number(JsonNumber::PosInt(self.RemotePort as u64))]
    }

    /// The `ReqTunnel` that a JSON value stands for: an object with each field as a member of
    /// the right kind (other members are ignored), or an array of exactly the fields in order.
    pub open spec fn spec_from_json(v: JsonValue) -> Option<ReqTunnel> {
        let f0 = text_field(v, "ReqId"@, 0, 6);
        let f1 = text_field(v, "Protocol"@, 1, 6);
        let f2 = text_field(v, "Hostname"@, 2, 6);
        let f3 = text_field(v, "Subdomain"@, 3, 6);
        let f4 = text_field(v, "HttpAuth"@, 4, 6);
        let f5 = port_field(v, "RemotePort"@, 5, 6);
        if f0 is Some && f1 is Some && f2 is Some && f3 is Some && f4 is Some && f5 is Some {
            Some(ReqTunnel { ReqId: f0->0, Protocol: f1->0, Hostname: f2->0, Subdomain: f3->0, HttpAuth: f4->0, RemotePort: f5->0 })
        } else {
            None
        }
    }

    /// This value as a JSON object with one member per field, in field order.
    pub fn to_json(&self) -> (r: JsonValue)
        ensures
            object_with(r, req_tunnel_names(), self.json_fields()),
    {
        let mut members: Vec<(String, JsonValue)> = Vec::new();
        members.push(text_member("ReqId", &self.ReqId));
        members.push(text_member("Protocol", &self.Protocol));
        members.push(text_member("Hostname", &self.Hostname));
        members.push(text_member("Subdomain", &self.Subdomain));
        members.push(text_member("HttpAuth", &self.HttpAuth));
        members.push(("RemotePort".to_owned(), JsonValue::Number(JsonNumber::PosInt(self.RemotePort as u64))));
        proof { reveal_strlit("ReqId"); reveal_strlit("Protocol"); reveal_strlit("Hostname"); reveal_strlit("Subdomain"); reveal_strlit("HttpAuth"); reveal_strlit("RemotePort"); }
        let r = JsonValue::Object(members);
        assert(object_with(r, req_tunnel_names(), self.json_fields()));
        r
    }

    /// The `ReqTunnel` that a JSON value stands for, if any.
    pub fn from_json(v: &JsonValue) -> (r: Option<ReqTunnel>)
        ensures
            r == ReqTunnel::spec_from_json(*v),
    {
        let ReqId = get_text_field(v, "ReqId", 0, 6)?;
        let Protocol = get_text_field(v, "Protocol", 1, 6)?;
        let Hostname = get_text_field(v, "Hostname", 2, 6)?;
        let Subdomain = get_text_field(v, "Subdomain", 3, 6)?;
        let HttpAuth = get_text_field(v, "HttpAuth", 4, 6)?;
        let RemotePort = get_port_field(v, "RemotePort", 5, 6)?;
        Some(ReqTunnel { ReqId, Protocol, Hostname, Subdomain, HttpAuth, RemotePort })
    }
}

/// Reading back the JSON object that `ReqTunnel::to_json` writes gives the same value.
pub proof fn lemma_req_tunnel_json_round_trip(t: ReqTunnel, v: JsonValue)
    requires
        object_with(v, req_tunnel_names(), t.json_fields()),
    ensures
        ReqTunnel::spec_from_json(v) == Some(t),
{
    reveal_strlit("ReqId"); reveal_strlit("Protocol"); reveal_strlit("Hostname"); reveal_strlit("Subdomain"); reveal_strlit("HttpAuth"); reveal_strlit("RemotePort");
    assert(req_tunnel_names()[0] != req_tunnel_names()[1]) by { assert("ReqId"@.len() != "Protocol"@.len()); }
    assert(req_tunnel_names()[0] != req_tunnel_names()[2]) by { assert("ReqId"@.len() != "Hostname"@.len()); }
    assert(req_tunnel_names()[0] != req_tunnel_names()[3]) by { assert("ReqId"@.len() != "Subdomain"@.len()); }
    assert(req_tunnel_names()[0] != req_tunnel_names()[4]) by { assert("ReqId"@.len() != "HttpAuth"@.len()); }
    assert(req_tunnel_names()[0] != req_tunnel_names()[5]) by { assert("ReqId"@.len() != "RemotePort"@.len()); }
    assert(req_tunnel_names()[1] != req_tunnel_names()[2]) by { assert("Protocol"@[0] != "Hostname"@[0]); }
    assert(req_tunnel_names()[1] != req_tunnel_names()[3]) by { assert("Protocol"@.len() != "Subdomain"@.len()); }
    assert(req_tunnel_names()[1] != req_tunnel_names()[4]) by { assert("Protocol"@[0] != "HttpAuth"@[0]); }
    assert(req_tunnel_names()[1] != req_tunnel_names()[5]) by { assert("Protocol"@.len() != "RemotePort"@.len()); }
    assert(req_tunnel_names()[2] != req_tunnel_names()[3]) by { assert("Hostname"@.len() != "Subdomain"@.len()); }
    assert(req_tunnel_names()[2] != req_tunnel_names()[4]) by { assert("Hostname"@[1] != "HttpAuth"@[1]); }
    assert(req_tunnel_names()[2] != req_tunnel_names()[5]) by { assert("Hostname"@.len() != "RemotePort"@.len()); }
    assert(req_tunnel_names()[3] != req_tunnel_names()[4]) by { assert("Subdomain"@.len() != "HttpAuth"@.len()); }
    assert(req_tunnel_names()[3] != req_tunnel_names()[5]) by { assert("Subdomain"@.len() != "RemotePort"@.len()); }
    assert(req_tunnel_names()[4] != req_tunnel_names()[5]) by { assert("HttpAuth"@.len() != "RemotePort"@.len()); }
    assert(distinct_names(req_tunnel_names()));
    lemma_lookup_object_with(v, req_tunnel_names(), t.json_fields(), 0);
    lemma_lookup_object_with(v, req_tunnel_names(), t.json_fields(), 1);
    lemma_lookup_object_with(v, req_tunnel_names(), t.json_fields(), 2);
    lemma_lookup_object_with(v, req_tunnel_names(), t.json_fields(), 3);
    lemma_lookup_object_with(v, req_tunnel_names(), t.json_fields(), 4);
    lemma_lookup_object_with(v, req_tunnel_names(), t.json_fields(), 5);
}

/// The server tells the client that it opened a tunnel; `ReqId` is that of the `ReqTunnel`.
#[derive(Debug, Clone, PartialEq, Eq)]
pub struct NewTunnel {
    pub ReqId: String,
    pub Url: String,
    pub Protocol: String,
    pub Error: String,
}

/// The names of the fields of `NewTunnel`, in order.
pub open spec fn new_tunnel_names() -> Seq<Seq<char>> {
    seq!["ReqId"@, "Url"@, "Protocol"@, "Error"@]
}

impl NewTunnel {
    /// The JSON values of the fields, in order.
    pub open spec fn json_fields(self) -> Seq<JsonValue> {
        seq![JsonValue::Str(self.ReqId), JsonValue::Str(self.Url), JsonValue::Str(self.Protocol), JsonValue::Str(self.Error)]
    }

    /// The `NewTunnel` that a JSON value stands for: an object with each field as a member of
    /// the right kind (other members are ignored), or an array of exactly the fields in order.
    pub open spec fn spec_from_json(v: JsonValue) -> Option<NewTunnel> {
        let f0 = text_field(v, "ReqId"@, 0, 4);
        let f1 = text_field(v, "Url"@, 1, 4);
        let f2 = text_field(v, "Protocol"@, 2, 4);
        let f3 = text_field(v, "Error"@, 3, 4);
        if f0 is Some && f1 is Some && f2 is Some && f3 is Some {
            Some(NewTunnel { ReqId: f0->0, Url: f1->0, Protocol: f2->0, Error: f3->0 })
        } else {
            None
        }
    }

    /// This value as a JSON object with one member per field, in field order.
    pub fn to_json(&self) -> (r: JsonValue)
        ensures
            object_with(r, new_tunnel_names(), self.json_fields()),
    {
        let mut members: Vec<(String, JsonValue)> = Vec::new();
        members.push(text_member("ReqId", &self.ReqId));
        members.push(text_member("Url", &self.Url));
        members.push(text_member("Protocol", &self.Protocol));
        members.push(text_member("Error", &self.Error));
        proof { reveal_strlit("ReqId"); reveal_strlit("Url"); reveal_strlit("Protocol"); reveal_strlit("Error"); }
        let r = JsonValue::Object(members);
        assert(object_with(r, new_tunnel_names(), self.json_fields()));
        r
    }

    /// The `NewTunnel` that a JSON value stands for, if any.
    pub fn from_json(v: &JsonValue) -> (r: Option<NewTunnel>)
        ensures
            r == NewTunnel::spec_from_json(*v),
    {
        let ReqId = get_text_field(v, "ReqId", 0, 4)?;
        let Url = get_text_field(v, "Url", 1, 4)?;
        let Protocol = get_text_field(v, "Protocol", 2, 4)?;
        let Error = get_text_field(v, "Error", 3, 4)?;
        Some(NewTunnel { ReqId, Url, Protocol, Error })
    }
}

/// Reading back the JSON object that `NewTunnel::to_json` writes gives the same value.
pub proof fn lemma_new_tunnel_json_round_trip(t: NewTunnel, v: JsonValue)
    requires
        object_with(v, new_tunnel_names(), t.json_fields()),
    ensures
        NewTunnel::spec_from_json(v) == Some(t),
{
    reveal_strlit("ReqId"); reveal_strlit("Url"); reveal_strlit("Protocol"); reveal_strlit("Error");
    assert(new_tunnel_names()[0] != new_tunnel_names()[1]) by { assert("ReqId"@.len() != "Url"@.len()); }
    assert(new_tunnel_names()[0] != new_tunnel_names()[2]) by { assert("ReqId"@.len() != "Protocol"@.len()); }
    assert(new_tunnel_names()[0] != new_tunnel_names()[3]) by { assert("ReqId"@[0] != "Error"@[0]); }
    assert(new_tunnel_names()[1] != new_tunnel_names()[2]) by { assert("Url"@.len() != "Protocol"@.len()); }
    assert(new_tunnel_names()[1] != new_tunnel_names()[3]) by { assert("Url"@.len() != "Error"@.len()); }
    assert(new_tunnel_names()[2] != new_tunnel_names()[3]) by { assert("Protocol"@.len() != "Error"@.len()); }
    assert(distinct_names(new_tunnel_names()));
    lemma_lookup_object_with(v, new_tunnel_names(), t.json_fields(), 0);
    lemma_lookup_object_with(v, new_tunnel_names(), t.json_fields(), 1);
    lemma_lookup_object_with(v, new_tunnel_names(), t.json_fields(), 2);
    lemma_lookup_object_with(v, new_tunnel_names(), t.json_fields(), 3);
}

/// `ReqTunnel::to_json` writes each field under its own name: in the object it gives, the member
/// named after a field holds that field's value.
pub proof fn lemma_req_tunnel_json_members(t: ReqTunnel, v: JsonValue)
    requires
        object_with(v, req_tunnel_names(), t.json_fields()),
    ensures
        member(v, "ReqId"@) == Some(JsonValue::Str(t.ReqId)),
        member(v, "Protocol"@) == Some(JsonValue::Str(t.Protocol)),
        member(v, "Hostname"@) == Some(JsonValue::Str(t.Hostname)),
        member(v, "Subdomain"@) == Some(JsonValue::Str(t.Subdomain)),
        member(v, "HttpAuth"@) == Some(JsonValue::Str(t.HttpAuth)),
        member_port(v, "RemotePort"@) == Some(t.RemotePort),
{
    lemma_req_tunnel_json_round_trip(t, v);
}

/// Reading a JSON object as a `ReqTunnel` takes each field from the member of the same name, and
/// succeeds whenever every such member is there and of the right kind.
pub proof fn lemma_req_tunnel_reads_members(v: JsonValue)
    requires
        v is Object,
    ensures
        ReqTunnel::spec_from_json(v) matches Some(t) ==> member_text(v, "ReqId"@) == Some(t.ReqId) && member_text(v, "Protocol"@) == Some(t.Protocol) && member_text(v, "Hostname"@) == Some(t.Hostname) && member_text(v, "Subdomain"@) == Some(t.Subdomain) && member_text(v, "HttpAuth"@) == Some(t.HttpAuth) && member_port(v, "RemotePort"@) == Some(t.RemotePort),
        member_text(v, "ReqId"@) is Some && member_text(v, "Protocol"@) is Some && member_text(v, "Hostname"@) is Some && member_text(v, "Subdomain"@) is Some && member_text(v, "HttpAuth"@) is Some && member_port(v, "RemotePort"@) is Some ==> ReqTunnel::spec_from_json(v) is Some,
{
}

/// `NewTunnel::to_json` writes each field under its own name: in the object it gives, the member
/// named after a field holds that field's value.
pub proof fn lemma_new_tunnel_json_members(t: NewTunnel, v: JsonValue)
    requires
        object_with(v, new_tunnel_names(), t.json_fields()),
    ensures
        member(v, "ReqId"@) == Some(JsonValue::Str(t.ReqId)),
        member(v, "Url"@) == Some(JsonValue::Str(t.Url)),
        member(v, "Protocol"@) == Some(JsonValue::Str(t.Protocol)),
        member(v, "Error"@) == Some(JsonValue::Str(t.Error)),
{
    lemma_new_tunnel_json_round_trip(t, v);
}

/// Reading a JSON object as a `NewTunnel` takes each field from the member of the same name, and
/// succeeds whenever every such member is there and of the right kind.
pub proof fn lemma_new_tunnel_reads_members(v: JsonValue)
    requires
        v is Object,
    ensures
        NewTunnel::spec_from_json(v) matches Some(t) ==> member_text(v, "ReqId"@) == Some(t.ReqId) && member_text(v, "Url"@) == Some(t.Url) && member_text(v, "Protocol"@) == Some(t.Protocol) && member_text(v, "Error"@) == Some(t.Error),
        member_text(v, "ReqId"@) is Some && member_text(v, "Url"@) is Some && member_text(v, "Protocol"@) is Some && member_text(v, "Error"@) is Some ==> NewTunnel::spec_from_json(v) is Some,
{
}

} // verus!
