//! The messages that set up proxy connections.
use vstd::prelude::*;
use crate::json::{JsonValue, member, member_text, object_with, text_field, record_shape, distinct_names, lemma_lookup_object_with, get_text_field, has_record_shape, text_member};

verus! {

/// The server asks the client to open a new proxy connection.
#[derive(Debug, Clone, PartialEq, Eq)]
pub struct ReqProxy {}

/// The names of the fields of `ReqProxy`, in order.
pub open spec fn req_proxy_names() -> Seq<Seq<char>> {
    seq![]
}

impl ReqProxy {
    /// The JSON values of the fields, in order.
    pub open spec fn json_fields(self) -> Seq<JsonValue> {
        seq![]
    }

    /// The `ReqProxy` that a JSON value stands for: an object with each field as a member of
    /// the right kind (other members are ignored), or an array of exactly the fields in order.
    pub open spec fn spec_from_json(v: JsonValue) -> Option<ReqProxy> {
        if record_shape(v, 0) { Some(ReqProxy {}) } else { None }
    }

    /// This value as a JSON object with one member per field, in field order.
    pub fn to_json(&self) -> (r: JsonValue)
        ensures
            object_with(r, req_proxy_names(), self.json_fields()),
    {
        let members: Vec<(String, JsonValue)> = Vec::new();
        let r = JsonValue::Object(members);
        assert(object_with(r, req_proxy_names(), self.json_fields()));
        r
    }

    /// The `ReqProxy` that a JSON value stands for, if any.
    pub fn from_json(v: &JsonValue) -> (r: Option<ReqProxy>)
        ensures
            r == ReqProxy::spec_from_json(*v),
    {
        if has_record_shape(v, 0) { Some(ReqProxy {}) } else { None }
    }
}

/// Reading back the JSON object that `ReqProxy::to_json` writes gives the same value.
pub proof fn lemma_req_proxy_json_round_trip(t: ReqProxy, v: JsonValue)
    requires
        object_with(v, req_proxy_names(), t.json_fields()),
    ensures
        ReqProxy::spec_from_json(v) == Some(t),
{
}

/// The first message of a proxy connection, naming the session it belongs to.
#[derive(Debug, Clone, PartialEq, Eq)]
pub struct RegProxy {
    pub ClientId: String,
}

/// The names of the fields of `RegProxy`, in order.
pub open spec fn reg_proxy_names() -> Seq<Seq<char>> {
    seq!["ClientId"@]
}

impl RegProxy {
    /// The JSON values of the fields, in order.
    pub open spec fn json_fields(self) -> Seq<JsonValue> {
        seq![JsonValue::Str(self.ClientId)]
    }

    /// The `RegProxy` that a JSON value stands for: an object with each field as a member of
    /// the right kind (other members are ignored), or an array of exactly the fields in order.
    pub open spec fn spec_from_json(v: JsonValue) -> Option<RegProxy> {
        let f0 = text_field(v, "ClientId"@, 0, 1);
        if f0 is Some {
            Some(RegProxy { ClientId: f0->0 })
        } else {
            None
        }
    }

    /// This value as a JSON object with one member per field, in field order.
    pub fn to_json(&self) -> (r: JsonValue)
        ensures
            object_with(r, reg_proxy_names(), self.json_fields()),
    {
        let mut members: Vec<(String, JsonValue)> = Vec::new();
        members.push(text_member("ClientId", &self.ClientId));
        proof { reveal_strlit("ClientId"); }
        let r = JsonValue::Object(members);
        assert(object_with(r, reg_proxy_names(), self.json_fields()));
        r
    }

    /// The `RegProxy` that a JSON value stands for, if any.
    pub fn from_json(v: &JsonValue) -> (r: Option<RegProxy>)
        ensures
            r == RegProxy::spec_from_json(*v),
    {
        let ClientId = get_text_field(v, "ClientId", 0, 1)?;
        Some(RegProxy { ClientId })
    }
}

/// Reading back the JSON object that `RegProxy::to_json` writes gives the same value.
pub proof fn lemma_reg_proxy_json_round_trip(t: RegProxy, v: JsonValue)
    requires
        object_with(v, reg_proxy_names(), t.json_fields()),
    ensures
        RegProxy::spec_from_json(v) == Some(t),
{
    reveal_strlit("ClientId");
    assert(distinct_names(reg_proxy_names()));
    lemma_lookup_object_with(v, reg_proxy_names(), t.json_fields(), 0);
}

/// Sent over a proxy connection before the proxied bytes: the tunnel's URL and the network
/// address of the client that connected to it.
#[derive(Debug, Clone, PartialEq, Eq)]
pub struct StartProxy {
    pub Url: String,
    pub ClientAddr: String,
}

/// The names of the fields of `StartProxy`, in order.
pub open spec fn start_proxy_names() -> Seq<Seq<char>> {
    seq!["Url"@, "ClientAddr"@]
}

impl StartProxy {
    /// The JSON values of the fields, in order.
    pub open spec fn json_fields(self) -> Seq<JsonValue> {
        seq![JsonValue::Str(self.Url), JsonValue::Str(self.ClientAddr)]
    }

    /// The `StartProxy` that a JSON value stands for: an object with each field as a member of
    /// the right kind (other members are ignored), or an array of exactly the fields in order.
    pub open spec fn spec_from_json(v: JsonValue) -> Option<StartProxy> {
        let f0 = text_field(v, "Url"@, 0, 2);
        let f1 = text_field(v, "ClientAddr"@, 1, 2);
        if f0 is Some && f1 is Some {
            Some(StartProxy { Url: f0->0, ClientAddr: f1->0 })
        } else {
            None
        }
    }

    /// This value as a JSON object with one member per field, in field order.
    pub fn to_json(&self) -> (r: JsonValue)
        ensures
            object_with(r, start_proxy_names(), self.json_fields()),
    {
        let mut members: Vec<(String, JsonValue)> = Vec::new();
        members.push(text_member("Url", &self.Url));
        members.push(text_member("ClientAddr", &self.ClientAddr));
        proof { reveal_strlit("Url"); reveal_strlit("ClientAddr"); }
        let r = JsonValue::Object(members);
        assert(object_with(r, start_proxy_names(), self.json_fields()));
        r
    }

    /// The `StartProxy` that a JSON value stands for, if any.
    pub fn from_json(v: &JsonValue) -> (r: Option<StartProxy>)
        ensures
            r == StartProxy::spec_from_json(*v),
    {
        let Url = get_text_field(v, "Url", 0, 2)?;
        let ClientAddr = get_text_field(v, "ClientAddr", 1, 2)?;
        Some(StartProxy { Url, ClientAddr })
    }
}

/// Reading back the JSON object that `StartProxy::to_json` writes gives the same value.
pub proof fn lemma_start_proxy_json_round_trip(t: StartProxy, v: JsonValue)
    requires
        object_with(v, start_proxy_names(), t.json_fields()),
    ensures
        StartProxy::spec_from_json(v) == Some(t),
{
    reveal_strlit("Url"); reveal_strlit("ClientAddr");
    assert(start_proxy_names()[0] != start_proxy_names()[1]) by { assert("Url"@.len() != "ClientAddr"@.len()); }
    assert(distinct_names(start_proxy_names()));
    lemma_lookup_object_with(v, start_proxy_names(), t.json_fields(), 0);
    lemma_lookup_object_with(v, start_proxy_names(), t.json_fields(), 1);
}

/// `RegProxy::to_json` writes each field under its own name: in the object it gives, the member
/// named after a field holds that field's value.
pub proof fn lemma_reg_proxy_json_members(t: RegProxy, v: JsonValue)
    requires
        object_with(v, reg_proxy_names(), t.json_fields()),
    ensures
        member(v, "ClientId"@) == Some(JsonValue::Str(t.ClientId)),
{
    lemma_reg_proxy_json_round_trip(t, v);
}

/// Reading a JSON object as a `RegProxy` takes each field from the member of the same name, and
/// succeeds whenever every such member is there and of the right kind.
pub proof fn lemma_reg_proxy_reads_members(v: JsonValue)
    requires
        v is Object,
    ensures
        RegProxy::spec_from_json(v) matches Some(t) ==> member_text(v, "ClientId"@) == Some(t.ClientId),
        member_text(v, "ClientId"@) is Some ==> RegProxy::spec_from_json(v) is Some,
{
}

/// `StartProxy::to_json` writes each field under its own name: in the object it gives, the member
/// named after a field holds that field's value.
pub proof fn lemma_start_proxy_json_members(t: StartProxy, v: JsonValue)
    requires
        object_with(v, start_proxy_names(), t.json_fields()),
    ensures
        member(v, "Url"@) == Some(JsonValue::Str(t.Url)),
        member(v, "ClientAddr"@) == Some(JsonValue::Str(t.ClientAddr)),
{
    lemma_start_proxy_json_round_trip(t, v);
}

/// Reading a JSON object as a `StartProxy` takes each field from the member of the same name, and
/// succeeds whenever every such member is there and of the right kind.
pub proof fn lemma_start_proxy_reads_members(v: JsonValue)
    requires
        v is Object,
    ensures
        StartProxy::spec_from_json(v) matches Some(t) ==> member_text(v, "Url"@) == Some(t.Url) && member_text(v, "ClientAddr"@) == Some(t.ClientAddr),
        member_text(v, "Url"@) is Some && member_text(v, "ClientAddr"@) is Some ==> StartProxy::spec_from_json(v) is Some,
{
}

} // verus!
