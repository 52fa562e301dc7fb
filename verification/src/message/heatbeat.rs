//! The keep-alive messages.
use vstd::prelude::*;
use crate::json::{JsonValue, object_with, record_shape, has_record_shape};

verus! {

/// A keep-alive probe from the client.
#[derive(Debug, Clone, PartialEq, Eq)]
pub struct Ping {}

/// The names of the fields of `Ping`, in order.
pub open spec fn ping_names() -> Seq<Seq<char>> {
    seq![]
}

impl Ping {
    /// The JSON values of the fields, in order.
    pub open spec fn json_fields(self) -> Seq<JsonValue> {
        seq![]
    }

    /// The `Ping` that a JSON value stands for: an object with each field as a member of
    /// the right kind (other members are ignored), or an array of exactly the fields in order.
    pub open spec fn spec_from_json(v: JsonValue) -> Option<Ping> {
        if record_shape(v, 0) { Some(Ping {}) } else { None }
    }

    /// This value as a JSON object with one member per field, in field order.
    pub fn to_json(&self) -> (r: JsonValue)
        ensures
            object_with(r, ping_names(), self.json_fields()),
    {
        let members: Vec<(String, JsonValue)> = Vec::new();
        let r = JsonValue::Object(members);
        assert(object_with(r, ping_names(), self.json_fields()));
        r
    }

    /// The `Ping` that a JSON value stands for, if any.
    pub fn from_json(v: &JsonValue) -> (r: Option<Ping>)
        ensures
            r == Ping::spec_from_json(*v),
    {
        if has_record_shape(v, 0) { Some(Ping {}) } else { None }
    }
}

/// Reading back the JSON object that `Ping::to_json` writes gives the same value.
pub proof fn lemma_ping_json_round_trip(t: Ping, v: JsonValue)
    requires
        object_with(v, ping_names(), t.json_fields()),
    ensures
        Ping::spec_from_json(v) == Some(t),
{
}

/// The server's answer to `Ping`.
#[derive(Debug, Clone, PartialEq, Eq)]
pub struct Pong {}

/// The names of the fields of `Pong`, in order.
pub open spec fn pong_names() -> Seq<Seq<char>> {
    seq![]
}

impl Pong {
    /// The JSON values of the fields, in order.
    pub open spec fn json_fields(self) -> Seq<JsonValue> {
        seq![]
    }

    /// The `Pong` that a JSON value stands for: an object with each field as a member of
    /// the right kind (other members are ignored), or an array of exactly the fields in order.
    pub open spec fn spec_from_json(v: JsonValue) -> Option<Pong> {
        if record_shape(v, 0) { Some(Pong {}) } else { None }
    }

    /// This value as a JSON object with one member per field, in field order.
    pub fn to_json(&self) -> (r: JsonValue)
        ensures
            object_with(r, pong_names(), self.json_fields()),
    {
        let members: Vec<(String, JsonValue)> = Vec::new();
        let r = JsonValue::Object(members);
        assert(object_with(r, pong_names(), self.json_fields()));
        r
    }

    /// The `Pong` that a JSON value stands for, if any.
    pub fn from_json(v: &JsonValue) -> (r: Option<Pong>)
        ensures
            r == Pong::spec_from_json(*v),
    {
        if has_record_shape(v, 0) { Some(Pong {}) } else { None }
    }
}

/// Reading back the JSON object that `Pong::to_json` writes gives the same value.
pub proof fn lemma_pong_json_round_trip(t: Pong, v: JsonValue)
    requires
        object_with(v, pong_names(), t.json_fields()),
    ensures
        Pong::spec_from_json(v) == Some(t),
{
}
} // verus!
