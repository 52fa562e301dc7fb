//! The messages that open a control session.
use vstd::prelude::*;
use crate::json::{JsonValue, member, member_text, object_with, text_field, distinct_names, lemma_lookup_object_with, get_text_field, text_member};

verus! {

/// The first message of a control connection: the client introduces itself. `ClientId` is
/// empty for a new session.
#[derive(Debug, Clone, PartialEq, Eq)]
pub struct AuthReq {
    pub Version: String,
    pub MmVersion: String,
    pub User: String,
    pub Password: String,
    pub OS: String,
    pub Arch: String,
    pub ClientId: String,
}

/// The names of the fields of `AuthReq`, in order.
pub open spec fn auth_req_names() -> Seq<Seq<char>> {
    seq!["Version"@, "MmVersion"@, "User"@, "Password"@, "OS"@, "Arch"@, "ClientId"@]
}

impl AuthReq {
    /// The JSON values of the fields, in order.
    pub open spec fn json_fields(self) -> Seq<JsonValue> {
        seq![JsonValue::Str(self.Version), JsonValue::Str(self.MmVersion), JsonValue::Str(self.User), JsonValue::Str(self.Password), JsonValue::Str(self.OS), JsonValue::Str(self.Arch), JsonValue::Str(self.ClientId)]
    }

    /// The `AuthReq` that a JSON value stands for: an object with each field as a member of
    /// the right kind (other members are ignored), or an array of exactly the fields in order.
    pub open spec fn spec_from_json(v: JsonValue) -> Option<AuthReq> {
        let f0 = text_field(v, "Version"@, 0, 7);
        let f1 = text_field(v, "MmVersion"@, 1, 7);
        let f2 = text_field(v, "User"@, 2, 7);
        let f3 = text_field(v, "Password"@, 3, 7);
        let f4 = text_field(v, "OS"@, 4, 7);
        let f5 = text_field(v, "Arch"@, 5, 7);
        let f6 = text_field(v, "ClientId"@, 6, 7);
        if f0 is Some && f1 is Some && f2 is Some && f3 is Some && f4 is Some && f5 is Some && f6 is Some {
            Some(AuthReq { Version: f0->0, MmVersion: f1->0, User: f2->0, Password: f3->0, OS: f4->0, Arch: f5->0, ClientId: f6->0 })
        } else {
            None
        }
    }

    /// This value as a JSON object with one member per field, in field order.
    pub fn to_json(&self) -> (r: JsonValue)
        ensures
            object_with(r, auth_req_names(), self.json_fields()),
    {
        let mut members: Vec<(String, JsonValue)> = Vec::new();
        members.push(text_member("Version", &self.Version));
        members.push(text_member("MmVersion", &self.MmVersion));
        members.push(text_member("User", &self.User));
        members.push(text_member("Password", &self.Password));
        members.push(text_member("OS", &self.OS));
        members.push(text_member("Arch", &self.Arch));
        members.push(text_member("ClientId", &self.ClientId));
        proof { reveal_strlit("Version"); reveal_strlit("MmVersion"); reveal_strlit("User"); reveal_strlit("Password"); reveal_strlit("OS"); reveal_strlit("Arch"); reveal_strlit("ClientId"); }
        let r = JsonValue::Object(members);
        assert(object_with(r, auth_req_names(), self.json_fields()));
        r
    }

    /// The `AuthReq` that a JSON value stands for, if any.
    pub fn from_json(v: &JsonValue) -> (r: Option<AuthReq>)
        ensures
            r == AuthReq::spec_from_json(*v),
    {
        let Version = get_text_field(v, "Version", 0, 7)?;
        let MmVersion = get_text_field(v, "MmVersion", 1, 7)?;
        let User = get_text_field(v, "User", 2, 7)?;
        let Password = get_text_field(v, "Password", 3, 7)?;
        let OS = get_text_field(v, "OS", 4, 7)?;
        let Arch = get_text_field(v, "Arch", 5, 7)?;
        let ClientId = get_text_field(v, "ClientId", 6, 7)?;
        Some(AuthReq { Version, MmVersion, User, Password, OS, Arch, ClientId })
    }
}

/// Reading back the JSON object that `AuthReq::to_json` writes gives the same value.
pub proof fn lemma_auth_req_json_round_trip(t: AuthReq, v: JsonValue)
    requires
        object_with(v, auth_req_names(), t.json_fields()),
    ensures
        AuthReq::spec_from_json(v) == Some(t),
{
    reveal_strlit("Version"); reveal_strlit("MmVersion"); reveal_strlit("User"); reveal_strlit("Password"); reveal_strlit("OS"); reveal_strlit("Arch"); reveal_strlit("ClientId");
    assert(auth_req_names()[0] != auth_req_names()[1]) by { assert("Version"@.len() != "MmVersion"@.len()); }
    assert(auth_req_names()[0] != auth_req_names()[2]) by { assert("Version"@.len() != "User"@.len()); }
    assert(auth_req_names()[0] != auth_req_names()[3]) by { assert("Version"@.len() != "Password"@.len()); }
    assert(auth_req_names()[0] != auth_req_names()[4]) by { assert("Version"@.len() != "OS"@.len()); }
    assert(auth_req_names()[0] != auth_req_names()[5]) by { assert("Version"@.len() != "Arch"@.len()); }
    assert(auth_req_names()[0] != auth_req_names()[6]) by { assert("Version"@.len() != "ClientId"@.len()); }
    assert(auth_req_names()[1] != auth_req_names()[2]) by { assert("MmVersion"@.len() != "User"@.len()); }
    assert(auth_req_names()[1] != auth_req_names()[3]) by { assert("MmVersion"@.len() != "Password"@.len()); }
    assert(auth_req_names()[1] != auth_req_names()[4]) by { assert("MmVersion"@.len() != "OS"@.len()); }
    assert(auth_req_names()[1] != auth_req_names()[5]) by { assert("MmVersion"@.len() != "Arch"@.len()); }
    assert(auth_req_names()[1] != auth_req_names()[6]) by { assert("MmVersion"@.len() != "ClientId"@.len()); }
    assert(auth_req_names()[2] != auth_req_names()[3]) by { assert("User"@.len() != "Password"@.len()); }
    assert(auth_req_names()[2] != auth_req_names()[4]) by { assert("User"@.len() != "OS"@.len()); }
    assert(auth_req_names()[2] != auth_req_names()[5]) by { assert("User"@[0] != "Arch"@[0]); }
    assert(auth_req_names()[2] != auth_req_names()[6]) by { assert("User"@.len() != "ClientId"@.len()); }
    assert(auth_req_names()[3] != auth_req_names()[4]) by { assert("Password"@.len() != "OS"@.len()); }
    assert(auth_req_names()[3] != auth_req_names()[5]) by { assert("Password"@.len() != "Arch"@.len()); }
    assert(auth_req_names()[3] != auth_req_names()[6]) by { assert("Password"@[0] != "ClientId"@[0]); }
    assert(auth_req_names()[4] != auth_req_names()[5]) by { assert("OS"@.len() != "Arch"@.len()); }
    assert(auth_req_names()[4] != auth_req_names()[6]) by { assert("OS"@.len() != "ClientId"@.len()); }
    assert(auth_req_names()[5] != auth_req_names()[6]) by { assert("Arch"@.len() != "ClientId"@.len()); }
    assert(distinct_names(auth_req_names()));
    lemma_lookup_object_with(v, auth_req_names(), t.json_fields(), 0);
    lemma_lookup_object_with(v, auth_req_names(), t.json_fields(), 1);
    lemma_lookup_object_with(v, auth_req_names(), t.json_fields(), 2);
    lemma_lookup_object_with(v, auth_req_names(), t.json_fields(), 3);
    lemma_lookup_object_with(v, auth_req_names(), t.json_fields(), 4);
    lemma_lookup_object_with(v, auth_req_names(), t.json_fields(), 5);
    lemma_lookup_object_with(v, auth_req_names(), t.json_fields(), 6);
}

/// The server's answer to `AuthReq` over the control channel. A non-empty `Error` means the
/// server refuses the session; `ClientId` identifies the session in later `RegProxy` messages.
#[derive(Debug, Clone, PartialEq, Eq)]
pub struct AuthResp {
    pub Version: String,
    pub MmVersion: String,
    pub ClientId: String,
    pub Error: String,
}

/// The names of the fields of `AuthResp`, in order.
pub open spec fn auth_resp_names() -> Seq<Seq<char>> {
    seq!["Version"@, "MmVersion"@, "ClientId"@, "Error"@]
}

impl AuthResp {
    /// The JSON values of the fields, in order.
    pub open spec fn json_fields(self) -> Seq<JsonValue> {
        seq![JsonValue::Str(self.Version), JsonValue::Str(self.MmVersion), JsonValue::Str(self.ClientId), JsonValue::Str(self.Error)]
    }

    /// The `AuthResp` that a JSON value stands for: an object with each field as a member of
    /// the right kind (other members are ignored), or an array of exactly the fields in order.
    pub open spec fn spec_from_json(v: JsonValue) -> Option<AuthResp> {
        let f0 = text_field(v, "Version"@, 0, 4);
        let f1 = text_field(v, "MmVersion"@, 1, 4);
        let f2 = text_field(v, "ClientId"@, 2, 4);
        let f3 = text_field(v, "Error"@, 3, 4);
        if f0 is Some && f1 is Some && f2 is Some && f3 is Some {
            Some(AuthResp { Version: f0->0, MmVersion: f1->0, ClientId: f2->0, Error: f3->0 })
        } else {
            None
        }
    }

    /// This value as a JSON object with one member per field, in field order.
    pub fn to_json(&self) -> (r: JsonValue)
        ensures
            object_with(r, auth_resp_names(), self.json_fields()),
    {
        let mut members: Vec<(String, JsonValue)> = Vec::new();
        members.push(text_member("Version", &self.Version));
        members.push(text_member("MmVersion", &self.MmVersion));
        members.push(text_member("ClientId", &self.ClientId));
        members.push(text_member("Error", &self.Error));
        proof { reveal_strlit("Version"); reveal_strlit("MmVersion"); reveal_strlit("ClientId"); reveal_strlit("Error"); }
        let r = JsonValue::Object(members);
        assert(object_with(r, auth_resp_names(), self.json_fields()));
        r
    }

    /// The `AuthResp` that a JSON value stands for, if any.
    pub fn from_json(v: &JsonValue) -> (r: Option<AuthResp>)
        ensures
            r == AuthResp::spec_from_json(*v),
    {
        let Version = get_text_field(v, "Version", 0, 4)?;
        let MmVersion = get_text_field(v, "MmVersion", 1, 4)?;
        let ClientId = get_text_field(v, "ClientId", 2, 4)?;
        let Error = get_text_field(v, "Error", 3, 4)?;
        Some(AuthResp { Version, MmVersion, ClientId, Error })
    }
}

/// Reading back the JSON object that `AuthResp::to_json` writes gives the same value.
pub proof fn lemma_auth_resp_json_round_trip(t: AuthResp, v: JsonValue)
    requires
        object_with(v, auth_resp_names(), t.json_fields()),
    ensures
        AuthResp::spec_from_json(v) == Some(t),
{
    reveal_strlit("Version"); reveal_strlit("MmVersion"); reveal_strlit("ClientId"); reveal_strlit("Error");
    assert(auth_resp_names()[0] != auth_resp_names()[1]) by { assert("Version"@.len() != "MmVersion"@.len()); }
    assert(auth_resp_names()[0] != auth_resp_names()[2]) by { assert("Version"@.len() != "ClientId"@.len()); }
    assert(auth_resp_names()[0] != auth_resp_names()[3]) by { assert("Version"@.len() != "Error"@.len()); }
    assert(auth_resp_names()[1] != auth_resp_names()[2]) by { assert("MmVersion"@.len() != "ClientId"@.len()); }
    assert(auth_resp_names()[1] != auth_resp_names()[3]) by { assert("MmVersion"@.len() != "Error"@.len()); }
    assert(auth_resp_names()[2] != auth_resp_names()[3]) by { assert("ClientId"@.len() != "Error"@.len()); }
    assert(distinct_names(auth_resp_names()));
    lemma_lookup_object_with(v, auth_resp_names(), t.json_fields(), 0);
    lemma_lookup_object_with(v, auth_resp_names(), t.json_fields(), 1);
    lemma_lookup_object_with(v, auth_resp_names(), t.json_fields(), 2);
    lemma_lookup_object_with(v, auth_resp_names(), t.json_fields(), 3);
}

/// `AuthReq::to_json` writes each field under its own name: in the object it gives, the member
/// named after a field holds that field's value.
pub proof fn lemma_auth_req_json_members(t: AuthReq, v: JsonValue)
    requires
        object_with(v, auth_req_names(), t.json_fields()),
    ensures
        member(v, "Version"@) == Some(JsonValue::Str(t.Version)),
        member(v, "MmVersion"@) == Some(JsonValue::Str(t.MmVersion)),
        member(v, "User"@) == Some(JsonValue::Str(t.User)),
        member(v, "Password"@) == Some(JsonValue::Str(t.Password)),
        member(v, "OS"@) == Some(JsonValue::Str(t.OS)),
        member(v, "Arch"@) == Some(JsonValue::Str(t.Arch)),
        member(v, "ClientId"@) == Some(JsonValue::Str(t.ClientId)),
{
    lemma_auth_req_json_round_trip(t, v);
}

/// Reading a JSON object as a `AuthReq` takes each field from the member of the same name, and
/// succeeds whenever every such member is there and of the right kind.
pub proof fn lemma_auth_req_reads_members(v: JsonValue)
    requires
        v is Object,
    ensures
        AuthReq::spec_from_json(v) matches Some(t) ==> member_text(v, "Version"@) == Some(t.Version) && member_text(v, "MmVersion"@) == Some(t.MmVersion) && member_text(v, "User"@) == Some(t.User) && member_text(v, "Password"@) == Some(t.Password) && member_text(v, "OS"@) == Some(t.OS) && member_text(v, "Arch"@) == Some(t.Arch) && member_text(v, "ClientId"@) == Some(t.ClientId),
        member_text(v, "Version"@) is Some && member_text(v, "MmVersion"@) is Some && member_text(v, "User"@) is Some && member_text(v, "Password"@) is Some && member_text(v, "OS"@) is Some && member_text(v, "Arch"@) is Some && member_text(v, "ClientId"@) is Some ==> AuthReq::spec_from_json(v) is Some,
{
}

/// `AuthResp::to_json` writes each field under its own name: in the object it gives, the member
/// named after a field holds that field's value.
pub proof fn lemma_auth_resp_json_members(t: AuthResp, v: JsonValue)
    requires
        object_with(v, auth_resp_names(), t.json_fields()),
    ensures
        member(v, "Version"@) == Some(JsonValue::Str(t.Version)),
        member(v, "MmVersion"@) == Some(JsonValue::Str(t.MmVersion)),
        member(v, "ClientId"@) == Some(JsonValue::Str(t.ClientId)),
        member(v, "Error"@) == Some(JsonValue::Str(t.Error)),
{
    lemma_auth_resp_json_round_trip(t, v);
}

/// Reading a JSON object as a `AuthResp` takes each field from the member of the same name, and
/// succeeds whenever every such member is there and of the right kind.
pub proof fn lemma_auth_resp_reads_members(v: JsonValue)
    requires
        v is Object,
    ensures
        AuthResp::spec_from_json(v) matches Some(t) ==> member_text(v, "Version"@) == Some(t.Version) && member_text(v, "MmVersion"@) == Some(t.MmVersion) && member_text(v, "ClientId"@) == Some(t.ClientId) && member_text(v, "Error"@) == Some(t.Error),
        member_text(v, "Version"@) is Some && member_text(v, "MmVersion"@) is Some && member_text(v, "ClientId"@) is Some && member_text(v, "Error"@) is Some ==> AuthResp::spec_from_json(v) is Some,
{
}

} // verus!
