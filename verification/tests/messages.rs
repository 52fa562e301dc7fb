use cyrok::json::{JsonNumber, JsonValue};
use cyrok::message::auth::{AuthReq, AuthResp};
use cyrok::message::heatbeat::{Ping, Pong};
use cyrok::message::proxy::{RegProxy, ReqProxy, StartProxy};
use cyrok::message::tunnel::{NewTunnel, ReqTunnel};
use cyrok::message::{Envelope, Message, Unknown};

fn s(x: &str) -> String {
    x.to_string()
}

fn auth_req() -> AuthReq {
    AuthReq {
        Version: s("2"),
        MmVersion: s("1.7"),
        User: s("user"),
        Password: s("secret"),
        OS: s("linux"),
        Arch: s("amd64"),
        ClientId: s(""),
    }
}

fn req_tunnel() -> ReqTunnel {
    ReqTunnel {
        ReqId: s("42"),
        Protocol: s("http"),
        Hostname: s(""),
        Subdomain: s("foo"),
        HttpAuth: s(""),
        RemotePort: 22,
    }
}

fn member<'a>(v: &'a JsonValue, name: &str) -> Option<&'a JsonValue> {
    match v {
        JsonValue::Object(f) => f.iter().find(|(k, _)| k == name).map(|(_, x)| x),
        _ => None,
    }
}

#[test]
fn auth_req_json_round_trip() {
    let a = auth_req();
    let v = a.to_json();
    assert_eq!(member(&v, "User"), Some(&JsonValue::Str(s("user"))));
    assert_eq!(member(&v, "OS"), Some(&JsonValue::Str(s("linux"))));
    assert_eq!(AuthReq::from_json(&v), Some(a));
}

#[test]
fn req_tunnel_json_has_port_number() {
    let t = req_tunnel();
    let v = t.to_json();
    assert_eq!(member(&v, "RemotePort"), Some(&JsonValue::Number(JsonNumber::PosInt(22))));
    assert_eq!(ReqTunnel::from_json(&v), Some(t));
}

#[test]
fn struct_from_array_in_field_order() {
    let v = JsonValue::Array(vec![JsonValue::Str(s("abc"))]);
    assert_eq!(RegProxy::from_json(&v), Some(RegProxy { ClientId: s("abc") }));
    let too_long = JsonValue::Array(vec![JsonValue::Str(s("abc")), JsonValue::Null]);
    assert_eq!(RegProxy::from_json(&too_long), None);
    assert_eq!(ReqProxy::from_json(&JsonValue::Array(vec![])), Some(ReqProxy {}));
    assert_eq!(ReqProxy::from_json(&JsonValue::Array(vec![JsonValue::Null])), None);
}

#[test]
fn struct_from_json_rejects_missing_and_mistyped_fields() {
    let missing = JsonValue::Object(vec![(s("Url"), JsonValue::Str(s("u")))]);
    assert_eq!(StartProxy::from_json(&missing), None);
    let mistyped = JsonValue::Object(vec![(s("ClientId"), JsonValue::Bool(true))]);
    assert_eq!(RegProxy::from_json(&mistyped), None);
    assert_eq!(Ping::from_json(&JsonValue::Null), None);
    assert_eq!(Pong::from_json(&JsonValue::Object(vec![])), Some(Pong {}));
}

#[test]
fn struct_from_json_ignores_other_members() {
    let v = JsonValue::Object(vec![
        (s("extra"), JsonValue::Number(JsonNumber::Float(s("1.5")))),
        (s("ClientId"), JsonValue::Str(s("abc"))),
    ]);
    assert_eq!(RegProxy::from_json(&v), Some(RegProxy { ClientId: s("abc") }));
}

#[test]
fn port_must_be_an_integer_in_range() {
    let mut fields = match req_tunnel().to_json() {
        JsonValue::Object(f) => f,
        _ => unreachable!(),
    };
    fields[5].1 = JsonValue::Number(JsonNumber::PosInt(65536));
    assert_eq!(ReqTunnel::from_json(&JsonValue::Object(fields)), None);
    let mut fields = match req_tunnel().to_json() {
        JsonValue::Object(f) => f,
        _ => unreachable!(),
    };
    fields[5].1 = JsonValue::Number(JsonNumber::PosInt(65535));
    assert_eq!(ReqTunnel::from_json(&JsonValue::Object(fields)).map(|t| t.RemotePort), Some(65535));
    let mut fields = match req_tunnel().to_json() {
        JsonValue::Object(f) => f,
        _ => unreachable!(),
    };
    fields[5].1 = JsonValue::Number(JsonNumber::NegInt(-1));
    assert_eq!(ReqTunnel::from_json(&JsonValue::Object(fields)), None);
    let mut fields = match req_tunnel().to_json() {
        JsonValue::Object(f) => f,
        _ => unreachable!(),
    };
    fields[5].1 = JsonValue::Number(JsonNumber::Float(s("22.0")));
    assert_eq!(ReqTunnel::from_json(&JsonValue::Object(fields)), None);
}

#[test]
fn to_envelop_type_names() {
    let cases = vec![
        (Message::AuthReq(auth_req()), "Auth"),
        (Message::AuthResp(AuthResp { Version: s("0"), MmVersion: s("1"), ClientId: s("x"), Error: s("") }), "AuthResp"),
        (Message::ReqTunnel(req_tunnel()), "ReqTunnel"),
        (Message::NewTunnel(NewTunnel { ReqId: s("1"), Url: s("u"), Protocol: s("http"), Error: s("") }), "NewTunnel"),
        (Message::RegProxy(RegProxy { ClientId: s("c") }), "RegProxy"),
        (Message::ReqProxy(ReqProxy {}), "ReqProxy"),
        (Message::Ping(Ping {}), "Ping"),
        (Message::Pong(Pong {}), "Pong"),
        (Message::StartProxy(StartProxy { Url: s("u"), ClientAddr: s("1.2.3.4:5") }), "StartProxy"),
        (Message::Unknown(Unknown { err: s("e") }), "unkown"),
    ];
    for (m, name) in cases {
        assert_eq!(m.to_envelop().Type, name);
    }
}

#[test]
fn message_round_trip() {
    let messages = vec![
        Message::AuthReq(auth_req()),
        Message::ReqTunnel(req_tunnel()),
        Message::NewTunnel(NewTunnel { ReqId: s("1"), Url: s("http://foo.ngrok.me:7777"), Protocol: s("http"), Error: s("") }),
        Message::RegProxy(RegProxy { ClientId: s("1234567890") }),
        Message::ReqProxy(ReqProxy {}),
        Message::Ping(Ping {}),
        Message::Pong(Pong {}),
    ];
    for m in messages {
        let back = Message::decode_envelope(m.to_envelop());
        assert_eq!(back, Some(m.clone()));
        assert_eq!(Message::frome_envelop(m.to_envelop()), Ok(m));
    }
}

#[test]
fn unread_types_come_back_unknown() {
    let unknown = Message::Unknown(Unknown { err: s("unkown") });
    let resp = Message::AuthResp(AuthResp { Version: s("0"), MmVersion: s("1"), ClientId: s("x"), Error: s("") });
    assert_eq!(Message::decode_envelope(resp.to_envelop()), Some(unknown.clone()));
    let start = Message::StartProxy(StartProxy { Url: s("u"), ClientAddr: s("a") });
    assert_eq!(Message::decode_envelope(start.to_envelop()), Some(unknown.clone()));
    let other = Message::Unknown(Unknown { err: s("something") });
    assert_eq!(Message::decode_envelope(other.to_envelop()), Some(unknown));
}

#[test]
fn auth_resp_is_read_under_auth_res() {
    let resp = AuthResp { Version: s("0"), MmVersion: s("1"), ClientId: s("x"), Error: s("") };
    let e = Envelope { Type: s("AuthRes"), Payload: resp.to_json() };
    assert_eq!(Message::decode_envelope(e), Some(Message::AuthResp(resp)));
}

#[test]
fn read_type_with_unfit_payload_is_refused() {
    let e = Envelope { Type: s("RegProxy"), Payload: JsonValue::Object(vec![]) };
    assert_eq!(Message::decode_envelope(e), None);
}
