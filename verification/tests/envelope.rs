use monero_rpc::client::{read_reply, receive, HttpRequest, Request, RpcClient};
use monero_rpc::envelope::{build_call, decode_response, CallEnvelope, Params};
use monero_rpc::error::{ClientError, DecodeError, RemoteError};
use monero_rpc::json::Json;
use monero_rpc::status::{unwrap_status, MoneroResult, Status};
use monero_rpc::text::parse;

fn object(members: Vec<(&str, Json)>) -> Json {
    Json::Object(members.into_iter().map(|(k, v)| (k.to_string(), v)).collect())
}

fn text(s: &str) -> Json {
    Json::Text(s.to_string())
}

#[test]
fn call_keeps_what_it_is_given() {
    let call = CallEnvelope::new("get_block_count", Params::List(vec![]), "id-1".to_string());
    assert_eq!(
        call,
        CallEnvelope {
            method: "get_block_count".to_string(),
            params: Params::List(vec![]),
            id: "id-1".to_string()
        }
    );
}

#[test]
fn build_call_stamps_a_fresh_identifier() {
    let first = build_call("m", Params::List(vec![Json::Unsigned(1)]));
    let second = build_call("m", Params::List(vec![Json::Unsigned(1)]));
    assert_eq!(first.method, "m");
    assert_eq!(first.params, Params::List(vec![Json::Unsigned(1)]));
    assert_eq!(first.id.len(), 36);
    assert_ne!(first.id, second.id);
}

#[test]
fn call_envelope_has_the_four_members() {
    let call = CallEnvelope::new("m", Params::List(vec![Json::Unsigned(7)]), "abc".to_string());
    let j = call.into_json();
    assert_eq!(j.get("jsonrpc"), Some(&text("2.0")));
    assert_eq!(j.get("method"), Some(&text("m")));
    assert_eq!(j.get("params"), Some(&Json::Array(vec![Json::Unsigned(7)])));
    assert_eq!(j.get("id"), Some(&text("abc")));
    match j {
        Json::Object(members) => assert_eq!(members.len(), 4),
        _ => panic!("a call is an object"),
    }
}

#[test]
fn named_params_become_an_object() {
    let params = Params::Named(vec![("a".to_string(), Json::Unsigned(1))]);
    assert_eq!(params.into_json(), object(vec![("a", Json::Unsigned(1))]));
    assert_eq!(Params::List(vec![Json::Null]).into_json(), Json::Array(vec![Json::Null]));
}

#[test]
fn request_with_id_gives_the_exact_body() {
    let client = RpcClient::new("http://localhost:18081".to_string());
    let request = Request { method: "on_get_block_hash", params: Params::List(vec![Json::Unsigned(100)]) };
    let out = client.request_with_id(request, "my-id".to_string()).unwrap();
    assert_eq!(
        out,
        HttpRequest {
            url: "http://localhost:18081/json_rpc".to_string(),
            content_type: "application/json",
            body: r#"{"id":"my-id","jsonrpc":"2.0","method":"on_get_block_hash","params":[100]}"#.to_string(),
        }
    );
}

#[test]
fn request_refuses_params_that_cannot_be_written() {
    let client = RpcClient::new("http://h".to_string());
    let request = || Request { method: "m", params: Params::List(vec![Json::Float(0)]) };
    assert_eq!(client.request_with_id(request(), "i".to_string()), None);
    assert_eq!(client.request(request()), None);
}

#[test]
fn request_stamps_a_fresh_identifier() {
    let client = RpcClient::new("http://h".to_string());
    let request = || Request { method: "m", params: Params::List(vec![]) };
    let first = client.request(request()).unwrap();
    let second = client.request(request()).unwrap();
    assert_eq!(first.url, "http://h/json_rpc");
    assert_eq!(first.content_type, "application/json");
    let id_of = |body: &str| match parse(body).unwrap().get("id") {
        Some(Json::Text(id)) => id.clone(),
        _ => panic!("the call has a text id"),
    };
    let a = id_of(&first.body);
    let b = id_of(&second.body);
    assert_ne!(a, b);
    for id in [a, b] {
        assert_eq!(id.len(), 36);
        for (i, c) in id.chars().enumerate() {
            if i == 8 || i == 13 || i == 18 || i == 23 {
                assert_eq!(c, '-');
            } else {
                assert!(c.is_ascii_digit() || ('a'..='f').contains(&c));
            }
        }
        assert_eq!(id.chars().nth(14), Some('4'));
    }
    let j = parse(&first.body).unwrap();
    assert_eq!(j.get("jsonrpc"), Some(&text("2.0")));
    assert_eq!(j.get("method"), Some(&text("m")));
    assert_eq!(j.get("params"), Some(&Json::Array(vec![])));
}

#[test]
fn client_knows_its_endpoint() {
    let client = RpcClient::new("http://node:18081".to_string());
    assert_eq!(client.addr(), "http://node:18081");
    assert_eq!(client.url(), "http://node:18081/json_rpc");
    let daemon = client.daemon();
    assert_eq!(daemon.transport().url(), "http://node:18081/json_rpc");
    let wallet = RpcClient::new("w".to_string()).wallet();
    assert_eq!(wallet.transport().addr(), "w");
}

#[test]
fn response_with_a_result_gives_the_result() {
    let raw = object(vec![("id", text("1")), ("jsonrpc", text("2.0")), ("result", Json::Unsigned(5))]);
    assert_eq!(decode_response(&raw), Ok(&Json::Unsigned(5)));
    let bare = object(vec![("result", Json::Null)]);
    assert_eq!(decode_response(&bare), Ok(&Json::Null));
}

#[test]
fn response_with_method_not_found_gives_the_remote_error() {
    let raw = parse(r#"{"error":{"code":-32601,"message":"Method not found"}}"#).unwrap();
    assert_eq!(
        decode_response(&raw),
        Err(ClientError::Remote(RemoteError { code: -32601, message: "Method not found".to_string() }))
    );
}

#[test]
fn response_keeps_code_and_message_as_they_came() {
    let raw = object(vec![
        ("id", text("7")),
        ("error", object(vec![("message", text("busy")), ("code", Json::Unsigned(12)), ("data", Json::Null)])),
    ]);
    assert_eq!(
        decode_response(&raw),
        Err(ClientError::Remote(RemoteError { code: 12, message: "busy".to_string() }))
    );
}

#[test]
fn response_that_breaks_the_shape_is_a_protocol_error() {
    // neither
    assert_eq!(decode_response(&object(vec![("id", text("1"))])), Err(ClientError::Protocol));
    // both
    let both = object(vec![
        ("result", Json::Unsigned(1)),
        ("error", object(vec![("code", Json::Signed(-1)), ("message", text("m"))])),
    ]);
    assert_eq!(decode_response(&both), Err(ClientError::Protocol));
    // not an object
    assert_eq!(decode_response(&Json::Array(vec![])), Err(ClientError::Protocol));
    assert_eq!(decode_response(&Json::Null), Err(ClientError::Protocol));
    // an error without a code, without a message, with the wrong kinds
    for error in [
        object(vec![("message", text("m"))]),
        object(vec![("code", Json::Signed(-1))]),
        object(vec![("code", text("-1")), ("message", text("m"))]),
        object(vec![("code", Json::Signed(-1)), ("message", Json::Unsigned(0))]),
        object(vec![("code", Json::Unsigned(u64::MAX)), ("message", text("m"))]),
        Json::Null,
        text("failed"),
    ] {
        assert_eq!(decode_response(&object(vec![("error", error)])), Err(ClientError::Protocol));
    }
}

#[test]
fn reply_text_that_is_no_json_is_a_protocol_error() {
    assert_eq!(read_reply("<html>"), Err(ClientError::Protocol));
    assert_eq!(read_reply(""), Err(ClientError::Protocol));
    assert_eq!(read_reply(r#"{"result":1}"#), Ok(object(vec![("result", Json::Unsigned(1))])));
}

#[test]
fn transport_failure_is_passed_on() {
    assert_eq!(
        receive(Err("connection refused".to_string())),
        Err(ClientError::Transport("connection refused".to_string()))
    );
    assert_eq!(receive(Ok("[]".to_string())), Ok(Json::Array(vec![])));
    assert_eq!(receive(Ok("not json".to_string())), Err(ClientError::Protocol));
}

#[test]
fn status_ok_hands_the_payload_on() {
    let value = object(vec![("status", text("OK")), ("count", Json::Unsigned(3))]);
    assert_eq!(Status::deserialize(&value), Ok(Status::OK));
    let wrapped = unwrap_status(&value).unwrap();
    assert_eq!(wrapped, MoneroResult::OK(&value));
    assert_eq!(wrapped.into_inner(), &value);
    assert_eq!(MoneroResult::OK(5u8).into_inner(), 5);
}

#[test]
fn any_other_status_is_refused() {
    for tag in [text("ERROR"), text("ok"), text(""), Json::Unsigned(0), Json::Null, Json::Bool(true)] {
        let value = object(vec![("status", tag), ("count", Json::Unsigned(3))]);
        assert_eq!(Status::deserialize(&value), Err(DecodeError::BadStatus));
        assert_eq!(unwrap_status(&value), Err(DecodeError::BadStatus));
    }
    let missing = object(vec![("count", Json::Unsigned(3))]);
    assert_eq!(unwrap_status(&missing), Err(DecodeError::BadStatus));
    assert_eq!(unwrap_status(&Json::Unsigned(1)), Err(DecodeError::NotAnObject));
    assert_eq!(unwrap_status(&text("OK")), Err(DecodeError::NotAnObject));
}
