use dsp_rs::reverse_proxy::echo::{echo_step, EchoStep, WsFrame};
use dsp_rs::json::Json;
use dsp_rs::reverse_proxy::echo::{echo_response, string_map, EchoRequest};
use serde_json::Value;

fn to_value(j: &Json) -> Value {
    match j {
        Json::Null => Value::Null,
        Json::Bool(b) => Value::Bool(*b),
        Json::Number(n) => serde_json::from_str(n).expect("a number"),
        Json::String(s) => Value::String(s.clone()),
        Json::Array(items) => Value::Array(items.iter().map(to_value).collect()),
        Json::Object(ms) => {
            let mut map = serde_json::Map::new();
            for (k, v) in ms {
                map.insert(k.clone(), to_value(v));
            }
            Value::Object(map)
        }
    }
}

#[test]
fn echo_describes_the_request() {
    let req = EchoRequest {
        method: "POST".into(),
        path: "/api/data".into(),
        query: Some("a=1&b=x%20y&a=3".into()),
        headers: vec![("content-type".into(), "text/plain".into()), ("x-id".into(), "7".into())],
        body: b"hi".to_vec(),
    };
    let expected: Value = serde_json::from_str(
        r#"{
            "method": "POST",
            "path": "/api/data",
            "query": { "a": "3", "b": "x y" },
            "headers": { "content-type": "text/plain", "x-id": "7" },
            "body": "aGk="
        }"#,
    )
    .unwrap();
    assert_eq!(to_value(&echo_response(req)), expected);
}

#[test]
fn echo_without_query_or_body() {
    let req = EchoRequest { method: "GET".into(), path: "/api/x".into(), query: None, headers: vec![], body: vec![] };
    let out = to_value(&echo_response(req));
    assert_eq!(out["query"], Value::Object(serde_json::Map::new()));
    assert_eq!(out["body"], Value::String(String::new()));
}

#[test]
fn later_pairs_replace_earlier_ones_in_place() {
    let j = string_map(vec![("a".into(), "1".into()), ("b".into(), "2".into()), ("a".into(), "3".into())]);
    match j {
        Json::Object(ms) => {
            assert_eq!(ms.len(), 2);
            assert_eq!(ms[0].0, "a");
            assert_eq!(ms[0].1, Json::String("3".into()));
            assert_eq!(ms[1].0, "b");
        }
        other => panic!("unexpected {:?}", other),
    }
}

#[test]
fn body_is_padded_standard_base64() {
    for (body, expected) in [(&b""[..], ""), (b"f", "Zg=="), (b"fo", "Zm8="), (b"foo", "Zm9v"), (b"\xfb\xff", "+/8=")] {
        let req = EchoRequest { method: "GET".into(), path: "/".into(), query: None, headers: vec![], body: body.to_vec() };
        assert_eq!(to_value(&echo_response(req))["body"], Value::String(expected.into()));
    }
}

#[test]
fn websocket_echo_steps() {
    assert_eq!(echo_step(WsFrame::Text("hi".into())), EchoStep::SendText("Echo: hi".into()));
    assert_eq!(echo_step(WsFrame::Binary(vec![1, 2])), EchoStep::SendBinary(vec![1, 2]));
    assert_eq!(echo_step(WsFrame::Close), EchoStep::Stop);
    assert_eq!(echo_step(WsFrame::Other), EchoStep::Ignore);
}
