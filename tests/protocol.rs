use alcro::error::{to_unit, JSError};
use alcro::json::Json;
use alcro::protocol::{classify_relayed, handshake_failure, reply_outcome, Relayed};

fn parse(t: &str) -> Json {
    Json::parse(t).expect("valid JSON")
}

fn text(s: &str) -> Json {
    Json::Str(s.to_string())
}

#[test]
fn thrown_exception_is_an_error() {
    let r = parse(r#"{"id":3,"result":{"result":{"type":"object"},"exceptionDetails":{"exception":{"value":"boom"}}}}"#);
    assert_eq!(reply_outcome(r), Err(text("boom")));
}

#[test]
fn returned_error_object_is_an_error() {
    let r = parse(r#"{"id":3,"result":{"result":{"type":"object","subtype":"error","description":"ReferenceError: x"}}}"#);
    assert_eq!(reply_outcome(r), Err(text("ReferenceError: x")));
}

#[test]
fn typed_result_gives_its_value() {
    let r = parse(r#"{"id":3,"result":{"result":{"type":"string","value":"Hello World"}}}"#);
    assert_eq!(reply_outcome(r), Ok(text("Hello World")));
    let undefined = parse(r#"{"id":3,"result":{"result":{"type":"undefined"}}}"#);
    assert_eq!(reply_outcome(undefined), Ok(Json::Null));
}

#[test]
fn plain_result_is_given_whole() {
    let r = parse(r#"{"id":3,"result":{"windowId":5}}"#);
    assert_eq!(reply_outcome(r), Ok(Json::Object(vec![("windowId".to_string(), Json::Int(5))])));
    let bare = parse(r#"{"id":3}"#);
    assert_eq!(reply_outcome(bare), Ok(Json::Null));
}

#[test]
fn protocol_error_wins_over_result() {
    let r = parse(r#"{"id":3,"error":{"message":"bad"},"result":{"result":{"type":"number","value":1}}}"#);
    assert_eq!(reply_outcome(r), Err(text("bad")));
}

#[test]
fn relayed_messages_are_sorted() {
    let reply = classify_relayed(parse(r#"{"id":9,"result":{}}"#));
    assert_eq!(reply, Relayed::Reply { id: 9, outcome: Ok(Json::Object(vec![])) });
    let float_id = classify_relayed(parse(r#"{"id":9.5,"result":{}}"#));
    assert_eq!(float_id, Relayed::Other);
    let answered_console = classify_relayed(parse(r#"{"id":4,"method":"Runtime.consoleAPICalled"}"#));
    assert!(matches!(answered_console, Relayed::Reply { id: 4, .. }));
    let call = classify_relayed(parse(
        r#"{"method":"Runtime.bindingCalled","params":{"name":"f","payload":"{}","executionContextId":2}}"#,
    ));
    assert_eq!(
        call,
        Relayed::BindingCalled { name: "f".to_string(), payload: "{}".to_string(), context_id: 2 }
    );
}

#[test]
fn json_round_trips_through_text() {
    let j = parse(r#"{"b":[1,2.5,"x",null,true],"a":-3}"#);
    assert_eq!(j.get("a"), Some(&Json::Int(-3)));
    match j.get("b") {
        Some(Json::Array(items)) => {
            assert_eq!(items[1], Json::Num("2.5".to_string()));
            assert_eq!(items[4], Json::Bool(true));
        }
        other => panic!("unexpected {:?}", other),
    }
    assert_eq!(j.to_text(), r#"{"a":-3,"b":[1,2.5,"x",null,true]}"#);
    assert_eq!(Json::parse(""), None);
    assert_eq!(text("q\"").to_text(), r#""q\"""#);
}

#[test]
fn errors_keep_the_reported_value() {
    let e = JSError::new(text("bad"));
    assert_eq!(e.as_json(), &text("bad"));
    assert_eq!(e.source(), text("bad"));
    assert_eq!(to_unit(Ok(Json::Int(1))), Ok(()));
    assert_eq!(to_unit(Err(Json::Null)), Err(JSError::new(Json::Null)));
    let f = handshake_failure("start_session failed");
    assert_eq!(f.to_text(), r#"{"error":"start_session failed"}"#);
}
