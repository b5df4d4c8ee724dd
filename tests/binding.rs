use alcro::binding::BindingCall;
use alcro::commands::{bind_commands, stub_script};
use alcro::json::Json;
use alcro::session::{Dispatch, Session};

fn obj(members: Vec<(&str, Json)>) -> Json {
    Json::Object(members.into_iter().map(|(k, v)| (k.to_string(), v)).collect())
}

fn text(s: &str) -> Json {
    Json::Str(s.to_string())
}

fn binding_event(name: &str, seq: i64, args: &str, context: i64) -> String {
    let payload = format!(r#"{{"name":"{}","seq":{},"args":{}}}"#, name, seq, args);
    let inner = obj(vec![
        ("method", text("Runtime.bindingCalled")),
        (
            "params",
            obj(vec![("name", text(name)), ("payload", text(&payload)), ("executionContextId", Json::Int(context))]),
        ),
    ]);
    obj(vec![
        ("method", text("Target.receivedMessageFromTarget")),
        ("params", obj(vec![("sessionId", text("S1")), ("message", text(&inner.to_text()))])),
    ])
    .to_text()
}

fn session_with(name: &str) -> Session {
    let mut s = Session::new("T1".to_string(), "S1".to_string());
    s.register(name);
    s
}

fn invoked(d: Dispatch) -> BindingCall {
    match d {
        Dispatch::Invoke(c) => c,
        other => panic!("expected a binding call, got {:?}", other),
    }
}

fn expression(params: &Json) -> String {
    match params.get("expression") {
        Some(Json::Str(s)) => s.clone(),
        other => panic!("no expression: {:?}", other),
    }
}

#[test]
fn arguments_reach_the_callback_unchanged() {
    let mut s = session_with("add");
    let c = invoked(s.dispatch(&binding_event("add", 1, r#"[1,"two",{"three":3}]"#, 7)));
    assert_eq!(
        c.args(),
        &[
            Json::Int(1),
            Json::Str("two".to_string()),
            Json::Object(vec![("three".to_string(), Json::Int(3))]),
        ][..]
    );
    assert_eq!(c.name_text(), "add");
}

#[test]
fn unknown_binding_is_dropped() {
    let mut s = session_with("add");
    assert!(matches!(s.dispatch(&binding_event("sub", 1, "[]", 7)), Dispatch::Ignored));
}

#[test]
fn settled_exactly_once() {
    let mut s = session_with("add");
    let mut c = invoked(s.dispatch(&binding_event("add", 4, "[]", 7)));
    let first = c.done(Json::Int(6)).expect("first completion sends a script");
    assert_eq!(first.method, "Runtime.evaluate");
    assert_eq!(first.params.get("contextId"), Some(&Json::Int(7)));
    assert_eq!(
        expression(&first.params),
        "if (\"\") { window['add']['errors'].get(4)(\"\"); } else { window['add']['callbacks'].get(4)(6); } window['add']['callbacks'].delete(4); window['add']['errors'].delete(4);"
    );
    assert_eq!(c.err(Json::Null), None);
    assert_eq!(c.complete(Ok(Json::Null)), None);
}

#[test]
fn dropped_call_settles_with_null() {
    let mut s = session_with("f");
    let mut c = invoked(s.dispatch(&binding_event("f", 1, "[]", 3)));
    let p = c.complete(Ok(Json::Null)).unwrap();
    assert!(expression(&p.params).contains("['callbacks'].get(1)(null)"));
}

#[test]
fn error_completion_rejects() {
    let mut s = session_with("f");
    let mut c = invoked(s.dispatch(&binding_event("f", 2, "[]", 3)));
    let p = c.err(Json::Str("Not number".to_string())).unwrap();
    let e = expression(&p.params);
    assert!(e.starts_with("if (\"Not number\") { window['f']['errors'].get(2)(\"Not number\");"));
    assert!(e.contains("['callbacks'].get(2)()"));
}

#[test]
fn concurrent_calls_settle_independently() {
    let mut s = session_with("f");
    let mut one = invoked(s.dispatch(&binding_event("f", 1, "[]", 3)));
    let mut two = invoked(s.dispatch(&binding_event("f", 2, "[]", 3)));
    let settle_one = one.done(Json::Int(10)).unwrap();
    let e1 = expression(&settle_one.params);
    assert!(e1.contains(".get(1)") && !e1.contains(".get(2)"));
    assert!(e1.contains(".delete(1)") && !e1.contains(".delete(2)"));
    let settle_two = two.done(Json::Int(20)).unwrap();
    assert!(expression(&settle_two.params).contains("['callbacks'].get(2)(20)"));
}

#[test]
fn payload_without_arguments_is_ignored() {
    let mut s = session_with("f");
    let bad = binding_event("f", 1, r#""none""#, 3);
    assert!(matches!(s.dispatch(&bad), Dispatch::Ignored));
    let payload = Json::Object(vec![("name".to_string(), Json::Str("f".to_string()))]);
    assert!(BindingCall::from_payload(payload, 1).is_none());
}

#[test]
fn registering_twice_keeps_one_name() {
    let mut s = session_with("f");
    s.register("f");
    assert!(s.is_bound("f"));
    assert!(!s.is_bound("g"));
}

#[test]
fn bind_sends_binding_then_stub() {
    let cs = bind_commands("add");
    assert_eq!(cs.len(), 3);
    assert_eq!(cs[0].method, "Runtime.addBinding");
    assert_eq!(cs[0].params.get("name"), Some(&Json::Str("add".to_string())));
    assert_eq!(cs[1].method, "Page.addScriptToEvaluateOnNewDocument");
    assert_eq!(cs[2].method, "Runtime.evaluate");
    let stub = stub_script("add");
    assert!(stub.starts_with("(()=>{ const bindingName = 'add';"));
    assert_eq!(cs[1].params.get("source"), Some(&Json::Str(stub.clone())));
    assert_eq!(expression(&cs[2].params), stub);
}
