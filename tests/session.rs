use alcro::commands::enable_commands;
use alcro::json::Json;
use alcro::protocol::{call_text, read_attach, read_discovery, Awaited};
use alcro::session::{Dispatch, JSResult, Session};
use crossbeam_channel::bounded;

fn obj(members: Vec<(&str, Json)>) -> Json {
    Json::Object(members.into_iter().map(|(k, v)| (k.to_string(), v)).collect())
}

fn text(s: &str) -> Json {
    Json::Str(s.to_string())
}

fn relayed(session: &str, inner: &str) -> String {
    obj(vec![
        ("method", text("Target.receivedMessageFromTarget")),
        ("params", obj(vec![("sessionId", text(session)), ("message", text(inner))])),
    ])
    .to_text()
}

fn attached() -> Session {
    Session::new("T1".to_string(), "S1".to_string())
}

fn params_expr(expr: &str) -> Json {
    Json::Object(vec![("expression".to_string(), Json::Str(expr.to_string()))])
}

#[test]
fn handshake_finds_page_and_session() {
    let created = r#"{"method":"Target.targetCreated","params":{"targetInfo":{"type":"page","targetId":"T1"}}}"#;
    let attach = r#"{"id":1,"result":{"sessionId":"S1"}}"#;
    let target = match read_discovery(created) {
        Awaited::Found(t) => t,
        other => panic!("unexpected {:?}", other),
    };
    let session = match read_attach(attach) {
        Awaited::Found(Ok(s)) => s,
        other => panic!("unexpected {:?}", other),
    };
    let s = Session::new(target, session);
    assert_eq!(s.target_id(), "T1");
    assert_eq!(s.session_id(), "S1");
}

#[test]
fn handshake_skips_other_targets_and_fails_on_broken_frames() {
    let worker = r#"{"method":"Target.targetCreated","params":{"targetInfo":{"type":"service_worker","targetId":"W"}}}"#;
    assert_eq!(read_discovery(worker), Awaited::Skip);
    assert_eq!(read_discovery("not json"), Awaited::Broken);
    assert_eq!(read_attach(r#"{"id":0,"result":{}}"#), Awaited::Skip);
    let refused = r#"{"id":1,"error":{"message":"no such target"}}"#;
    match read_attach(refused) {
        Awaited::Found(Err(e)) => {
            assert_eq!(e, Json::Object(vec![("message".to_string(), Json::Str("no such target".to_string()))]))
        }
        other => panic!("unexpected {:?}", other),
    }
}

#[test]
fn first_call_takes_id_two_and_is_relayed() {
    let mut s = attached();
    let (tx, _rx) = bounded::<JSResult>(1);
    let (id, text) = s.begin_call("Runtime.evaluate", params_expr("1+1"), tx);
    assert_eq!(id, 2);
    assert_eq!(
        text,
        r#"{"id":2,"method":"Target.sendMessageToTarget","params":{"message":"{\"id\":2,\"method\":\"Runtime.evaluate\",\"params\":{\"expression\":\"1+1\"}}","sessionId":"S1"}}"#
    );
    let (tx2, _rx2) = bounded::<JSResult>(1);
    let (id2, _) = s.begin_call("Page.enable", Json::Null, tx2);
    assert_eq!(id2, 3);
}

#[test]
fn call_text_builds_both_envelopes() {
    let t = call_text(7, "Page.navigate", Json::Null, "S9");
    let v = Json::parse(&t).unwrap();
    assert_eq!(v.get("id"), Some(&Json::Int(7)));
    assert_eq!(v.get("method"), Some(&text("Target.sendMessageToTarget")));
    let params = v.get("params").unwrap();
    assert_eq!(params.get("sessionId"), Some(&text("S9")));
    let message = match params.get("message") {
        Some(Json::Str(m)) => m.clone(),
        other => panic!("no message: {:?}", other),
    };
    assert_eq!(message, r#"{"id":7,"method":"Page.navigate","params":null}"#);
}

fn deliver(d: Dispatch) {
    match d {
        Dispatch::Reply(tx, outcome) => tx.send(outcome).unwrap(),
        other => panic!("expected a reply, got {:?}", other),
    }
}

#[test]
fn evaluate_reply_yields_value() {
    let mut s = attached();
    let (tx, rx) = bounded::<JSResult>(1);
    s.begin_call("Runtime.evaluate", params_expr("1+1"), tx);
    let reply = relayed("S1", r#"{"id":2,"result":{"result":{"type":"number","value":2}}}"#);
    deliver(s.dispatch(&reply));
    assert_eq!(rx.recv().unwrap(), Ok(Json::Int(2)));
}

#[test]
fn error_reply_yields_message() {
    let mut s = attached();
    let (tx, rx) = bounded::<JSResult>(1);
    s.begin_call("Runtime.evaluate", params_expr("1+1"), tx);
    let reply = relayed("S1", r#"{"id":2,"error":{"message":"bad expr"}}"#);
    deliver(s.dispatch(&reply));
    assert_eq!(rx.recv().unwrap(), Err(Json::Str("bad expr".to_string())));
}

#[test]
fn target_destroyed_stops_without_replies() {
    let mut s = attached();
    let (tx, rx) = bounded::<JSResult>(1);
    s.begin_call("Runtime.evaluate", params_expr("1+1"), tx);
    let gone = r#"{"method":"Target.targetDestroyed","params":{"targetId":"T1"}}"#;
    let d = s.dispatch(gone);
    assert!(matches!(d, Dispatch::TargetDestroyed));
    assert!(d.is_final());
    assert!(rx.try_recv().is_err());
    let other = r#"{"method":"Target.targetDestroyed","params":{"targetId":"T2"}}"#;
    assert!(matches!(s.dispatch(other), Dispatch::Ignored));
}

#[test]
fn replies_out_of_order_reach_their_callers() {
    let mut s = attached();
    let (tx_a, rx_a) = bounded::<JSResult>(1);
    let (tx_b, rx_b) = bounded::<JSResult>(1);
    let (a, _) = s.begin_call("Runtime.evaluate", params_expr("'a'"), tx_a);
    let (b, _) = s.begin_call("Runtime.evaluate", params_expr("'b'"), tx_b);
    let reply_b = relayed("S1", &format!(r#"{{"id":{},"result":{{"result":{{"type":"string","value":"b"}}}}}}"#, b));
    let reply_a = relayed("S1", &format!(r#"{{"id":{},"result":{{"result":{{"type":"string","value":"a"}}}}}}"#, a));
    deliver(s.dispatch(&reply_b));
    deliver(s.dispatch(&reply_a));
    assert_eq!(rx_a.recv().unwrap(), Ok(Json::Str("a".to_string())));
    assert_eq!(rx_b.recv().unwrap(), Ok(Json::Str("b".to_string())));
}

#[test]
fn late_duplicate_reply_is_dropped() {
    let mut s = attached();
    let (tx, rx) = bounded::<JSResult>(1);
    s.begin_call("Page.enable", Json::Null, tx);
    let reply = relayed("S1", r#"{"id":2,"result":{}}"#);
    deliver(s.dispatch(&reply));
    assert_eq!(rx.recv().unwrap(), Ok(Json::Object(vec![])));
    assert!(matches!(s.dispatch(&reply), Dispatch::Unmatched(2)));
    assert!(rx.try_recv().is_err());
}

#[test]
fn enabling_twice_leaves_the_session_alike() {
    let mut s = attached();
    for _round in 0..2 {
        for c in enable_commands() {
            let (tx, rx) = bounded::<JSResult>(1);
            let (id, _) = s.begin_call(&c.method, c.params, tx);
            let reply = relayed("S1", &format!(r#"{{"id":{},"result":{{}}}}"#, id));
            deliver(s.dispatch(&reply));
            assert_eq!(rx.recv().unwrap(), Ok(Json::Object(vec![])));
        }
    }
    assert_eq!(s.target_id(), "T1");
    assert_eq!(s.session_id(), "S1");
    let late = relayed("S1", r#"{"id":2,"result":{}}"#);
    assert!(matches!(s.dispatch(&late), Dispatch::Unmatched(2)));
    let (tx, _rx) = bounded::<JSResult>(1);
    let (id, _) = s.begin_call("Page.enable", Json::Null, tx);
    assert_eq!(id, 20);
}

#[test]
fn frames_that_end_or_are_foreign() {
    let mut s = attached();
    assert!(matches!(s.dispatch(""), Dispatch::Closed));
    assert!(matches!(s.dispatch("{oops"), Dispatch::Malformed));
    let foreign = relayed("S2", r#"{"id":2,"result":{}}"#);
    assert!(matches!(s.dispatch(&foreign), Dispatch::Ignored));
    let broken_inner = relayed("S1", "{oops");
    assert!(matches!(s.dispatch(&broken_inner), Dispatch::Malformed));
    assert!(matches!(s.dispatch(r#"{"method":"Page.loadEventFired"}"#), Dispatch::Ignored));
}

#[test]
fn console_and_exception_events_go_to_the_log() {
    let mut s = attached();
    let console = relayed("S1", r#"{"method":"Runtime.consoleAPICalled","params":{"type":"log"}}"#);
    match s.dispatch(&console) {
        Dispatch::Diagnostic(j) => assert_eq!(j.get("method"), Some(&Json::Str("Runtime.consoleAPICalled".to_string()))),
        other => panic!("unexpected {:?}", other),
    }
    let thrown = relayed("S1", r#"{"method":"Runtime.exceptionThrown","params":{}}"#);
    assert!(matches!(s.dispatch(&thrown), Dispatch::Diagnostic(_)));
}

#[test]
fn window_handle_is_recorded_once_known() {
    let mut s = attached();
    assert_eq!(s.window_id(), 0);
    s.set_window(42);
    assert_eq!(s.window_id(), 42);
    assert_eq!(s.target_id(), "T1");
}
