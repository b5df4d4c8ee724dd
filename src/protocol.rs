//! The shapes of the messages on the pipe: the request envelopes that go out,
//! and the sorting of what comes in into replies, events and binding calls.
use vstd::prelude::*;
use crate::json::{Json, entry_of, json_parse, json_text};

verus! {

/// The value that `j` holds, or null for none.
pub open spec fn or_null(j: Option<&Json>) -> Json {
    match j {
        Some(v) => *v,
        None => Json::Null,
    }
}

/// Steps from a value, or from null, to its member `key`.
pub fn descend<'a>(j: Option<&'a Json>, key: &str) -> (r: Option<&'a Json>)
    ensures
        or_null(r) == or_null(j).member(key@),
{
    match j {
        Some(v) => v.get(key),
        None => None,
    }
}

/// Moves the member `key` out of a value; null where there is none.
pub fn extract(j: Json, key: &str) -> (r: Json)
    ensures
        r == j.member(key@),
{
    match j.take(key) {
        Some(v) => v,
        None => Json::Null,
    }
}

/// Whether a value, or null for none, is the string `t`.
pub fn text_is(j: Option<&Json>, t: &str) -> (r: bool)
    ensures
        r == or_null(j).is_text(t@),
{
    match j {
        Some(v) => v.holds_text(t),
        None => false,
    }
}

/// Whether a value, or none, is null.
pub fn null_or_absent(j: Option<&Json>) -> (r: bool)
    ensures
        r == (or_null(j) is Null),
{
    match j {
        Some(v) => v.is_null(),
        None => true,
    }
}

/// Whether `j` is an object whose keys are `keys`, in this order.
pub open spec fn keys_are(j: Json, keys: Seq<Seq<char>>) -> bool {
    match j {
        Json::Object(es) => es@.len() == keys.len() && forall|i: int|
            0 <= i < keys.len() ==> (#[trigger] es@[i]).0@ == keys[i],
        _ => false,
    }
}

/// The result that a reply to a request stands for: the error message of the
/// protocol, a thrown exception, an error object that a script returned, the
/// value that a script returned, or else the whole result of the command.
pub open spec fn outcome_of(res: Json) -> Result<Json, Json> {
    let message = res.member("error"@).member("message"@);
    let result = res.member("result"@);
    let thrown = result.member("exceptionDetails"@).member("exception"@).member("value"@);
    let returned = result.member("result"@);
    if !(message is Null) {
        Err(message)
    } else if !(thrown is Null) {
        Err(thrown)
    } else if returned.member("type"@).is_text("object"@) && returned.member("subtype"@).is_text(
        "error"@,
    ) {
        Err(returned.member("description"@))
    } else if !(returned.member("type"@) is Null) {
        Ok(returned.member("value"@))
    } else {
        Ok(result)
    }
}

/// Turns a reply into the result of the request it answers.
pub fn reply_outcome(res: Json) -> (r: Result<Json, Json>)
    ensures
        r == outcome_of(res),
{
    let top = Some(&res);
    let message_absent = null_or_absent(descend(descend(top, "error"), "message"));
    let result = descend(top, "result");
    let thrown_absent = null_or_absent(
        descend(descend(descend(result, "exceptionDetails"), "exception"), "value"),
    );
    let returned = descend(result, "result");
    let type_absent = null_or_absent(descend(returned, "type"));
    let error_object = text_is(descend(returned, "type"), "object") && text_is(
        descend(returned, "subtype"),
        "error",
    );
    if !message_absent {
        Err(extract(extract(res, "error"), "message"))
    } else if !thrown_absent {
        Err(extract(extract(extract(extract(res, "result"), "exceptionDetails"), "exception"), "value"))
    } else if error_object {
        Err(extract(extract(extract(res, "result"), "result"), "description"))
    } else if !type_absent {
        Ok(extract(extract(extract(res, "result"), "result"), "value"))
    } else {
        Ok(extract(res, "result"))
    }
}

/// What a frame read from the pipe asks of the dispatch loop.
#[derive(Debug, PartialEq)]
pub enum Frame {
    /// The page target that this session controls went away.
    TargetDestroyed,
    /// A message relayed from a target whose session is not this one.
    ForeignSession,
    /// A message relayed from this session: the JSON text it carries.
    Relayed(String),
    /// Anything else.
    Other,
}

/// How a frame is sorted, for the session's target and session ids.
pub open spec fn frame_is(msg: Json, target: Seq<char>, session: Seq<char>, r: Frame) -> bool {
    let method = msg.member("method"@);
    let params = msg.member("params"@);
    if method.is_text("Target.targetDestroyed"@) {
        if params.member("targetId"@).is_text(target) {
            r is TargetDestroyed
        } else {
            r is Other
        }
    } else if method.is_text("Target.receivedMessageFromTarget"@) {
        if !params.member("sessionId"@).is_text(session) {
            r is ForeignSession
        } else {
            match params.member("message"@).text() {
                Some(t) => r matches Frame::Relayed(s) && s@ == t,
                None => r is Other,
            }
        }
    } else {
        r is Other
    }
}

/// Sorts a frame read from the pipe.
pub fn classify_frame(msg: &Json, target: &str, session: &str) -> (r: Frame)
    ensures
        frame_is(*msg, target@, session@, r),
{
    let top = Some(msg);
    let method = descend(top, "method");
    let params = descend(top, "params");
    if text_is(method, "Target.targetDestroyed") {
        if text_is(descend(params, "targetId"), target) {
            Frame::TargetDestroyed
        } else {
            Frame::Other
        }
    } else if text_is(method, "Target.receivedMessageFromTarget") {
        if !text_is(descend(params, "sessionId"), session) {
            Frame::ForeignSession
        } else {
            match descend(params, "message") {
                Some(m) => match m.as_text() {
                    Some(t) => Frame::Relayed(t.clone()),
                    None => Frame::Other,
                },
                None => Frame::Other,
            }
        }
    } else {
        Frame::Other
    }
}

/// What a message relayed from this session's target asks of the dispatch loop.
#[derive(Debug, PartialEq)]
pub enum Relayed {
    /// Console output or an uncaught exception of the page, for the log.
    Diagnostic(Json),
    /// A page script called a binding: its name, the JSON text of the call and
    /// the execution context that the call came from.
    BindingCalled { name: String, payload: String, context_id: i64 },
    /// The reply to the request with this id, and what it stands for.
    Reply { id: i64, outcome: Result<Json, Json> },
    /// Anything else.
    Other,
}

/// Whether a relayed message is an event rather than a reply.
pub open spec fn is_event(res: Json) -> bool {
    res.member("id"@) is Null
}

/// How a relayed message is sorted.
pub open spec fn relayed_is(res: Json, r: Relayed) -> bool {
    let method = res.member("method"@);
    let params = res.member("params"@);
    if is_event(res) && (method.is_text("Runtime.consoleAPICalled"@) || method.is_text(
        "Runtime.exceptionThrown"@,
    )) {
        r == Relayed::Diagnostic(res)
    } else if is_event(res) && method.is_text("Runtime.bindingCalled"@) {
        match (
            params.member("name"@).text(),
            params.member("payload"@).text(),
            params.member("executionContextId"@).integer(),
        ) {
            (Some(n), Some(p), Some(c)) => r matches Relayed::BindingCalled {
                name,
                payload,
                context_id,
            } && name@ == n && payload@ == p && context_id == c,
            _ => r is Other,
        }
    } else {
        match res.member("id"@).integer() {
            Some(id) => r == Relayed::Reply { id, outcome: outcome_of(res) },
            None => r is Other,
        }
    }
}

/// Sorts a message relayed from this session's target.
pub fn classify_relayed(res: Json) -> (r: Relayed)
    ensures
        relayed_is(res, r),
{
    let top = Some(&res);
    let event = null_or_absent(descend(top, "id"));
    let method = descend(top, "method");
    if event && (text_is(method, "Runtime.consoleAPICalled") || text_is(
        method,
        "Runtime.exceptionThrown",
    )) {
        return Relayed::Diagnostic(res);
    }
    if event && text_is(method, "Runtime.bindingCalled") {
        let params = descend(top, "params");
        let name = descend(params, "name");
        let payload = descend(params, "payload");
        let context = descend(params, "executionContextId");
        return match (name, payload, context) {
            (Some(n), Some(p), Some(c)) => match (n.as_text(), p.as_text(), c.as_int()) {
                (Some(n), Some(p), Some(c)) => Relayed::BindingCalled {
                    name: n.clone(),
                    payload: p.clone(),
                    context_id: c,
                },
                _ => Relayed::Other,
            },
            _ => Relayed::Other,
        };
    }
    let id = match descend(top, "id") {
        Some(v) => v.as_int(),
        None => None,
    };
    match id {
        Some(id) => Relayed::Reply { id, outcome: reply_outcome(res) },
        None => Relayed::Other,
    }
}

/// The id of the page target that a frame announces, if it announces one.
pub open spec fn announced_page(msg: Json) -> Option<Seq<char>> {
    let info = msg.member("params"@).member("targetInfo"@);
    if msg.member("method"@).is_text("Target.targetCreated"@) && info.member("type"@).is_text(
        "page"@,
    ) {
        info.member("targetId"@).text()
    } else {
        None
    }
}

/// The id of the page target that a frame announces, if it announces one.
pub fn discovered_page(msg: &Json) -> (r: Option<String>)
    ensures
        match r {
            Some(t) => announced_page(*msg) == Some(t@),
            None => announced_page(*msg) is None,
        },
{
    let top = Some(msg);
    let info = descend(descend(top, "params"), "targetInfo");
    if text_is(descend(top, "method"), "Target.targetCreated") && text_is(
        descend(info, "type"),
        "page",
    ) {
        match descend(info, "targetId") {
            Some(t) => match t.as_text() {
                Some(t) => Some(t.clone()),
                None => None,
            },
            None => None,
        }
    } else {
        None
    }
}

/// What the reply to the attach request says: the session id, or the error of
/// the protocol (null where the result holds no session id); `None` for a
/// frame that is no such reply.
pub open spec fn attach_answer(msg: Json) -> Option<Result<Seq<char>, Json>> {
    if msg.member("id"@).integer() == Some(1i64) {
        if !(msg.member("error"@) is Null) {
            Some(Err(msg.member("error"@)))
        } else {
            match msg.member("result"@).member("sessionId"@).text() {
                Some(s) => Some(Ok(s)),
                None => Some(Err(Json::Null)),
            }
        }
    } else {
        None
    }
}

/// Reads the reply to the attach request out of a frame.
pub fn attach_reply(msg: Json) -> (r: Option<Result<String, Json>>)
    ensures
        match r {
            Some(Ok(s)) => attach_answer(msg) == Some(Ok::<Seq<char>, Json>(s@)),
            Some(Err(e)) => attach_answer(msg) == Some(Err::<Seq<char>, Json>(e)),
            None => attach_answer(msg) is None,
        },
{
    let top = Some(&msg);
    let id = match descend(top, "id") {
        Some(v) => v.as_int(),
        None => None,
    };
    match id {
        Some(1) => {
            if !null_or_absent(descend(top, "error")) {
                return Some(Err(extract(msg, "error")));
            }
            match descend(descend(top, "result"), "sessionId") {
                Some(s) => match s.as_text() {
                    Some(s) => Some(Ok(s.clone())),
                    None => Some(Err(Json::Null)),
                },
                None => Some(Err(Json::Null)),
            }
        },
        _ => None,
    }
}

/// An object of one member.
pub fn object1(k1: &str, v1: Json) -> (r: Json)
    ensures
        keys_are(r, seq![k1@]),
        r.member(k1@) == v1,
{
    let mut es: Vec<(String, Json)> = Vec::new();
    es.push((k1.to_owned(), v1));
    let r = Json::Object(es);
    proof {
        assert(es@.drop_last().len() == 0);
    }
    r
}

/// An object of two members with distinct keys.
pub fn object2(k1: &str, v1: Json, k2: &str, v2: Json) -> (r: Json)
    requires
        k1@ != k2@,
    ensures
        keys_are(r, seq![k1@, k2@]),
        r.member(k1@) == v1,
        r.member(k2@) == v2,
{
    let mut es: Vec<(String, Json)> = Vec::new();
    es.push((k1.to_owned(), v1));
    es.push((k2.to_owned(), v2));
    let r = Json::Object(es);
    proof {
        let s = es@;
        assert(s.drop_last().drop_last().len() == 0);
        assert(entry_of(s, k1@) == entry_of(s.drop_last(), k1@));
    }
    r
}

/// An object of three members with distinct keys.
pub fn object3(k1: &str, v1: Json, k2: &str, v2: Json, k3: &str, v3: Json) -> (r: Json)
    requires
        k1@ != k2@,
        k1@ != k3@,
        k2@ != k3@,
    ensures
        keys_are(r, seq![k1@, k2@, k3@]),
        r.member(k1@) == v1,
        r.member(k2@) == v2,
        r.member(k3@) == v3,
{
    let mut es: Vec<(String, Json)> = Vec::new();
    es.push((k1.to_owned(), v1));
    es.push((k2.to_owned(), v2));
    es.push((k3.to_owned(), v3));
    let r = Json::Object(es);
    proof {
        let s = es@;
        assert(s.drop_last().drop_last().drop_last().len() == 0);
        assert(entry_of(s, k1@) == entry_of(s.drop_last(), k1@));
        assert(entry_of(s.drop_last(), k1@) == entry_of(s.drop_last().drop_last(), k1@));
        assert(entry_of(s, k2@) == entry_of(s.drop_last(), k2@));
    }
    r
}

/// Whether `r` is the request `{"id": id, "method": method, "params": params}`.
pub open spec fn is_request(r: Json, id: i64, method: Seq<char>, params: Json) -> bool {
    &&& keys_are(r, seq!["id"@, "method"@, "params"@])
    &&& r.member("id"@) == Json::Int(id)
    &&& r.member("method"@).is_text(method)
    &&& r.member("params"@) == params
}

/// The request `{"id": id, "method": method, "params": params}`.
pub fn request(id: i64, method: &str, params: Json) -> (r: Json)
    ensures
        is_request(r, id, method@, params),
{
    proof {
        reveal_strlit("id");
        reveal_strlit("method");
        reveal_strlit("params");
        assert("id"@.len() != "params"@.len());
        assert("method"@[0] != "params"@[0]);
        assert("id"@.len() != "method"@.len());
    }
    object3("id", Json::Int(id), "method", Json::Str(method.to_owned()), "params", params)
}

/// Whether `r` carries a request to a target: the request `id` of the method
/// `Target.sendMessageToTarget`, whose parameters hold the text of the inner
/// request as `message` and the session id as `sessionId`.
pub open spec fn is_relay(r: Json, id: i64, inner: Seq<char>, session: Seq<char>) -> bool {
    let params = r.member("params"@);
    &&& is_request(r, id, "Target.sendMessageToTarget"@, params)
    &&& keys_are(params, seq!["message"@, "sessionId"@])
    &&& params.member("message"@).is_text(inner)
    &&& params.member("sessionId"@).is_text(session)
}

/// The envelope that carries the text of a request to the target of a session.
pub fn relay(id: i64, inner: String, session: &str) -> (r: Json)
    ensures
        is_relay(r, id, inner@, session@),
{
    proof {
        reveal_strlit("message");
        reveal_strlit("sessionId");
        assert("message"@.len() != "sessionId"@.len());
    }
    let params = object2("message", Json::Str(inner), "sessionId", Json::Str(session.to_owned()));
    request(id, "Target.sendMessageToTarget", params)
}

/// The text of the request, relayed to the session's target, that calls
/// `method` with `params` under the id `id`.
pub open spec fn is_call_text(t: Seq<char>, id: i64, method: Seq<char>, params: Json, session: Seq<char>) -> bool {
    exists|outer: Json, inner: Json|
        #![trigger json_text(outer), json_text(inner)]
        {
            &&& t == json_text(outer)
            &&& is_relay(outer, id, json_text(inner), session)
            &&& is_request(inner, id, method, params)
        }
}

/// The text of the request, relayed to the session's target, that calls
/// `method` with `params` under the id `id`.
pub fn call_text(id: i64, method: &str, params: Json, session: &str) -> (r: String)
    ensures
        is_call_text(r@, id, method@, params, session@),
{
    let inner = request(id, method, params);
    let inner_text = inner.to_text();
    let outer = relay(id, inner_text, session);
    let r = outer.to_text();
    assert(is_relay(outer, id, json_text(inner), session@));
    r
}

/// Whether `r` is the request that asks the browser to report its targets.
pub open spec fn is_discover(r: Json) -> bool {
    let params = r.member("params"@);
    &&& is_request(r, 0, "Target.setDiscoverTargets"@, params)
    &&& keys_are(params, seq!["discover"@])
    &&& params.member("discover"@) == Json::Bool(true)
}

/// The request, under the reserved id 0, that asks the browser to report its
/// targets.
pub fn discover_request() -> (r: Json)
    ensures
        is_discover(r),
{
    request(0, "Target.setDiscoverTargets", object1("discover", Json::Bool(true)))
}

/// Whether `r` is the request that attaches a session to the target `target`.
pub open spec fn is_attach(r: Json, target: Seq<char>) -> bool {
    let params = r.member("params"@);
    &&& is_request(r, 1, "Target.attachToTarget"@, params)
    &&& keys_are(params, seq!["targetId"@])
    &&& params.member("targetId"@).is_text(target)
}

/// The request, under the reserved id 1, that attaches a session to a target.
pub fn attach_request(target: &str) -> (r: Json)
    ensures
        is_attach(r, target@),
{
    request(1, "Target.attachToTarget", object1("targetId", Json::Str(target.to_owned())))
}

/// What one frame read during the handshake gives.
#[derive(Debug, PartialEq)]
pub enum Awaited<T> {
    /// The answer that the handshake waits for.
    Found(T),
    /// A frame that is not the answer: read on.
    Skip,
    /// A frame that holds no JSON document: the browser is taken for gone.
    Broken,
}

/// Reads a frame while waiting for the browser to announce a page target.
pub fn read_discovery(text: &str) -> (r: Awaited<String>)
    ensures
        match json_parse(text@) {
            None => r is Broken,
            Some(msg) => match announced_page(msg) {
                Some(t) => r matches Awaited::Found(s) && s@ == t,
                None => r is Skip,
            },
        },
{
    match Json::parse(text) {
        None => Awaited::Broken,
        Some(msg) => match discovered_page(&msg) {
            Some(t) => Awaited::Found(t),
            None => Awaited::Skip,
        },
    }
}

/// Reads a frame while waiting for the reply to the attach request.
pub fn read_attach(text: &str) -> (r: Awaited<Result<String, Json>>)
    ensures
        match json_parse(text@) {
            None => r is Broken,
            Some(msg) => match attach_answer(msg) {
                Some(Ok(s)) => r matches Awaited::Found(Ok(t)) && t@ == s,
                Some(Err(e)) => r == Awaited::Found(Err::<String, Json>(e)),
                None => r is Skip,
            },
        },
{
    match Json::parse(text) {
        None => Awaited::Broken,
        Some(msg) => match attach_reply(msg) {
            Some(a) => Awaited::Found(a),
            None => Awaited::Skip,
        },
    }
}

/// The error that a handshake step gives when the pipe ends or breaks before
/// its answer came: `{"error": <what failed>}`.
pub fn handshake_failure(what: &str) -> (r: Json)
    ensures
        keys_are(r, seq!["error"@]),
        r.member("error"@).is_text(what@),
{
    object1("error", Json::Str(what.to_owned()))
}

} // verus!
