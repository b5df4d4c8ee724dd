//! The protocol commands that the host operations are made of, and what is
//! read back out of their results.
use vstd::prelude::*;
use crate::json::Json;
use crate::protocol::{descend, object1, object2, object3, keys_are, or_null};
use crate::window::{Bounds, WindowState, is_bounds_object, bounds_described, fits};

verus! {

/// A protocol method with its parameters.
#[derive(Debug, PartialEq)]
pub struct Command {
    pub method: String,
    pub params: Json,
}

/// A command.
pub fn command(method: &str, params: Json) -> (r: Command)
    ensures
        r.method@ == method@,
        r.params == params,
{
    Command { method: method.to_owned(), params }
}

/// Navigates the page to `url`.
pub fn navigate(url: &str) -> (r: Command)
    ensures
        r.method@ == "Page.navigate"@,
        keys_are(r.params, seq!["url"@]),
        r.params.member("url"@).is_text(url@),
{
    command("Page.navigate", object1("url", Json::Str(url.to_owned())))
}

/// Evaluates `expression` in the page, awaiting a promise it gives and
/// returning the result by value.
pub fn evaluate(expression: &str) -> (r: Command)
    ensures
        r.method@ == "Runtime.evaluate"@,
        keys_are(r.params, seq!["expression"@, "awaitPromise"@, "returnByValue"@]),
        r.params.member("expression"@).is_text(expression@),
        r.params.member("awaitPromise"@) == Json::Bool(true),
        r.params.member("returnByValue"@) == Json::Bool(true),
{
    proof {
        reveal_strlit("expression");
        reveal_strlit("awaitPromise");
        reveal_strlit("returnByValue");
        assert("expression"@.len() == 10 && "awaitPromise"@.len() == 12);
        assert("returnByValue"@.len() == 13);
    }
    command(
        "Runtime.evaluate",
        object3(
            "expression",
            Json::Str(expression.to_owned()),
            "awaitPromise",
            Json::Bool(true),
            "returnByValue",
            Json::Bool(true),
        ),
    )
}

/// Adds `source` to the scripts that run in every new document.
pub fn add_script(source: &str) -> (r: Command)
    ensures
        r.method@ == "Page.addScriptToEvaluateOnNewDocument"@,
        keys_are(r.params, seq!["source"@]),
        r.params.member("source"@).is_text(source@),
{
    command("Page.addScriptToEvaluateOnNewDocument", object1("source", Json::Str(source.to_owned())))
}

/// Exposes the low-level binding `name` to page script.
pub fn add_binding(name: &str) -> (r: Command)
    ensures
        r.method@ == "Runtime.addBinding"@,
        keys_are(r.params, seq!["name"@]),
        r.params.member("name"@).is_text(name@),
{
    command("Runtime.addBinding", object1("name", Json::Str(name.to_owned())))
}

/// Asks for the frame tree of the target `target`.
pub fn frame_tree(target: &str) -> (r: Command)
    ensures
        r.method@ == "Page.getFrameTree"@,
        keys_are(r.params, seq!["targetId"@]),
        r.params.member("targetId"@).is_text(target@),
{
    command("Page.getFrameTree", object1("targetId", Json::Str(target.to_owned())))
}

/// The id of the main frame in the result of `Page.getFrameTree`.
pub fn frame_id_of(result: &Json) -> (r: Option<String>)
    ensures
        match r {
            Some(s) => result.member("frameTree"@).member("frame"@).member("id"@).text() == Some(s@),
            None => result.member("frameTree"@).member("frame"@).member("id"@).text() is None,
        },
{
    text_copy(descend(descend(descend(Some(result), "frameTree"), "frame"), "id"))
}

/// A copy of a string value.
fn text_copy(j: Option<&Json>) -> (r: Option<String>)
    ensures
        match r {
            Some(s) => or_null(j).text() == Some(s@),
            None => or_null(j).text() is None,
        },
{
    match j {
        Some(v) => match v.as_text() {
            Some(s) => Some(s.clone()),
            None => None,
        },
        None => None,
    }
}

/// Creates a style sheet in the frame `frame_id`.
pub fn create_style_sheet(frame_id: &str) -> (r: Command)
    ensures
        r.method@ == "CSS.createStyleSheet"@,
        keys_are(r.params, seq!["frameId"@]),
        r.params.member("frameId"@).is_text(frame_id@),
{
    command("CSS.createStyleSheet", object1("frameId", Json::Str(frame_id.to_owned())))
}

/// The id of the style sheet in the result of `CSS.createStyleSheet`.
pub fn style_sheet_id_of(result: &Json) -> (r: Option<String>)
    ensures
        match r {
            Some(s) => result.member("styleSheetId"@).text() == Some(s@),
            None => result.member("styleSheetId"@).text() is None,
        },
{
    text_copy(descend(Some(result), "styleSheetId"))
}

/// Sets the text of the style sheet `sheet_id` to `css`.
pub fn set_style_sheet_text(sheet_id: &str, css: &str) -> (r: Command)
    ensures
        r.method@ == "CSS.setStyleSheetText"@,
        keys_are(r.params, seq!["styleSheetId"@, "text"@]),
        r.params.member("styleSheetId"@).is_text(sheet_id@),
        r.params.member("text"@).is_text(css@),
{
    proof {
        reveal_strlit("styleSheetId");
        reveal_strlit("text");
        assert("styleSheetId"@.len() != "text"@.len());
    }
    command(
        "CSS.setStyleSheetText",
        object2("styleSheetId", Json::Str(sheet_id.to_owned()), "text", Json::Str(css.to_owned())),
    )
}

/// Asks for the window of the target `target`.
pub fn window_for_target(target: &str) -> (r: Command)
    ensures
        r.method@ == "Browser.getWindowForTarget"@,
        keys_are(r.params, seq!["targetId"@]),
        r.params.member("targetId"@).is_text(target@),
{
    command("Browser.getWindowForTarget", object1("targetId", Json::Str(target.to_owned())))
}

/// The window id in the result of `Browser.getWindowForTarget`, where it is
/// an integer that fits in an `i32`.
pub fn window_id_of(result: &Json) -> (r: Option<i32>)
    ensures
        match result.member("windowId"@).integer() {
            Some(n) => if fits(n) {
                r == Some(n as i32)
            } else {
                r is None
            },
            None => r is None,
        },
{
    match descend(Some(result), "windowId") {
        Some(v) => match v.as_int() {
            Some(n) => if i32::MIN as i64 <= n && n <= i32::MAX as i64 {
                Some(n as i32)
            } else {
                None
            },
            None => None,
        },
        None => None,
    }
}

/// Asks for the bounds of the window `window`.
pub fn window_bounds(window: i32) -> (r: Command)
    ensures
        r.method@ == "Browser.getWindowBounds"@,
        keys_are(r.params, seq!["windowId"@]),
        r.params.member("windowId"@) == Json::Int(window as i64),
{
    command("Browser.getWindowBounds", object1("windowId", Json::Int(window as i64)))
}

/// The bounds in the result of `Browser.getWindowBounds`.
pub fn bounds_of(result: &Json) -> (r: Option<Bounds>)
    ensures
        r == bounds_described(result.member("bounds"@)),
{
    match descend(Some(result), "bounds") {
        Some(b) => Bounds::from_json(b),
        None => {
            assert(bounds_described(Json::Null) is None);
            None
        },
    }
}

/// Sets the bounds of the window `window`: the state alone where it is not
/// the normal one, else the position and size with it.
pub fn set_window_bounds(window: i32, b: Bounds) -> (r: Command)
    ensures
        r.method@ == "Browser.setWindowBounds"@,
        keys_are(r.params, seq!["windowId"@, "bounds"@]),
        r.params.member("windowId"@) == Json::Int(window as i64),
        b.window_state != WindowState::Normal ==> keys_are(
            r.params.member("bounds"@),
            seq!["windowState"@],
        ) && r.params.member("bounds"@).member("windowState"@).is_text(
            crate::window::state_name(b.window_state),
        ),
        b.window_state == WindowState::Normal ==> is_bounds_object(r.params.member("bounds"@), b),
{
    let bounds = if b.window_state != WindowState::Normal {
        b.window_state.to_json()
    } else {
        b.to_json()
    };
    proof {
        reveal_strlit("windowId");
        reveal_strlit("bounds");
        assert("windowId"@.len() != "bounds"@.len());
    }
    command("Browser.setWindowBounds", object2("windowId", Json::Int(window as i64), "bounds", bounds))
}

/// Asks the browser to close.
pub fn close_browser() -> (r: Command)
    ensures
        r.method@ == "Browser.close"@,
        keys_are(r.params, Seq::empty()),
{
    command("Browser.close", Json::Object(Vec::new()))
}

/// The domains that a session enables after it attached, in order: each
/// method, and the parameters of `Target.setAutoAttach`.
pub open spec fn enable_methods() -> Seq<Seq<char>> {
    seq![
        "Page.enable"@,
        "Target.setAutoAttach"@,
        "Network.enable"@,
        "Runtime.enable"@,
        "Security.enable"@,
        "Performance.enable"@,
        "Log.enable"@,
        "DOM.enable"@,
        "CSS.enable"@,
    ]
}

/// The commands that enable the domains a session uses, in order; each has
/// null parameters but `Target.setAutoAttach`, which asks to attach to new
/// targets without waiting for a debugger.
pub fn enable_commands() -> (r: Vec<Command>)
    ensures
        r@.len() == enable_methods().len(),
        forall|i: int| 0 <= i < r@.len() ==> (#[trigger] r@[i]).method@ == enable_methods()[i],
        forall|i: int| 0 <= i < r@.len() && i != 1 ==> (#[trigger] r@[i]).params == Json::Null,
        keys_are(r@[1].params, seq!["autoAttach"@, "waitForDebuggerOnStart"@]),
        r@[1].params.member("autoAttach"@) == Json::Bool(true),
        r@[1].params.member("waitForDebuggerOnStart"@) == Json::Bool(false),
{
    proof {
        reveal_strlit("autoAttach");
        reveal_strlit("waitForDebuggerOnStart");
        assert("autoAttach"@.len() != "waitForDebuggerOnStart"@.len());
    }
    let mut r: Vec<Command> = Vec::new();
    r.push(command("Page.enable", Json::Null));
    r.push(
        command(
            "Target.setAutoAttach",
            object2("autoAttach", Json::Bool(true), "waitForDebuggerOnStart", Json::Bool(false)),
        ),
    );
    r.push(command("Network.enable", Json::Null));
    r.push(command("Runtime.enable", Json::Null));
    r.push(command("Security.enable", Json::Null));
    r.push(command("Performance.enable", Json::Null));
    r.push(command("Log.enable", Json::Null));
    r.push(command("DOM.enable", Json::Null));
    r.push(command("CSS.enable", Json::Null));
    r
}

/// The script that the page runs to route calls of `window[name]` through
/// the low-level binding of that name: each call takes the next sequence
/// number, keeps its promise's resolve and reject under it, and sends
/// `{name, seq, args}` as JSON text.
pub open spec fn binding_stub(name: Seq<char>) -> Seq<char> {
    "(()=>{ const bindingName = '"@ + name + "'; const binding = window[bindingName]; window[bindingName] = async (...args) => { const me = window[bindingName]; let errors = me['errors']; let callbacks = me['callbacks']; if (!callbacks) { callbacks = new Map(); me['callbacks'] = callbacks; } if (!errors) { errors = new Map(); me['errors'] = errors; } const seq = (me['lastSeq'] || 0) + 1; me['lastSeq'] = seq; const promise = new Promise((resolve, reject) => { callbacks.set(seq, resolve); errors.set(seq, reject); }); binding(JSON.stringify({name: bindingName, seq, args})); return promise; }})();"@
}

/// The script that routes calls of `window[name]` through the binding.
pub fn stub_script(name: &str) -> (r: String)
    ensures
        r@ == binding_stub(name@),
{
    let mut s = "(()=>{ const bindingName = '".to_owned();
    s.append(name);
    s.append("'; const binding = window[bindingName]; window[bindingName] = async (...args) => { const me = window[bindingName]; let errors = me['errors']; let callbacks = me['callbacks']; if (!callbacks) { callbacks = new Map(); me['callbacks'] = callbacks; } if (!errors) { errors = new Map(); me['errors'] = errors; } const seq = (me['lastSeq'] || 0) + 1; me['lastSeq'] = seq; const promise = new Promise((resolve, reject) => { callbacks.set(seq, resolve); errors.set(seq, reject); }); binding(JSON.stringify({name: bindingName, seq, args})); return promise; }})();");
    s
}

/// The commands that register the binding `name`, in order: expose the
/// low-level binding, add the stub to every new document, and run the stub
/// in the current one.
pub fn bind_commands(name: &str) -> (r: Vec<Command>)
    ensures
        r@.len() == 3,
        r@[0].method@ == "Runtime.addBinding"@,
        keys_are(r@[0].params, seq!["name"@]),
        r@[0].params.member("name"@).is_text(name@),
        r@[1].method@ == "Page.addScriptToEvaluateOnNewDocument"@,
        r@[1].params.member("source"@).is_text(binding_stub(name@)),
        r@[2].method@ == "Runtime.evaluate"@,
        r@[2].params.member("expression"@).is_text(binding_stub(name@)),
{
    let stub = stub_script(name);
    let mut r: Vec<Command> = Vec::new();
    r.push(add_binding(name));
    r.push(add_script(stub.as_str()));
    r.push(evaluate(stub.as_str()));
    r
}

/// The commands that load `script`, in order: add it to every new document,
/// and run it in the current one.
pub fn load_script_commands(script: &str) -> (r: Vec<Command>)
    ensures
        r@.len() == 2,
        r@[0].method@ == "Page.addScriptToEvaluateOnNewDocument"@,
        r@[0].params.member("source"@).is_text(script@),
        r@[1].method@ == "Runtime.evaluate"@,
        r@[1].params.member("expression"@).is_text(script@),
{
    let mut r: Vec<Command> = Vec::new();
    r.push(add_script(script));
    r.push(evaluate(script));
    r
}

/// What to do next while loading a style sheet.
#[derive(Debug, PartialEq)]
pub enum LoadStep {
    /// Make this call and hand its result to the load.
    Call(Command),
    /// The style sheet is loaded.
    Finished,
    /// A call failed, or its result lacked what the next call needs: this
    /// error or result.
    Failed(Json),
}

/// Loading a style sheet into the page: ask for the frame tree, create a
/// style sheet in the main frame, then set its text; the first failure ends it.
#[derive(Debug)]
pub struct StyleSheetLoad {
    css: String,
    stage: u8,
}

impl StyleSheetLoad {
    /// How many results the load has taken: 0 before the frame tree, 1 before
    /// the style sheet, 2 before the text was set, 3 once it is over.
    pub closed spec fn stage(&self) -> u8 {
        self.stage
    }

    pub closed spec fn css(&self) -> Seq<char> {
        self.css@
    }

    /// Starts loading `css` into the page of the target `target`: the load,
    /// and the first call to make.
    pub fn start(target: &str, css: &str) -> (r: (StyleSheetLoad, Command))
        ensures
            r.0.stage() == 0,
            r.0.css() == css@,
            r.1.method@ == "Page.getFrameTree"@,
            keys_are(r.1.params, seq!["targetId"@]),
            r.1.params.member("targetId"@).is_text(target@),
    {
        (StyleSheetLoad { css: css.to_owned(), stage: 0 }, frame_tree(target))
    }

    /// Takes the result of the last call and says what comes next.
    pub fn step(&mut self, result: Result<Json, Json>) -> (r: LoadStep)
        ensures
            final(self).css() == old(self).css(),
            old(self).stage() >= 3 ==> r is Finished && final(self).stage() == old(self).stage(),
            old(self).stage() < 3 && result is Err ==> r == LoadStep::Failed(result->Err_0)
                && final(self).stage() == 3,
            old(self).stage() == 0 && result is Ok ==> match result->Ok_0.member("frameTree"@).member(
                "frame"@,
            ).member("id"@).text() {
                Some(f) => final(self).stage() == 1 && (r matches LoadStep::Call(c) && c.method@
                    == "CSS.createStyleSheet"@ && keys_are(c.params, seq!["frameId"@])
                    && c.params.member("frameId"@).is_text(f)),
                None => final(self).stage() == 3 && r == LoadStep::Failed(result->Ok_0),
            },
            old(self).stage() == 1 && result is Ok ==> match result->Ok_0.member(
                "styleSheetId"@,
            ).text() {
                Some(id) => final(self).stage() == 2 && (r matches LoadStep::Call(c) && c.method@
                    == "CSS.setStyleSheetText"@ && keys_are(c.params, seq!["styleSheetId"@, "text"@])
                    && c.params.member("styleSheetId"@).is_text(id) && c.params.member(
                    "text"@,
                ).is_text(old(self).css())),
                None => final(self).stage() == 3 && r == LoadStep::Failed(result->Ok_0),
            },
            old(self).stage() == 2 && result is Ok ==> r is Finished && final(self).stage() == 3,
    {
        if self.stage >= 3 {
            return LoadStep::Finished;
        }
        let value = match result {
            Ok(v) => v,
            Err(e) => {
                self.stage = 3;
                return LoadStep::Failed(e);
            },
        };
        if self.stage == 0 {
            match frame_id_of(&value) {
                Some(f) => {
                    self.stage = 1;
                    LoadStep::Call(create_style_sheet(f.as_str()))
                },
                None => {
                    self.stage = 3;
                    LoadStep::Failed(value)
                },
            }
        } else if self.stage == 1 {
            match style_sheet_id_of(&value) {
                Some(id) => {
                    self.stage = 2;
                    LoadStep::Call(set_style_sheet_text(id.as_str(), self.css.as_str()))
                },
                None => {
                    self.stage = 3;
                    LoadStep::Failed(value)
                },
            }
        } else {
            self.stage = 3;
            LoadStep::Finished
        }
    }
}

} // verus!
