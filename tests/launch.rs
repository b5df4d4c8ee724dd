use alcro::builder::{Content, UIBuilder};
use alcro::commands::{
    LoadStep, StyleSheetLoad,
    bounds_of, close_browser, enable_commands, evaluate, frame_id_of, load_script_commands, navigate,
    set_window_bounds, style_sheet_id_of, window_id_of,
};
use alcro::json::Json;
use alcro::window::{Bounds, WindowState};

fn parse(t: &str) -> Json {
    Json::parse(t).expect("valid JSON")
}

#[test]
fn window_state_alone_as_bounds() {
    let b = WindowState::Maximized.to_bounds();
    assert_eq!(
        b,
        Bounds { left: 0, top: 0, width: 0, height: 0, window_state: WindowState::Maximized }
    );
}

#[test]
fn bounds_to_and_from_json() {
    let b = Bounds { left: 10, top: -20, width: 800, height: 600, window_state: WindowState::Normal };
    assert_eq!(b.to_json().to_text(), r#"{"height":600,"left":10,"top":-20,"width":800,"windowState":"normal"}"#);
    assert_eq!(Bounds::from_json(&b.to_json()), Some(b));
    let read = bounds_of(&parse(r#"{"bounds":{"left":1,"top":2,"width":3,"height":4,"windowState":"fullscreen"}}"#));
    assert_eq!(read, Some(Bounds { left: 1, top: 2, width: 3, height: 4, window_state: WindowState::Fullscreen }));
    assert_eq!(bounds_of(&parse(r#"{"bounds":{"left":1}}"#)), None);
    assert_eq!(bounds_of(&parse(r#"{"bounds":{"left":1,"top":2,"width":3,"height":4294967296,"windowState":"normal"}}"#)), None);
}

#[test]
fn set_bounds_sends_state_alone_unless_normal() {
    let minimized = set_window_bounds(3, WindowState::Minimized.to_bounds());
    assert_eq!(minimized.method, "Browser.setWindowBounds");
    assert_eq!(minimized.params.to_text(), r#"{"bounds":{"windowState":"minimized"},"windowId":3}"#);
    let normal = set_window_bounds(3, Bounds { left: 1, top: 2, width: 3, height: 4, window_state: WindowState::Normal });
    assert_eq!(
        normal.params.to_text(),
        r#"{"bounds":{"height":4,"left":1,"top":2,"width":3,"windowState":"normal"},"windowId":3}"#
    );
}

#[test]
fn host_commands() {
    let n = navigate("https://example.com");
    assert_eq!(n.method, "Page.navigate");
    assert_eq!(n.params.to_text(), r#"{"url":"https://example.com"}"#);
    let e = evaluate("1+1");
    assert_eq!(e.params.to_text(), r#"{"awaitPromise":true,"expression":"1+1","returnByValue":true}"#);
    assert_eq!(close_browser().params.to_text(), "{}");
    let js = load_script_commands("f()");
    assert_eq!(js.len(), 2);
    assert_eq!(js[0].params.to_text(), r#"{"source":"f()"}"#);
    assert_eq!(frame_id_of(&parse(r#"{"frameTree":{"frame":{"id":"F1"}}}"#)), Some("F1".to_string()));
    assert_eq!(frame_id_of(&parse(r#"{"frameTree":{}}"#)), None);
    assert_eq!(style_sheet_id_of(&parse(r#"{"styleSheetId":"7.1"}"#)), Some("7.1".to_string()));
    assert_eq!(window_id_of(&parse(r#"{"windowId":12}"#)), Some(12));
    assert_eq!(window_id_of(&parse(r#"{"windowId":"12"}"#)), None);
}

#[test]
fn enable_list_is_fixed() {
    let cs = enable_commands();
    let methods: Vec<&str> = cs.iter().map(|c| c.method.as_str()).collect();
    assert_eq!(
        methods,
        vec![
            "Page.enable",
            "Target.setAutoAttach",
            "Network.enable",
            "Runtime.enable",
            "Security.enable",
            "Performance.enable",
            "Log.enable",
            "DOM.enable",
            "CSS.enable"
        ]
    );
    assert_eq!(cs[1].params.to_text(), r#"{"autoAttach":true,"waitForDebuggerOnStart":false}"#);
    assert_eq!(cs[0].params, Json::Null);
}

#[test]
fn builder_defaults() {
    let b = UIBuilder::new();
    assert_eq!(b.get_content(), Content::Html(""));
    assert_eq!(b.get_browser_path(), None);
    assert_eq!(b.get_user_data_dir(), None);
    let args = b.launch_args("/tmp/d");
    assert_eq!(args.len(), 27);
    assert_eq!(args[0], "--disable-background-networking");
    assert_eq!(args[24], "--user-data-dir=/tmp/d");
    assert_eq!(args[25], "--remote-debugging-pipe");
    assert_eq!(args[26], "--app=data:text/html,");
}

#[test]
fn builder_with_size_url_and_headless() {
    let custom = ["--headless", "--mute-audio"];
    let mut b = UIBuilder::new();
    b.content(Content::Url("https://example.com")).size(1024, 768).custom_args(&custom).browser_path("/usr/bin/chromium");
    b.user_data_dir("/data");
    assert_eq!(b.get_browser_path(), Some("/usr/bin/chromium"));
    assert_eq!(b.get_user_data_dir(), Some("/data"));
    let args = b.launch_args("/data");
    assert_eq!(
        &args[24..],
        &[
            "--user-data-dir=/data".to_string(),
            "--window-size=1024,768".to_string(),
            "--headless".to_string(),
            "--mute-audio".to_string(),
            "--remote-debugging-pipe".to_string(),
            "https://example.com".to_string(),
        ][..]
    );
}

#[test]
fn size_with_a_zero_side_is_left_out() {
    let mut b = UIBuilder::new();
    b.size(0, 768).content(Content::Html("<b>x</b>"));
    let args = b.launch_args("d");
    assert_eq!(args.len(), 27);
    assert_eq!(args[26], "--app=data:text/html,<b>x</b>");
    let kiosk = ["--kiosk"];
    b.custom_args(&kiosk).size(7, 9);
    let args = b.launch_args("d");
    assert_eq!(args[25], "--window-size=7,9");
    assert_eq!(args[28], "data:text/html,<b>x</b>");
}

#[test]
fn style_sheet_load_follows_results() {
    let (mut load, first) = StyleSheetLoad::start("T1", "body {}");
    assert_eq!(first.method, "Page.getFrameTree");
    assert_eq!(first.params.to_text(), r#"{"targetId":"T1"}"#);
    let second = match load.step(Ok(parse(r#"{"frameTree":{"frame":{"id":"F1"}}}"#))) {
        LoadStep::Call(c) => c,
        other => panic!("unexpected {:?}", other),
    };
    assert_eq!(second.method, "CSS.createStyleSheet");
    assert_eq!(second.params.to_text(), r#"{"frameId":"F1"}"#);
    let third = match load.step(Ok(parse(r#"{"styleSheetId":"S7"}"#))) {
        LoadStep::Call(c) => c,
        other => panic!("unexpected {:?}", other),
    };
    assert_eq!(third.method, "CSS.setStyleSheetText");
    assert_eq!(third.params.to_text(), r#"{"styleSheetId":"S7","text":"body {}"}"#);
    assert_eq!(load.step(Ok(Json::Object(vec![]))), LoadStep::Finished);
    assert_eq!(load.step(Ok(Json::Null)), LoadStep::Finished);
}

#[test]
fn style_sheet_load_stops_at_first_failure() {
    let (mut load, _) = StyleSheetLoad::start("T1", "x");
    assert_eq!(load.step(Err(Json::Str("no page".to_string()))), LoadStep::Failed(Json::Str("no page".to_string())));
    assert_eq!(load.step(Ok(Json::Null)), LoadStep::Finished);
    let (mut load, _) = StyleSheetLoad::start("T1", "x");
    let tree = parse(r#"{"frameTree":{}}"#);
    assert_eq!(load.step(Ok(parse(r#"{"frameTree":{}}"#))), LoadStep::Failed(tree));
}

#[test]
fn default_builder_is_new() {
    let b = UIBuilder::default();
    assert_eq!(b.get_content(), Content::Html(""));
    assert_eq!(b.launch_args("d").len(), 27);
}
