//! The size, position and state of the browser window.
use vstd::prelude::*;
use crate::json::Json;
use crate::protocol::{descend, text_is, object1, keys_are};

verus! {

/// The state of the window.
#[derive(Debug, PartialEq, Eq, Hash, Clone, Copy, Structural)]
pub enum WindowState {
    Normal,
    Maximized,
    Minimized,
    Fullscreen,
}

/// The size, position and state of the browser window.
#[derive(Debug, PartialEq, Eq, Hash, Clone, Copy, Structural)]
pub struct Bounds {
    /// x coordinate of the window
    pub left: i32,
    /// y coordinate of the window
    pub top: i32,
    /// width of the window
    pub width: i32,
    /// height of the window
    pub height: i32,
    pub window_state: WindowState,
}

/// The name of a window state in the protocol.
pub open spec fn state_name(s: WindowState) -> Seq<char> {
    match s {
        WindowState::Normal => "normal"@,
        WindowState::Maximized => "maximized"@,
        WindowState::Minimized => "minimized"@,
        WindowState::Fullscreen => "fullscreen"@,
    }
}

/// The window state that a protocol value names.
pub open spec fn state_named(j: Json) -> Option<WindowState> {
    if j.is_text("normal"@) {
        Some(WindowState::Normal)
    } else if j.is_text("maximized"@) {
        Some(WindowState::Maximized)
    } else if j.is_text("minimized"@) {
        Some(WindowState::Minimized)
    } else if j.is_text("fullscreen"@) {
        Some(WindowState::Fullscreen)
    } else {
        None
    }
}

/// Whether `j` is the protocol object of the bounds `b`.
pub open spec fn is_bounds_object(j: Json, b: Bounds) -> bool {
    &&& keys_are(j, seq!["left"@, "top"@, "width"@, "height"@, "windowState"@])
    &&& j.member("left"@) == Json::Int(b.left as i64)
    &&& j.member("top"@) == Json::Int(b.top as i64)
    &&& j.member("width"@) == Json::Int(b.width as i64)
    &&& j.member("height"@) == Json::Int(b.height as i64)
    &&& j.member("windowState"@).is_text(state_name(b.window_state))
}

/// The bounds that a protocol object describes, where each member is there
/// and in range.
pub open spec fn bounds_described(j: Json) -> Option<Bounds> {
    let l = j.member("left"@).integer();
    let t = j.member("top"@).integer();
    let w = j.member("width"@).integer();
    let h = j.member("height"@).integer();
    let s = state_named(j.member("windowState"@));
    if l is Some && t is Some && w is Some && h is Some && s is Some && fits(l->0) && fits(t->0)
        && fits(w->0) && fits(h->0) {
        Some(
            Bounds {
                left: l->0 as i32,
                top: t->0 as i32,
                width: w->0 as i32,
                height: h->0 as i32,
                window_state: s->0,
            },
        )
    } else {
        None
    }
}

/// Whether an integer fits in an `i32`.
pub open spec fn fits(n: i64) -> bool {
    i32::MIN <= n <= i32::MAX
}

impl WindowState {
    /// Bounds that carry this state alone, with every number zero.
    pub fn to_bounds(self) -> (r: Bounds)
        ensures
            r == (Bounds { left: 0, top: 0, width: 0, height: 0, window_state: self }),
    {
        Bounds { height: 0, width: 0, top: 0, left: 0, window_state: self }
    }

    /// The name of this state in the protocol.
    pub fn name(self) -> (r: &'static str)
        ensures
            r@ == state_name(self),
    {
        match self {
            WindowState::Normal => "normal",
            WindowState::Maximized => "maximized",
            WindowState::Minimized => "minimized",
            WindowState::Fullscreen => "fullscreen",
        }
    }

    /// The state that a protocol value names.
    pub fn from_json(j: Option<&Json>) -> (r: Option<WindowState>)
        ensures
            r == state_named(crate::protocol::or_null(j)),
    {
        if text_is(j, "normal") {
            Some(WindowState::Normal)
        } else if text_is(j, "maximized") {
            Some(WindowState::Maximized)
        } else if text_is(j, "minimized") {
            Some(WindowState::Minimized)
        } else if text_is(j, "fullscreen") {
            Some(WindowState::Fullscreen)
        } else {
            None
        }
    }

    /// The object that asks for this state alone.
    pub fn to_json(self) -> (r: Json)
        ensures
            keys_are(r, seq!["windowState"@]),
            r.member("windowState"@).is_text(state_name(self)),
    {
        object1("windowState", Json::Str(self.name().to_owned()))
    }
}

/// An integer member of a value, where it fits in an `i32`.
fn small_int(j: Option<&Json>) -> (r: Option<i32>)
    ensures
        match crate::protocol::or_null(j).integer() {
            Some(n) => if fits(n) {
                r == Some(n as i32)
            } else {
                r is None
            },
            None => r is None,
        },
{
    match j {
        Some(v) => match v.as_int() {
            Some(n) => if i32::MIN as i64 <= n && n <= i32::MAX as i64 {
                Some(n as i32)
            } else {
                None
            },
            None => None,
        },
        None => None,
    }
}

impl Bounds {
    /// The protocol object of these bounds.
    pub fn to_json(&self) -> (r: Json)
        ensures
            is_bounds_object(r, *self),
    {
        let mut es: Vec<(String, Json)> = Vec::new();
        es.push(("left".to_owned(), Json::Int(self.left as i64)));
        es.push(("top".to_owned(), Json::Int(self.top as i64)));
        es.push(("width".to_owned(), Json::Int(self.width as i64)));
        es.push(("height".to_owned(), Json::Int(self.height as i64)));
        es.push(("windowState".to_owned(), Json::Str(self.window_state.name().to_owned())));
        let r = Json::Object(es);
        proof {
            reveal_strlit("left");
            reveal_strlit("top");
            reveal_strlit("width");
            reveal_strlit("height");
            reveal_strlit("windowState");
            let s = es@;
            let s4 = s.drop_last();
            let s3 = s4.drop_last();
            let s2 = s3.drop_last();
            let s1 = s2.drop_last();
            assert(s1.drop_last().len() == 0);
            assert("left"@.len() == 4 && "top"@.len() == 3 && "width"@.len() == 5);
            assert("height"@.len() == 6 && "windowState"@.len() == 11);
            assert(crate::json::entry_of(s, "left"@) == crate::json::entry_of(s4, "left"@));
            assert(crate::json::entry_of(s4, "left"@) == crate::json::entry_of(s3, "left"@));
            assert(crate::json::entry_of(s3, "left"@) == crate::json::entry_of(s2, "left"@));
            assert(crate::json::entry_of(s2, "left"@) == crate::json::entry_of(s1, "left"@));
            assert(crate::json::entry_of(s, "top"@) == crate::json::entry_of(s4, "top"@));
            assert(crate::json::entry_of(s4, "top"@) == crate::json::entry_of(s3, "top"@));
            assert(crate::json::entry_of(s3, "top"@) == crate::json::entry_of(s2, "top"@));
            assert(crate::json::entry_of(s, "width"@) == crate::json::entry_of(s4, "width"@));
            assert(crate::json::entry_of(s4, "width"@) == crate::json::entry_of(s3, "width"@));
            assert(crate::json::entry_of(s, "height"@) == crate::json::entry_of(s4, "height"@));
        }
        r
    }

    /// The bounds that a protocol object describes.
    pub fn from_json(j: &Json) -> (r: Option<Bounds>)
        ensures
            r == bounds_described(*j),
    {
        let top = Some(j);
        let l = small_int(descend(top, "left"));
        let t = small_int(descend(top, "top"));
        let w = small_int(descend(top, "width"));
        let h = small_int(descend(top, "height"));
        let s = WindowState::from_json(descend(top, "windowState"));
        match (l, t, w, h, s) {
            (Some(left), Some(top), Some(width), Some(height), Some(window_state)) => Some(
                Bounds { left, top, width, height, window_state },
            ),
            _ => None,
        }
    }
}

} // verus!
