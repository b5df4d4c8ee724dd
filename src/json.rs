//! A JSON document model that the protocol logic reads and builds, with
//! parsing and encoding done by serde_json.
use vstd::prelude::*;

verus! {

/// A JSON value.
#[derive(Debug, PartialEq)]
pub enum Json {
    Null,
    Bool(bool),
    /// A number that is an integer in the range of `i64`.
    Int(i64),
    /// Any other number, in the decimal text that serde_json writes for it;
    /// a text that is no JSON number is encoded as null.
    Num(String),
    Str(String),
    Array(Vec<Json>),
    /// The members of an object, in order; where a key repeats, the last wins.
    Object(Vec<(String, Json)>),
}

/// A JS object: a JSON value.
pub type JSObject = Json;

/// What serde_json parses from a text, converted to `Json`; `None` where the
/// text is no JSON document.
pub uninterp spec fn json_parse(text: Seq<char>) -> Option<Json>;

/// The compact JSON text that serde_json writes for a value.
pub uninterp spec fn json_text(j: Json) -> Seq<char>;

/// The value that the last member with key `key` holds.
pub open spec fn entry_of(es: Seq<(String, Json)>, key: Seq<char>) -> Option<Json>
    decreases es.len(),
{
    if es.len() == 0 {
        None
    } else if es.last().0@ == key {
        Some(es.last().1)
    } else {
        entry_of(es.drop_last(), key)
    }
}

/// Whether two texts hold the same characters.
pub fn same_text(a: &str, b: &str) -> (r: bool)
    ensures
        r == (a@ == b@),
{
    let x = a.to_owned();
    let y = b.to_owned();
    x == y
}

impl Json {
    /// The member `key` of an object; `None` for an absent key or a value
    /// that is no object.
    pub open spec fn field(self, key: Seq<char>) -> Option<Json> {
        match self {
            Json::Object(es) => entry_of(es@, key),
            _ => None,
        }
    }

    /// The member `key`, or null where there is none.
    pub open spec fn member(self, key: Seq<char>) -> Json {
        match self.field(key) {
            Some(v) => v,
            None => Json::Null,
        }
    }

    /// The characters of a string value.
    pub open spec fn text(self) -> Option<Seq<char>> {
        match self {
            Json::Str(s) => Some(s@),
            _ => None,
        }
    }

    /// Whether this value is the string `t`.
    pub open spec fn is_text(self, t: Seq<char>) -> bool {
        self.text() == Some(t)
    }

    /// The integer that this value holds.
    pub open spec fn integer(self) -> Option<i64> {
        match self {
            Json::Int(n) => Some(n),
            _ => None,
        }
    }

    /// The member `key` of an object.
    pub fn get(&self, key: &str) -> (r: Option<&Json>)
        ensures
            match r {
                Some(v) => self.field(key@) == Some(*v),
                None => self.field(key@) is None,
            },
    {
        match self {
            Json::Object(es) => {
                let mut i: usize = es.len();
                assert(es@.subrange(0, i as int) =~= es@);
                while i > 0
                    invariant
                        i <= es.len(),
                        self.field(key@) == entry_of(es@, key@),
                        entry_of(es@, key@) == entry_of(es@.subrange(0, i as int), key@),
                    decreases i,
                {
                    proof {
                        assert(es@.subrange(0, i as int).drop_last() =~= es@.subrange(
                            0,
                            i - 1,
                        ));
                    }
                    i = i - 1;
                    if same_text(es[i].0.as_str(), key) {
                        assert(es@.subrange(0, i + 1).last() == es@[i as int]);
                        return Some(&es[i].1);
                    }
                }
                assert(es@.subrange(0, 0).len() == 0);
                None
            },
            _ => None,
        }
    }

    /// Moves the member `key` out of an object.
    pub fn take(self, key: &str) -> (r: Option<Json>)
        ensures
            r == self.field(key@),
    {
        match self {
            Json::Object(es) => {
                let ghost all = es@;
                assert(self.field(key@) == entry_of(all, key@));
                let mut es = es;
                let mut i: usize = es.len();
                assert(all.subrange(0, i as int) =~= all);
                while i > 0
                    invariant
                        i <= es.len(),
                        es@ == all,
                        self.field(key@) == entry_of(all, key@),
                        entry_of(all, key@) == entry_of(all.subrange(0, i as int), key@),
                    decreases i,
                {
                    proof {
                        assert(all.subrange(0, i as int).drop_last() =~= all.subrange(0, i - 1));
                    }
                    i = i - 1;
                    if same_text(es[i].0.as_str(), key) {
                        assert(all.subrange(0, i + 1).last() == all[i as int]);
                        let (_, v) = es.remove(i);
                        return Some(v);
                    }
                }
                assert(all.subrange(0, 0).len() == 0);
                None
            },
            _ => None,
        }
    }

    /// The characters of a string value.
    pub fn as_text(&self) -> (r: Option<&String>)
        ensures
            match r {
                Some(s) => self.text() == Some(s@),
                None => self.text() is None,
            },
    {
        match self {
            Json::Str(s) => Some(s),
            _ => None,
        }
    }

    /// Whether this value is the string `t`.
    pub fn holds_text(&self, t: &str) -> (r: bool)
        ensures
            r == self.is_text(t@),
    {
        match self {
            Json::Str(s) => same_text(s.as_str(), t),
            _ => false,
        }
    }

    /// The integer that this value holds.
    pub fn as_int(&self) -> (r: Option<i64>)
        ensures
            r == self.integer(),
    {
        match self {
            Json::Int(n) => Some(*n),
            _ => None,
        }
    }

    /// Whether this value is null.
    pub fn is_null(&self) -> (r: bool)
        ensures
            r == (*self is Null),
    {
        match self {
            Json::Null => true,
            _ => false,
        }
    }
}

#[verifier::external_type_specification]
#[verifier::external_body]
pub struct ExValue(serde_json::Value);

/// Converts a serde_json value, member by member, into a `Json`: a number
/// that serde_json holds as an `i64` becomes `Int`, any other keeps its text.
#[verifier::external_body]
fn from_value(v: serde_json::Value) -> Json {
    match v {
        serde_json::Value::Null => Json::Null,
        serde_json::Value::Bool(b) => Json::Bool(b),
        serde_json::Value::Number(n) => match n.as_i64() {
            Some(i) => Json::Int(i),
            None => Json::Num(n.to_string()),
        },
        serde_json::Value::String(s) => Json::Str(s),
        serde_json::Value::Array(a) => Json::Array(a.into_iter().map(from_value).collect()),
        serde_json::Value::Object(o) => Json::Object(o.into_iter().map(|(k, v)| (k, from_value(v))).collect()),
    }
}

/// Converts a `Json`, member by member, into a serde_json value; a `Num`
/// whose text serde_json does not read as a number becomes null.
#[verifier::external_body]
fn to_value(j: &Json) -> serde_json::Value {
    match j {
        Json::Null => serde_json::Value::Null,
        Json::Bool(b) => serde_json::Value::Bool(*b),
        Json::Int(i) => serde_json::Value::from(*i),
        Json::Num(t) => t.parse::<serde_json::Number>().map_or(serde_json::Value::Null, serde_json::Value::Number),
        Json::Str(s) => serde_json::Value::String(s.clone()),
        Json::Array(a) => serde_json::Value::Array(a.iter().map(to_value).collect()),
        Json::Object(o) => serde_json::Value::Object(o.iter().map(|(k, v)| (k.clone(), to_value(v))).collect()),
    }
}

/// Relies on serde_json::from_str: the document that a text holds, which
/// depends on the text alone.
#[verifier::external_body]
fn parse_text(text: &str) -> (r: Option<Json>)
    ensures
        r == json_parse(text@),
{
    serde_json::from_str::<serde_json::Value>(text).ok().map(from_value)
}

/// Relies on serde_json::Value's `to_string`: its compact JSON text, which
/// depends on the value alone.
#[verifier::external_body]
fn encode_text(j: &Json) -> (r: String)
    ensures
        r@ == json_text(*j),
{
    to_value(j).to_string()
}

impl Json {
    /// Parses a JSON text; `None` where it holds no JSON document.
    pub fn parse(text: &str) -> (r: Option<Json>)
        ensures
            r == json_parse(text@),
    {
        parse_text(text)
    }

    /// The compact JSON text of this value.
    pub fn to_text(&self) -> (r: String)
        ensures
            r@ == json_text(*self),
    {
        encode_text(self)
    }
}

} // verus!
