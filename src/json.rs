//! A JSON value as the protocol readers see it, and the lookups they use.
use vstd::prelude::*;

verus! {

/// A parsed JSON document. Numbers keep their decimal text; objects keep
/// their members in the order the parser handed them out (keys are unique).
#[derive(Debug, PartialEq, Eq)]
pub enum Json {
    Null,
    Bool(bool),
    Number(String),
    Str(String),
    Array(Vec<Json>),
    Object(Vec<(String, Json)>),
}

/// The value that `line` parses to as one JSON document, if it is one.
pub uninterp spec fn json_parse(line: Seq<char>) -> Option<Json>;

/// First member named `key` in a list of object members.
pub open spec fn lookup(entries: Seq<(String, Json)>, key: Seq<char>) -> Option<Json>
    decreases entries.len(),
{
    if entries.len() == 0 {
        None
    } else if entries[0].0@ == key {
        Some(entries[0].1)
    } else {
        lookup(entries.drop_first(), key)
    }
}

/// The member `key` of `j`; `None` when `j` is not an object or has no such member.
pub open spec fn member(j: Json, key: Seq<char>) -> Option<Json> {
    match j {
        Json::Object(entries) => lookup(entries@, key),
        _ => None,
    }
}

/// The text of member `key` of `j`, when that member is a JSON string.
pub open spec fn member_str(j: Json, key: Seq<char>) -> Option<Seq<char>> {
    match member(j, key) {
        Some(Json::Str(s)) => Some(s@),
        _ => None,
    }
}

/// Character-wise equality of two strings.
pub fn str_eq(a: &str, b: &str) -> (r: bool)
    ensures
        r == (a@ == b@),
{
    let n = a.unicode_len();
    if n != b.unicode_len() {
        return false;
    }
    let mut i: usize = 0;
    while i < n
        invariant
            n == a@.len(),
            n == b@.len(),
            i <= n,
            forall|k: int| 0 <= k < i ==> a@[k] == b@[k],
        decreases n - i,
    {
        if a.get_char(i) != b.get_char(i) {
            return false;
        }
        i = i + 1;
    }
    assert(a@ =~= b@);
    true
}

impl Json {
    /// The member named `key`, as `serde_json`'s `Value::get` with a string key.
    pub fn get(&self, key: &str) -> (r: Option<&Json>)
        ensures
            match r {
                Some(v) => member(*self, key@) == Some(*v),
                None => member(*self, key@) is None,
            },
    {
        match self {
            Json::Object(entries) => {
                let mut i: usize = 0;
                assert(entries@.subrange(0, entries@.len() as int) =~= entries@);
                while i < entries.len()
                    invariant
                        i <= entries@.len(),
                        member(*self, key@) == lookup(entries@, key@),
                        lookup(entries@, key@) == lookup(entries@.subrange(i as int, entries@.len() as int), key@),
                    decreases entries@.len() - i,
                {
                    let ghost rest = entries@.subrange(i as int, entries@.len() as int);
                    assert(rest[0] == entries@[i as int]);
                    if str_eq(entries[i].0.as_str(), key) {
                        assert(rest.len() > 0 && rest[0].0@ == key@);
                        assert(lookup(rest, key@) == Some(rest[0].1));
                        return Some(&entries[i].1);
                    }
                    assert(rest.drop_first() =~= entries@.subrange(i + 1, entries@.len() as int));
                    i = i + 1;
                }
                None
            },
            _ => None,
        }
    }

    /// The text of this value when it is a string.
    pub fn as_str(&self) -> (r: Option<&String>)
        ensures
            match r {
                Some(s) => *self == Json::Str(*s),
                None => !(*self is Str),
            },
    {
        match self {
            Json::Str(s) => Some(s),
            _ => None,
        }
    }

    /// The document `text` holds, if it is one JSON document.
    pub fn parse(text: &str) -> (r: Option<Json>)
        ensures
            r == json_parse(text@),
    {
        parse_json(text)
    }

    /// The text of member `key` when it is a string.
    pub fn get_str(&self, key: &str) -> (r: Option<&String>)
        ensures
            match r {
                Some(s) => member_str(*self, key@) == Some(s@),
                None => member_str(*self, key@) is None,
            },
    {
        match self.get(key) {
            Some(v) => v.as_str(),
            None => None,
        }
    }
}

/// The serde_json value declared so that the parser wrapper can hand it on.
#[verifier::external_type_specification]
#[verifier::external_body]
pub struct ExJsonValue(serde_json::Value);

/// Moves a `serde_json::Value` into the library's own `Json`, variant by variant.
#[verifier::external_body]
fn from_serde_value(v: serde_json::Value) -> Json {
    match v {
        serde_json::Value::Null => Json::Null,
        serde_json::Value::Bool(b) => Json::Bool(b),
        serde_json::Value::Number(n) => Json::Number(n.to_string()),
        serde_json::Value::String(s) => Json::Str(s),
        serde_json::Value::Array(a) => Json::Array(a.into_iter().map(from_serde_value).collect()),
        serde_json::Value::Object(m) => Json::Object(
            m.into_iter().map(|(k, x)| (k, from_serde_value(x))).collect(),
        ),
    }
}

/// Relies on serde_json::from_str: the document a line holds, or `None` when
/// the line is not one JSON document; the outcome depends on the text alone.
#[verifier::external_body]
pub(crate) fn parse_json(line: &str) -> (r: Option<Json>)
    ensures
        r == json_parse(line@),
{
    serde_json::from_str::<serde_json::Value>(line).ok().map(from_serde_value)
}

} // verus!
