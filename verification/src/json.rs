//! JSON text at the edge of the gateway: reading the members of an object
//! and writing string literals.
use vstd::prelude::*;
use vstd::string::*;
use crate::text::str_eq;

verus! {

/// The value of one member of a JSON object, as far as the gateway reads it.
#[derive(Clone, Debug, PartialEq, Eq)]
pub enum JsonField {
    Null,
    Bool(bool),
    /// A number, with its value where it is an integer that fits `i64`.
    Number(Option<i64>),
    Text(String),
    Array,
    /// A nested object, as JSON text.
    Object(String),
}

pub enum JsonFieldView {
    Null,
    Bool(bool),
    Number(Option<i64>),
    Text(Seq<char>),
    Array,
    Object(Seq<char>),
}

impl View for JsonField {
    type V = JsonFieldView;

    open spec fn view(&self) -> JsonFieldView {
        match self {
            JsonField::Null => JsonFieldView::Null,
            JsonField::Bool(b) => JsonFieldView::Bool(*b),
            JsonField::Number(n) => JsonFieldView::Number(*n),
            JsonField::Text(s) => JsonFieldView::Text(s@),
            JsonField::Array => JsonFieldView::Array,
            JsonField::Object(s) => JsonFieldView::Object(s@),
        }
    }
}

/// The members of an object: names with their values.
pub type Members = Seq<(Seq<char>, JsonFieldView)>;

pub open spec fn members_view(v: Seq<(String, JsonField)>) -> Members {
    Seq::new(v.len(), |i: int| (v[i].0@, v[i].1@))
}

pub open spec fn members_result_view(r: Result<Vec<(String, JsonField)>, String>) -> Result<
    Members,
    Seq<char>,
> {
    match r {
        Ok(v) => Ok(members_view(v@)),
        Err(e) => Err(e@),
    }
}

/// What `serde_json` reads from a text taken as a JSON object: its members,
/// or the parser's message when the text is no JSON object.
pub uninterp spec fn json_members(text: Seq<char>) -> Result<Members, Seq<char>>;

/// What `serde_json` writes for a string: the JSON string literal, quoted and
/// escaped.
pub uninterp spec fn json_quoted(text: Seq<char>) -> Seq<char>;

/// Calls `serde_json::from_str` for a `serde_json::Map` and hands out each
/// member as a plain value (`Number::as_i64` for numbers, the JSON text of a
/// nested object). The contract only names the result: the same text always
/// gives the same members or the same message.
#[verifier::external_body]
pub(crate) fn json_object_members(text: &str) -> (r: Result<Vec<(String, JsonField)>, String>)
    ensures
        members_result_view(r) == json_members(text@),
{
    match serde_json::from_str::<serde_json::Map<String, serde_json::Value>>(text) {
        Ok(map) => Ok(map.into_iter().map(|(k, v)| (k, match v {
            serde_json::Value::Null => JsonField::Null,
            serde_json::Value::Bool(b) => JsonField::Bool(b),
            serde_json::Value::Number(n) => JsonField::Number(n.as_i64()),
            serde_json::Value::String(s) => JsonField::Text(s),
            serde_json::Value::Array(_) => JsonField::Array,
            serde_json::Value::Object(o) => JsonField::Object(serde_json::Value::Object(o).to_string()),
        })).collect()),
        Err(e) => Err(e.to_string()),
    }
}

/// Calls `serde_json::to_string` on a string slice. The contract only names
/// the result: the literal depends on the text alone.
#[verifier::external_body]
pub(crate) fn json_string(text: &str) -> (r: String)
    ensures
        r@ == json_quoted(text@),
{
    serde_json::to_string(text).unwrap_or_default()
}

/// The first member named `key` at or after position `from`.
pub open spec fn member_from(ms: Members, key: Seq<char>, from: int) -> Option<JsonFieldView>
    decreases ms.len() - from,
{
    if from < 0 || from >= ms.len() {
        None
    } else if ms[from].0 == key {
        Some(ms[from].1)
    } else {
        member_from(ms, key, from + 1)
    }
}

/// The first member named `key`.
pub open spec fn member(ms: Members, key: Seq<char>) -> Option<JsonFieldView> {
    member_from(ms, key, 0)
}

/// Looks a member up by name.
pub fn find_member<'a>(members: &'a Vec<(String, JsonField)>, key: &str) -> (r: Option<
    &'a JsonField,
>)
    ensures
        match r {
            Some(f) => member(members_view(members@), key@) == Some(f@),
            None => member(members_view(members@), key@) is None,
        },
{
    let mut i: usize = 0;
    while i < members.len()
        invariant
            i <= members.len(),
            member(members_view(members@), key@) == member_from(
                members_view(members@),
                key@,
                i as int,
            ),
        decreases members.len() - i,
    {
        if str_eq(members[i].0.as_str(), key) {
            return Some(&members[i].1);
        }
        i += 1;
    }
    None
}

/// A member that must be a string.
pub open spec fn text_member(ms: Members, key: Seq<char>) -> Option<Seq<char>> {
    match member(ms, key) {
        Some(JsonFieldView::Text(s)) => Some(s),
        _ => None,
    }
}

/// A member that must be an integer in the range of `i32`.
pub open spec fn i32_member(ms: Members, key: Seq<char>) -> Option<i32> {
    match member(ms, key) {
        Some(JsonFieldView::Number(Some(n))) => if i32::MIN <= n <= i32::MAX {
            Some(n as i32)
        } else {
            None
        },
        _ => None,
    }
}

/// Reads a string member; `None` when it is missing or no string.
pub fn get_text(members: &Vec<(String, JsonField)>, key: &str) -> (r: Option<String>)
    ensures
        crate::models::text_of(r) == text_member(members_view(members@), key@),
{
    match find_member(members, key) {
        Some(JsonField::Text(s)) => Some(s.clone()),
        _ => None,
    }
}

/// Reads an integer member; `None` when it is missing, no integer, or out of
/// the range of `i32`.
pub fn get_i32(members: &Vec<(String, JsonField)>, key: &str) -> (r: Option<i32>)
    ensures
        r == i32_member(members_view(members@), key@),
{
    match find_member(members, key) {
        Some(JsonField::Number(Some(n))) => {
            if -2147483648 <= *n && *n <= 2147483647 {
                Some(*n as i32)
            } else {
                None
            }
        },
        _ => None,
    }
}

} // verus!
