//! JSON documents as the services read them, parsed with `serde_json`.
//! Numbers are kept as what the services ask of them: their value as an
//! `i64`, when they are integers in range.
use vstd::prelude::*;

verus! {

/// A parsed JSON value. Object members keep the order `serde_json` gives
/// them (its default map sorts keys).
#[derive(Debug)]
pub enum JsonValue {
    Null,
    Bool(bool),
    Number(Option<i64>),
    Text(String),
    Array(Vec<JsonValue>),
    Object(Vec<(String, JsonValue)>),
}

/// The mathematical value of a JSON document.
pub enum JsonModel {
    Null,
    Bool(bool),
    Number(Option<i64>),
    Text(Seq<char>),
    Array(Seq<JsonModel>),
    Object(Seq<(Seq<char>, JsonModel)>),
}

pub open spec fn json_view(v: JsonValue) -> JsonModel
    decreases v,
{
    match v {
        JsonValue::Null => JsonModel::Null,
        JsonValue::Bool(b) => JsonModel::Bool(b),
        JsonValue::Number(n) => JsonModel::Number(n),
        JsonValue::Text(s) => JsonModel::Text(s@),
        JsonValue::Array(items) => JsonModel::Array(
            Seq::new(
                items@.len(),
                |i: int|
                    if 0 <= i < items@.len() {
                        json_view(items@[i])
                    } else {
                        JsonModel::Null
                    },
            ),
        ),
        JsonValue::Object(members) => JsonModel::Object(
            Seq::new(
                members@.len(),
                |i: int|
                    if 0 <= i < members@.len() {
                        (members@[i].0@, json_view(members@[i].1))
                    } else {
                        (Seq::empty(), JsonModel::Null)
                    },
            ),
        ),
    }
}

/// Declares `serde_json::Value`, the document tree that `serde_json::from_str` builds;
/// verified code never reads inside it, the converter below turns it into the library's own tree.
#[verifier::external_type_specification]
#[verifier::external_body]
pub struct ExJsonValue(serde_json::Value);

/// What `serde_json::from_str::<serde_json::Value>` gives for a text, as a
/// model: `None` when the text is not a JSON document.
pub uninterp spec fn json_document(text: Seq<char>) -> Option<JsonModel>;

/// Parses a JSON document with `serde_json::from_str`; the result is named
/// by `json_document`.
#[verifier::external_body]
pub(crate) fn parse_json(text: &str) -> (r: Option<JsonValue>)
    ensures
        match r {
            Some(v) => json_document(text@) == Some(json_view(v)),
            None => json_document(text@) is None,
        },
{
    serde_json::from_str::<serde_json::Value>(text).ok().map(from_serde)
}

/// Converts a `serde_json::Value` node by node; numbers keep
/// `Number::as_i64`.
#[verifier::external_body]
fn from_serde(v: serde_json::Value) -> JsonValue {
    match v {
        serde_json::Value::Null => JsonValue::Null,
        serde_json::Value::Bool(b) => JsonValue::Bool(b),
        serde_json::Value::Number(n) => JsonValue::Number(n.as_i64()),
        serde_json::Value::String(s) => JsonValue::Text(s),
        serde_json::Value::Array(items) => JsonValue::Array(items.into_iter().map(from_serde).collect()),
        serde_json::Value::Object(m) => JsonValue::Object(m.into_iter().map(|(k, x)| (k, from_serde(x))).collect()),
    }
}

/// The value of the member named `key`, the first one when repeated.
pub open spec fn member_spec(members: Seq<(Seq<char>, JsonModel)>, key: Seq<char>) -> Option<JsonModel>
    decreases members.len(),
{
    if members.len() == 0 {
        None
    } else if members[0].0 == key {
        Some(members[0].1)
    } else {
        member_spec(members.drop_first(), key)
    }
}

/// `Value::get(key)`: the member of an object, `None` for other values.
pub open spec fn get_spec(v: JsonModel, key: Seq<char>) -> Option<JsonModel> {
    match v {
        JsonModel::Object(members) => member_spec(members, key),
        _ => None,
    }
}

/// `Value::as_str` of an optional value.
pub open spec fn text_of(v: Option<JsonModel>) -> Option<Seq<char>> {
    match v {
        Some(JsonModel::Text(s)) => Some(s),
        _ => None,
    }
}

/// `Value::as_i64` of an optional value.
pub open spec fn int_of(v: Option<JsonModel>) -> Option<i64> {
    match v {
        Some(JsonModel::Number(n)) => n,
        _ => None,
    }
}

/// The member named `key` of an object value.
pub fn get_member<'a>(v: &'a JsonValue, key: &str) -> (r: Option<&'a JsonValue>)
    ensures
        match r {
            Some(x) => get_spec(json_view(*v), key@) == Some(json_view(*x)),
            None => get_spec(json_view(*v), key@) is None,
        },
{
    match v {
        JsonValue::Object(members) => {
            let n: usize = members.len();
            let ghost model = json_view(*v)->Object_0;
            assert(model.len() == n);
            let mut i: usize = 0;
            assert(model.subrange(0, n as int) =~= model);
            while i < n
                invariant
                    0 <= i <= n,
                    n == members@.len(),
                    model.len() == n,
                    json_view(*v) == JsonModel::Object(model),
                    forall|k: int|
                        0 <= k < n ==> #[trigger] model[k] == (members@[k].0@, json_view(members@[k].1)),
                    member_spec(model, key@) == member_spec(model.subrange(i as int, n as int), key@),
                decreases n - i,
            {
                let ghost rest = model.subrange(i as int, n as int);
                assert(rest[0] == model[i as int]);
                assert(rest.drop_first() =~= model.subrange(i + 1, n as int));
                if crate::text::str_equal(members[i].0.as_str(), key) {
                    assert(model[i as int] == (members@[i as int].0@, json_view(members@[i as int].1)));
                    assert(member_spec(rest, key@) == Some(rest[0].1));
                    return Some(&members[i].1);
                }
                i = i + 1;
            }
            None
        },
        _ => None,
    }
}

/// The text of an optional value, when it is a string.
pub fn as_text(v: Option<&JsonValue>) -> (r: Option<&str>)
    ensures
        r matches Some(s) ==> text_of(
            match v {
                Some(x) => Some(json_view(*x)),
                None => None,
            },
        ) == Some(s@),
        r is None ==> text_of(
            match v {
                Some(x) => Some(json_view(*x)),
                None => None,
            },
        ) is None,
{
    match v {
        Some(JsonValue::Text(s)) => Some(s.as_str()),
        _ => None,
    }
}

/// The integer of an optional value, when it is a number that fits `i64`.
pub fn as_int(v: Option<&JsonValue>) -> (r: Option<i64>)
    ensures
        r == int_of(
            match v {
                Some(x) => Some(json_view(*x)),
                None => None,
            },
        ),
{
    match v {
        Some(JsonValue::Number(n)) => *n,
        _ => None,
    }
}

} // verus!
