use crate::types::{ParseErrorKind, ParseFault, ParseInsError};
use vstd::prelude::*;

verus! {

/// A JSON document as a mathematical value. Of a number only what the
/// instruction-set description can use is kept: its value where it is a
/// non-negative integer below 2^64.
pub enum Json {
    Null,
    Bool(bool),
    Number(Option<u64>),
    String(Seq<char>),
    Array(Seq<Json>),
    Object(Seq<(Seq<char>, Json)>),
}

/// A JSON document held in memory. The members of an object keep the order
/// in which the document's reader hands them out.
#[derive(Debug)]
pub enum JsonValue {
    Null,
    Bool(bool),
    Number(Option<u64>),
    String(String),
    Array(Vec<JsonValue>),
    Object(Vec<(String, JsonValue)>),
}

/// The document that a value in memory holds.
pub open spec fn document_of(value: JsonValue) -> Json
    decreases value,
{
    match value {
        JsonValue::Null => Json::Null,
        JsonValue::Bool(b) => Json::Bool(b),
        JsonValue::Number(n) => Json::Number(n),
        JsonValue::String(s) => Json::String(s@),
        JsonValue::Array(items) => Json::Array(
            Seq::new(
                items@.len(),
                |i: int|
                    if 0 <= i < items@.len() {
                        document_of(items@[i])
                    } else {
                        Json::Null
                    },
            ),
        ),
        JsonValue::Object(members) => Json::Object(
            Seq::new(
                members@.len(),
                |i: int|
                    if 0 <= i < members@.len() {
                        (members@[i].0@, document_of(members@[i].1))
                    } else {
                        (Seq::empty(), Json::Null)
                    },
            ),
        ),
    }
}

impl View for JsonValue {
    type V = Json;

    open spec fn view(&self) -> Json {
        document_of(*self)
    }
}

/// The members of an object in memory, as the object's view holds them.
pub open spec fn holds_members(
    members: Seq<(String, JsonValue)>,
    m: Seq<(Seq<char>, Json)>,
) -> bool {
    &&& m.len() == members.len()
    &&& forall|k: int| 0 <= k < m.len() ==> #[trigger] m[k] == (members[k].0@, members[k].1@)
}

/// The elements of an array in memory, as the array's view holds them.
pub open spec fn holds_items(items: Seq<JsonValue>, a: Seq<Json>) -> bool {
    &&& a.len() == items.len()
    &&& forall|k: int| 0 <= k < a.len() ==> #[trigger] a[k] == items[k]@
}

/// The view of an object holds the views of its members, in order.
pub proof fn lemma_view_object(value: JsonValue)
    requires
        value is Object,
    ensures
        value@ is Object,
        holds_members(value->Object_0@, value@->Object_0),
{
    reveal_with_fuel(document_of, 2);
}

/// The view of an array holds the views of its elements, in order.
pub proof fn lemma_view_array(value: JsonValue)
    requires
        value is Array,
    ensures
        value@ is Array,
        holds_items(value->Array_0@, value@->Array_0),
{
    reveal_with_fuel(document_of, 2);
}

/// `serde_json::Value`: a document as the reader of JSON text hands it out.
/// Nothing inside it is seen; `value_model` names what it holds.
#[verifier::external_type_specification]
#[verifier::external_body]
pub struct ExValue(serde_json::Value);

/// `serde_json::Error`: why a text is no JSON document. Nothing of it is read.
#[verifier::external_type_specification]
#[verifier::external_body]
pub struct ExError(serde_json::Error);

/// `serde_json::Map`: the members of an object. Nothing inside it is seen;
/// `map_members` names what it holds.
#[verifier::external_type_specification]
#[verifier::external_body]
#[verifier::reject_recursive_types(K)]
#[verifier::reject_recursive_types(V)]
pub struct ExMap<K, V>(serde_json::Map<K, V>);

/// The document that a `serde_json::Value` holds.
pub uninterp spec fn value_model(v: serde_json::Value) -> Json;

/// The members that a `serde_json::Map` holds, in the order in which its
/// iterator yields them.
pub uninterp spec fn map_members(m: serde_json::Map<String, serde_json::Value>) -> Seq<
    (Seq<char>, Json),
>;

/// The document that `serde_json::from_str` reads from a text, or `None`
/// where it reports an error.
pub uninterp spec fn json_text_value(text: Seq<char>) -> Option<Json>;

/// `Value::as_bool` hands out the boolean of a `Bool` and nothing of any
/// other value.
pub assume_specification[ serde_json::Value::as_bool ](v: &serde_json::Value) -> (r: Option<bool>)
    ensures
        r == (match value_model(*v) {
            Json::Bool(b) => Some(b),
            _ => None,
        }),
;

/// `Value::is_number` tells a `Number` from every other value.
pub assume_specification[ serde_json::Value::is_number ](v: &serde_json::Value) -> (r: bool)
    ensures
        r == (value_model(*v) is Number),
;

/// `Value::as_u64` hands out a number that is a non-negative integer below
/// 2^64, and nothing of a negative or fractional number or of another value.
pub assume_specification[ serde_json::Value::as_u64 ](v: &serde_json::Value) -> (r: Option<u64>)
    ensures
        r == (match value_model(*v) {
            Json::Number(n) => n,
            _ => None,
        }),
;

/// `Value::as_str` hands out the text of a `String` and nothing of any other
/// value.
pub assume_specification<'a>[ serde_json::Value::as_str ](v: &'a serde_json::Value) -> (r: Option<
    &'a str,
>)
    ensures
        match r {
            Some(s) => value_model(*v) == Json::String(s@),
            None => !(value_model(*v) is String),
        },
;

/// `Value::as_array` hands out the elements of an `Array`, in order, and
/// nothing of any other value.
pub assume_specification<'a>[ serde_json::Value::as_array ](v: &'a serde_json::Value) -> (r: Option<
    &'a Vec<serde_json::Value>,
>)
    ensures
        match r {
            Some(items) => {
                &&& value_model(*v) is Array
                &&& items@.len() == value_model(*v)->Array_0.len()
                &&& forall|i: int|
                    0 <= i < items@.len() ==> value_model(#[trigger] items@[i]) == value_model(
                        *v,
                    )->Array_0[i]
            },
            None => !(value_model(*v) is Array),
        },
;

/// `Value::as_object` hands out the map of an `Object` and nothing of any
/// other value.
pub assume_specification<'a>[ serde_json::Value::as_object ](v: &'a serde_json::Value) -> (r:
    Option<&'a serde_json::Map<String, serde_json::Value>>)
    ensures
        match r {
            Some(m) => value_model(*v) == Json::Object(map_members(*m)),
            None => !(value_model(*v) is Object),
        },
;

/// Calls `Map::iter` and collects what it yields: each member of the map
/// once, as a reference to its key and one to its value.
#[verifier::external_body]
fn map_entries<'a>(m: &'a serde_json::Map<String, serde_json::Value>) -> (r: Vec<
    (&'a String, &'a serde_json::Value),
>)
    ensures
        r@.len() == map_members(*m).len(),
        forall|i: int|
            0 <= i < r@.len() ==> (#[trigger] r@[i]).0@ == map_members(*m)[i].0 && value_model(
                *r@[i].1,
            ) == map_members(*m)[i].1,
{
    m.iter().collect()
}

/// Calls `serde_json::from_str` for a `Value`. What it returns depends on the
/// text alone.
#[verifier::external_body]
fn value_from_str(text: &str) -> (r: Result<serde_json::Value, serde_json::Error>)
    ensures
        match r {
            Ok(v) => json_text_value(text@) == Some(value_model(v)),
            Err(_) => json_text_value(text@) is None,
        },
{
    serde_json::from_str(text)
}

impl JsonValue {
    /// Copies a document out of a `serde_json::Value`.
    pub fn from_value(v: &serde_json::Value) -> (r: JsonValue)
        ensures
            r@ == value_model(*v),
        decreases value_model(*v),
    {
        if let Some(b) = v.as_bool() {
            JsonValue::Bool(b)
        } else if v.is_number() {
            JsonValue::Number(v.as_u64())
        } else if let Some(s) = v.as_str() {
            JsonValue::String(s.to_owned())
        } else if let Some(items) = v.as_array() {
            let ghost model = value_model(*v)->Array_0;
            let mut out: Vec<JsonValue> = Vec::new();
            let mut i: usize = 0;
            while i < items.len()
                invariant
                    i <= items@.len(),
                    value_model(*v) == Json::Array(model),
                    items@.len() == model.len(),
                    forall|k: int|
                        0 <= k < items@.len() ==> value_model(#[trigger] items@[k]) == model[k],
                    out@.len() == i,
                    forall|k: int| 0 <= k < i ==> (#[trigger] out@[k])@ == model[k],
                decreases items@.len() - i,
            {
                assert(value_model(items@[i as int]) == value_model(*v)->Array_0[i as int]);
                let item = JsonValue::from_value(&items[i]);
                out.push(item);
                i = i + 1;
            }
            let r = JsonValue::Array(out);
            assert(r@->Array_0 =~= model);
            r
        } else if let Some(m) = v.as_object() {
            let ghost model = map_members(*m);
            let entries = map_entries(m);
            let mut out: Vec<(String, JsonValue)> = Vec::new();
            let mut i: usize = 0;
            while i < entries.len()
                invariant
                    i <= entries@.len(),
                    value_model(*v) == Json::Object(model),
                    entries@.len() == model.len(),
                    forall|k: int|
                        0 <= k < entries@.len() ==> (#[trigger] entries@[k]).0@ == model[k].0
                            && value_model(*entries@[k].1) == model[k].1,
                    out@.len() == i,
                    forall|k: int|
                        0 <= k < i ==> (#[trigger] out@[k]).0@ == model[k].0 && out@[k].1@
                            == model[k].1,
                decreases entries@.len() - i,
            {
                let key: String = entries[i].0.clone();
                assert(value_model(*entries@[i as int].1) == value_model(*v)->Object_0[i as int].1);
                let value = JsonValue::from_value(entries[i].1);
                out.push((key, value));
                i = i + 1;
            }
            let r = JsonValue::Object(out);
            assert(r@->Object_0 =~= model);
            r
        } else {
            JsonValue::Null
        }
    }
}

/// Reads a JSON document from a text.
pub fn parse_json(text: &str) -> (r: Result<JsonValue, ParseInsError>)
    ensures
        match r {
            Ok(v) => json_text_value(text@) == Some(v@),
            Err(e) => json_text_value(text@) is None && e@ == ParseFault::of(
                ParseErrorKind::Syntax,
            ),
        },
{
    match value_from_str(text) {
        Ok(v) => Ok(JsonValue::from_value(&v)),
        Err(_) => Err(ParseInsError::new(ParseErrorKind::Syntax)),
    }
}

} // verus!
