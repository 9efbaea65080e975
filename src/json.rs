use vstd::prelude::*;

verus! {

#[verifier::external_type_specification]
#[verifier::external_body]
pub struct ExJsonValue(serde_json::Value);

/// A JSON document as plain values. A number keeps its text.
pub enum Json {
    Null,
    Bool(bool),
    Number(String),
    Str(String),
    Array(Vec<Json>),
    Object(Vec<(String, Json)>),
}

/// The document that a JSON text denotes; `None` where the text is not JSON.
pub uninterp spec fn json_of(text: Seq<char>) -> Option<Json>;

/// Relies on serde_json::from_str (into serde_json::Value) to parse a JSON
/// text: whether the text is accepted, and the document it gives, depend on
/// the text alone. The error holds serde_json's message.
#[verifier::external_body]
pub(crate) fn parse_json(text: &str) -> (r: Result<Json, String>)
    ensures
        r is Ok <==> json_of(text@) is Some,
        r is Ok ==> json_of(text@) == Some(r->Ok_0),
{
    match serde_json::from_str::<serde_json::Value>(text) {
        Ok(v) => Ok(Json::from_value(v)),
        Err(e) => Err(e.to_string()),
    }
}

impl Json {
    /// Moves a parsed serde_json document into the plain representation,
    /// variant by variant.
    #[verifier::external_body]
    fn from_value(v: serde_json::Value) -> Json {
        match v {
            serde_json::Value::Null => Json::Null,
            serde_json::Value::Bool(b) => Json::Bool(b),
            serde_json::Value::Number(n) => Json::Number(n.to_string()),
            serde_json::Value::String(s) => Json::Str(s),
            serde_json::Value::Array(a) => Json::Array(a.into_iter().map(Json::from_value).collect()),
            serde_json::Value::Object(m) => Json::Object(
                m.into_iter().map(|(k, x)| (k, Json::from_value(x))).collect(),
            ),
        }
    }
}

/// The value of the first entry named `key`.
pub open spec fn lookup(entries: Seq<(String, Json)>, key: Seq<char>) -> Option<Json>
    decreases entries.len(),
{
    if entries.len() == 0 {
        None
    } else if entries[0].0@ == key {
        Some(entries[0].1)
    } else {
        lookup(entries.drop_first(), key)
    }
}

/// The member `key` of an object; `None` for a missing member or another kind of value.
pub open spec fn field(j: Json, key: Seq<char>) -> Option<Json> {
    match j {
        Json::Object(entries) => lookup(entries@, key),
        _ => None,
    }
}

/// The element `i` of an array; `None` out of range or for another kind of value.
pub open spec fn element(j: Json, i: int) -> Option<Json> {
    match j {
        Json::Array(items) => if 0 <= i < items@.len() {
            Some(items@[i])
        } else {
            None
        },
        _ => None,
    }
}

/// The member `key` of an object.
pub fn get_field<'a>(j: &'a Json, key: &str) -> (r: Option<&'a Json>)
    ensures
        match field(*j, key@) {
            Some(v) => r is Some && *r->Some_0 == v,
            None => r is None,
        },
{
    match j {
        Json::Object(entries) => {
            let k = String::from_str(key);
            let mut i: usize = 0;
            assert(entries@.skip(0) =~= entries@);
            while i < entries.len()
                invariant
                    k@ == key@,
                    *j == Json::Object(*entries),
                    i <= entries@.len(),
                    lookup(entries@.skip(i as int), key@) == lookup(entries@, key@),
                decreases entries@.len() - i,
            {
                assert(entries@.skip(i as int).drop_first() =~= entries@.skip(i + 1));
                assert(entries@.skip(i as int)[0] == entries@[i as int]);
                let same = entries[i].0.eq(&k);
                if same {
                    assert(entries@[i as int].0@ == key@);
                    return Some(&entries[i].1);
                }
                i = i + 1;
            }
            None
        },
        _ => None,
    }
}

/// The element `i` of an array.
pub fn get_element<'a>(j: &'a Json, i: usize) -> (r: Option<&'a Json>)
    ensures
        match element(*j, i as int) {
            Some(v) => r is Some && *r->Some_0 == v,
            None => r is None,
        },
{
    match j {
        Json::Array(items) => if i < items.len() {
            Some(&items[i])
        } else {
            None
        },
        _ => None,
    }
}

} // verus!
