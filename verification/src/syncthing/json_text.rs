//! JSON text, read by `serde_json` and taken over as a [`JsonValue`].

use vstd::prelude::*;
use super::json::{JsonModel, JsonNumber, JsonValue};

verus! {

/// A document of `serde_json`. Nothing is known of it but what the
/// functions below tell.
#[verifier::external_type_specification]
#[verifier::external_body]
pub struct ExDocument(serde_json::Value);

/// What a document of `serde_json` holds: its numbers as `serde_json` keeps
/// them (a float by its bits), the members of an object in the order in
/// which `serde_json` walks them.
pub uninterp spec fn document_model(document: serde_json::Value) -> JsonModel;

/// What `serde_json` reads from a text: the content of the document, and
/// nothing where the text is no JSON.
pub uninterp spec fn parsed_text(text: Seq<char>) -> Option<JsonModel>;

/// `serde_json::from_str` for a `serde_json::Value`: the document that the
/// text describes, or nothing where the parser reports an error.
#[verifier::external_body]
fn parse_document(text: &str) -> (r: Option<serde_json::Value>)
    ensures
        match r {
            Some(document) => parsed_text(text@) == Some(document_model(document)),
            None => parsed_text(text@) is None,
        },
{
    serde_json::from_str(text).ok()
}

/// `serde_json::Value::is_null`: whether the document is `null`.
#[verifier::external_body]
fn document_is_null(document: &serde_json::Value) -> (r: bool)
    ensures
        r == (document_model(*document) is Null),
{
    document.is_null()
}

/// `serde_json::Value::as_bool`: the truth value, if the document is one.
#[verifier::external_body]
fn document_bool(document: &serde_json::Value) -> (r: Option<bool>)
    ensures
        r == (match document_model(*document) {
            JsonModel::Bool(b) => Some(b),
            _ => None,
        }),
{
    document.as_bool()
}

/// `serde_json::Value::as_u64`: the number, if the document is an integer
/// that `serde_json` keeps as a non-negative one.
#[verifier::external_body]
fn document_u64(document: &serde_json::Value) -> (r: Option<u64>)
    ensures
        r == (match document_model(*document) {
            JsonModel::Number(JsonNumber::PosInt(n)) => Some(n),
            _ => None,
        }),
{
    document.as_u64()
}

/// `serde_json::Value::as_i64`: the number, if the document is an integer
/// that fits: one kept as a negative integer, or a non-negative one up to
/// the largest `i64`.
#[verifier::external_body]
fn document_i64(document: &serde_json::Value) -> (r: Option<i64>)
    ensures
        r == (match document_model(*document) {
            JsonModel::Number(JsonNumber::PosInt(n)) => if n <= i64::MAX {
                Some(n as i64)
            } else {
                None
            },
            JsonModel::Number(JsonNumber::NegInt(n)) => Some(n),
            _ => None,
        }),
{
    document.as_i64()
}

/// `serde_json::Value::as_f64`, by the bits of the float: those of the
/// number itself where the document is a float, and nothing where it is no
/// number. (Of an integer it gives the nearest float: the contract leaves
/// that open.)
#[verifier::external_body]
fn document_float_bits(document: &serde_json::Value) -> (r: Option<u64>)
    ensures
        document_model(*document) matches JsonModel::Number(JsonNumber::Float(bits)) ==> r
            == Some(bits),
        !(document_model(*document) is Number) ==> r is None,
{
    document.as_f64().map(|x| x.to_bits())
}

/// `serde_json::Value::as_str`: the text, if the document is a string.
#[verifier::external_body]
fn document_text(document: &serde_json::Value) -> (r: Option<&str>)
    ensures
        match r {
            Some(text) => document_model(*document) == JsonModel::Text(text@),
            None => !(document_model(*document) is Text),
        },
{
    document.as_str()
}

/// `serde_json::Value::as_array`: the items, if the document is an array.
#[verifier::external_body]
fn document_items(document: &serde_json::Value) -> (r: Option<&Vec<serde_json::Value>>)
    ensures
        match r {
            Some(items) => {
                &&& document_model(*document) matches JsonModel::Array(models)
                &&& models.len() == items@.len()
                &&& forall|i: int|
                    0 <= i < items@.len() ==> document_model(#[trigger] items@[i]) == models[i]
            },
            None => !(document_model(*document) is Array),
        },
{
    document.as_array()
}

/// `serde_json::Value::as_object` and `serde_json::Map::iter`: the members
/// in the order of the walk, if the document is an object.
#[verifier::external_body]
fn document_members(document: &serde_json::Value) -> (r: Option<
    Vec<(&String, &serde_json::Value)>,
>)
    ensures
        match r {
            Some(members) => {
                &&& document_model(*document) matches JsonModel::Object(models)
                &&& models.len() == members@.len()
                &&& forall|i: int|
                    0 <= i < members@.len() ==> (
                        (#[trigger] members@[i]).0@,
                        document_model(*members@[i].1),
                    ) == models[i]
            },
            None => !(document_model(*document) is Object),
        },
{
    document.as_object().map(|members| members.iter().collect())
}

/// Takes a document of `serde_json` over.
fn lift(document: &serde_json::Value) -> (r: JsonValue)
    ensures
        r@ == document_model(*document),
    decreases document_model(*document),
{
    if document_is_null(document) {
        return JsonValue::Null;
    }
    if let Some(b) = document_bool(document) {
        return JsonValue::Bool(b);
    }
    if let Some(n) = document_u64(document) {
        return JsonValue::Number(JsonNumber::PosInt(n));
    }
    if let Some(n) = document_i64(document) {
        return JsonValue::Number(JsonNumber::NegInt(n));
    }
    if let Some(bits) = document_float_bits(document) {
        return JsonValue::Number(JsonNumber::Float(bits));
    }
    if let Some(text) = document_text(document) {
        return JsonValue::String(text.to_owned());
    }
    if let Some(items) = document_items(document) {
        let ghost models = document_model(*document)->Array_0;
        let mut out: Vec<JsonValue> = Vec::new();
        let mut i: usize = 0;
        while i < items.len()
            invariant
                i <= items.len(),
                out@.len() == i,
                document_model(*document) == JsonModel::Array(models),
                models.len() == items@.len(),
                forall|j: int|
                    0 <= j < items@.len() ==> document_model(#[trigger] items@[j]) == models[j],
                forall|j: int| 0 <= j < i ==> out@[j]@ == models[j],
            decreases items.len() - i,
        {
            proof {
                let whole = document_model(*document);
                assert(whole->Array_0 == models);
                assert(decreases_to!(whole => whole->Array_0));
                assert(decreases_to!(models => models[i as int]));
            }
            out.push(lift(&items[i]));
            i += 1;
        }
        let r = JsonValue::Array(out);
        proof {
            r.lemma_view_array();
            assert(r@->Array_0 =~= models);
        }
        return r;
    }
    match document_members(document) {
        Some(members) => {
            let ghost models = document_model(*document)->Object_0;
            let mut out: Vec<(String, JsonValue)> = Vec::new();
            let mut i: usize = 0;
            while i < members.len()
                invariant
                    i <= members.len(),
                    out@.len() == i,
                    document_model(*document) == JsonModel::Object(models),
                    models.len() == members@.len(),
                    forall|j: int|
                        0 <= j < members@.len() ==> (
                            (#[trigger] members@[j]).0@,
                            document_model(*members@[j].1),
                        ) == models[j],
                    forall|j: int| 0 <= j < i ==> (out@[j].0@, out@[j].1@) == models[j],
                decreases members.len() - i,
            {
                proof {
                    let whole = document_model(*document);
                    assert(whole->Object_0 == models);
                    assert(decreases_to!(whole => whole->Object_0));
                    assert(decreases_to!(models => models[i as int]));
                    assert(decreases_to!(models[i as int] => models[i as int].1));
                }
                let name: String = members[i].0.clone();
                let value = lift(members[i].1);
                out.push((name, value));
                i += 1;
            }
            let r = JsonValue::Object(out);
            proof {
                r.lemma_view_object();
                assert(r@->Object_0 =~= models);
            }
            r
        },
        // A document is one of the six, and five were ruled out above.
        None => JsonValue::Null,
    }
}

impl JsonValue {
    /// Reads a JSON text: the document that `serde_json` reads from it, and
    /// nothing where the text is no JSON.
    pub fn from_text(text: &str) -> (r: Option<JsonValue>)
        ensures
            match r {
                Some(value) => parsed_text(text@) == Some(value@),
                None => parsed_text(text@) is None,
            },
    {
        match parse_document(text) {
            Some(document) => Some(lift(&document)),
            None => None,
        }
    }
}

} // verus!
