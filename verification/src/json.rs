use vstd::prelude::*;

verus! {

/// A JSON number as `serde_json` holds it; numbers are carried through
/// unchanged, so nothing inside one is looked at.
#[verifier::external_type_specification]
#[verifier::external_body]
pub struct ExNumber(serde_json::Number);

/// A JSON value. An object is the list of its entries in order; where a key
/// occurs more than once, its last entry is the one that counts.
#[derive(Debug, PartialEq)]
pub enum JsonValue {
    Null,
    Bool(bool),
    Number(serde_json::Number),
    String(String),
    Array(Vec<JsonValue>),
    Object(Vec<(String, JsonValue)>),
}

/// The mathematical content of a `JsonValue`: strings as character
/// sequences, arrays and objects as sequences.
pub enum JsonModel {
    Null,
    Bool(bool),
    Number(serde_json::Number),
    String(Seq<char>),
    Array(Seq<JsonModel>),
    Object(Seq<(Seq<char>, JsonModel)>),
}

/// The model of `v`.
pub open spec fn model_of(v: JsonValue) -> JsonModel
    decreases v, 1int,
{
    match v {
        JsonValue::Null => JsonModel::Null,
        JsonValue::Bool(b) => JsonModel::Bool(b),
        JsonValue::Number(n) => JsonModel::Number(n),
        JsonValue::String(s) => JsonModel::String(s@),
        JsonValue::Array(items) => JsonModel::Array(models_of(items@)),
        JsonValue::Object(entries) => JsonModel::Object(entry_models_of(entries@)),
    }
}

/// The models of `items`, in order.
pub open spec fn models_of(items: Seq<JsonValue>) -> Seq<JsonModel>
    decreases items, 0int,
{
    if items.len() == 0 {
        Seq::empty()
    } else {
        models_of(items.drop_last()).push(model_of(items.last()))
    }
}

/// The entries of an object with keys and values taken as models.
pub open spec fn entry_models_of(entries: Seq<(String, JsonValue)>) -> Seq<(Seq<char>, JsonModel)>
    decreases entries, 0int,
{
    if entries.len() == 0 {
        Seq::empty()
    } else {
        entry_models_of(entries.drop_last()).push((entries.last().0@, model_of(entries.last().1)))
    }
}

} // verus!
