//! The OpenAPI schema fragments that mark fields whose inner shape the
//! API server must not validate: arbitrary objects, arrays of arbitrary
//! objects, and Kubernetes' int-or-string union.
use vstd::prelude::*;
use crate::json::{lemma_insert_new_key, Json, JsonMap, JsonValue};

verus! {

/// `{"type": "object", "x-kubernetes-preserve-unknown-fields": true}`.
pub open spec fn preserve_object_model() -> Json {
    Json::Object(
        seq![("type"@, Json::Str("object"@)), ("x-kubernetes-preserve-unknown-fields"@, Json::Bool(true))],
    )
}

/// `{"type": "array", "items": <preserve_object_model>}`.
pub open spec fn preserve_array_of_objects_model() -> Json {
    Json::Object(seq![("type"@, Json::Str("array"@)), ("items"@, preserve_object_model())])
}

/// `{"x-kubernetes-int-or-string": true}`.
pub open spec fn int_or_string_model() -> Json {
    Json::Object(seq![("x-kubernetes-int-or-string"@, Json::Bool(true))])
}

/// Schema for an object field whose properties are not statically known:
/// an object whose unknown fields the API server keeps.
pub fn preserve_object_schema() -> (r: JsonValue)
    ensures
        r.model() == preserve_object_model(),
{
    proof {
        reveal_strlit("type");
        reveal_strlit("x-kubernetes-preserve-unknown-fields");
    }
    let mut m = JsonMap::new();
    m.insert("type".to_owned(), JsonValue::from_str("object"));
    assert(m.model() =~= seq![("type"@, Json::Str("object"@))]);
    assert("type"@.len() != "x-kubernetes-preserve-unknown-fields"@.len());
    proof {
        lemma_insert_new_key(m.model(), "x-kubernetes-preserve-unknown-fields"@, Json::Bool(true));
    }
    m.insert("x-kubernetes-preserve-unknown-fields".to_owned(), JsonValue::Bool(true));
    assert(m.model() =~= seq![("type"@, Json::Str("object"@)), ("x-kubernetes-preserve-unknown-fields"@, Json::Bool(true))]);
    let r = JsonValue::Object(m);
    assert(r.model() == preserve_object_model());
    r
}

/// Schema for an array of arbitrary objects.
pub fn preserve_array_of_objects_schema() -> (r: JsonValue)
    ensures
        r.model() == preserve_array_of_objects_model(),
{
    proof {
        reveal_strlit("type");
        reveal_strlit("items");
    }
    let mut m = JsonMap::new();
    m.insert("type".to_owned(), JsonValue::from_str("array"));
    assert(m.model() =~= seq![("type"@, Json::Str("array"@))]);
    assert("type"@.len() != "items"@.len());
    let items = preserve_object_schema();
    proof {
        lemma_insert_new_key(m.model(), "items"@, items.model());
    }
    m.insert("items".to_owned(), items);
    assert(m.model() =~= seq![("type"@, Json::Str("array"@)), ("items"@, preserve_object_model())]);
    let r = JsonValue::Object(m);
    assert(r.model() == preserve_array_of_objects_model());
    r
}

/// Schema for Kubernetes' int-or-string union (a count or a percentage
/// such as `"50%"`).
pub fn int_or_string_schema() -> (r: JsonValue)
    ensures
        r.model() == int_or_string_model(),
{
    let mut m = JsonMap::new();
    m.insert("x-kubernetes-int-or-string".to_owned(), JsonValue::Bool(true));
    let r = JsonValue::Object(m);
    assert(r.model() == int_or_string_model());
    r
}

} // verus!
