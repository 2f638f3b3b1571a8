//! JSON schemas of tool parameters.
use vstd::prelude::*;
use crate::json::{json_texts, str_texts, text_list, Json, JsonModel, JsonObject};

verus! {

/// A parameter that is a text.
pub open spec fn string_model(description: Seq<char>) -> JsonModel {
    JsonModel::Object(
        Map::empty().insert("type"@, JsonModel::Text("string"@)).insert(
            "description"@,
            JsonModel::Text(description),
        ),
    )
}

/// A parameter that is one of several texts.
pub open spec fn choice_model(choices: Seq<Seq<char>>, description: Seq<char>) -> JsonModel {
    JsonModel::Object(
        Map::empty().insert("type"@, JsonModel::Text("string"@)).insert(
            "enum"@,
            text_list(choices),
        ).insert("description"@, JsonModel::Text(description)),
    )
}

/// A parameter of a named JSON type.
pub open spec fn typed_model(kind: Seq<char>, description: Seq<char>) -> JsonModel {
    JsonModel::Object(
        Map::empty().insert("type"@, JsonModel::Text(kind)).insert(
            "description"@,
            JsonModel::Text(description),
        ),
    )
}

/// A parameter that is an integer in a range.
pub open spec fn range_model(minimum: u64, maximum: u64, description: Seq<char>) -> JsonModel {
    JsonModel::Object(
        Map::empty().insert("type"@, JsonModel::Text("integer"@)).insert(
            "minimum"@,
            JsonModel::Integer(minimum as int),
        ).insert("maximum"@, JsonModel::Integer(maximum as int)).insert(
            "description"@,
            JsonModel::Text(description),
        ),
    )
}

/// The parameters of a tool, of which the action is required.
pub open spec fn schema_model(properties: Map<Seq<char>, JsonModel>) -> JsonModel {
    JsonModel::Object(
        Map::empty().insert("type"@, JsonModel::Text("object"@)).insert(
            "properties"@,
            JsonModel::Object(properties),
        ).insert("required"@, text_list(seq!["action"@])),
    )
}

/// A parameter that is a text.
pub fn string_property(description: &str) -> (property: Json)
    ensures
        property@ == string_model(description@),
{
    typed_property("string", description)
}

/// A parameter of a named JSON type.
pub fn typed_property(kind: &str, description: &str) -> (property: Json)
    ensures
        property@ == typed_model(kind@, description@),
{
    let mut object = JsonObject::new();
    object.set_text("type", kind);
    object.set_text("description", description);
    object.into_json()
}

/// A parameter that is one of several texts.
pub fn choice_property(choices: &Vec<&str>, description: &str) -> (property: Json)
    ensures
        property@ == choice_model(str_texts(choices@), description@),
{
    let mut object = JsonObject::new();
    object.set_text("type", "string");
    object.set("enum", json_texts(choices));
    object.set_text("description", description);
    object.into_json()
}

/// A parameter that is an integer in a range.
pub fn range_property(minimum: u64, maximum: u64, description: &str) -> (property: Json)
    ensures
        property@ == range_model(minimum, maximum, description@),
{
    let mut object = JsonObject::new();
    object.set_text("type", "integer");
    object.set("minimum", Json::Unsigned(minimum));
    object.set("maximum", Json::Unsigned(maximum));
    object.set_text("description", description);
    object.into_json()
}

/// The parameters of a tool, of which the action is required.
pub fn parameter_schema(properties: JsonObject) -> (schema: Json)
    ensures
        schema@ == schema_model(properties@),
{
    let required: Vec<&str> = vec!["action"];
    let mut object = JsonObject::new();
    object.set_text("type", "object");
    object.set("properties", properties.into_json());
    assert(str_texts(required@) =~= seq!["action"@]);
    object.set("required", json_texts(&required));
    object.into_json()
}

} // verus!
