//! The built-in tool that reports the local time.
use vstd::prelude::*;
use crate::clock::{
    format_timestamp, is_timestamp_shape, lemma_timestamp_shape, local_now, timestamp_text,
    LocalDateTime,
};
use crate::json::{
    new_object, object_entries, object_insert, object_of, object_value, text_list_of,
    text_list_value, text_of, text_value, JsonObject,
};

verus! {

/// The built-in time tool takes no arguments.
pub struct GetCurrentTimeArgs {}

/// The built-in tool that reports the local time.
pub struct GetCurrentTime;

/// A tool as the model is told of it.
pub struct ToolDescription {
    pub name: String,
    pub description: String,
    pub parameters: serde_json::Value,
}

/// The document holds, under `key`, the text `text` and nothing else.
pub open spec fn single_text_document(v: serde_json::Value, key: Seq<char>, text: Seq<char>) -> bool {
    &&& object_of(v).is_some()
    &&& object_entries(object_of(v).unwrap()).dom() == set![key]
    &&& text_of(object_entries(object_of(v).unwrap())[key]) == Some(text)
}

/// The document is an object schema with no properties and nothing required.
pub open spec fn no_argument_schema(v: serde_json::Value) -> bool {
    let entries = object_entries(object_of(v).unwrap());
    &&& object_of(v).is_some()
    &&& entries.dom() == set!["type"@, "properties"@, "required"@]
    &&& text_of(entries["type"@]) == Some("object"@)
    &&& object_of(entries["properties"@]).is_some()
    &&& object_entries(object_of(entries["properties"@]).unwrap()).dom().is_empty()
    &&& text_list_of(entries["required"@]) == Some(Seq::<Seq<char>>::empty())
}

/// The document the tool answers with for the reading `now`: an object whose
/// one field "current_time" holds the reading as `YYYY-MM-DD HH:MM:SS`.
pub fn time_document(now: &LocalDateTime) -> (r: serde_json::Value)
    ensures
        single_text_document(r, "current_time"@, timestamp_text(*now)),
{
    let text = format_timestamp(now);
    let mut doc = new_object();
    let field = text_value(text);
    object_insert(&mut doc, "current_time".to_string(), field);
    assert(object_entries(doc).dom() =~= set!["current_time"@]);
    object_value(doc)
}

impl GetCurrentTime {
    /// The name the model calls the tool by.
    pub fn name(&self) -> (r: String)
        ensures
            r@ == "get_current_time"@,
    {
        "get_current_time".to_string()
    }

    /// How the model is told of the tool: its name, what it does, and a
    /// schema that takes no arguments.
    pub fn definition(&self) -> (r: ToolDescription)
        ensures
            r.name@ == "get_current_time"@,
            r.description@ == "Get the current local time"@,
            no_argument_schema(r.parameters),
    {
        proof {
            reveal_strlit("type");
            reveal_strlit("properties");
            reveal_strlit("required");
            assert("type"@.len() != "properties"@.len());
            assert("type"@.len() != "required"@.len());
            assert("properties"@.len() != "required"@.len());
        }
        let mut schema = new_object();
        let kind = text_value("object".to_string());
        let none = new_object();
        assert(object_entries(none).dom().is_empty());
        let properties = object_value(none);
        let nothing: Vec<String> = Vec::new();
        assert(nothing.deep_view() =~= Seq::<Seq<char>>::empty());
        let required = text_list_value(nothing);
        object_insert(&mut schema, "type".to_string(), kind);
        object_insert(&mut schema, "properties".to_string(), properties);
        object_insert(&mut schema, "required".to_string(), required);
        assert(object_entries(schema).dom() =~= set!["type"@, "properties"@, "required"@]);
        let parameters = object_value(schema);
        ToolDescription {
            name: self.name(),
            description: "Get the current local time".to_string(),
            parameters,
        }
    }

    /// Reads the local clock and answers with its reading: an object whose
    /// one field "current_time" holds it as `YYYY-MM-DD HH:MM:SS`.
    pub fn call(&self, args: GetCurrentTimeArgs) -> (r: serde_json::Value)
        ensures
            exists|now: LocalDateTime|
                {
                    &&& now.wf()
                    &&& single_text_document(r, "current_time"@, timestamp_text(now))
                    &&& 0 <= now.year <= 9999 ==> is_timestamp_shape(timestamp_text(now))
                },
    {
        let now = local_now();
        if 0 <= now.year && now.year <= 9999 {
            proof {
                lemma_timestamp_shape(now);
            }
        }
        time_document(&now)
    }
}

} // verus!
