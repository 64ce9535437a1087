//! Tool input schemas made strict: every top-level property is required.
use vstd::prelude::*;
use crate::json::{
    as_object, object_entries, object_get, object_insert, object_keys, object_of, text_list_of,
    text_list_value, JsonObject,
};

verus! {

/// The keys of the schema's "properties" object, where it has one.
pub open spec fn property_keys(schema: JsonObject) -> Option<Set<Seq<char>>> {
    let entries = object_entries(schema);
    if entries.contains_key("properties"@) && object_of(entries["properties"@]).is_some() {
        Some(object_entries(object_of(entries["properties"@]).unwrap()).dom())
    } else {
        None
    }
}

/// The schema requires exactly `keys`, each once, and holds otherwise what
/// `before` held.
pub open spec fn requires_exactly(
    after: JsonObject,
    before: JsonObject,
    keys: Set<Seq<char>>,
) -> bool {
    let entries = object_entries(after);
    &&& entries.remove("required"@) == object_entries(before).remove("required"@)
    &&& entries.contains_key("required"@)
    &&& text_list_of(entries["required"@]).is_some()
    &&& text_list_of(entries["required"@]).unwrap().no_duplicates()
    &&& text_list_of(entries["required"@]).unwrap().to_set() == keys
}

/// Rewrites the schema's "required" list to name every key of its
/// "properties" object. A schema without a "properties" object is left as
/// it is.
pub fn normalize_schema(schema: &mut JsonObject)
    ensures
        property_keys(*old(schema)).is_none() ==> *final(schema) == *old(schema),
        property_keys(*old(schema)).is_some() ==> requires_exactly(
            *final(schema),
            *old(schema),
            property_keys(*old(schema)).unwrap(),
        ),
{
    let props = object_get(schema, "properties");
    if let Some(p) = props {
        let obj = as_object(&p);
        if let Some(o) = obj {
            let keys = object_keys(&o);
            let list = text_list_value(keys);
            let ghost before = *schema;
            object_insert(schema, "required".to_string(), list);
            proof {
                assert(object_entries(*schema).remove("required"@) =~= object_entries(
                    before,
                ).remove("required"@));
            }
        }
    }
}

} // verus!
