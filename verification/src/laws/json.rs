//! How JSON values are read.

use crate::json::{
    fields_model, items_model, law_member_is_found, law_missing_member_is_not_found,
    lemma_fields_model, lemma_items_model, parse_json, parse_json_bytes, parsed_json,
    parsed_json_bytes, take_value, value_model, Json, JsonValue,
};
use vstd::prelude::*;

verus! {

/// What a value stands for.
pub proof fn law_values_stand_for_themselves(value: JsonValue, i: int)
    ensures
        value is Null ==> value@ is Null,
        value is Bool ==> value@ == Json::Bool(value->Bool_0),
        value is Number ==> value@ == Json::Number(value->Number_0@),
        value is Text ==> value@ == Json::Text(value->Text_0@),
        value is Array ==> value@ is Array && value@->Array_0.len() == value->Array_0@.len(),
        value is Array && 0 <= i < value->Array_0@.len() ==> value@->Array_0[i]
            == value->Array_0@[i]@,
        value is Object ==> value@ is Object && value@->Object_0.len() == value->Object_0@.len(),
        value is Object && 0 <= i < value->Object_0@.len() ==> value@->Object_0[i] == (
            value->Object_0@[i].key@,
            value->Object_0@[i].value@,
        ),
{
    match value {
        JsonValue::Array(items) => {
            lemma_items_model(items@);
            if 0 <= i < items@.len() {
                assert(items_model(items@)[i] == items@[i]@);
            }
        },
        JsonValue::Object(fields) => lemma_fields_model(fields@),
        _ => {},
    }
}

/// The member that is found is the first one with the key; only objects have members.
pub proof fn law_first_member_is_found(
    value: JsonValue,
    key: &str,
    found: Option<&JsonValue>,
    i: int,
)
    requires
        call_ensures(JsonValue::get, (&value, key), found),
    ensures
        !(value is Object) ==> found is None,
        value is Object && 0 <= i < value->Object_0@.len() && value->Object_0@[i].key@ == key@ && (
        forall|j: int| 0 <= j < i ==> (#[trigger] value->Object_0@[j]).key@ != key@) ==> found
            is Some && found->0@ == value->Object_0@[i].value@,
        value is Object && (forall|j: int|
            0 <= j < value->Object_0@.len() ==> (#[trigger] value->Object_0@[j]).key@ != key@)
            ==> found is None,
{
    if value is Object {
        let list = value->Object_0@;
        let fields = fields_model(list);
        lemma_fields_model(list);
        if 0 <= i < list.len() && list[i].key@ == key@ && (forall|j: int|
            0 <= j < i ==> (#[trigger] list[j]).key@ != key@) {
            assert(fields[i] == (list[i].key@, list[i].value@));
            assert forall|j: int| 0 <= j < i implies (#[trigger] fields[j]).0 != key@ by {
                assert(fields[j] == (list[j].key@, list[j].value@));
            }
            law_member_is_found(fields, key@, i);
        }
        if forall|j: int| 0 <= j < list.len() ==> (#[trigger] list[j]).key@ != key@ {
            assert forall|j: int| 0 <= j < fields.len() implies (#[trigger] fields[j]).0 != key@ by {
                assert(fields[j] == (list[j].key@, list[j].value@));
            }
            law_missing_member_is_not_found(fields, key@);
        }
    }
}

/// Only a string has a text.
pub proof fn law_only_strings_have_a_text(value: JsonValue, text: Option<&str>)
    requires
        call_ensures(JsonValue::as_str, (&value,), text),
    ensures
        value is Text ==> text is Some && text->0@ == value->Text_0@,
        !(value is Text) ==> text is None,
{
}

/// What is read from a text or from bytes is the value that they denote.
pub proof fn law_denoted_values_are_read(
    text: &str,
    read: Option<JsonValue>,
    bytes: &[u8],
    bytes_read: Result<JsonValue, String>,
    outside: serde_json::Value,
    taken: JsonValue,
)
    requires
        call_ensures(parse_json, (text,), read),
        call_ensures(parse_json_bytes, (bytes,), bytes_read),
        call_ensures(take_value, (outside,), taken),
    ensures
        read is Some <==> parsed_json(text@) is Some,
        read is Some ==> parsed_json(text@) == Some(read->0@),
        bytes_read is Ok <==> parsed_json_bytes(bytes@) is Ok,
        bytes_read is Ok ==> parsed_json_bytes(bytes@)->Ok_0 == bytes_read->Ok_0@,
        bytes_read is Err ==> parsed_json_bytes(bytes@)->Err_0 == bytes_read->Err_0@,
        taken@ == value_model(outside),
{
}

} // verus!
