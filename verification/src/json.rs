//! JSON values and the logic that reads them.

use crate::text::same_text;
use vstd::prelude::*;

verus! {

/// A JSON value as a mathematical object.
pub enum Json {
    Null,
    Bool(bool),
    /// A number, as the text that denotes it.
    Number(Seq<char>),
    Text(Seq<char>),
    Array(Seq<Json>),
    /// The members of an object, in order.
    Object(Seq<(Seq<char>, Json)>),
}

/// A JSON value.
#[derive(Debug, PartialEq)]
pub enum JsonValue {
    Null,
    Bool(bool),
    /// A number, as the text that denotes it.
    Number(String),
    Text(String),
    Array(Vec<JsonValue>),
    Object(Vec<JsonField>),
}

/// A member of a JSON object.
#[derive(Debug, PartialEq)]
pub struct JsonField {
    pub key: String,
    pub value: JsonValue,
}

/// The value that a `JsonValue` holds.
pub open spec fn json_model(value: JsonValue) -> Json
    decreases value,
{
    match value {
        JsonValue::Null => Json::Null,
        JsonValue::Bool(b) => Json::Bool(b),
        JsonValue::Number(text) => Json::Number(text@),
        JsonValue::Text(text) => Json::Text(text@),
        JsonValue::Array(items) => Json::Array(items_model(items@)),
        JsonValue::Object(fields) => Json::Object(fields_model(fields@)),
    }
}

/// The values that a list holds.
pub open spec fn items_model(items: Seq<JsonValue>) -> Seq<Json>
    decreases items,
{
    if items.len() == 0 {
        Seq::empty()
    } else {
        items_model(items.drop_last()).push(json_model(items.last()))
    }
}

/// The members that a list holds.
pub open spec fn fields_model(fields: Seq<JsonField>) -> Seq<(Seq<char>, Json)>
    decreases fields,
{
    if fields.len() == 0 {
        Seq::empty()
    } else {
        fields_model(fields.drop_last()).push((fields.last().key@, json_model(fields.last().value)))
    }
}

impl View for JsonValue {
    type V = Json;

    open spec fn view(&self) -> Json {
        json_model(*self)
    }
}

pub proof fn lemma_items_model(items: Seq<JsonValue>)
    ensures
        items_model(items).len() == items.len(),
        forall|i: int| 0 <= i < items.len() ==> #[trigger] items_model(items)[i] == items[i]@,
    decreases items.len(),
{
    if items.len() > 0 {
        lemma_items_model(items.drop_last());
        assert forall|i: int| 0 <= i < items.len() implies #[trigger] items_model(items)[i]
            == items[i]@ by {
            if i < items.len() - 1 {
                assert(items_model(items)[i] == items_model(items.drop_last())[i]);
                assert(items.drop_last()[i] == items[i]);
            }
        }
    }
}

pub proof fn lemma_fields_model(fields: Seq<JsonField>)
    ensures
        fields_model(fields).len() == fields.len(),
        forall|i: int|
            0 <= i < fields.len() ==> #[trigger] fields_model(fields)[i] == (
                fields[i].key@,
                fields[i].value@,
            ),
    decreases fields.len(),
{
    if fields.len() > 0 {
        lemma_fields_model(fields.drop_last());
        assert forall|i: int| 0 <= i < fields.len() implies #[trigger] fields_model(fields)[i] == (
            fields[i].key@,
            fields[i].value@,
        ) by {
            if i < fields.len() - 1 {
                assert(fields_model(fields)[i] == fields_model(fields.drop_last())[i]);
                assert(fields.drop_last()[i] == fields[i]);
            }
        }
    }
}

/// The first member with the given key.
pub open spec fn member(fields: Seq<(Seq<char>, Json)>, key: Seq<char>) -> Option<Json>
    decreases fields.len(),
{
    if fields.len() == 0 {
        None
    } else if fields[0].0 == key {
        Some(fields[0].1)
    } else {
        member(fields.drop_first(), key)
    }
}

impl Json {
    /// The member of an object with the given key.
    pub open spec fn get(self, key: Seq<char>) -> Option<Json> {
        match self {
            Json::Object(fields) => member(fields, key),
            _ => None,
        }
    }

    /// The text of a string.
    pub open spec fn as_text(self) -> Option<Seq<char>> {
        match self {
            Json::Text(text) => Some(text),
            _ => None,
        }
    }

    /// The text of the member with the given key, where it is a string.
    pub open spec fn text_member(self, key: Seq<char>) -> Option<Seq<char>> {
        match self.get(key) {
            Some(value) => value.as_text(),
            None => None,
        }
    }
}

impl JsonValue {
    /// The member of an object with the given key.
    pub fn get(&self, key: &str) -> (result: Option<&JsonValue>)
        ensures
            match result {
                Some(value) => self@.get(key@) == Some(value@),
                None => self@.get(key@) is None,
            },
    {
        let fields = match self {
            JsonValue::Object(fields) => fields,
            _ => {
                return None;
            },
        };
        let ghost all = fields_model(fields@);
        proof {
            lemma_fields_model(fields@);
            assert(all.skip(0) =~= all);
        }
        let mut i: usize = 0;
        while i < fields.len()
            invariant
                i <= fields@.len(),
                self@ == Json::Object(all),
                all.len() == fields@.len(),
                forall|j: int|
                    0 <= j < all.len() ==> #[trigger] all[j] == (
                        fields@[j].key@,
                        fields@[j].value@,
                    ),
                member(all, key@) == member(all.skip(i as int), key@),
            decreases fields@.len() - i,
        {
            let ghost rest = all.skip(i as int);
            assert(rest[0] == all[i as int]);
            if same_text(fields[i].key.as_str(), key) {
                return Some(&fields[i].value);
            }
            assert(rest.drop_first() =~= all.skip(i + 1));
            i += 1;
        }
        None
    }

    /// The text of a string.
    pub fn as_str(&self) -> (result: Option<&str>)
        ensures
            match result {
                Some(text) => self@.as_text() == Some(text@),
                None => self@.as_text() is None,
            },
    {
        match self {
            JsonValue::Text(text) => Some(text.as_str()),
            _ => None,
        }
    }
}

/// Makes a member of an object whose value is a string.
pub(crate) fn text_field(key: &str, text: &str) -> (result: JsonField)
    ensures
        result.key@ == key@,
        result.value@ == Json::Text(text@),
{
    JsonField { key: key.to_owned(), value: JsonValue::Text(text.to_owned()) }
}

/// A JSON value of `serde_json`.
#[verifier::external_type_specification]
#[verifier::external_body]
pub struct ExValue(serde_json::Value);

/// What a `serde_json::Value` holds: a number as the text that its `Display` gives, an object
/// as its members in the order in which its map is walked.
pub uninterp spec fn value_model(value: serde_json::Value) -> Json;

/// The value that `serde_json::from_str` reads from a text, where the text is one JSON value.
pub uninterp spec fn parsed_json(text: Seq<char>) -> Option<Json>;

/// Calls `serde_json::from_str`; claims that the value it gives, or that it gives none, depends
/// on the text alone.
#[verifier::external_body]
fn parse_value(text: &str) -> (result: Option<serde_json::Value>)
    ensures
        match result {
            Some(value) => parsed_json(text@) == Some(value_model(value)),
            None => parsed_json(text@) is None,
        },
{
    serde_json::from_str(text).ok()
}

/// The value that `serde_json::from_slice` reads from bytes, or the description of what is wrong
/// with them.
pub uninterp spec fn parsed_json_bytes(bytes: Seq<u8>) -> Result<Json, Seq<char>>;

/// What reading JSON from bytes gives, as mathematical objects.
pub open spec fn read_model(read: Result<JsonValue, String>) -> Result<Json, Seq<char>> {
    match read {
        Ok(value) => Ok(value@),
        Err(reason) => Err(reason@),
    }
}

spec fn raw_read_model(read: Result<serde_json::Value, String>) -> Result<Json, Seq<char>> {
    match read {
        Ok(value) => Ok(value_model(value)),
        Err(reason) => Err(reason@),
    }
}

/// Calls `serde_json::from_slice`; claims that the value it gives, or the description of its
/// error, depends on the bytes alone.
#[verifier::external_body]
fn parse_value_bytes(bytes: &[u8]) -> (result: Result<serde_json::Value, String>)
    ensures
        raw_read_model(result) == parsed_json_bytes(bytes@),
{
    serde_json::from_slice(bytes).map_err(|error: serde_json::Error| error.to_string())
}

/// The outermost layer of a `serde_json::Value`.
enum JsonNode {
    Null,
    Bool(bool),
    Number(String),
    Text(String),
    Array(Vec<serde_json::Value>),
    Object(Vec<(String, serde_json::Value)>),
}

spec fn node_model(node: JsonNode) -> Json {
    match node {
        JsonNode::Null => Json::Null,
        JsonNode::Bool(b) => Json::Bool(b),
        JsonNode::Number(text) => Json::Number(text@),
        JsonNode::Text(text) => Json::Text(text@),
        JsonNode::Array(items) => Json::Array(
            Seq::new(items@.len(), |i: int| value_model(items@[i])),
        ),
        JsonNode::Object(fields) => Json::Object(
            Seq::new(fields@.len(), |i: int| (fields@[i].0@, value_model(fields@[i].1))),
        ),
    }
}

/// Tells the variants of `serde_json::Value` apart and moves out what they hold; claims that
/// this is the outermost layer of what the value holds.
#[verifier::external_body]
fn open_value(value: serde_json::Value) -> (node: JsonNode)
    ensures
        node_model(node) == value_model(value),
{
    match value {
        serde_json::Value::Null => JsonNode::Null,
        serde_json::Value::Bool(b) => JsonNode::Bool(b),
        serde_json::Value::Number(number) => JsonNode::Number(number.to_string()),
        serde_json::Value::String(text) => JsonNode::Text(text),
        serde_json::Value::Array(items) => JsonNode::Array(items),
        serde_json::Value::Object(fields) => JsonNode::Object(fields.into_iter().collect()),
    }
}

/// Takes a `serde_json::Value` over, layer by layer.
pub fn take_value(value: serde_json::Value) -> (result: JsonValue)
    ensures
        result@ == value_model(value),
    decreases value_model(value),
{
    match open_value(value) {
        JsonNode::Null => JsonValue::Null,
        JsonNode::Bool(b) => JsonValue::Bool(b),
        JsonNode::Number(text) => JsonValue::Number(text),
        JsonNode::Text(text) => JsonValue::Text(text),
        JsonNode::Array(items) => {
            let mut list: Vec<JsonValue> = Vec::new();
            let ghost all = items@;
            for item in it: items
                invariant
                    it.seq() == all,
                    value_model(value) == Json::Array(
                        Seq::new(all.len(), |i: int| value_model(all[i])),
                    ),
                    items_model(list@) == Seq::new(
                        it.index() as nat,
                        |i: int| value_model(all[i]),
                    ),
            {
                let ghost before = list@;
                assert(value_model(value)->Array_0[it.index() as int] == value_model(item));
                assert(decreases_to!(value_model(value) => value_model(value)->Array_0));
                list.push(take_value(item));
                assert(list@.drop_last() =~= before);
            }
            assert(items_model(list@) =~= Seq::new(all.len(), |i: int| value_model(all[i])));
            JsonValue::Array(list)
        },
        JsonNode::Object(fields) => {
            let mut list: Vec<JsonField> = Vec::new();
            let ghost all = fields@;
            for field in it: fields
                invariant
                    it.seq() == all,
                    value_model(value) == Json::Object(
                        Seq::new(all.len(), |i: int| (all[i].0@, value_model(all[i].1))),
                    ),
                    fields_model(list@) == Seq::new(
                        it.index() as nat,
                        |i: int| (all[i].0@, value_model(all[i].1)),
                    ),
            {
                let ghost before = list@;
                assert(value_model(value)->Object_0[it.index() as int].1 == value_model(field.1));
                assert(decreases_to!(value_model(value) => value_model(value)->Object_0));
                list.push(JsonField { key: field.0, value: take_value(field.1) });
                assert(list@.drop_last() =~= before);
            }
            JsonValue::Object(list)
        },
    }
}

/// Reads the JSON value that a text denotes.
pub fn parse_json(text: &str) -> (result: Option<JsonValue>)
    ensures
        match result {
            Some(value) => parsed_json(text@) == Some(value@),
            None => parsed_json(text@) is None,
        },
{
    match parse_value(text) {
        Some(value) => Some(take_value(value)),
        None => None,
    }
}

/// Reads the JSON value that bytes denote, or tells what is wrong with them.
pub fn parse_json_bytes(bytes: &[u8]) -> (result: Result<JsonValue, String>)
    ensures
        read_model(result) == parsed_json_bytes(bytes@),
{
    match parse_value_bytes(bytes) {
        Ok(value) => Ok(take_value(value)),
        Err(reason) => Err(reason),
    }
}

/// The text of a member is the string that stands there, and there is none where no string
/// stands.
pub proof fn law_text_member_is_the_string(value: Json, key: Seq<char>)
    ensures
        forall|text: Seq<char>|
            value.get(key) == Some(Json::Text(text)) <==> #[trigger] value.text_member(key) == Some(
                text,
            ),
        value is Object || value.get(key) is None,
{
}

/// A member that no member with the same key stands in front of is the one that is found.
pub proof fn law_member_is_found(fields: Seq<(Seq<char>, Json)>, key: Seq<char>, i: int)
    requires
        0 <= i < fields.len(),
        fields[i].0 == key,
        forall|j: int| 0 <= j < i ==> (#[trigger] fields[j]).0 != key,
    ensures
        Json::Object(fields).get(key) == Some(fields[i].1),
    decreases i,
{
    if i > 0 {
        let rest = fields.drop_first();
        assert(fields[0].0 != key);
        assert(rest[i - 1] == fields[i]);
        assert forall|j: int| 0 <= j < i - 1 implies (#[trigger] rest[j]).0 != key by {
            assert(rest[j] == fields[j + 1]);
        }
        law_member_is_found(rest, key, i - 1);
    }
}

/// Where no member has a key, none is found.
pub proof fn law_missing_member_is_not_found(fields: Seq<(Seq<char>, Json)>, key: Seq<char>)
    requires
        forall|i: int| 0 <= i < fields.len() ==> (#[trigger] fields[i]).0 != key,
    ensures
        Json::Object(fields).get(key) is None,
    decreases fields.len(),
{
    if fields.len() > 0 {
        let rest = fields.drop_first();
        assert(fields[0].0 != key);
        assert forall|i: int| 0 <= i < rest.len() implies (#[trigger] rest[i]).0 != key by {
            assert(rest[i] == fields[i + 1]);
        }
        law_missing_member_is_not_found(rest, key);
    }
}

} // verus!
