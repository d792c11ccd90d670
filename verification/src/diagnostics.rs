//! What the log says about requests, without secrets and without pictures.

use crate::json::{
    fields_model, items_model, lemma_fields_model, lemma_items_model, parse_json_bytes,
    parsed_json_bytes, Json, JsonField, JsonValue,
};
use crate::openai::{
    codex_content, codex_contents, codex_input, codex_message, codex_text, is_system,
    ChatCompletionRequest, ChatMessage, ChatMessageContent, ChatMessageContentPart,
};
use crate::text::{
    char_list, contains, decimal, decimal_text, find, find_from, has_text, join, joined,
    lemma_find_from, same_text, starts_with, text_between, texts,
};
use vstd::prelude::*;
use vstd::utf8::encode_utf8;

verus! {

/// What the log says about a request for a chat completion.
#[derive(Debug)]
pub struct ChatRequestStats {
    /// The roles of the messages, with commas between them.
    pub roles: String,
    /// How many characters the texts have.
    pub text_chars: usize,
    /// How many parts are images.
    pub image_parts: usize,
}

/// How many characters the text parts have.
pub open spec fn part_chars(parts: Seq<ChatMessageContentPart>) -> nat
    decreases parts.len(),
{
    if parts.len() == 0 {
        0
    } else {
        part_chars(parts.drop_last()) + match parts.last() {
            ChatMessageContentPart::Text { text } => text@.len(),
            ChatMessageContentPart::ImageUrl { .. } => 0,
        }
    }
}

/// How many parts are images.
pub open spec fn part_images(parts: Seq<ChatMessageContentPart>) -> nat
    decreases parts.len(),
{
    if parts.len() == 0 {
        0
    } else {
        part_images(parts.drop_last()) + match parts.last() {
            ChatMessageContentPart::Text { .. } => 0nat,
            ChatMessageContentPart::ImageUrl { .. } => 1,
        }
    }
}

/// How many characters the texts of a message have.
pub open spec fn content_chars(content: ChatMessageContent) -> nat {
    match content {
        ChatMessageContent::Text(text) => text@.len(),
        ChatMessageContent::Parts(parts) => part_chars(parts@),
    }
}

/// How many parts of a message are images.
pub open spec fn content_images(content: ChatMessageContent) -> nat {
    match content {
        ChatMessageContent::Text(_) => 0,
        ChatMessageContent::Parts(parts) => part_images(parts@),
    }
}

/// How many characters the texts of messages have.
pub open spec fn text_chars(messages: Seq<ChatMessage>) -> nat
    decreases messages.len(),
{
    if messages.len() == 0 {
        0
    } else {
        text_chars(messages.drop_last()) + content_chars(messages.last().content)
    }
}

/// How many parts of messages are images.
pub open spec fn image_parts(messages: Seq<ChatMessage>) -> nat
    decreases messages.len(),
{
    if messages.len() == 0 {
        0
    } else {
        image_parts(messages.drop_last()) + content_images(messages.last().content)
    }
}

/// The roles of messages.
pub open spec fn message_roles(messages: Seq<ChatMessage>) -> Seq<Seq<char>> {
    Seq::new(messages.len(), |i: int| messages[i].role@)
}

proof fn lemma_part_counts_grow(parts: Seq<ChatMessageContentPart>, length: int)
    requires
        0 <= length <= parts.len(),
    ensures
        part_chars(parts.take(length)) <= part_chars(parts),
        part_images(parts.take(length)) <= part_images(parts),
    decreases parts.len(),
{
    if length == parts.len() {
        assert(parts.take(length) =~= parts);
    } else {
        lemma_part_counts_grow(parts.drop_last(), length);
        assert(parts.drop_last().take(length) =~= parts.take(length));
    }
}

proof fn lemma_message_counts_grow(messages: Seq<ChatMessage>, length: int)
    requires
        0 <= length <= messages.len(),
    ensures
        text_chars(messages.take(length)) <= text_chars(messages),
        image_parts(messages.take(length)) <= image_parts(messages),
    decreases messages.len(),
{
    if length == messages.len() {
        assert(messages.take(length) =~= messages);
    } else {
        lemma_message_counts_grow(messages.drop_last(), length);
        assert(messages.drop_last().take(length) =~= messages.take(length));
    }
}

/// Counts the characters of the texts and the images among the parts of a message, where there
/// are not too many of them.
fn count_content(content: &ChatMessageContent) -> (result: Option<(usize, usize)>)
    ensures
        match result {
            Some((chars, images)) => chars == content_chars(*content) && images == content_images(
                *content,
            ),
            None => content_chars(*content) > usize::MAX || content_images(*content) > usize::MAX,
        },
{
    match content {
        ChatMessageContent::Text(text) => Some((text.as_str().unicode_len(), 0)),
        ChatMessageContent::Parts(parts) => {
            let mut chars: usize = 0;
            let mut images: usize = 0;
            let mut i: usize = 0;
            while i < parts.len()
                invariant
                    i <= parts@.len(),
                    content == ChatMessageContent::Parts(*parts),
                    chars == part_chars(parts@.take(i as int)),
                    images == part_images(parts@.take(i as int)),
                decreases parts@.len() - i,
            {
                proof {
                    lemma_part_counts_grow(parts@, i + 1);
                    assert(parts@.take(i + 1).drop_last() =~= parts@.take(i as int));
                }
                match &parts[i] {
                    ChatMessageContentPart::Text { text } => {
                        match chars.checked_add(text.as_str().unicode_len()) {
                            Some(more) => {
                                chars = more;
                            },
                            None => {
                                return None;
                            },
                        }
                    },
                    ChatMessageContentPart::ImageUrl { .. } => {
                        match images.checked_add(1) {
                            Some(more) => {
                                images = more;
                            },
                            None => {
                                return None;
                            },
                        }
                    },
                }
                i += 1;
            }
            assert(parts@.take(parts@.len() as int) =~= parts@);
            Some((chars, images))
        },
    }
}

/// Counts what the log says about a request for a chat completion. `None` where there is too
/// much to count.
pub fn chat_request_stats(chat_completion_request: &ChatCompletionRequest) -> (result: Option<
    ChatRequestStats,
>)
    ensures
        match result {
            Some(stats) => {
                &&& stats.roles@ == joined(
                    message_roles(chat_completion_request.messages@),
                    ","@,
                )
                &&& stats.text_chars == text_chars(chat_completion_request.messages@)
                &&& stats.image_parts == image_parts(chat_completion_request.messages@)
            },
            None => text_chars(chat_completion_request.messages@) > usize::MAX || image_parts(
                chat_completion_request.messages@,
            ) > usize::MAX,
        },
{
    let messages = &chat_completion_request.messages;
    let mut roles: Vec<String> = Vec::new();
    let mut chars: usize = 0;
    let mut images: usize = 0;
    let mut i: usize = 0;
    while i < messages.len()
        invariant
            i <= messages@.len(),
            messages@ == chat_completion_request.messages@,
            texts(roles@) == message_roles(messages@).take(i as int),
            chars == text_chars(messages@.take(i as int)),
            images == image_parts(messages@.take(i as int)),
        decreases messages@.len() - i,
    {
        proof {
            lemma_message_counts_grow(messages@, i + 1);
            assert(messages@.take(i + 1).drop_last() =~= messages@.take(i as int));
        }
        let counts = match count_content(&messages[i].content) {
            Some(counts) => counts,
            None => {
                return None;
            },
        };
        match (chars.checked_add(counts.0), images.checked_add(counts.1)) {
            (Some(more_chars), Some(more_images)) => {
                chars = more_chars;
                images = more_images;
            },
            _ => {
                return None;
            },
        }
        let ghost before = texts(roles@);
        roles.push(messages[i].role.clone());
        assert(texts(roles@) =~= before.push(messages@[i as int].role@));
        assert(texts(roles@) =~= message_roles(messages@).take(i + 1));
        i += 1;
    }
    assert(messages@.take(messages@.len() as int) =~= messages@);
    assert(texts(roles@) =~= message_roles(messages@));
    Some(ChatRequestStats { roles: join(&roles, ","), text_chars: chars, image_parts: images })
}

/// Tells whether the log holds the bodies of requests: where the settings ask for it, or else
/// where the environment variable does.
pub open spec fn bodies_are_logged(detailed_logs: bool, variable: Option<Seq<char>>) -> bool {
    detailed_logs || variable == Some("1"@) || variable == Some("true"@) || variable == Some(
        "TRUE"@,
    ) || variable == Some("yes"@) || variable == Some("YES"@)
}

/// Tells whether the log holds the bodies of requests, given the environment variable that asks
/// for it.
pub fn log_bodies_enabled(detailed_logs: bool, variable: Option<&str>) -> (result: bool)
    ensures
        result == bodies_are_logged(
            detailed_logs,
            match variable {
                Some(value) => Some(value@),
                None => None,
            },
        ),
{
    if detailed_logs {
        return true;
    }
    match variable {
        Some(value) => same_text(value, "1") || same_text(value, "true") || same_text(value, "TRUE")
            || same_text(value, "yes") || same_text(value, "YES"),
        None => false,
    }
}

/// Tells whether a member with this key may hold a secret.
pub open spec fn is_secret_key(key: Seq<char>) -> bool {
    contains(key, "token"@) || contains(key, "authorization"@) || contains(key, "auth"@)
}

/// A text without the data of a picture: of a data URL, only how long the data is.
pub open spec fn sanitized_text(text: Seq<char>) -> Seq<char> {
    match find_from(text, ";base64,"@, 0) {
        Some(at) => if "data:"@.is_prefix_of(text.take(at)) {
            text.take(at) + ";base64,<redacted "@ + decimal(
                encode_utf8(text.skip(at + ";base64,"@.len())).len(),
            ) + " chars>"@
        } else {
            text
        },
        None => text,
    }
}

/// A value without secrets and without the data of pictures.
pub open spec fn sanitized(value: Json) -> Json
    decreases value,
{
    match value {
        Json::Array(items) => Json::Array(sanitized_items(items)),
        Json::Object(fields) => Json::Object(sanitized_fields(fields)),
        Json::Text(text) => Json::Text(sanitized_text(text)),
        _ => value,
    }
}

/// The items of an array without secrets and without the data of pictures.
pub open spec fn sanitized_items(items: Seq<Json>) -> Seq<Json>
    decreases items,
{
    if items.len() == 0 {
        Seq::empty()
    } else {
        sanitized_items(items.drop_last()).push(sanitized(items.last()))
    }
}

/// The members of an object without secrets and without the data of pictures.
pub open spec fn sanitized_fields(fields: Seq<(Seq<char>, Json)>) -> Seq<(Seq<char>, Json)>
    decreases fields,
{
    if fields.len() == 0 {
        Seq::empty()
    } else {
        let (key, value) = fields.last();
        let shown = if is_secret_key(key) {
            Json::Text("<redacted>"@)
        } else {
            sanitized(value)
        };
        sanitized_fields(fields.drop_last()).push((key, shown))
    }
}

fn secret_key(key: &str) -> (result: bool)
    ensures
        result == is_secret_key(key@),
{
    has_text(key, "token") || has_text(key, "authorization") || has_text(key, "auth")
}

/// Takes the data of a picture out of a text.
pub fn sanitize_string(text: &str) -> (result: String)
    ensures
        result@ == sanitized_text(text@),
{
    proof {
        lemma_find_from(text@, ";base64,"@, 0);
    }
    let chars = char_list(text);
    let mark = char_list(";base64,");
    let at = match find(&chars, &mark) {
        Some(at) => at,
        None => {
            return text.to_owned();
        },
    };
    let mime_type = text_between(&chars, 0, at);
    assert(mime_type@ =~= text@.take(at as int));
    if !starts_with(mime_type.as_str(), "data:") {
        return text.to_owned();
    }
    assert(at + mark@.len() <= chars.len());
    let base64_data = text_between(&chars, at + mark.len(), chars.len());
    assert(base64_data@ =~= text@.skip(at + mark@.len()));
    let mut shown = mime_type;
    shown.append(";base64,<redacted ");
    shown.append(decimal_text(base64_data.as_str().as_bytes().len() as u64).as_str());
    shown.append(" chars>");
    shown
}

/// Takes the secrets and the data of pictures out of a value.
pub fn sanitize_json_value(value: &JsonValue) -> (result: JsonValue)
    ensures
        result@ == sanitized(value@),
    decreases value@,
{
    match value {
        JsonValue::Null => JsonValue::Null,
        JsonValue::Bool(b) => JsonValue::Bool(*b),
        JsonValue::Number(text) => JsonValue::Number(text.clone()),
        JsonValue::Text(text) => JsonValue::Text(sanitize_string(text.as_str())),
        JsonValue::Array(items) => {
            let mut shown: Vec<JsonValue> = Vec::new();
            let mut i: usize = 0;
            while i < items.len()
                invariant
                    i <= items@.len(),
                    value == JsonValue::Array(*items),
                    items_model(shown@) == sanitized_items(items_model(items@.take(i as int))),
                decreases items@.len() - i,
            {
                let ghost before = shown@;
                proof {
                    lemma_items_model(items@);
                    assert(value@->Array_0[i as int] == items@[i as int]@);
                    assert(decreases_to!(value@ => value@->Array_0));
                }
                shown.push(sanitize_json_value(&items[i]));
                proof {
                    assert(shown@.drop_last() =~= before);
                    let done = items@.take(i + 1);
                    assert(done.drop_last() =~= items@.take(i as int));
                    assert(items_model(done).drop_last() =~= items_model(items@.take(i as int)));
                }
                i += 1;
            }
            assert(items@.take(items@.len() as int) =~= items@);
            JsonValue::Array(shown)
        },
        JsonValue::Object(fields) => {
            let mut shown: Vec<JsonField> = Vec::new();
            let mut i: usize = 0;
            while i < fields.len()
                invariant
                    i <= fields@.len(),
                    value == JsonValue::Object(*fields),
                    fields_model(shown@) == sanitized_fields(fields_model(fields@.take(i as int))),
                decreases fields@.len() - i,
            {
                let ghost before = shown@;
                proof {
                    lemma_fields_model(fields@);
                    assert(value@->Object_0[i as int].1 == fields@[i as int].value@);
                    assert(decreases_to!(value@ => value@->Object_0));
                }
                let key = fields[i].key.clone();
                let shown_value = if secret_key(key.as_str()) {
                    JsonValue::Text("<redacted>".to_owned())
                } else {
                    sanitize_json_value(&fields[i].value)
                };
                let ghost shown_field = (key@, shown_value@);
                shown.push(JsonField { key, value: shown_value });
                proof {
                    assert(shown@.drop_last() =~= before);
                    let done = fields@.take(i + 1);
                    assert(done.drop_last() =~= fields@.take(i as int));
                    assert(fields_model(done).drop_last() =~= fields_model(
                        fields@.take(i as int),
                    ));
                    assert(fields_model(done).last() == (
                        fields@[i as int].key@,
                        fields@[i as int].value@,
                    ));
                    assert(fields_model(shown@) =~= fields_model(before).push(shown_field));
                }
                i += 1;
            }
            assert(fields@.take(fields@.len() as int) =~= fields@);
            JsonValue::Object(shown)
        },
    }
}

/// How many objects in a value are pictures of an upstream request.
pub open spec fn input_images(value: Json) -> nat
    decreases value,
{
    match value {
        Json::Array(items) => input_images_of_items(items),
        Json::Object(fields) => {
            let own: nat = if value.text_member("type"@) == Some("input_image"@) {
                1
            } else {
                0
            };
            own + input_images_of_fields(fields)
        },
        _ => 0,
    }
}

/// How many objects in the items of an array are pictures of an upstream request.
pub open spec fn input_images_of_items(items: Seq<Json>) -> nat
    decreases items,
{
    if items.len() == 0 {
        0
    } else {
        input_images_of_items(items.drop_last()) + input_images(items.last())
    }
}

/// How many objects in the members of an object are pictures of an upstream request.
pub open spec fn input_images_of_fields(fields: Seq<(Seq<char>, Json)>) -> nat
    decreases fields,
{
    if fields.len() == 0 {
        0
    } else {
        input_images_of_fields(fields.drop_last()) + input_images(fields.last().1)
    }
}

proof fn lemma_item_images_grow(items: Seq<Json>, length: int)
    requires
        0 <= length <= items.len(),
    ensures
        input_images_of_items(items.take(length)) <= input_images_of_items(items),
    decreases items.len(),
{
    if length == items.len() {
        assert(items.take(length) =~= items);
    } else {
        lemma_item_images_grow(items.drop_last(), length);
        assert(items.drop_last().take(length) =~= items.take(length));
    }
}

proof fn lemma_field_images_grow(fields: Seq<(Seq<char>, Json)>, length: int)
    requires
        0 <= length <= fields.len(),
    ensures
        input_images_of_fields(fields.take(length)) <= input_images_of_fields(fields),
    decreases fields.len(),
{
    if length == fields.len() {
        assert(fields.take(length) =~= fields);
    } else {
        lemma_field_images_grow(fields.drop_last(), length);
        assert(fields.drop_last().take(length) =~= fields.take(length));
    }
}

/// Counts the pictures of an upstream request, where there are not too many of them.
pub fn count_input_images(value: &JsonValue) -> (result: Option<usize>)
    ensures
        match result {
            Some(count) => count == input_images(value@),
            None => input_images(value@) > usize::MAX,
        },
    decreases value@,
{
    match value {
        JsonValue::Array(items) => {
            let mut count: usize = 0;
            let mut i: usize = 0;
            while i < items.len()
                invariant
                    i <= items@.len(),
                    value == JsonValue::Array(*items),
                    count == input_images_of_items(items_model(items@).take(i as int)),
                decreases items@.len() - i,
            {
                let ghost all = items_model(items@);
                proof {
                    lemma_items_model(items@);
                    lemma_item_images_grow(all, i + 1);
                    assert(all.take(i + 1).drop_last() =~= all.take(i as int));
                    assert(all.take(i + 1).last() == items@[i as int]@);
                    assert(value@->Array_0[i as int] == items@[i as int]@);
                    assert(decreases_to!(value@ => value@->Array_0));
                }
                let found = match count_input_images(&items[i]) {
                    Some(found) => found,
                    None => {
                        return None;
                    },
                };
                count = match count.checked_add(found) {
                    Some(more) => more,
                    None => {
                        return None;
                    },
                };
                i += 1;
            }
            proof {
                lemma_items_model(items@);
                assert(items_model(items@).take(items@.len() as int) =~= items_model(items@));
            }
            Some(count)
        },
        JsonValue::Object(fields) => {
            let own = match value.get("type") {
                Some(kind) => match kind.as_str() {
                    Some(text) => same_text(text, "input_image"),
                    None => false,
                },
                None => false,
            };
            let ghost all = fields_model(fields@);
            let mut count: usize = 0;
            let mut i: usize = 0;
            while i < fields.len()
                invariant
                    i <= fields@.len(),
                    value == JsonValue::Object(*fields),
                    all == fields_model(fields@),
                    count == input_images_of_fields(all.take(i as int)),
                decreases fields@.len() - i,
            {
                proof {
                    lemma_fields_model(fields@);
                    lemma_field_images_grow(all, i + 1);
                    assert(all.take(i + 1).drop_last() =~= all.take(i as int));
                    assert(all.take(i + 1).last() == (
                        fields@[i as int].key@,
                        fields@[i as int].value@,
                    ));
                    assert(value@->Object_0[i as int].1 == fields@[i as int].value@);
                    assert(decreases_to!(value@ => value@->Object_0));
                }
                let found = match count_input_images(&fields[i].value) {
                    Some(found) => found,
                    None => {
                        return None;
                    },
                };
                count = match count.checked_add(found) {
                    Some(more) => more,
                    None => {
                        return None;
                    },
                };
                i += 1;
            }
            proof {
                lemma_fields_model(fields@);
                assert(all.take(fields@.len() as int) =~= all);
            }
            if own {
                count.checked_add(1)
            } else {
                Some(count)
            }
        },
        _ => Some(0),
    }
}

/// What the log says about the body of a request.
#[derive(Debug)]
pub enum LoggedBody {
    /// The body, without secrets and without the data of pictures.
    Json(JsonValue),
    /// What is wrong with the body, and how many bytes it has.
    Malformed { reason: String, body_bytes: usize },
}

/// What the log says about the body of a request.
pub fn logged_body(body: &[u8]) -> (result: LoggedBody)
    ensures
        match (parsed_json_bytes(body@), result) {
            (Ok(value), LoggedBody::Json(shown)) => shown@ == sanitized(value),
            (Err(fault), LoggedBody::Malformed { reason, body_bytes }) => reason@ == fault
                && body_bytes == body@.len(),
            _ => false,
        },
{
    match parse_json_bytes(body) {
        Ok(value) => LoggedBody::Json(sanitize_json_value(&value)),
        Err(reason) => LoggedBody::Malformed { reason, body_bytes: body.len() },
    }
}

proof fn lemma_sanitized_fields(fields: Seq<(Seq<char>, Json)>)
    ensures
        sanitized_fields(fields).len() == fields.len(),
        forall|i: int|
            0 <= i < fields.len() ==> (#[trigger] sanitized_fields(fields)[i]).0 == fields[i].0
                && sanitized_fields(fields)[i].1 == (if is_secret_key(fields[i].0) {
                Json::Text("<redacted>"@)
            } else {
                sanitized(fields[i].1)
            }),
    decreases fields.len(),
{
    if fields.len() > 0 {
        let before = fields.drop_last();
        lemma_sanitized_fields(before);
        assert forall|i: int| 0 <= i < fields.len() implies (#[trigger] sanitized_fields(
            fields,
        )[i]).0 == fields[i].0 && sanitized_fields(fields)[i].1 == (if is_secret_key(fields[i].0) {
            Json::Text("<redacted>"@)
        } else {
            sanitized(fields[i].1)
        }) by {
            if i < before.len() {
                assert(sanitized_fields(fields)[i] == sanitized_fields(before)[i]);
                assert(before[i] == fields[i]);
            }
        }
    }
}

/// The log keeps the members of an object and their keys, and shows nothing of those whose key
/// names a secret.
pub proof fn law_secrets_are_redacted(fields: Seq<(Seq<char>, Json)>, i: int)
    requires
        0 <= i < fields.len(),
    ensures
        sanitized_fields(fields).len() == fields.len(),
        sanitized_fields(fields)[i].0 == fields[i].0,
        is_secret_key(fields[i].0) ==> sanitized_fields(fields)[i].1 == Json::Text("<redacted>"@),
        !is_secret_key(fields[i].0) ==> sanitized_fields(fields)[i].1 == sanitized(fields[i].1),
{
    lemma_sanitized_fields(fields);
}

/// Tells whether two values differ, at any depth, in nothing but what stands under keys that
/// name secrets.
pub open spec fn differ_in_secrets_only(a: Json, b: Json) -> bool
    decreases a,
{
    match (a, b) {
        (Json::Array(x), Json::Array(y)) => items_differ_in_secrets_only(x, y),
        (Json::Object(x), Json::Object(y)) => fields_differ_in_secrets_only(x, y),
        _ => a == b,
    }
}

pub open spec fn items_differ_in_secrets_only(x: Seq<Json>, y: Seq<Json>) -> bool
    decreases x,
{
    x.len() == y.len() && (x.len() == 0 || {
        &&& items_differ_in_secrets_only(x.drop_last(), y.drop_last())
        &&& differ_in_secrets_only(x.last(), y.last())
    })
}

pub open spec fn fields_differ_in_secrets_only(
    x: Seq<(Seq<char>, Json)>,
    y: Seq<(Seq<char>, Json)>,
) -> bool
    decreases x,
{
    x.len() == y.len() && (x.len() == 0 || {
        &&& fields_differ_in_secrets_only(x.drop_last(), y.drop_last())
        &&& x.last().0 == y.last().0
        &&& is_secret_key(x.last().0) || differ_in_secrets_only(x.last().1, y.last().1)
    })
}

/// What the log shows of a value does not depend on its secrets, however deep they stand.
pub proof fn law_log_is_blind_to_secrets(a: Json, b: Json)
    requires
        differ_in_secrets_only(a, b),
    ensures
        sanitized(a) == sanitized(b),
    decreases a,
{
    match (a, b) {
        (Json::Array(x), Json::Array(y)) => lemma_items_are_shown_alike(x, y),
        (Json::Object(x), Json::Object(y)) => lemma_fields_are_shown_alike(x, y),
        _ => {},
    }
}

proof fn lemma_items_are_shown_alike(x: Seq<Json>, y: Seq<Json>)
    requires
        items_differ_in_secrets_only(x, y),
    ensures
        sanitized_items(x) == sanitized_items(y),
    decreases x,
{
    if x.len() > 0 {
        lemma_items_are_shown_alike(x.drop_last(), y.drop_last());
        law_log_is_blind_to_secrets(x.last(), y.last());
    }
}

proof fn lemma_fields_are_shown_alike(x: Seq<(Seq<char>, Json)>, y: Seq<(Seq<char>, Json)>)
    requires
        fields_differ_in_secrets_only(x, y),
    ensures
        sanitized_fields(x) == sanitized_fields(y),
    decreases x,
{
    if x.len() > 0 {
        lemma_fields_are_shown_alike(x.drop_last(), y.drop_last());
        if !is_secret_key(x.last().0) {
            law_log_is_blind_to_secrets(x.last().1, y.last().1);
        }
    }
}

/// What the log shows of a picture does not depend on its data, but for how long it is.
pub proof fn law_log_is_blind_to_pictures(a: Seq<char>, b: Seq<char>, at: int)
    requires
        find_from(a, ";base64,"@, 0) == Some(at),
        find_from(b, ";base64,"@, 0) == Some(at),
        a.take(at) == b.take(at),
        "data:"@.is_prefix_of(a.take(at)),
        encode_utf8(a.skip(at + ";base64,"@.len())).len() == encode_utf8(
            b.skip(at + ";base64,"@.len()),
        ).len(),
    ensures
        sanitized_text(a) == sanitized_text(b),
{
}

/// Tells whether no object in a value, however deep, shows anything under a key that names a
/// secret.
pub open spec fn shows_no_secret(value: Json) -> bool
    decreases value,
{
    match value {
        Json::Array(items) => items_show_no_secret(items),
        Json::Object(fields) => fields_show_no_secret(fields),
        _ => true,
    }
}

pub open spec fn items_show_no_secret(items: Seq<Json>) -> bool
    decreases items,
{
    items.len() == 0 || (items_show_no_secret(items.drop_last()) && shows_no_secret(items.last()))
}

pub open spec fn fields_show_no_secret(fields: Seq<(Seq<char>, Json)>) -> bool
    decreases fields,
{
    fields.len() == 0 || {
        &&& fields_show_no_secret(fields.drop_last())
        &&& is_secret_key(fields.last().0) ==> fields.last().1 == Json::Text("<redacted>"@)
        &&& shows_no_secret(fields.last().1)
    }
}

/// The log shows no secret of any value, however deep it stands.
pub proof fn law_no_secret_is_logged(value: Json)
    ensures
        shows_no_secret(sanitized(value)),
    decreases value,
{
    match value {
        Json::Array(items) => lemma_sanitized_items_show_no_secret(items),
        Json::Object(fields) => lemma_sanitized_fields_show_no_secret(fields),
        _ => {},
    }
}

proof fn lemma_sanitized_items_show_no_secret(items: Seq<Json>)
    ensures
        items_show_no_secret(sanitized_items(items)),
    decreases items,
{
    if items.len() > 0 {
        lemma_sanitized_items_show_no_secret(items.drop_last());
        law_no_secret_is_logged(items.last());
        assert(sanitized_items(items).drop_last() =~= sanitized_items(items.drop_last()));
    }
}

proof fn lemma_sanitized_fields_show_no_secret(fields: Seq<(Seq<char>, Json)>)
    ensures
        fields_show_no_secret(sanitized_fields(fields)),
    decreases fields,
{
    if fields.len() > 0 {
        lemma_sanitized_fields_show_no_secret(fields.drop_last());
        law_no_secret_is_logged(fields.last().1);
        assert(shows_no_secret(Json::Text("<redacted>"@)));
        assert(sanitized_fields(fields).drop_last() =~= sanitized_fields(fields.drop_last()));
    }
}

/// How many parts of the messages that go upstream are images.
pub open spec fn forwarded_images(messages: Seq<ChatMessage>) -> nat
    decreases messages.len(),
{
    if messages.len() == 0 {
        0
    } else {
        forwarded_images(messages.drop_last()) + if is_system(messages.last()) {
            0
        } else {
            content_images(messages.last().content)
        }
    }
}

proof fn lemma_text_images(text: Seq<char>)
    ensures
        input_images(codex_text(text)) == 0,
{
    reveal_strlit("input_text");
    reveal_strlit("input_image");
    assert("input_text"@.len() != "input_image"@.len());
    let fields = seq![("type"@, Json::Text("input_text"@)), ("text"@, Json::Text(text))];
    assert(fields.drop_last() =~= seq![("type"@, Json::Text("input_text"@))]);
    assert(fields.drop_last().drop_last() =~= Seq::<(Seq<char>, Json)>::empty());
    assert(input_images_of_fields(fields.drop_last().drop_last()) == 0);
    assert(input_images(Json::Text(text)) == 0);
    assert(input_images(Json::Text("input_text"@)) == 0);
    assert(input_images_of_fields(fields.drop_last()) == 0);
    assert(input_images_of_fields(fields) == 0);
    assert(Json::Object(fields).text_member("type"@) == Some("input_text"@));
}

proof fn lemma_part_images(part: ChatMessageContentPart)
    ensures
        input_images(codex_content(part)) == part_images(seq![part]),
{
    assert(seq![part].drop_last() =~= Seq::<ChatMessageContentPart>::empty());
    assert(part_images(Seq::<ChatMessageContentPart>::empty()) == 0);
    match part {
        ChatMessageContentPart::Text { text } => lemma_text_images(text@),
        ChatMessageContentPart::ImageUrl { image_url } => {
            let url = image_url.url@;
            let fields = seq![
                ("type"@, Json::Text("input_image"@)),
                ("image_url"@, Json::Text(url)),
            ];
            assert(fields.drop_last() =~= seq![("type"@, Json::Text("input_image"@))]);
            assert(fields.drop_last().drop_last() =~= Seq::<(Seq<char>, Json)>::empty());
            assert(input_images_of_fields(fields.drop_last().drop_last()) == 0);
            assert(input_images(Json::Text(url)) == 0);
            assert(input_images(Json::Text("input_image"@)) == 0);
            assert(input_images_of_fields(fields.drop_last()) == 0);
            assert(input_images_of_fields(fields) == 0);
            assert(Json::Object(fields).text_member("type"@) == Some("input_image"@));
        },
    }
}

proof fn lemma_parts_images(parts: Seq<ChatMessageContentPart>)
    ensures
        input_images_of_items(Seq::new(parts.len(), |i: int| codex_content(parts[i])))
            == part_images(parts),
    decreases parts.len(),
{
    let items = Seq::new(parts.len(), |i: int| codex_content(parts[i]));
    if parts.len() > 0 {
        let before = parts.drop_last();
        lemma_parts_images(before);
        lemma_part_images(parts.last());
        assert(items.drop_last() =~= Seq::new(before.len(), |i: int| codex_content(before[i])));
        assert(seq![parts.last()].drop_last() =~= Seq::<ChatMessageContentPart>::empty());
        assert(part_images(Seq::<ChatMessageContentPart>::empty()) == 0);
    }
}

proof fn lemma_message_images(message: ChatMessage)
    ensures
        input_images(codex_message(message)) == content_images(message.content),
{
    let contents = codex_contents(message.content);
    match message.content {
        ChatMessageContent::Text(text) => {
            lemma_text_images(text@);
            assert(contents.drop_last() =~= Seq::<Json>::empty());
            assert(input_images_of_items(Seq::<Json>::empty()) == 0);
        },
        ChatMessageContent::Parts(parts) => lemma_parts_images(parts@),
    }
    reveal_strlit("message");
    reveal_strlit("input_image");
    assert("message"@.len() != "input_image"@.len());
    let role = message.role@;
    let fields = seq![
        ("type"@, Json::Text("message"@)),
        ("role"@, Json::Text(role)),
        ("content"@, Json::Array(contents)),
    ];
    let two = fields.drop_last();
    assert(two =~= seq![("type"@, Json::Text("message"@)), ("role"@, Json::Text(role))]);
    let one = two.drop_last();
    assert(one =~= seq![("type"@, Json::Text("message"@))]);
    assert(one.drop_last() =~= Seq::<(Seq<char>, Json)>::empty());
    assert(input_images_of_fields(one.drop_last()) == 0);
    assert(input_images(Json::Text("message"@)) == 0);
    assert(input_images(Json::Text(role)) == 0);
    assert(input_images_of_fields(one) == 0);
    assert(input_images_of_fields(two) == 0);
    assert(input_images(Json::Array(contents)) == input_images_of_items(contents));
    assert(input_images_of_fields(fields) == input_images_of_items(contents));
    assert(Json::Object(fields).text_member("type"@) == Some("message"@));
}

/// No image of the conversation is lost on the way upstream, and none is added.
pub proof fn law_images_are_forwarded(messages: Seq<ChatMessage>)
    ensures
        input_images_of_items(codex_input(messages)) == forwarded_images(messages),
    decreases messages.len(),
{
    if messages.len() > 0 {
        law_images_are_forwarded(messages.drop_last());
        lemma_message_images(messages.last());
        if !is_system(messages.last()) {
            assert(codex_input(messages).drop_last() =~= codex_input(messages.drop_last()));
        }
    }
}

} // verus!
