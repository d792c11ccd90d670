//! What the log says about requests.

use crate::diagnostics::{
    chat_request_stats, content_chars, content_images, count_input_images, image_parts,
    input_images, input_images_of_fields, input_images_of_items, is_secret_key,
    law_secrets_are_redacted, log_bodies_enabled, logged_body, message_roles, part_chars,
    part_images, sanitize_json_value, sanitize_string, sanitized, sanitized_items, text_chars,
    ChatRequestStats, LoggedBody,
};
use crate::json::{
    fields_model, items_model, law_missing_member_is_not_found, lemma_fields_model,
    lemma_items_model, parsed_json_bytes, Json, JsonField, JsonValue,
};
use crate::openai::{ChatCompletionRequest, ChatMessage, ChatMessageContentPart};
use crate::text::{contains, decimal, find_from, lemma_find_from, occurs_at};
use vstd::prelude::*;
use vstd::utf8::encode_utf8;

verus! {

/// Tells whether a text holds a word.
pub open spec fn holds_word(text: Seq<char>, word: Seq<char>) -> bool {
    exists|before: Seq<char>, after: Seq<char>| text == #[trigger] (before + word + after)
}

pub(crate) proof fn lemma_holds_word(text: Seq<char>, word: Seq<char>)
    ensures
        holds_word(text, word) <==> contains(text, word),
{
    if holds_word(text, word) {
        let (before, after) = choose|before: Seq<char>, after: Seq<char>|
            text == #[trigger] (before + word + after);
        let at = before.len() as int;
        assert(text.subrange(at, at + word.len()) =~= word);
        assert(occurs_at(text, word, at));
    }
    if contains(text, word) {
        let at = choose|at: int| occurs_at(text, word, at);
        let before = text.take(at);
        let after = text.skip(at + word.len());
        assert(text =~= before + text.subrange(at, at + word.len()) + after);
    }
}

proof fn lemma_secret_key(key: Seq<char>)
    ensures
        is_secret_key(key) <==> holds_word(key, "token"@) || holds_word(key, "auth"@),
{
    lemma_holds_word(key, "token"@);
    lemma_holds_word(key, "auth"@);
    lemma_holds_word(key, "authorization"@);
    if holds_word(key, "authorization"@) {
        reveal_strlit("auth");
        reveal_strlit("authorization");
        let (before, after) = choose|before: Seq<char>, after: Seq<char>|
            key == #[trigger] (before + "authorization"@ + after);
        let rest = "authorization"@.skip(4) + after;
        assert(key =~= before + "auth"@ + rest);
    }
}

/// What is neither a text nor holds one is logged as it is.
pub proof fn law_scalars_are_logged_as_they_are(value: JsonValue, shown: JsonValue)
    requires
        call_ensures(sanitize_json_value, (&value,), shown),
        value is Null || value is Bool || value is Number,
    ensures
        shown@ == value@,
{
}

/// A text is logged as `sanitize_string` shows it, wherever it stands.
pub proof fn law_texts_are_logged(value: JsonValue, shown: JsonValue, text: &str, said: String)
    requires
        call_ensures(sanitize_json_value, (&value,), shown),
        value is Text,
        text@ == value->Text_0@,
        call_ensures(sanitize_string, (text,), said),
    ensures
        shown@ == Json::Text(said@),
{
}

proof fn lemma_sanitized_items(items: Seq<Json>)
    ensures
        sanitized_items(items).len() == items.len(),
        forall|i: int|
            0 <= i < items.len() ==> #[trigger] sanitized_items(items)[i] == sanitized(items[i]),
    decreases items.len(),
{
    if items.len() > 0 {
        let before = items.drop_last();
        lemma_sanitized_items(before);
        assert forall|i: int| 0 <= i < items.len() implies #[trigger] sanitized_items(items)[i]
            == sanitized(items[i]) by {
            if i < before.len() {
                assert(sanitized_items(items)[i] == sanitized_items(before)[i]);
                assert(before[i] == items[i]);
            }
        }
    }
}

/// An array is logged item by item, in order.
pub proof fn law_arrays_are_logged(
    items: Vec<JsonValue>,
    shown: JsonValue,
    i: int,
    shown_item: JsonValue,
)
    requires
        call_ensures(sanitize_json_value, (&JsonValue::Array(items),), shown),
        0 <= i < items@.len(),
        call_ensures(sanitize_json_value, (&items@[i],), shown_item),
    ensures
        shown@ is Array,
        shown@->Array_0.len() == items@.len(),
        shown@->Array_0[i] == shown_item@,
{
    lemma_items_model(items@);
    lemma_sanitized_items(items_model(items@));
    assert(items_model(items@)[i] == items@[i]@);
}

/// An object is logged member by member, in order and under its keys. Nothing is shown of a
/// member whose key holds `token` or `auth`.
pub proof fn law_objects_are_logged(
    fields: Vec<JsonField>,
    shown: JsonValue,
    i: int,
    shown_value: JsonValue,
)
    requires
        call_ensures(sanitize_json_value, (&JsonValue::Object(fields),), shown),
        0 <= i < fields@.len(),
        call_ensures(sanitize_json_value, (&fields@[i].value,), shown_value),
    ensures
        shown@ is Object,
        shown@->Object_0.len() == fields@.len(),
        shown@->Object_0[i].0 == fields@[i].key@,
        holds_word(fields@[i].key@, "token"@) || holds_word(fields@[i].key@, "auth"@)
            ==> shown@->Object_0[i].1 == Json::Text("<redacted>"@),
        !holds_word(fields@[i].key@, "token"@) && !holds_word(fields@[i].key@, "auth"@)
            ==> shown@->Object_0[i].1 == shown_value@,
{
    lemma_fields_model(fields@);
    assert(fields_model(fields@)[i] == (fields@[i].key@, fields@[i].value@));
    law_secrets_are_redacted(fields_model(fields@), i);
    lemma_secret_key(fields@[i].key@);
}

/// Nothing is logged of the data of a picture but how long it is.
pub proof fn law_picture_data_is_not_logged(
    head: Seq<char>,
    data: Seq<char>,
    text: &str,
    shown: String,
)
    requires
        text@ == head + ";base64,"@ + data,
        "data:"@.is_prefix_of(head),
        forall|before: Seq<char>, after: Seq<char>|
            text@ == #[trigger] (before + ";base64,"@ + after) ==> before.len() >= head.len(),
        call_ensures(sanitize_string, (text,), shown),
    ensures
        shown@ == head + ";base64,<redacted "@ + decimal(encode_utf8(data).len()) + " chars>"@,
{
    let mark = ";base64,"@;
    let n = head.len() as int;
    lemma_find_from(text@, mark, 0);
    assert(text@.subrange(n, n + mark.len()) =~= mark);
    assert(occurs_at(text@, mark, n));
    let at = find_from(text@, mark, 0)->0;
    if at < n {
        let before = text@.take(at);
        let after = text@.skip(at + mark.len());
        assert(text@ =~= before + mark + after);
        assert(text@ == before + mark + after);
    }
    assert(text@.take(n) =~= head);
    assert(text@.skip(n + mark.len()) =~= data);
}

/// Any other text is logged as it is.
pub proof fn law_other_texts_are_logged_as_they_are(text: &str, shown: String)
    requires
        call_ensures(sanitize_string, (text,), shown),
        !holds_word(text@, ";base64,"@) || !"data:"@.is_prefix_of(text@),
    ensures
        shown@ == text@,
{
    let mark = ";base64,"@;
    lemma_find_from(text@, mark, 0);
    lemma_holds_word(text@, mark);
    if find_from(text@, mark, 0) is Some {
        let at = find_from(text@, mark, 0)->0;
        assert(contains(text@, mark));
        if "data:"@.is_prefix_of(text@.take(at)) {
            let n = "data:"@.len() as int;
            assert(text@.take(at).subrange(0, n) =~= text@.subrange(0, n));
        }
    }
}

/// The body of a request is logged without its secrets, or with what is wrong with it.
pub proof fn law_bodies_are_logged(
    body: &[u8],
    logged: LoggedBody,
    value: JsonValue,
    shown: JsonValue,
)
    requires
        call_ensures(logged_body, (body,), logged),
        call_ensures(sanitize_json_value, (&value,), shown),
    ensures
        parsed_json_bytes(body@) == Ok::<Json, Seq<char>>(value@) ==> logged is Json
            && logged->Json_0@ == shown@,
        parsed_json_bytes(body@) is Err ==> logged is Malformed && logged->reason@
            == parsed_json_bytes(body@)->Err_0 && logged->body_bytes == body@.len(),
{
}

/// Bodies are logged where the settings or the environment ask for it.
pub proof fn law_bodies_are_logged_on_request(
    detailed_logs: bool,
    variable: Option<&str>,
    logged: bool,
)
    requires
        call_ensures(log_bodies_enabled, (detailed_logs, variable), logged),
    ensures
        detailed_logs ==> logged,
        !detailed_logs && variable is None ==> !logged,
        !detailed_logs && variable is Some ==> (logged <==> variable->0@ == "1"@ || variable->0@
            == "true"@ || variable->0@ == "TRUE"@ || variable->0@ == "yes"@ || variable->0@
            == "YES"@),
{
}

/// There is nothing to count in a request without messages.
pub proof fn law_stats_of_no_messages(
    request: ChatCompletionRequest,
    stats: Option<ChatRequestStats>,
)
    requires
        request.messages@.len() == 0,
        call_ensures(chat_request_stats, (&request,), stats),
    ensures
        stats is Some,
        stats->0.roles@.len() == 0,
        stats->0.text_chars == 0,
        stats->0.image_parts == 0,
{
}

/// Tells whether statistics are those before with so many more characters and images.
pub open spec fn counts_more(
    before: ChatRequestStats,
    after: Option<ChatRequestStats>,
    chars: nat,
    images: nat,
) -> bool {
    &&& after is Some <==> before.text_chars + chars <= usize::MAX && before.image_parts + images
        <= usize::MAX
    &&& after is Some ==> after->0.text_chars == before.text_chars + chars
    &&& after is Some ==> after->0.image_parts == before.image_parts + images
}

proof fn lemma_one_message_more(messages: Seq<ChatMessage>, message: ChatMessage)
    ensures
        text_chars(messages.push(message)) == text_chars(messages) + content_chars(
            message.content,
        ),
        image_parts(messages.push(message)) == image_parts(messages) + content_images(
            message.content,
        ),
{
    assert(messages.push(message).drop_last() =~= messages);
}

/// A message more adds its role, behind a comma, and the characters of its text; a message of
/// parts starts with nothing.
pub proof fn law_message_adds_to_the_stats(
    before: ChatCompletionRequest,
    before_stats: ChatRequestStats,
    message: ChatMessage,
    after: ChatCompletionRequest,
    after_stats: Option<ChatRequestStats>,
)
    requires
        call_ensures(chat_request_stats, (&before,), Some(before_stats)),
        after.messages@ == before.messages@.push(message),
        call_ensures(chat_request_stats, (&after,), after_stats),
    ensures
        after_stats is Some ==> after_stats->0.roles@ == (if before.messages@.len() == 0 {
            message.role@
        } else {
            before_stats.roles@ + ","@ + message.role@
        }),
        message.content is Text ==> counts_more(
            before_stats,
            after_stats,
            message.content->Text_0@.len(),
            0,
        ),
        message.content is Parts && message.content->Parts_0@.len() == 0 ==> counts_more(
            before_stats,
            after_stats,
            0,
            0,
        ),
{
    lemma_one_message_more(before.messages@, message);
    let roles = message_roles(before.messages@);
    assert(message_roles(after.messages@) =~= roles.push(message.role@));
    assert(roles.push(message.role@).drop_last() =~= roles);
}

/// A part more adds the characters of its text, or one image.
pub proof fn law_part_adds_to_the_stats(
    messages: Seq<ChatMessage>,
    message: ChatMessage,
    before: ChatCompletionRequest,
    before_stats: ChatRequestStats,
    part: ChatMessageContentPart,
    longer: ChatMessage,
    after: ChatCompletionRequest,
    after_stats: Option<ChatRequestStats>,
)
    requires
        message.content is Parts,
        before.messages@ == messages.push(message),
        call_ensures(chat_request_stats, (&before,), Some(before_stats)),
        longer.role@ == message.role@,
        longer.content is Parts,
        longer.content->Parts_0@ == message.content->Parts_0@.push(part),
        after.messages@ == messages.push(longer),
        call_ensures(chat_request_stats, (&after,), after_stats),
    ensures
        after_stats is Some ==> after_stats->0.roles@ == before_stats.roles@,
        part is Text ==> counts_more(before_stats, after_stats, part->text@.len(), 0),
        part is ImageUrl ==> counts_more(before_stats, after_stats, 0, 1),
{
    lemma_one_message_more(messages, message);
    lemma_one_message_more(messages, longer);
    let parts = message.content->Parts_0@;
    assert(parts.push(part).drop_last() =~= parts);
    assert(part_chars(parts.push(part)) == part_chars(parts) + (match part {
        ChatMessageContentPart::Text { text } => text@.len(),
        ChatMessageContentPart::ImageUrl { .. } => 0,
    }));
    assert(part_images(parts.push(part)) == part_images(parts) + (match part {
        ChatMessageContentPart::Text { .. } => 0nat,
        ChatMessageContentPart::ImageUrl { .. } => 1,
    }));
    assert(message_roles(after.messages@) =~= message_roles(before.messages@));
}

/// Tells whether a count is the sum of others, where that is not too much to count.
pub open spec fn is_total(count: Option<usize>, total: int) -> bool {
    &&& count is Some <==> total <= usize::MAX
    &&& count is Some ==> count->0 == total
}

/// There is no picture in a value without parts.
pub proof fn law_scalars_hold_no_picture(value: JsonValue, count: Option<usize>)
    requires
        call_ensures(count_input_images, (&value,), count),
        !(value is Array) || value->Array_0@.len() == 0,
        !(value is Object) || value->Object_0@.len() == 0,
    ensures
        count == Some(0usize),
{
    if value is Object {
        law_missing_member_is_not_found(fields_model(value->Object_0@), "type"@);
    }
}

/// An item more adds its pictures to an array.
pub proof fn law_item_adds_its_pictures(
    items: Vec<JsonValue>,
    count: usize,
    item: JsonValue,
    item_count: usize,
    more: Vec<JsonValue>,
    more_count: Option<usize>,
)
    requires
        call_ensures(count_input_images, (&JsonValue::Array(items),), Some(count)),
        call_ensures(count_input_images, (&item,), Some(item_count)),
        more@ == items@.push(item),
        call_ensures(count_input_images, (&JsonValue::Array(more),), more_count),
    ensures
        is_total(more_count, count + item_count),
{
    assert(more@.drop_last() =~= items@);
    let all = items_model(more@);
    assert(all.drop_last() =~= items_model(items@));
    assert(all.last() == item@);
    assert(input_images(JsonValue::Array(more)@) == input_images_of_items(all));
}

/// Tells whether a member has a key.
pub open spec fn has_key(fields: Seq<JsonField>, key: Seq<char>) -> bool {
    exists|i: int| 0 <= i < fields.len() && (#[trigger] fields[i]).key@ == key
}

/// A member more adds its pictures to an object, and makes a picture of it where it is the first
/// to tell its type and tells that it is one.
pub proof fn law_member_adds_its_pictures(
    fields: Vec<JsonField>,
    count: usize,
    field: JsonField,
    field_count: usize,
    more: Vec<JsonField>,
    more_count: Option<usize>,
)
    requires
        call_ensures(count_input_images, (&JsonValue::Object(fields),), Some(count)),
        call_ensures(count_input_images, (&field.value,), Some(field_count)),
        more@ == fields@.push(field),
        call_ensures(count_input_images, (&JsonValue::Object(more),), more_count),
    ensures
        !has_key(fields@, "type"@) && field.key@ == "type"@ && field.value@ == Json::Text(
            "input_image"@,
        ) ==> is_total(more_count, count + field_count + 1),
        has_key(fields@, "type"@) || field.key@ != "type"@ || field.value@ != Json::Text(
            "input_image"@,
        ) ==> is_total(more_count, count + field_count),
{
    let before = fields_model(fields@);
    let all = fields_model(more@);
    assert(more@.drop_last() =~= fields@);
    lemma_fields_model(fields@);
    lemma_fields_model(more@);
    assert(all =~= before.push((field.key@, field.value@)));
    assert(all.drop_last() =~= before);
    assert(input_images_of_fields(all) == input_images_of_fields(before) + input_images(
        field.value@,
    ));
    let kind = "type"@;
    lemma_member_of_more(before, (field.key@, field.value@), kind);
    if has_key(fields@, kind) {
        let i = choose|i: int| 0 <= i < fields@.len() && (#[trigger] fields@[i]).key@ == kind;
        assert(before[i].0 == kind);
        lemma_member_is_there(before, kind, i);
    } else {
        assert forall|i: int| 0 <= i < before.len() implies (#[trigger] before[i]).0 != kind by {
            assert(before[i] == (fields@[i].key@, fields@[i].value@));
        }
        law_missing_member_is_not_found(before, kind);
    }
}

proof fn lemma_member_is_there(fields: Seq<(Seq<char>, Json)>, key: Seq<char>, i: int)
    requires
        0 <= i < fields.len(),
        fields[i].0 == key,
    ensures
        crate::json::member(fields, key) is Some,
    decreases fields.len(),
{
    if fields[0].0 != key {
        assert(fields.drop_first()[i - 1] == fields[i]);
        lemma_member_is_there(fields.drop_first(), key, i - 1);
    }
}

proof fn lemma_member_of_more(
    fields: Seq<(Seq<char>, Json)>,
    field: (Seq<char>, Json),
    key: Seq<char>,
)
    ensures
        crate::json::member(fields.push(field), key) == (match crate::json::member(fields, key) {
            Some(value) => Some(value),
            None => if field.0 == key {
                Some(field.1)
            } else {
                None
            },
        }),
    decreases fields.len(),
{
    let more = fields.push(field);
    if fields.len() == 0 {
        assert(more.drop_first() =~= Seq::<(Seq<char>, Json)>::empty());
        assert(crate::json::member(more.drop_first(), key) is None);
    } else {
        assert(more.drop_first() =~= fields.drop_first().push(field));
        if fields[0].0 != key {
            lemma_member_of_more(fields.drop_first(), field, key);
        }
    }
}

} // verus!
