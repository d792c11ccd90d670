//! How a request of a client becomes a request to upstream, and how the answer is written.

use crate::clock::is_clock_reading;
use crate::codex::CodexRequest;
use crate::config::{
    law_efforts_are_read_back, law_efforts_have_their_own_words, ProxySettings, ReasoningEffort,
    Speed,
};
use crate::error::ProxyError;
use crate::json::{items_model, law_member_is_found, lemma_items_model, Json, JsonValue};
use crate::openai::{
    chat_completion_response, chat_completion_response_at, chat_message_part_to_codex_content,
    chat_message_text, chat_message_to_codex_input, codex_content, codex_contents,
    codex_instructions_from_messages, codex_message, codex_text, is_refused_input,
    is_refused_message, is_refused_part, is_system, law_input_is_the_conversation, message_text,
    model_response, models_response, part_texts, stream_chunk_at, system_texts, ChatCompletionChunk,
    ChatCompletionDelta, ChatCompletionRequest, ChatCompletionResponse, ChatMessage,
    ChatMessageContent, ChatMessageContentPart, ModelResponse, ModelsResponse,
};
use crate::text::{decimal, joined, optional_text};
use vstd::prelude::*;

verus! {

/// The messages of a conversation that are not from the system.
pub open spec fn turns(messages: Seq<ChatMessage>) -> Seq<ChatMessage> {
    messages.filter(|message: ChatMessage| message.role@ != "system"@)
}

/// Tells whether a value is an object with so many members.
pub open spec fn has_members(value: Json, count: nat) -> bool {
    value is Object && value->Object_0.len() == count
}

/// Tells whether a part of an upstream message is this text, and says nothing else.
pub open spec fn says_text(item: Json, text: Seq<char>) -> bool {
    &&& has_members(item, 2)
    &&& item.text_member("type"@) == Some("input_text"@)
    &&& item.text_member("text"@) == Some(text)
}

/// Tells whether a part of an upstream message is what a part of a message holds.
pub open spec fn says_part(item: Json, part: ChatMessageContentPart) -> bool {
    match part {
        ChatMessageContentPart::Text { text } => says_text(item, text@),
        ChatMessageContentPart::ImageUrl { image_url } => {
            &&& has_members(item, 2)
            &&& item.text_member("type"@) == Some("input_image"@)
            &&& item.text_member("image_url"@) == Some(image_url.url@)
        },
    }
}

/// Tells whether an item of the upstream input is a message: by whom it is, what it holds, part
/// by part, and nothing else.
pub open spec fn says_message(item: Json, message: ChatMessage) -> bool {
    &&& has_members(item, 3)
    &&& item.text_member("type"@) == Some("message"@)
    &&& item.text_member("role"@) == Some(message.role@)
    &&& match item.get("content"@) {
        Some(Json::Array(parts)) => match message.content {
            ChatMessageContent::Text(text) => parts.len() == 1 && says_text(parts[0], text@),
            ChatMessageContent::Parts(list) => parts.len() == list@.len() && forall|i: int|
                0 <= i < parts.len() ==> says_part(#[trigger] parts[i], list@[i]),
        },
        _ => false,
    }
}

proof fn lemma_pair(first: (Seq<char>, Json), second: (Seq<char>, Json))
    requires
        first.0 != second.0,
    ensures
        Json::Object(seq![first, second]).get(first.0) == Some(first.1),
        Json::Object(seq![first, second]).get(second.0) == Some(second.1),
{
    let fields = seq![first, second];
    law_member_is_found(fields, first.0, 0);
    law_member_is_found(fields, second.0, 1);
}

proof fn lemma_codex_text(text: Seq<char>)
    ensures
        says_text(codex_text(text), text),
{
    reveal_strlit("type");
    reveal_strlit("text");
    assert("type"@[1] != "text"@[1]);
    lemma_pair(("type"@, Json::Text("input_text"@)), ("text"@, Json::Text(text)));
}

proof fn lemma_codex_content(part: ChatMessageContentPart)
    ensures
        says_part(codex_content(part), part),
{
    match part {
        ChatMessageContentPart::Text { text } => lemma_codex_text(text@),
        ChatMessageContentPart::ImageUrl { image_url } => {
            reveal_strlit("type");
            reveal_strlit("image_url");
            assert("type"@.len() != "image_url"@.len());
            lemma_pair(
                ("type"@, Json::Text("input_image"@)),
                ("image_url"@, Json::Text(image_url.url@)),
            );
        },
    }
}

proof fn lemma_codex_message(message: ChatMessage)
    ensures
        says_message(codex_message(message), message),
{
    reveal_strlit("type");
    reveal_strlit("role");
    reveal_strlit("content");
    assert("type"@[0] != "role"@[0]);
    assert("type"@.len() != "content"@.len());
    assert("role"@.len() != "content"@.len());
    let parts = codex_contents(message.content);
    let fields = seq![
        ("type"@, Json::Text("message"@)),
        ("role"@, Json::Text(message.role@)),
        ("content"@, Json::Array(parts)),
    ];
    law_member_is_found(fields, "type"@, 0);
    law_member_is_found(fields, "role"@, 1);
    law_member_is_found(fields, "content"@, 2);
    match message.content {
        ChatMessageContent::Text(text) => lemma_codex_text(text@),
        ChatMessageContent::Parts(list) => {
            assert forall|i: int| 0 <= i < parts.len() implies says_part(
                #[trigger] parts[i],
                list@[i],
            ) by {
                lemma_codex_content(list@[i]);
            }
        },
    }
}

/// A part of a message goes upstream as what it is: a text with its words, an image with its
/// address.
pub proof fn law_part_is_carried(part: ChatMessageContentPart, item: JsonValue)
    requires
        call_ensures(chat_message_part_to_codex_content, (&part,), Ok(item)),
    ensures
        says_part(item@, part),
{
    lemma_codex_content(part);
}

/// A message goes upstream under its own role, and with all its parts in order.
pub proof fn law_message_is_carried(message: ChatMessage, item: JsonValue)
    requires
        call_ensures(chat_message_to_codex_input, (&message,), Ok(item)),
    ensures
        says_message(item@, message),
        item@.text_member("role"@) == Some(message.role@),
{
    lemma_codex_message(message);
}

/// Messages of different roles are never the same to upstream.
pub proof fn law_roles_can_be_told_apart(
    a: ChatMessage,
    a_item: JsonValue,
    b: ChatMessage,
    b_item: JsonValue,
)
    requires
        call_ensures(chat_message_to_codex_input, (&a,), Ok(a_item)),
        call_ensures(chat_message_to_codex_input, (&b,), Ok(b_item)),
        a.role@ != b.role@,
    ensures
        a_item@ != b_item@,
{
    law_message_is_carried(a, a_item);
    law_message_is_carried(b, b_item);
}

/// Every turn of the conversation goes upstream, in order, under its own role and with all its
/// parts; nothing else does.
pub proof fn law_every_turn_goes_upstream(
    request: ChatCompletionRequest,
    settings: ProxySettings,
    upstream: CodexRequest,
)
    requires
        call_ensures(ChatCompletionRequest::to_codex_request, (&request, &settings), Ok(upstream)),
    ensures
        upstream.input@.len() == turns(request.messages@).len(),
        forall|k: int|
            0 <= k < upstream.input@.len() ==> {
                &&& says_message((#[trigger] upstream.input@[k])@, turns(request.messages@)[k])
                &&& upstream.input@[k]@.text_member("role"@) == Some(
                    turns(request.messages@)[k].role@,
                )
            },
{
    let messages = request.messages@;
    law_input_is_the_conversation(messages);
    lemma_items_model(upstream.input@);
    let f = |message: ChatMessage| !is_system(message);
    let g = |message: ChatMessage| message.role@ != "system"@;
    assert(f =~= g);
    assert forall|k: int| 0 <= k < upstream.input@.len() implies {
        &&& says_message((#[trigger] upstream.input@[k])@, turns(messages)[k])
        &&& upstream.input@[k]@.text_member("role"@) == Some(turns(messages)[k].role@)
    } by {
        assert(items_model(upstream.input@)[k] == upstream.input@[k]@);
        assert(upstream.input@[k]@ == codex_message(turns(messages)[k]));
        lemma_codex_message(turns(messages)[k]);
    }
}

/// Tells whether a turn of the conversation holds an image without an address.
pub open spec fn has_image_without_address(messages: Seq<ChatMessage>) -> bool {
    exists|i: int, j: int|
        {
            &&& 0 <= i < messages.len()
            &&& messages[i].role@ != "system"@
            &&& messages[i].content is Parts
            &&& 0 <= j < messages[i].content->Parts_0@.len()
            &&& (#[trigger] messages[i].content->Parts_0@[j]) is ImageUrl
            &&& messages[i].content->Parts_0@[j]->image_url.url@.len() == 0
        }
}

/// A request is refused exactly where a turn holds an image without an address, and then as
/// invalid.
pub proof fn law_only_images_without_address_are_refused(
    request: ChatCompletionRequest,
    settings: ProxySettings,
    result: Result<CodexRequest, ProxyError>,
)
    requires
        call_ensures(ChatCompletionRequest::to_codex_request, (&request, &settings), result),
    ensures
        result is Err <==> has_image_without_address(request.messages@),
        result is Err ==> result->Err_0 is InvalidRequest && result->Err_0->InvalidRequest_0@
            == "image_url.url must not be empty"@,
{
    let messages = request.messages@;
    if is_refused_input(messages) {
        let i = choose|i: int|
            0 <= i < messages.len() && !is_system(#[trigger] messages[i]) && is_refused_message(
                messages[i],
            );
        let parts = messages[i].content->Parts_0@;
        let j = choose|j: int| 0 <= j < parts.len() && is_refused_part(#[trigger] parts[j]);
        assert(messages[i].content->Parts_0@[j] is ImageUrl);
    }
    if has_image_without_address(messages) {
        let (i, j) = choose|i: int, j: int|
            {
                &&& 0 <= i < messages.len()
                &&& messages[i].role@ != "system"@
                &&& messages[i].content is Parts
                &&& 0 <= j < messages[i].content->Parts_0@.len()
                &&& (#[trigger] messages[i].content->Parts_0@[j]) is ImageUrl
                &&& messages[i].content->Parts_0@[j]->image_url.url@.len() == 0
            };
        assert(is_refused_part(messages[i].content->Parts_0@[j]));
        assert(is_refused_message(messages[i]));
        assert(!is_system(messages[i]));
    }
}

/// What goes upstream beside the conversation: the model under the name that upstream knows, the
/// effort that the client asks for or else that of the settings, and always a stream that is
/// not stored.
pub proof fn law_model_and_effort_go_upstream(
    request: ChatCompletionRequest,
    settings: ProxySettings,
    upstream: CodexRequest,
)
    requires
        call_ensures(ChatCompletionRequest::to_codex_request, (&request, &settings), Ok(upstream)),
    ensures
        request.model@ == "gpt-5.5-fast"@ ==> upstream.model@ == "gpt-5.5"@,
        request.model@ != "gpt-5.5-fast"@ ==> upstream.model@ == request.model@,
        forall|effort: ReasoningEffort| #[trigger]
            effort.upstream_value() == upstream.reasoning.effort@ <==> request.reasoning_effort
                == Some(effort) || (request.reasoning_effort is None && settings.reasoning_effort
                == effort),
        upstream.stream,
        !upstream.store,
        upstream.prompt_cache_key is None,
{
    assert forall|effort: ReasoningEffort| #[trigger]
        effort.upstream_value() == upstream.reasoning.effort@ implies request.reasoning_effort
        == Some(effort) || (request.reasoning_effort is None && settings.reasoning_effort
        == effort) by {
        law_efforts_have_their_own_words(effort, request.effort(settings));
    }
}

/// The words of the efforts.
pub proof fn law_effort_words(effort: ReasoningEffort, word: &'static str)
    requires
        call_ensures(ReasoningEffort::as_upstream_value, (effort,), word),
    ensures
        effort is Off <==> word@ == "none"@,
        effort is Minimal <==> word@ == "minimal"@,
        effort is Low <==> word@ == "low"@,
        effort is Medium <==> word@ == "medium"@,
        effort is High <==> word@ == "high"@,
        effort is XHigh <==> word@ == "xhigh"@,
{
    reveal_strlit("none");
    reveal_strlit("minimal");
    reveal_strlit("low");
    reveal_strlit("medium");
    reveal_strlit("high");
    reveal_strlit("xhigh");
    assert("none"@.len() == 4 && "high"@.len() == 4);
    assert("none"@[0] == 'n' && "high"@[0] == 'h');
    assert("minimal"@.len() == 7 && "low"@.len() == 3 && "medium"@.len() == 6);
    assert("xhigh"@.len() == 5);
}

/// A word is read as an effort exactly where it is the word of that effort.
pub proof fn law_effort_words_are_read(word: &str, read: Option<ReasoningEffort>)
    requires
        call_ensures(ReasoningEffort::from_upstream_value, (word,), read),
    ensures
        word@ == "none"@ <==> read == Some(ReasoningEffort::Off),
        word@ == "minimal"@ <==> read == Some(ReasoningEffort::Minimal),
        word@ == "low"@ <==> read == Some(ReasoningEffort::Low),
        word@ == "medium"@ <==> read == Some(ReasoningEffort::Medium),
        word@ == "high"@ <==> read == Some(ReasoningEffort::High),
        word@ == "xhigh"@ <==> read == Some(ReasoningEffort::XHigh),
{
    assert forall|effort: ReasoningEffort| word@ == #[trigger] effort.upstream_value() implies read
        == Some(effort) by {
        law_efforts_are_read_back(effort, read);
    }
    assert(ReasoningEffort::Off.upstream_value() == "none"@);
    assert(ReasoningEffort::Minimal.upstream_value() == "minimal"@);
    assert(ReasoningEffort::Low.upstream_value() == "low"@);
    assert(ReasoningEffort::Medium.upstream_value() == "medium"@);
    assert(ReasoningEffort::High.upstream_value() == "high"@);
    assert(ReasoningEffort::XHigh.upstream_value() == "xhigh"@);
}

/// Which service tier goes upstream.
pub proof fn law_tier_goes_upstream(
    request: ChatCompletionRequest,
    settings: ProxySettings,
    upstream: CodexRequest,
)
    requires
        call_ensures(ChatCompletionRequest::to_codex_request, (&request, &settings), Ok(upstream)),
    ensures
        match request.service_tier {
            Some(asked) => {
                &&& asked@ == "none"@ ==> upstream.service_tier is None
                &&& (asked@ == "fast"@ || asked@ == "priority"@) && settings.priority_service
                    ==> upstream.service_tier is Some && upstream.service_tier->0@ == "priority"@
                &&& (asked@ == "fast"@ || asked@ == "priority"@) && !settings.priority_service
                    ==> upstream.service_tier is None
                &&& asked@ != "none"@ && asked@ != "fast"@ && asked@ != "priority"@
                    ==> upstream.service_tier is Some && upstream.service_tier->0@ == asked@
            },
            None => {
                &&& upstream.service_tier is Some ==> upstream.service_tier->0@ == "priority"@
                &&& upstream.service_tier is Some <==> settings.priority_service && (
                request.model@ == "gpt-5.5-fast"@ || settings.speed == Speed::Fast)
            },
        },
{
    reveal_strlit("none");
    reveal_strlit("fast");
    reveal_strlit("priority");
    assert("none"@[0] != "fast"@[0]);
    assert("priority"@.len() != "none"@.len());
    assert("priority"@.len() != "fast"@.len());
}

proof fn lemma_joined_is_not_empty(parts: Seq<Seq<char>>, separator: Seq<char>, i: int)
    requires
        0 <= i < parts.len(),
        parts[i].len() > 0,
    ensures
        joined(parts, separator).len() > 0,
    decreases parts.len(),
{
    if parts.len() > 1 && i < parts.len() - 1 {
        assert(parts.drop_last()[i] == parts[i]);
        lemma_joined_is_not_empty(parts.drop_last(), separator, i);
    }
}

/// Tells whether a message says nothing: it has no text but an empty part, where it has one.
pub open spec fn says_nothing(message: ChatMessage) -> bool {
    message.content is Parts && exists|i: int|
        {
            &&& i < message.content->Parts_0@.len()
            &&& 0 <= i ==> #[trigger] message.content->Parts_0@[i] is Text
            &&& 0 <= i ==> message.content->Parts_0@[i]->text@.len() == 0
            &&& forall|k: int|
                0 <= k < message.content->Parts_0@.len() && k != i
                    ==> #[trigger] message.content->Parts_0@[k] is ImageUrl
        }
}

/// Tells whether a message has no part in the instructions.
pub open spec fn is_silent(message: ChatMessage) -> bool {
    message.role@ != "system"@ || says_nothing(message)
}

proof fn lemma_says_nothing(message: ChatMessage)
    requires
        says_nothing(message),
    ensures
        message_text(message) is None,
{
    let parts = message.content->Parts_0@;
    let i = choose|i: int|
        {
            &&& i < parts.len()
            &&& 0 <= i ==> #[trigger] parts[i] is Text
            &&& 0 <= i ==> parts[i]->text@.len() == 0
            &&& forall|k: int|
                0 <= k < parts.len() && k != i ==> #[trigger] parts[k] is ImageUrl
        };
    if 0 <= i {
        lemma_only_part_text(parts, i);
    } else {
        lemma_no_part_texts(parts);
    }
}

proof fn lemma_no_system_texts(messages: Seq<ChatMessage>)
    requires
        forall|i: int| 0 <= i < messages.len() ==> is_silent(#[trigger] messages[i]),
    ensures
        system_texts(messages) == Seq::<Seq<char>>::empty(),
    decreases messages.len(),
{
    if messages.len() > 0 {
        let before = messages.drop_last();
        assert forall|i: int| 0 <= i < before.len() implies is_silent(#[trigger] before[i]) by {
            assert(before[i] == messages[i]);
        }
        lemma_no_system_texts(before);
        assert(is_silent(messages[messages.len() - 1]));
        if says_nothing(messages.last()) {
            lemma_says_nothing(messages.last());
        }
    }
}

proof fn lemma_system_text_stands(messages: Seq<ChatMessage>, i: int) -> (place: int)
    requires
        0 <= i < messages.len(),
        messages[i].role@ == "system"@,
        message_text(messages[i]) is Some,
    ensures
        0 <= place < system_texts(messages).len(),
        system_texts(messages)[place] == message_text(messages[i])->0,
        place + 1 == system_texts(messages.take(i + 1)).len(),
        system_texts(messages.take(i)).len() == place,
    decreases messages.len(),
{
    if i == messages.len() - 1 {
        assert(messages.take(i + 1) =~= messages);
        assert(messages.take(i) =~= messages.drop_last());
        system_texts(messages).len() - 1
    } else {
        let before = messages.drop_last();
        assert(before[i] == messages[i]);
        assert(before.take(i + 1) =~= messages.take(i + 1));
        assert(before.take(i) =~= messages.take(i));
        lemma_system_text_stands(before, i)
    }
}

proof fn lemma_system_texts_grow(messages: Seq<ChatMessage>, length: int)
    requires
        0 <= length <= messages.len(),
    ensures
        system_texts(messages.take(length)).len() <= system_texts(messages).len(),
    decreases messages.len(),
{
    if length == messages.len() {
        assert(messages.take(length) =~= messages);
    } else {
        lemma_system_texts_grow(messages.drop_last(), length);
        assert(messages.drop_last().take(length) =~= messages.take(length));
    }
}

proof fn lemma_only_system_text(messages: Seq<ChatMessage>, i: int)
    requires
        0 <= i < messages.len(),
        messages[i].role@ == "system"@,
        message_text(messages[i]) is Some,
        forall|k: int| 0 <= k < messages.len() && k != i ==> is_silent(#[trigger] messages[k]),
    ensures
        system_texts(messages) == seq![message_text(messages[i])->0],
    decreases messages.len(),
{
    let before = messages.drop_last();
    assert(forall|k: int| 0 <= k < before.len() ==> #[trigger] before[k] == messages[k]);
    if i == messages.len() - 1 {
        lemma_no_system_texts(before);
        assert(system_texts(messages) =~= seq![message_text(messages[i])->0]);
    } else {
        lemma_only_system_text(before, i);
        assert(is_silent(messages[messages.len() - 1]));
        if says_nothing(messages.last()) {
            lemma_says_nothing(messages.last());
        }
    }
}

proof fn lemma_two_system_texts(messages: Seq<ChatMessage>, i: int, j: int)
    requires
        0 <= i < j < messages.len(),
        messages[i].role@ == "system"@,
        message_text(messages[i]) is Some,
        messages[j].role@ == "system"@,
        message_text(messages[j]) is Some,
    ensures
        system_texts(messages).len() > 1,
{
    let first = lemma_system_text_stands(messages, i);
    let second = lemma_system_text_stands(messages, j);
    let before = messages.take(j);
    assert(before.take(i + 1) =~= messages.take(i + 1));
    lemma_system_texts_grow(before, i + 1);
}

/// The first system message makes the instructions, where it says something.
pub proof fn law_first_system_message_is_the_instructions(
    messages: Vec<ChatMessage>,
    message: ChatMessage,
    said: Option<String>,
    more: Vec<ChatMessage>,
    after: String,
)
    requires
        forall|i: int| 0 <= i < messages@.len() ==> is_silent(#[trigger] messages@[i]),
        message.role@ == "system"@,
        more@ == messages@.push(message),
        call_ensures(chat_message_text, (&message,), said),
        call_ensures(codex_instructions_from_messages, (&more,), after),
    ensures
        said is Some && said->0@.len() > 0 ==> after@ == said->0@,
        said is None || said->0@.len() == 0 ==> after@ == "You are Codex."@,
{
    assert(more@.drop_last() =~= messages@);
    lemma_no_system_texts(messages@);
    if said is Some {
        assert(system_texts(more@) =~= seq![said->0@]);
    }
}

/// A further system message stands at the end of the instructions, behind an empty line; one
/// without text leaves them as they are.
pub proof fn law_system_message_joins_the_instructions(
    messages: Vec<ChatMessage>,
    before: String,
    message: ChatMessage,
    said: Option<String>,
    more: Vec<ChatMessage>,
    after: String,
    i: int,
    said_before: Option<String>,
    j: int,
    said_then: Option<String>,
)
    requires
        message.role@ == "system"@,
        more@ == messages@.push(message),
        call_ensures(codex_instructions_from_messages, (&messages,), before),
        call_ensures(chat_message_text, (&message,), said),
        call_ensures(codex_instructions_from_messages, (&more,), after),
        0 <= i < messages@.len(),
        messages@[i].role@ == "system"@,
        call_ensures(chat_message_text, (&messages@[i],), said_before),
        0 <= j < messages@.len(),
        call_ensures(chat_message_text, (&messages@[j],), said_then),
    ensures
        said is None ==> after@ == before@,
        said is Some && said_before is Some && said_before->0@.len() > 0 ==> after@ == before@
            + "\n\n"@ + said->0@,
        said is Some && said_before is Some && i < j && messages@[j].role@ == "system"@ && said_then
            is Some ==> after@ == before@ + "\n\n"@ + said->0@,
        said is Some && said_before is Some && said_before->0@.len() == 0 && (forall|k: int|
            0 <= k < messages@.len() && k != i ==> is_silent(#[trigger] messages@[k]))
            ==> after@ == "\n\n"@ + said->0@,
{
    reveal_strlit("\n\n");
    let list = system_texts(messages@);
    let blank = "\n\n"@;
    assert(more@.drop_last() =~= messages@);
    if said is Some && said_before is Some {
        assert(system_texts(more@) =~= list.push(said->0@));
        assert(list.push(said->0@).drop_last() =~= list);
        let place = lemma_system_text_stands(messages@, i);
        assert(joined(list.push(said->0@), blank) == joined(list, blank) + blank + said->0@);
        if said_before->0@.len() > 0 {
            lemma_joined_is_not_empty(list, blank, place);
        }
        if i < j && messages@[j].role@ == "system"@ && said_then is Some {
            lemma_two_system_texts(messages@, i, j);
            assert(joined(list, blank).len() > 0);
        }
        if forall|k: int| 0 <= k < messages@.len() && k != i ==> is_silent(#[trigger] messages@[k]) {
            lemma_only_system_text(messages@, i);
            if said_before->0@.len() == 0 {
                assert(joined(list, blank) =~= Seq::<char>::empty());
                assert(joined(list, blank) + blank + said->0@ =~= blank + said->0@);
            }
        }
    }
    if said is None {
        assert(system_texts(more@) == list);
    }
}

/// Where no system message says anything, the instructions are a fixed sentence, and a message of
/// another role leaves them as they are.
pub proof fn law_other_messages_leave_the_instructions(
    messages: Vec<ChatMessage>,
    before: String,
    message: ChatMessage,
    more: Vec<ChatMessage>,
    after: String,
)
    requires
        message.role@ != "system"@,
        more@ == messages@.push(message),
        call_ensures(codex_instructions_from_messages, (&messages,), before),
        call_ensures(codex_instructions_from_messages, (&more,), after),
    ensures
        after@ == before@,
        (forall|i: int| 0 <= i < messages@.len() ==> is_silent(#[trigger] messages@[i]))
            ==> before@ == "You are Codex."@,
{
    assert(more@.drop_last() =~= messages@);
    if forall|i: int| 0 <= i < messages@.len() ==> is_silent(#[trigger] messages@[i]) {
        lemma_no_system_texts(messages@);
    }
}

/// The instructions of a request are those of its messages.
pub proof fn law_instructions_go_upstream(
    request: ChatCompletionRequest,
    settings: ProxySettings,
    upstream: CodexRequest,
    instructions: String,
)
    requires
        call_ensures(ChatCompletionRequest::to_codex_request, (&request, &settings), Ok(upstream)),
        call_ensures(codex_instructions_from_messages, (&request.messages,), instructions),
    ensures
        upstream.instructions@ == instructions@,
{
}

proof fn lemma_no_part_texts(parts: Seq<ChatMessageContentPart>)
    requires
        forall|i: int| 0 <= i < parts.len() ==> #[trigger] parts[i] is ImageUrl,
    ensures
        part_texts(parts) == Seq::<Seq<char>>::empty(),
    decreases parts.len(),
{
    if parts.len() > 0 {
        let before = parts.drop_last();
        assert forall|i: int| 0 <= i < before.len() implies #[trigger] before[i] is ImageUrl by {
            assert(before[i] == parts[i]);
        }
        lemma_no_part_texts(before);
    }
}

proof fn lemma_part_text_stands(parts: Seq<ChatMessageContentPart>, i: int) -> (place: int)
    requires
        0 <= i < parts.len(),
        parts[i] is Text,
    ensures
        0 <= place < part_texts(parts).len(),
        part_texts(parts)[place] == parts[i]->text@,
    decreases parts.len(),
{
    if i == parts.len() - 1 {
        part_texts(parts).len() - 1
    } else {
        assert(parts.drop_last()[i] == parts[i]);
        lemma_part_text_stands(parts.drop_last(), i)
    }
}

/// The text of a message that is one text is that text.
pub proof fn law_text_is_the_text(message: ChatMessage, said: Option<String>)
    requires
        message.content is Text,
        call_ensures(chat_message_text, (&message,), said),
    ensures
        said is Some,
        said->0@ == message.content->Text_0@,
{
}

proof fn lemma_part_texts_grow(parts: Seq<ChatMessageContentPart>, length: int)
    requires
        0 <= length <= parts.len(),
    ensures
        part_texts(parts.take(length)).len() <= part_texts(parts).len(),
    decreases parts.len(),
{
    if length == parts.len() {
        assert(parts.take(length) =~= parts);
    } else {
        lemma_part_texts_grow(parts.drop_last(), length);
        assert(parts.drop_last().take(length) =~= parts.take(length));
    }
}

proof fn lemma_two_part_texts(parts: Seq<ChatMessageContentPart>, i: int, j: int)
    requires
        0 <= i < j < parts.len(),
        parts[i] is Text,
        parts[j] is Text,
    ensures
        part_texts(parts).len() > 1,
{
    let before = parts.take(j);
    assert(before[i] == parts[i]);
    let place = lemma_part_text_stands(before, i);
    let upto = parts.take(j + 1);
    assert(upto.drop_last() =~= before);
    assert(upto.last() == parts[j]);
    lemma_part_texts_grow(parts, j + 1);
}

proof fn lemma_only_part_text(parts: Seq<ChatMessageContentPart>, i: int)
    requires
        0 <= i < parts.len(),
        parts[i] is Text,
        forall|k: int| 0 <= k < parts.len() && k != i ==> #[trigger] parts[k] is ImageUrl,
    ensures
        part_texts(parts) == seq![parts[i]->text@],
    decreases parts.len(),
{
    let before = parts.drop_last();
    assert(forall|k: int| 0 <= k < before.len() ==> #[trigger] before[k] == parts[k]);
    if i == parts.len() - 1 {
        lemma_no_part_texts(before);
        assert(part_texts(parts) =~= seq![parts[i]->text@]);
    } else {
        lemma_only_part_text(before, i);
        assert(parts[parts.len() - 1] is ImageUrl);
    }
}

/// Images say nothing, and the first text part of a message says its text, where it has one.
pub proof fn law_first_text_part_is_the_text(
    message: ChatMessage,
    said: Option<String>,
    part: ChatMessageContentPart,
    longer: ChatMessage,
    longer_said: Option<String>,
)
    requires
        message.content is Parts,
        longer.content is Parts,
        longer.content->Parts_0@ == message.content->Parts_0@.push(part),
        call_ensures(chat_message_text, (&message,), said),
        call_ensures(chat_message_text, (&longer,), longer_said),
    ensures
        part is ImageUrl ==> optional_text(longer_said) == optional_text(said),
        (forall|i: int|
            0 <= i < message.content->Parts_0@.len() ==> #[trigger] message.content->Parts_0@[i]
                is ImageUrl) ==> {
            &&& said is None
            &&& part is Text && part->text@.len() > 0 ==> longer_said is Some && longer_said->0@
                == part->text@
            &&& part is Text && part->text@.len() == 0 ==> longer_said is None
        },
{
    let parts = message.content->Parts_0@;
    assert(longer.content->Parts_0@.drop_last() =~= parts);
    if forall|i: int| 0 <= i < parts.len() ==> #[trigger] parts[i] is ImageUrl {
        lemma_no_part_texts(parts);
        if part is Text {
            assert(part_texts(longer.content->Parts_0@) =~= seq![part->text@]);
        }
    }
}

/// A further text part stands on a line of its own behind the others.
pub proof fn law_text_parts_are_lines(
    message: ChatMessage,
    said: Option<String>,
    part: ChatMessageContentPart,
    longer: ChatMessage,
    longer_said: Option<String>,
    i: int,
    j: int,
)
    requires
        message.content is Parts,
        longer.content is Parts,
        longer.content->Parts_0@ == message.content->Parts_0@.push(part),
        call_ensures(chat_message_text, (&message,), said),
        call_ensures(chat_message_text, (&longer,), longer_said),
        part is Text,
        0 <= i < message.content->Parts_0@.len(),
        message.content->Parts_0@[i] is Text,
        0 <= j < message.content->Parts_0@.len(),
    ensures
        longer_said is Some,
        message.content->Parts_0@[i]->text@.len() > 0 || (i < j && message.content->Parts_0@[j]
            is Text) ==> said is Some && longer_said->0@ == said->0@ + "\n"@ + part->text@,
        message.content->Parts_0@[i]->text@.len() == 0 && (forall|k: int|
            0 <= k < message.content->Parts_0@.len() && k != i
                ==> #[trigger] message.content->Parts_0@[k] is ImageUrl) ==> longer_said->0@
            == "\n"@ + part->text@,
{
    reveal_strlit("\n");
    let feed = "\n"@;
    let parts = message.content->Parts_0@;
    let list = part_texts(parts);
    assert(longer.content->Parts_0@.drop_last() =~= parts);
    assert(part_texts(longer.content->Parts_0@) =~= list.push(part->text@));
    assert(list.push(part->text@).drop_last() =~= list);
    let place = lemma_part_text_stands(parts, i);
    assert(joined(list.push(part->text@), feed) == joined(list, feed) + feed + part->text@);
    if parts[i]->text@.len() > 0 {
        lemma_joined_is_not_empty(list, feed, place);
    }
    if i < j && parts[j] is Text {
        lemma_two_part_texts(parts, i, j);
        assert(joined(list, feed).len() > 0);
    }
    if forall|k: int| 0 <= k < parts.len() && k != i ==> #[trigger] parts[k] is ImageUrl {
        lemma_only_part_text(parts, i);
        if parts[i]->text@.len() == 0 {
            assert(joined(list, feed) =~= Seq::<char>::empty());
            assert(joined(list, feed) + feed + part->text@ =~= feed + part->text@);
        }
    }
}

/// The proxy offers two models.
pub proof fn law_two_models_are_offered(
    response: ModelsResponse,
    id: &'static str,
    model: ModelResponse,
)
    requires
        call_ensures(models_response, (), response),
        call_ensures(model_response, (id,), model),
    ensures
        model.id@ == id@ && model.object@ == "model"@ && model.created == 0,
        model.owned_by@ == "codex-proxy"@,
        response.object@ == "list"@,
        response.data@.len() == 2,
        response.data@[0].id@ == "gpt-5.5"@,
        response.data@[1].id@ == "gpt-5.5-fast"@,
        forall|i: int|
            0 <= i < 2 ==> (#[trigger] response.data@[i]).object@ == "model"@
                && response.data@[i].created == 0 && response.data@[i].owned_by@ == "codex-proxy"@,
{
}

/// An answer that is given at once holds the whole text, as the only choice.
pub proof fn law_completion_holds_the_text(
    id_seconds: u64,
    created: u64,
    client_model: &str,
    content: String,
    response: ChatCompletionResponse,
)
    requires
        call_ensures(
            chat_completion_response_at,
            (id_seconds, created, client_model, content),
            response,
        ),
    ensures
        response.id@ == "chatcmpl-"@ + decimal(id_seconds as nat),
        response.created == created,
        response.object@ == "chat.completion"@,
        response.model@ == client_model@,
        response.choices@.len() == 1,
        response.choices@[0].index == 0,
        response.choices@[0].message.role@ == "assistant"@,
        response.choices@[0].message.content@ == content@,
        response.choices@[0].finish_reason is Some,
        response.choices@[0].finish_reason->0@ == "stop"@,
{
}

/// Tells whether something is named and dated by the clock, in seconds.
pub open spec fn is_dated_by_the_clock(id: Seq<char>, created: u64) -> bool {
    &&& exists|reading: Option<(u64, u32)>| #[trigger]
        is_clock_reading(reading) && match reading {
            Some((seconds, _)) => id == "chatcmpl-"@ + decimal(seconds as nat),
            None => id == "chatcmpl-"@ + decimal(0),
        }
    &&& exists|reading: Option<(u64, u32)>| #[trigger]
        is_clock_reading(reading) && match reading {
            Some((seconds, _)) => created == seconds,
            None => created == 0,
        }
}

/// So does the answer that is dated by the clock.
pub proof fn law_dated_completion_holds_the_text(
    client_model: &str,
    content: String,
    response: ChatCompletionResponse,
)
    requires
        call_ensures(chat_completion_response, (client_model, content), response),
    ensures
        response.object@ == "chat.completion"@,
        response.model@ == client_model@,
        response.choices@.len() == 1,
        response.choices@[0].message.role@ == "assistant"@,
        response.choices@[0].message.content@ == content@,
        response.choices@[0].finish_reason is Some,
        response.choices@[0].finish_reason->0@ == "stop"@,
        is_dated_by_the_clock(response.id@, response.created),
{
}

/// A piece of a stream says what it is given to say, as the only choice.
pub proof fn law_chunk_says_what_it_is_given(
    id_seconds: u64,
    created: u64,
    client_model: &str,
    delta: ChatCompletionDelta,
    finish_reason: Option<String>,
    chunk: ChatCompletionChunk,
)
    requires
        call_ensures(
            stream_chunk_at,
            (id_seconds, created, client_model, delta, finish_reason),
            chunk,
        ),
    ensures
        chunk.id@ == "chatcmpl-"@ + decimal(id_seconds as nat),
        chunk.created == created,
        chunk.object@ == "chat.completion.chunk"@,
        chunk.model@ == client_model@,
        chunk.choices@.len() == 1,
        chunk.choices@[0].index == 0,
        optional_text(chunk.choices@[0].delta.content) == optional_text(delta.content),
        chunk.choices@[0].delta.role is Some <==> delta.role is Some,
        delta.role is Some ==> chunk.choices@[0].delta.role->0@ == delta.role->0@,
        optional_text(chunk.choices@[0].finish_reason) == optional_text(finish_reason),
{
}

} // verus!
