//! How the event stream of upstream is read, and what a client gets of it.

use crate::error::ProxyError;
use crate::json::{law_member_is_found, parsed_json, Json, JsonValue};
use crate::laws::conversation::{has_members, is_dated_by_the_clock};
use crate::openai::{
    content_stream_chunk, final_stream_chunk, first_stream_chunk, ChatCompletionChunk,
};
use crate::stream::{
    collect_openai_response_text, complete_length, complete_lines, concatenated, error_payload,
    event_frames, extract_text_deltas, extract_text_deltas_from_buffer, frames_to_send,
    incomplete_line, lemma_complete_length, line_delta, line_deltas, received, stream_error,
    text_delta_from_event, OpenAiStream, StreamPayload, DONE_PAYLOAD,
};
use crate::text::{lemma_position_unique, lines, texts};
use vstd::prelude::*;

verus! {

/// Tells whether an event may add text: its type is missing, is no string, or ends in `.delta`.
pub open spec fn may_add_text(event: Json) -> bool {
    event.text_member("type"@) is Some ==> ".delta"@.is_suffix_of(event.text_member("type"@)->0)
}

/// The text that an event adds is its delta, else its text, else its output text, whatever other
/// members it holds; an event of another type adds nothing.
pub proof fn law_event_adds_its_delta(event: JsonValue, added: Option<String>)
    requires
        call_ensures(text_delta_from_event, (&event,), added),
    ensures
        !may_add_text(event@) ==> added is None,
        forall|text: Seq<char>|
            may_add_text(event@) && #[trigger] is_member_text(event@, "delta"@, text) ==> added
                is Some && added->0@ == text,
        forall|text: Seq<char>|
            may_add_text(event@) && event@.text_member("delta"@) is None
                && #[trigger] is_member_text(event@, "text"@, text) ==> added is Some && added->0@
                == text,
        forall|text: Seq<char>|
            may_add_text(event@) && event@.text_member("delta"@) is None && event@.text_member(
                "text"@,
            ) is None && #[trigger] is_member_text(event@, "output_text"@, text) ==> added is Some
                && added->0@ == text,
        event@.text_member("delta"@) is None && event@.text_member("text"@) is None
            && event@.text_member("output_text"@) is None ==> added is None,
{
}

/// Tells whether the member of a value with a key is this string.
pub open spec fn is_member_text(value: Json, key: Seq<char>, text: Seq<char>) -> bool {
    value.get(key) == Some(Json::Text(text))
}

/// Tells whether a text is one line: it holds no line feed, and does not end with a carriage
/// return.
pub open spec fn is_one_line(text: Seq<char>) -> bool {
    &&& forall|i: int| 0 <= i < text.len() ==> #[trigger] text[i] != '\n'
    &&& text.len() > 0 ==> text.last() != '\r'
}

proof fn lemma_first_line(line: Seq<char>, rest: Seq<char>)
    requires
        is_one_line(line),
    ensures
        lines(line + seq!['\n'] + rest) == seq![line] + lines(rest),
        lines(line + seq!['\r', '\n'] + rest) == seq![line] + lines(rest),
{
    let text = line + seq!['\n'] + rest;
    assert(text[line.len() as int] == '\n');
    lemma_position_unique(text, '\n', line.len() as int);
    assert(text.take(line.len() as int) =~= line);
    assert(text.skip(line.len() as int + 1) =~= rest);
    let returned = line + seq!['\r', '\n'] + rest;
    assert(returned[line.len() as int + 1] == '\n');
    assert forall|i: int| 0 <= i < line.len() + 1 implies returned[i] != '\n' by {
        if i < line.len() {
            assert(returned[i] == line[i]);
        }
    }
    lemma_position_unique(returned, '\n', line.len() as int + 1);
    assert(returned.take(line.len() as int + 1) =~= line.push('\r'));
    assert(line.push('\r').drop_last() =~= line);
    assert(returned.skip(line.len() as int + 2) =~= rest);
}

proof fn lemma_first_line_deltas(line: Seq<char>, rest: Seq<Seq<char>>)
    ensures
        line_deltas(seq![line] + rest) == (match line_delta(line) {
            Some(delta) => seq![delta],
            None => Seq::<Seq<char>>::empty(),
        }) + line_deltas(rest),
    decreases rest.len(),
{
    let own = match line_delta(line) {
        Some(delta) => seq![delta],
        None => Seq::<Seq<char>>::empty(),
    };
    let all = seq![line] + rest;
    if rest.len() == 0 {
        assert(all.drop_last() =~= Seq::<Seq<char>>::empty());
        assert(line_deltas(all.drop_last()) =~= Seq::<Seq<char>>::empty());
        assert(line_deltas(all) =~= own + line_deltas(rest));
    } else {
        lemma_first_line_deltas(line, rest.drop_last());
        assert(all.drop_last() =~= seq![line] + rest.drop_last());
        assert(all.last() == rest.last());
        assert(line_deltas(all) =~= own + line_deltas(rest));
    }
}

/// An event that upstream sends on a line adds its text in front of what the lines behind it
/// add.
pub proof fn law_event_line_adds_its_text(
    payload: Seq<char>,
    event: JsonValue,
    added: Option<String>,
    stream: &str,
    found: Vec<String>,
    rest: &str,
    rest_found: Vec<String>,
)
    requires
        is_one_line(payload),
        payload != "[DONE]"@,
        parsed_json(payload) == Some(event@),
        call_ensures(text_delta_from_event, (&event,), added),
        stream@ == "data: "@ + payload + seq!['\n'] + rest@ || stream@ == "data: "@ + payload
            + seq!['\r', '\n'] + rest@,
        call_ensures(extract_text_deltas, (stream,), found),
        call_ensures(extract_text_deltas, (rest,), rest_found),
    ensures
        added is Some ==> texts(found@) == seq![added->0@] + texts(rest_found@),
        added is None ==> texts(found@) == texts(rest_found@),
{
    reveal_strlit("data: ");
    let line = "data: "@ + payload;
    assert(is_one_line(line)) by {
        assert forall|i: int| 0 <= i < line.len() implies #[trigger] line[i] != '\n' by {
            if i >= "data: "@.len() {
                assert(line[i] == payload[i - "data: "@.len()]);
            }
        }
    }
    lemma_first_line(line, rest@);
    lemma_first_line_deltas(line, lines(rest@));
    assert("data: "@.is_prefix_of(line)) by {
        assert(line.subrange(0, "data: "@.len() as int) =~= "data: "@);
    }
    assert(line.skip("data: "@.len() as int) =~= payload);
    if added is None {
        assert(Seq::<Seq<char>>::empty() + texts(rest_found@) =~= texts(rest_found@));
    }
}

/// Any other line adds nothing: one that is no data, the end mark, and data that is no JSON.
pub proof fn law_other_lines_add_nothing(
    line: Seq<char>,
    stream: &str,
    found: Vec<String>,
    rest: &str,
    rest_found: Vec<String>,
)
    requires
        is_one_line(line),
        !("data: "@.is_prefix_of(line)) || line == "data: "@ + "[DONE]"@ || parsed_json(
            line.skip("data: "@.len() as int),
        ) is None,
        stream@ == line + seq!['\n'] + rest@ || stream@ == line + seq!['\r', '\n'] + rest@,
        call_ensures(extract_text_deltas, (stream,), found),
        call_ensures(extract_text_deltas, (rest,), rest_found),
    ensures
        texts(found@) == texts(rest_found@),
{
    lemma_first_line(line, rest@);
    lemma_first_line_deltas(line, lines(rest@));
    if line == "data: "@ + "[DONE]"@ {
        assert(line.skip("data: "@.len() as int) =~= "[DONE]"@);
    }
    assert(Seq::<Seq<char>>::empty() + texts(rest_found@) =~= texts(rest_found@));
}

/// A last line counts without the line feed at its end too, and an empty stream adds nothing.
pub proof fn law_last_line_counts(
    stream: &str,
    found: Vec<String>,
    ended: &str,
    ended_found: Vec<String>,
)
    requires
        is_one_line(stream@),
        ended@ == stream@ + seq!['\n'],
        call_ensures(extract_text_deltas, (stream,), found),
        call_ensures(extract_text_deltas, (ended,), ended_found),
    ensures
        stream@.len() > 0 ==> texts(found@) == texts(ended_found@),
        stream@.len() == 0 ==> found@.len() == 0,
{
    let empty = Seq::<char>::empty();
    if stream@.len() > 0 {
        lemma_position_unique(stream@, '\n', stream@.len() as int);
        lemma_first_line(stream@, empty);
        assert(ended@ =~= stream@ + seq!['\n'] + empty);
        assert(lines(empty) =~= Seq::<Seq<char>>::empty());
        assert(seq![stream@] + lines(empty) =~= seq![stream@]);
    } else {
        assert(texts(found@).len() == 0);
    }
}

proof fn lemma_cut(done: Seq<char>, left: Seq<char>)
    requires
        done.len() == 0 || done.last() == '\n',
        forall|i: int| 0 <= i < left.len() ==> #[trigger] left[i] != '\n',
    ensures
        complete_lines(done + left) == done,
        incomplete_line(done + left) == left,
{
    let text = done + left;
    lemma_complete_length(text);
    let n = complete_length(text);
    if n > done.len() {
        assert(text[n - 1] == left[n - 1 - done.len()]);
    }
    if n < done.len() {
        assert(text[done.len() - 1] == done.last());
    }
    assert(text.take(n) =~= done);
    assert(text.skip(n) =~= left);
}

/// What has come is read up to its last line feed, and what stands behind it waits for more.
pub proof fn law_buffer_keeps_what_is_behind_the_last_line_feed(
    buffer: &mut String,
    piece: &str,
    found: Vec<String>,
    done: &str,
    done_found: Vec<String>,
    left: Seq<char>,
)
    requires
        call_ensures(extract_text_deltas_from_buffer, (buffer, piece), found),
        call_ensures(extract_text_deltas, (done,), done_found),
        old(buffer)@ + piece@ == done@ + left,
        done@.len() == 0 || done@.last() == '\n',
        forall|i: int| 0 <= i < left.len() ==> #[trigger] left[i] != '\n',
    ensures
        final(buffer)@ == left,
        texts(found@) == texts(done_found@),
{
    lemma_cut(done@, left);
}

proof fn lemma_received(results: Seq<Result<String, ProxyError>>)
    requires
        forall|i: int| 0 <= i < results.len() ==> #[trigger] results[i] is Ok,
    ensures
        received(results) == Seq::new(results.len(), |i: int| results[i]->Ok_0@),
    decreases results.len(),
{
    let pieces = Seq::new(results.len(), |i: int| results[i]->Ok_0@);
    if results.len() > 0 {
        let before = results.drop_last();
        assert forall|i: int| 0 <= i < before.len() implies #[trigger] before[i] is Ok by {
            assert(before[i] == results[i]);
        }
        lemma_received(before);
        assert(received(results) =~= pieces);
    } else {
        assert(received(results) =~= pieces);
    }
}

/// The answer of upstream is made of the texts of all that it sends, read as one; where it
/// fails, the first failure is the answer.
pub proof fn law_answer_is_all_the_text(
    results: Vec<Result<String, ProxyError>>,
    answer: Result<String, ProxyError>,
    whole: &str,
    found: Vec<String>,
)
    requires
        call_ensures(collect_openai_response_text, (results,), answer),
        call_ensures(extract_text_deltas, (whole,), found),
        whole@ == concatenated(Seq::new(results@.len(), |i: int| results@[i]->Ok_0@)),
    ensures
        answer is Ok <==> forall|i: int| 0 <= i < results@.len() ==> #[trigger] results@[i] is Ok,
        answer is Ok ==> answer->Ok_0@ == concatenated(texts(found@)),
        forall|i: int|
            0 <= i < results@.len() && #[trigger] results@[i] is Err && (forall|j: int|
                0 <= j < i ==> #[trigger] results@[j] is Ok) ==> answer == Err::<
                String,
                ProxyError,
            >(results@[i]->Err_0),
{
    if answer is Ok {
        lemma_received(results@);
    } else {
        let k = choose|k: int|
            {
                &&& 0 <= k < results@.len()
                &&& results@[k] == Err::<String, ProxyError>(answer->Err_0)
                &&& forall|j: int| 0 <= j < k ==> #[trigger] results@[j] is Ok
            };
        assert(!(results@[k] is Ok));
        assert forall|i: int|
            0 <= i < results@.len() && #[trigger] results@[i] is Err && (forall|j: int|
                0 <= j < i ==> #[trigger] results@[j] is Ok) implies answer == Err::<
            String,
            ProxyError,
        >(results@[i]->Err_0) by {
            assert(i == k);
        }
    }
}

/// Texts put behind each other are the first one, then the others.
pub proof fn law_texts_are_put_behind_each_other(a: Seq<char>, b: Seq<char>, list: Seq<Seq<char>>)
    ensures
        concatenated(Seq::empty()) == Seq::<char>::empty(),
        concatenated(seq![a]) == a,
        concatenated(seq![a, b]) == a + b,
        concatenated(list.push(a)) == concatenated(list) + a,
{
    assert(list.push(a).drop_last() =~= list);
    assert(seq![a].drop_last() =~= Seq::<Seq<char>>::empty());
    assert(concatenated(seq![a].drop_last()) =~= Seq::<char>::empty());
    assert(concatenated(seq![a]) =~= a);
    assert(seq![a, b].drop_last() =~= seq![a]);
}

/// Tells whether a chunk is a piece of the only answer of `model`, dated by the clock.
pub open spec fn is_piece(chunk: ChatCompletionChunk, model: Seq<char>) -> bool {
    &&& chunk.object@ == "chat.completion.chunk"@
    &&& chunk.model@ == model
    &&& chunk.choices@.len() == 1
    &&& chunk.choices@[0].index == 0
    &&& is_dated_by_the_clock(chunk.id@, chunk.created)
}

/// Tells whether a piece of a stream of `model` carries this text and nothing else.
pub open spec fn carries_text(payload: StreamPayload, model: Seq<char>, text: Seq<char>) -> bool {
    match payload {
        StreamPayload::Chunk(chunk) => {
            &&& is_piece(chunk, model)
            &&& chunk.choices@[0].delta.content is Some
            &&& chunk.choices@[0].delta.content->0@ == text
            &&& chunk.choices@[0].delta.role is None
            &&& chunk.choices@[0].finish_reason is None
        },
        _ => false,
    }
}

/// A client gets each text that a piece adds as a chunk of its own, in order, and the stream
/// keeps what the reader keeps.
pub proof fn law_client_gets_each_text(
    stream: &mut OpenAiStream,
    piece: String,
    payloads: Vec<StreamPayload>,
    buffer: &mut String,
    text: &str,
    found: Vec<String>,
)
    requires
        call_ensures(OpenAiStream::relay, (stream, Ok(piece)), payloads),
        call_ensures(extract_text_deltas_from_buffer, (buffer, text), found),
        old(buffer)@ == old(stream).upstream_buffer@,
        text@ == piece@,
    ensures
        payloads@.len() == found@.len(),
        forall|i: int|
            0 <= i < payloads@.len() ==> carries_text(
                #[trigger] payloads@[i],
                old(stream).client_model@,
                found@[i]@,
            ),
        final(stream).upstream_buffer@ == final(buffer)@,
        final(stream).client_model@ == old(stream).client_model@,
{
    assert(texts(found@).len() == found@.len());
    assert forall|i: int| 0 <= i < payloads@.len() implies carries_text(
        #[trigger] payloads@[i],
        old(stream).client_model@,
        found@[i]@,
    ) by {
        assert(texts(found@)[i] == found@[i]@);
    }
}

proof fn lemma_error_payload(message: Seq<char>)
    ensures
        has_members(error_payload(message), 1),
        error_payload(message).get("error"@) is Some,
        has_members(error_payload(message).get("error"@)->0, 3),
        error_payload(message).get("error"@)->0.text_member("message"@) == Some(message),
        error_payload(message).get("error"@)->0.text_member("type"@) == Some(
            "proxy_stream_error"@,
        ),
        error_payload(message).get("error"@)->0.get("code"@) == Some(Json::Null),
{
    reveal_strlit("message");
    reveal_strlit("type");
    reveal_strlit("code");
    assert("message"@.len() != "type"@.len());
    assert("message"@.len() != "code"@.len());
    assert("type"@[0] != "code"@[0]);
    let body = seq![
        ("message"@, Json::Text(message)),
        ("type"@, Json::Text("proxy_stream_error"@)),
        ("code"@, Json::Null),
    ];
    law_member_is_found(body, "message"@, 0);
    law_member_is_found(body, "type"@, 1);
    law_member_is_found(body, "code"@, 2);
    let outer = seq![("error"@, Json::Object(body))];
    law_member_is_found(outer, "error"@, 0);
}

/// A client is told of a failure in words that name it, and nothing else of the stream changes.
pub proof fn law_client_is_told_of_a_failure(
    stream: &mut OpenAiStream,
    error: ProxyError,
    message: String,
    payloads: Vec<StreamPayload>,
)
    requires
        call_ensures(OpenAiStream::relay, (stream, Err(error)), payloads),
        call_ensures(ProxyError::message, (&error,), message),
    ensures
        final(stream).upstream_buffer@ == old(stream).upstream_buffer@,
        final(stream).client_model@ == old(stream).client_model@,
        payloads@.len() == 1,
        payloads@[0] is Error,
        has_members(payloads@[0]->Error_0@, 1),
        payloads@[0]->Error_0@.get("error"@) is Some,
        has_members(payloads@[0]->Error_0@.get("error"@)->0, 3),
        payloads@[0]->Error_0@.get("error"@)->0.text_member("message"@) == Some(message@),
        payloads@[0]->Error_0@.get("error"@)->0.text_member("type"@) == Some(
            "proxy_stream_error"@,
        ),
        payloads@[0]->Error_0@.get("error"@)->0.get("code"@) == Some(Json::Null),
{
    lemma_error_payload(message@);
}

/// The stream to a client opens with the role of the speaker, and closes with the reason and the
/// end mark.
pub proof fn law_stream_opens_and_closes(
    stream: OpenAiStream,
    opening: StreamPayload,
    closing: Vec<StreamPayload>,
)
    requires
        call_ensures(OpenAiStream::opening, (&stream,), opening),
        call_ensures(OpenAiStream::closing, (&stream,), closing),
    ensures
        opening is Chunk,
        is_piece(opening->Chunk_0, stream.client_model@),
        opening->Chunk_0.choices@[0].delta.role is Some,
        opening->Chunk_0.choices@[0].delta.role->0@ == "assistant"@,
        opening->Chunk_0.choices@[0].delta.content is None,
        opening->Chunk_0.choices@[0].finish_reason is None,
        closing@.len() == 2,
        closing@[0] is Chunk,
        is_piece(closing@[0]->Chunk_0, stream.client_model@),
        closing@[0]->Chunk_0.choices@[0].delta.role is None,
        closing@[0]->Chunk_0.choices@[0].delta.content is None,
        closing@[0]->Chunk_0.choices@[0].finish_reason is Some,
        closing@[0]->Chunk_0.choices@[0].finish_reason->0@ == "stop"@,
        closing@[1] is Done,
{
}

/// A new stream has nothing left to read.
pub proof fn law_stream_starts_empty(client_model: &str, stream: OpenAiStream)
    requires
        call_ensures(OpenAiStream::new, (client_model,), stream),
    ensures
        stream.client_model@ == client_model@,
        stream.upstream_buffer@.len() == 0,
{
}

/// Events are written one behind the other, each as a line of data and an empty line, and
/// nothing is sent where there are none.
pub proof fn law_events_are_lines_of_data(
    payloads: Vec<String>,
    frames: String,
    payload: String,
    more: Vec<String>,
    more_frames: String,
    sent: Option<String>,
)
    requires
        more@ == payloads@.push(payload),
        call_ensures(event_frames, (&payloads,), frames),
        call_ensures(event_frames, (&more,), more_frames),
        call_ensures(frames_to_send, (&payloads,), sent),
    ensures
        payloads@.len() == 0 ==> frames@.len() == 0 && sent is None,
        payloads@.len() > 0 ==> sent is Some && sent->0@ == frames@,
        more_frames@ == frames@ + "data: "@ + payload@ + "\n\n"@,
        DONE_PAYLOAD@ == "[DONE]"@,
{
    assert(texts(more@).drop_last() =~= texts(payloads@));
    assert(texts(more@).last() == payload@);
    assert(frames@ + ("data: "@ + payload@ + "\n\n"@) =~= frames@ + "data: "@ + payload@
        + "\n\n"@);
}

/// The pieces of a stream, one by one: the first tells the speaker, the middle ones carry text,
/// and the last tells why the stream ends.
pub proof fn law_pieces_of_a_stream(
    client_model: &str,
    first: ChatCompletionChunk,
    content: String,
    middle: ChatCompletionChunk,
    last: ChatCompletionChunk,
)
    requires
        call_ensures(first_stream_chunk, (client_model,), first),
        call_ensures(content_stream_chunk, (client_model, content), middle),
        call_ensures(final_stream_chunk, (client_model,), last),
    ensures
        is_piece(first, client_model@),
        first.choices@[0].delta.role is Some,
        first.choices@[0].delta.role->0@ == "assistant"@,
        first.choices@[0].delta.content is None,
        first.choices@[0].finish_reason is None,
        carries_text(StreamPayload::Chunk(middle), client_model@, content@),
        is_piece(last, client_model@),
        last.choices@[0].delta.role is None,
        last.choices@[0].delta.content is None,
        last.choices@[0].finish_reason is Some,
        last.choices@[0].finish_reason->0@ == "stop"@,
{
}

/// A failure is reported under the words that tell of it.
pub proof fn law_failure_is_reported(message: &str, report: JsonValue)
    requires
        call_ensures(stream_error, (message,), report),
    ensures
        has_members(report@, 1),
        report@.get("error"@) is Some,
        has_members(report@.get("error"@)->0, 3),
        report@.get("error"@)->0.text_member("message"@) == Some(message@),
        report@.get("error"@)->0.text_member("type"@) == Some("proxy_stream_error"@),
        report@.get("error"@)->0.get("code"@) == Some(Json::Null),
{
    lemma_error_payload(message@);
}

} // verus!
