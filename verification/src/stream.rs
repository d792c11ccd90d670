//! The event stream of upstream, and the one that a client gets.

use crate::error::ProxyError;
use crate::json::{
    fields_model, lemma_fields_model, parse_json, parsed_json, text_field, Json, JsonField,
    JsonValue,
};
use crate::openai::{
    content_says, content_stream_chunk, final_says, final_stream_chunk, first_says,
    first_stream_chunk, is_chunk, is_dated, ChatCompletionChunk,
};
use crate::text::{
    after_prefix, char_list, ends_with, lemma_position, lemma_position_unique, lines,
    optional_text, position, same_text, split_lines, strip_prefix, text_between, texts,
};
use vstd::prelude::*;

verus! {

/// The text that an event of upstream adds to the answer, where it adds one. An event with a
/// type adds text only where the type ends in `.delta`.
pub open spec fn event_delta(event: Json) -> Option<Seq<char>> {
    let event_type = event.text_member("type"@);
    if event_type is Some && !(".delta"@.is_suffix_of(event_type->0)) {
        None
    } else if event.text_member("delta"@) is Some {
        event.text_member("delta"@)
    } else if event.text_member("text"@) is Some {
        event.text_member("text"@)
    } else {
        event.text_member("output_text"@)
    }
}

/// The text that a line of the event stream adds to the answer, where it adds one.
pub open spec fn line_delta(line: Seq<char>) -> Option<Seq<char>> {
    match after_prefix(line, "data: "@) {
        Some(payload) => if payload == "[DONE]"@ {
            None
        } else {
            match parsed_json(payload) {
                Some(event) => event_delta(event),
                None => None,
            }
        },
        None => None,
    }
}

/// The texts that lines of the event stream add to the answer, in order.
pub open spec fn line_deltas(list: Seq<Seq<char>>) -> Seq<Seq<char>>
    decreases list.len(),
{
    if list.len() == 0 {
        Seq::empty()
    } else {
        match line_delta(list.last()) {
            Some(delta) => line_deltas(list.drop_last()).push(delta),
            None => line_deltas(list.drop_last()),
        }
    }
}

/// The texts that a piece of the event stream adds to the answer, in order.
pub open spec fn text_deltas(text: Seq<char>) -> Seq<Seq<char>> {
    line_deltas(lines(text))
}

fn text_member(value: &JsonValue, key: &str) -> (result: Option<String>)
    ensures
        optional_text(result) == value@.text_member(key@),
{
    match value.get(key) {
        Some(member) => match member.as_str() {
            Some(text) => Some(text.to_owned()),
            None => None,
        },
        None => None,
    }
}

/// Finds the text that an event of upstream adds to the answer.
pub fn text_delta_from_event(event_value: &JsonValue) -> (result: Option<String>)
    ensures
        optional_text(result) == event_delta(event_value@),
{
    if let Some(event_type) = text_member(event_value, "type") {
        if !ends_with(event_type.as_str(), ".delta") {
            return None;
        }
    }
    if let Some(delta) = text_member(event_value, "delta") {
        return Some(delta);
    }
    if let Some(text) = text_member(event_value, "text") {
        return Some(text);
    }
    text_member(event_value, "output_text")
}

fn text_delta_from_line(line: &str) -> (result: Option<String>)
    ensures
        optional_text(result) == line_delta(line@),
{
    match strip_prefix(line, "data: ") {
        Some(payload) => if same_text(payload.as_str(), "[DONE]") {
            None
        } else {
            match parse_json(payload.as_str()) {
                Some(event) => text_delta_from_event(&event),
                None => None,
            }
        },
        None => None,
    }
}

/// Finds the texts that a piece of the event stream adds to the answer.
pub fn extract_text_deltas(upstream_chunk: &str) -> (result: Vec<String>)
    ensures
        texts(result@) == text_deltas(upstream_chunk@),
{
    let list = split_lines(upstream_chunk);
    let mut result: Vec<String> = Vec::new();
    let mut i: usize = 0;
    while i < list.len()
        invariant
            i <= list@.len(),
            texts(result@) == line_deltas(texts(list@).take(i as int)),
        decreases list@.len() - i,
    {
        let ghost all = texts(list@);
        assert(all.take(i + 1).drop_last() =~= all.take(i as int));
        if let Some(delta) = text_delta_from_line(list[i].as_str()) {
            let ghost before = texts(result@);
            let ghost added = delta@;
            result.push(delta);
            assert(texts(result@) =~= before.push(added));
        }
        i += 1;
    }
    assert(texts(list@).take(list@.len() as int) =~= texts(list@));
    result
}

/// The length of the part of a text that ends with its last line feed.
pub open spec fn complete_length(text: Seq<char>) -> int
    decreases text.len(),
{
    if text.len() == 0 || text.last() == '\n' {
        text.len() as int
    } else {
        complete_length(text.drop_last())
    }
}

/// The complete lines of a text.
pub open spec fn complete_lines(text: Seq<char>) -> Seq<char> {
    text.take(complete_length(text))
}

/// What stands behind the complete lines of a text.
pub open spec fn incomplete_line(text: Seq<char>) -> Seq<char> {
    text.skip(complete_length(text))
}

pub proof fn lemma_complete_length(text: Seq<char>)
    ensures
        0 <= complete_length(text) <= text.len(),
        complete_length(text) > 0 ==> text[complete_length(text) - 1] == '\n',
        forall|i: int| complete_length(text) <= i < text.len() ==> text[i] != '\n',
    decreases text.len(),
{
    if text.len() != 0 && text.last() != '\n' {
        let shorter = text.drop_last();
        lemma_complete_length(shorter);
        assert forall|i: int| complete_length(text) <= i < text.len() implies text[i] != '\n' by {
            if i < shorter.len() {
                assert(shorter[i] == text[i]);
            }
        }
    }
}

/// Takes a piece of the event stream in: finds the texts that its complete lines, with what was
/// left of the pieces before it, add to the answer, and keeps the incomplete line.
pub fn extract_text_deltas_from_buffer(upstream_buffer: &mut String, upstream_chunk: &str) -> (result:
    Vec<String>)
    ensures
        texts(result@) == text_deltas(complete_lines(old(upstream_buffer)@ + upstream_chunk@)),
        final(upstream_buffer)@ == incomplete_line(old(upstream_buffer)@ + upstream_chunk@),
{
    upstream_buffer.append(upstream_chunk);
    let ghost all = upstream_buffer@;
    let chars = char_list(upstream_buffer.as_str());
    let mut end: usize = chars.len();
    assert(all.take(all.len() as int) =~= all);
    while end > 0 && chars[end - 1] != '\n'
        invariant
            chars@ == all,
            end <= chars.len(),
            complete_length(all) == complete_length(all.take(end as int)),
        decreases end,
    {
        assert(all.take(end as int).drop_last() =~= all.take(end - 1));
        end -= 1;
    }
    assert(complete_length(all) == end);
    if end == 0 {
        assert(all.skip(0) =~= all);
        assert(all.take(0) =~= Seq::<char>::empty());
        let result: Vec<String> = Vec::new();
        assert(texts(result@) =~= Seq::<Seq<char>>::empty());
        return result;
    }
    let complete_events = text_between(&chars, 0, end);
    let remaining_events = text_between(&chars, end, chars.len());
    assert(complete_events@ =~= complete_lines(all));
    assert(remaining_events@ =~= incomplete_line(all));
    *upstream_buffer = remaining_events;
    extract_text_deltas(complete_events.as_str())
}

/// Texts put behind each other.
pub open spec fn concatenated(parts: Seq<Seq<char>>) -> Seq<char>
    decreases parts.len(),
{
    if parts.len() == 0 {
        Seq::empty()
    } else {
        concatenated(parts.drop_last()) + parts.last()
    }
}

/// What is left of the event stream behind its complete lines once the pieces are taken in.
pub open spec fn buffer_after(pieces: Seq<Seq<char>>) -> Seq<char>
    decreases pieces.len(),
{
    if pieces.len() == 0 {
        Seq::empty()
    } else {
        incomplete_line(buffer_after(pieces.drop_last()) + pieces.last())
    }
}

/// The texts that are found while the pieces are taken in, in order.
pub open spec fn deltas_after(pieces: Seq<Seq<char>>) -> Seq<Seq<char>>
    decreases pieces.len(),
{
    if pieces.len() == 0 {
        Seq::empty()
    } else {
        deltas_after(pieces.drop_last()) + text_deltas(
            complete_lines(buffer_after(pieces.drop_last()) + pieces.last()),
        )
    }
}

proof fn lemma_line_deltas_add(a: Seq<Seq<char>>, b: Seq<Seq<char>>)
    ensures
        line_deltas(a + b) == line_deltas(a) + line_deltas(b),
    decreases b.len(),
{
    if b.len() == 0 {
        assert(a + b =~= a);
        assert(line_deltas(a) + line_deltas(b) =~= line_deltas(a));
    } else {
        lemma_line_deltas_add(a, b.drop_last());
        assert((a + b).drop_last() =~= a + b.drop_last());
        assert((a + b).last() == b.last());
        assert(line_deltas(a + b) =~= line_deltas(a) + line_deltas(b));
    }
}

proof fn lemma_lines_add(a: Seq<char>, b: Seq<char>)
    requires
        a.len() == 0 || a.last() == '\n',
    ensures
        lines(a + b) == lines(a) + lines(b),
    decreases a.len(),
{
    if a.len() == 0 {
        assert(a + b =~= b);
        assert(lines(a) + lines(b) =~= lines(b));
    } else {
        lemma_position(a, '\n');
        let at = position(a, '\n');
        if at == a.len() {
            assert(a[a.len() - 1] == '\n');
        }
        let rest = a.skip(at + 1);
        lemma_position_unique(a + b, '\n', at);
        lemma_lines_add(rest, b);
        assert((a + b).skip(at + 1) =~= rest + b);
        assert((a + b).take(at) =~= a.take(at));
        assert(lines(a + b) =~= lines(a) + lines(b));
    }
}

/// Splitting a text behind complete lines loses no text and adds none: what the two parts add
/// to the answer is what the whole adds.
pub proof fn law_complete_lines_stand_alone(a: Seq<char>, b: Seq<char>)
    requires
        a.len() == 0 || a.last() == '\n',
    ensures
        text_deltas(a + b) == text_deltas(a) + text_deltas(b),
{
    lemma_lines_add(a, b);
    lemma_line_deltas_add(lines(a), lines(b));
}

/// How upstream cuts its event stream into pieces does not matter: the texts found while the
/// pieces are taken in, followed by those of what is left, are those of the whole stream.
pub proof fn law_pieces_do_not_matter(pieces: Seq<Seq<char>>)
    ensures
        deltas_after(pieces) + text_deltas(buffer_after(pieces)) == text_deltas(
            concatenated(pieces),
        ),
    decreases pieces.len(),
{
    law_texts_are_those_of_the_complete_lines(pieces);
    let whole = concatenated(pieces);
    lemma_complete_length(whole);
    assert(complete_lines(whole) + incomplete_line(whole) =~= whole);
    law_complete_lines_stand_alone(complete_lines(whole), incomplete_line(whole));
}

/// After the pieces are taken in, the buffer holds the incomplete line of the whole stream, and
/// the texts found, one by one, are those of its complete lines.
pub proof fn law_texts_are_those_of_the_complete_lines(pieces: Seq<Seq<char>>)
    ensures
        buffer_after(pieces) == incomplete_line(concatenated(pieces)),
        deltas_after(pieces) == text_deltas(complete_lines(concatenated(pieces))),
    decreases pieces.len(),
{
    let whole = concatenated(pieces);
    if pieces.len() == 0 {
        assert(incomplete_line(whole) =~= Seq::<char>::empty());
        assert(complete_lines(whole) =~= Seq::<char>::empty());
    } else {
        law_texts_are_those_of_the_complete_lines(pieces.drop_last());
        let before = concatenated(pieces.drop_last());
        let piece = pieces.last();
        let kept = incomplete_line(before);
        let tail = kept + piece;
        lemma_complete_length(before);
        lemma_complete_length(tail);
        assert(complete_lines(before) + tail =~= whole);
        lemma_complete_length_add(complete_lines(before), tail);
        assert(complete_lines(whole) =~= complete_lines(before) + complete_lines(tail));
        assert(incomplete_line(whole) =~= incomplete_line(tail));
        law_complete_lines_stand_alone(complete_lines(before), complete_lines(tail));
    }
}

proof fn lemma_complete_length_add(a: Seq<char>, b: Seq<char>)
    requires
        a.len() == 0 || a.last() == '\n',
    ensures
        complete_length(a + b) == a.len() + complete_length(b),
    decreases b.len(),
{
    if b.len() == 0 {
        assert(a + b =~= a);
    } else {
        assert((a + b).last() == b.last());
        if b.last() != '\n' {
            lemma_complete_length_add(a, b.drop_last());
            assert((a + b).drop_last() =~= a + b.drop_last());
        }
    }
}

pub proof fn lemma_concatenated_add(a: Seq<Seq<char>>, b: Seq<Seq<char>>)
    ensures
        concatenated(a + b) == concatenated(a) + concatenated(b),
    decreases b.len(),
{
    if b.len() == 0 {
        assert(a + b =~= a);
        assert(concatenated(a) + concatenated(b) =~= concatenated(a));
    } else {
        lemma_concatenated_add(a, b.drop_last());
        assert((a + b).drop_last() =~= a + b.drop_last());
        assert(concatenated(a + b) =~= concatenated(a) + concatenated(b));
    }
}

/// The answer that upstream gives in its event stream.
pub open spec fn answer(stream: Seq<char>) -> Seq<char> {
    concatenated(text_deltas(stream))
}

/// The answer that a client gets at once is the text that a client gets piece by piece,
/// followed by the text of what the stream leaves behind its complete lines.
pub proof fn law_streamed_text_is_the_answer(pieces: Seq<Seq<char>>)
    ensures
        concatenated(deltas_after(pieces)) + answer(buffer_after(pieces)) == answer(
            concatenated(pieces),
        ),
{
    law_pieces_do_not_matter(pieces);
    lemma_concatenated_add(deltas_after(pieces), text_deltas(buffer_after(pieces)));
}

/// Where the stream of upstream ends with a complete line, the client that gets it piece by
/// piece gets the whole answer, text by text.
pub proof fn law_complete_stream_is_streamed_whole(pieces: Seq<Seq<char>>)
    requires
        concatenated(pieces).len() == 0 || concatenated(pieces).last() == '\n',
    ensures
        deltas_after(pieces) == text_deltas(concatenated(pieces)),
        concatenated(deltas_after(pieces)) == answer(concatenated(pieces)),
{
    law_texts_are_those_of_the_complete_lines(pieces);
    let whole = concatenated(pieces);
    assert(complete_lines(whole) =~= whole);
}

fn append_all(text: &mut String, parts: &Vec<String>)
    ensures
        final(text)@ == old(text)@ + concatenated(texts(parts@)),
{
    let ghost start = text@;
    let mut i: usize = 0;
    assert(start + concatenated(texts(parts@).take(0)) =~= start);
    while i < parts.len()
        invariant
            i <= parts@.len(),
            text@ == start + concatenated(texts(parts@).take(i as int)),
        decreases parts@.len() - i,
    {
        let ghost all = texts(parts@);
        text.append(parts[i].as_str());
        assert(all.take(i + 1).drop_last() =~= all.take(i as int));
        assert(text@ =~= start + concatenated(all.take(i + 1)));
        i += 1;
    }
    assert(texts(parts@).take(parts@.len() as int) =~= texts(parts@));
}

/// The pieces among what came of reading from upstream, in order, whatever errors stand between
/// them.
pub open spec fn received(results: Seq<Result<String, ProxyError>>) -> Seq<Seq<char>>
    decreases results.len(),
{
    if results.len() == 0 {
        Seq::empty()
    } else {
        match results.last() {
            Ok(piece) => received(results.drop_last()).push(piece@),
            Err(_) => received(results.drop_last()),
        }
    }
}

/// Collects the answer that upstream gives in its event stream.
pub fn collect_openai_response_text(upstream_results: Vec<Result<String, ProxyError>>) -> (result:
    Result<String, ProxyError>)
    ensures
        match result {
            Ok(text) => {
                &&& forall|i: int|
                    0 <= i < upstream_results@.len() ==> #[trigger] upstream_results@[i] is Ok
                &&& text@ == answer(concatenated(received(upstream_results@)))
            },
            Err(error) => exists|i: int|
                {
                    &&& 0 <= i < upstream_results@.len()
                    &&& upstream_results@[i] == Err::<String, ProxyError>(error)
                    &&& forall|j: int| 0 <= j < i ==> #[trigger] upstream_results@[j] is Ok
                },
        },
{
    let mut upstream_buffer = String::new();
    let mut response_text = String::new();
    let ghost all = upstream_results@;
    let ghost mut seen: Seq<Seq<char>> = Seq::empty();
    assert(concatenated(deltas_after(seen)) =~= Seq::<char>::empty());
    for upstream_result in it: upstream_results
        invariant
            it.seq() == all,
            forall|i: int| 0 <= i < it.index() ==> #[trigger] all[i] is Ok,
            seen == received(all.take(it.index() as int)),
            upstream_buffer@ == buffer_after(seen),
            response_text@ == concatenated(deltas_after(seen)),
    {
        assert(all.take(it.index() as int + 1).drop_last() =~= all.take(it.index() as int));
        match upstream_result {
            Ok(piece) => {
                let deltas = extract_text_deltas_from_buffer(&mut upstream_buffer, piece.as_str());
                append_all(&mut response_text, &deltas);
                proof {
                    let next = seen.push(piece@);
                    assert(next.drop_last() =~= seen);
                    lemma_concatenated_add(deltas_after(seen), texts(deltas@));
                    seen = next;
                }
            },
            Err(error) => {
                assert(all[it.index() as int] == Err::<String, ProxyError>(error));
                return Err(error);
            },
        }
    }
    assert(all.take(all.len() as int) =~= all);
    if !upstream_buffer.as_str().is_empty() {
        append_all(&mut response_text, &extract_text_deltas(upstream_buffer.as_str()));
    }
    proof {
        law_streamed_text_is_the_answer(seen);
        if upstream_buffer@.len() == 0 {
            assert(answer(upstream_buffer@) =~= Seq::<char>::empty());
        }
    }
    Ok(response_text)
}

/// What an event of the stream to a client carries.
#[derive(Debug)]
pub enum StreamPayload {
    Chunk(ChatCompletionChunk),
    Error(JsonValue),
    Done,
}

/// The report of an error in a stream.
pub open spec fn error_payload(message: Seq<char>) -> Json {
    Json::Object(
        seq![
            (
                "error"@,
                Json::Object(
                    seq![
                        ("message"@, Json::Text(message)),
                        ("type"@, Json::Text("proxy_stream_error"@)),
                        ("code"@, Json::Null),
                    ],
                ),
            ),
        ],
    )
}

/// Tells whether payloads carry texts, one after the other, as pieces of a stream of `model`.
pub open spec fn carry_texts(
    payloads: Seq<StreamPayload>,
    model: Seq<char>,
    list: Seq<Seq<char>>,
) -> bool {
    &&& payloads.len() == list.len()
    &&& forall|i: int|
        0 <= i < payloads.len() ==> match #[trigger] payloads[i] {
            StreamPayload::Chunk(chunk) => is_chunk(chunk, model, content_says(list[i]))
                && is_dated(chunk),
            _ => false,
        }
}

/// What a client gets when something comes from upstream: texts, or the report of a failure.
pub enum StreamItem {
    Texts(Seq<Seq<char>>),
    Failure(Seq<char>),
}

/// What a client gets when a piece comes from upstream, or an error in its place, and what was
/// left of the pieces before it is this.
pub open spec fn relayed(
    buffer: Seq<char>,
    upstream_result: Result<String, ProxyError>,
) -> StreamItem {
    match upstream_result {
        Ok(piece) => StreamItem::Texts(text_deltas(complete_lines(buffer + piece@))),
        Err(error) => StreamItem::Failure(error.description()),
    }
}

/// What is left of the pieces then.
pub open spec fn kept(buffer: Seq<char>, upstream_result: Result<String, ProxyError>) -> Seq<char> {
    match upstream_result {
        Ok(piece) => incomplete_line(buffer + piece@),
        Err(_) => buffer,
    }
}

/// Tells whether payloads carry what a client of `model` gets.
pub open spec fn carry_item(
    payloads: Seq<StreamPayload>,
    model: Seq<char>,
    item: StreamItem,
) -> bool {
    match item {
        StreamItem::Texts(list) => carry_texts(payloads, model, list),
        StreamItem::Failure(message) => {
            &&& payloads.len() == 1
            &&& match payloads[0] {
                StreamPayload::Error(value) => value@ == error_payload(message),
                _ => false,
            }
        },
    }
}

/// What is left of the pieces once all of this has come from upstream.
pub open spec fn kept_after(results: Seq<Result<String, ProxyError>>) -> Seq<char>
    decreases results.len(),
{
    if results.len() == 0 {
        Seq::empty()
    } else {
        kept(kept_after(results.drop_last()), results.last())
    }
}

/// What a client gets, item by item, while all of this comes from upstream.
pub open spec fn stream_items(results: Seq<Result<String, ProxyError>>) -> Seq<StreamItem>
    decreases results.len(),
{
    if results.len() == 0 {
        Seq::empty()
    } else {
        stream_items(results.drop_last()).push(
            relayed(kept_after(results.drop_last()), results.last()),
        )
    }
}

/// The texts that items hold, in order.
pub open spec fn item_texts(items: Seq<StreamItem>) -> Seq<Seq<char>>
    decreases items.len(),
{
    if items.len() == 0 {
        Seq::empty()
    } else {
        match items.last() {
            StreamItem::Texts(list) => item_texts(items.drop_last()) + list,
            StreamItem::Failure(_) => item_texts(items.drop_last()),
        }
    }
}

proof fn lemma_stream_items(results: Seq<Result<String, ProxyError>>)
    ensures
        stream_items(results).len() == results.len(),
        kept_after(results) == buffer_after(received(results)),
        item_texts(stream_items(results)) == deltas_after(received(results)),
    decreases results.len(),
{
    if results.len() > 0 {
        let before = results.drop_last();
        lemma_stream_items(before);
        assert(stream_items(results).drop_last() =~= stream_items(before));
        match results.last() {
            Ok(piece) => law_relay_goes_on(received(before), piece@),
            Err(_) => {},
        }
    }
}

/// Where what upstream sends ends with a complete line, a client gets every text of the answer
/// once and in order, however it is cut into pieces and whatever failures come between them.
pub proof fn law_client_gets_the_answer(results: Seq<Result<String, ProxyError>>)
    requires
        concatenated(received(results)).len() == 0 || concatenated(received(results)).last()
            == '\n',
    ensures
        item_texts(stream_items(results)) == text_deltas(concatenated(received(results))),
{
    lemma_stream_items(results);
    law_complete_stream_is_streamed_whole(received(results));
}

/// A failure is reported in its place, and changes nothing of what a client gets for the pieces
/// around it.
pub proof fn law_failures_are_reported_in_place(
    results: Seq<Result<String, ProxyError>>,
    i: int,
)
    requires
        0 <= i < results.len(),
    ensures
        stream_items(results).len() == results.len(),
        stream_items(results)[i] == relayed(buffer_after(received(results.take(i))), results[i]),
        results[i] is Err ==> stream_items(results)[i] == StreamItem::Failure(
            results[i]->Err_0.description(),
        ),
    decreases results.len(),
{
    lemma_stream_items(results);
    let before = results.drop_last();
    lemma_stream_items(before);
    if i < before.len() {
        law_failures_are_reported_in_place(before, i);
        assert(before.take(i) =~= results.take(i));
    } else {
        assert(before =~= results.take(i));
    }
}

/// The stream to a client.
#[derive(Debug)]
pub struct OpenAiStream {
    /// The model that the client asked for.
    pub client_model: String,
    /// What upstream has sent of a line that is not complete yet.
    pub upstream_buffer: String,
}

impl OpenAiStream {
    pub fn new(client_model: &str) -> (result: Self)
        ensures
            result.client_model@ == client_model@,
            result.upstream_buffer@ == buffer_after(Seq::empty()),
    {
        OpenAiStream { client_model: client_model.to_owned(), upstream_buffer: String::new() }
    }

    /// What the client is sent before anything comes from upstream.
    pub fn opening(&self) -> (result: StreamPayload)
        ensures
            match result {
                StreamPayload::Chunk(chunk) => is_chunk(chunk, self.client_model@, first_says())
                    && is_dated(chunk),
                _ => false,
            },
    {
        StreamPayload::Chunk(first_stream_chunk(self.client_model.as_str()))
    }

    /// What the client is sent when a piece comes from upstream, or an error in its place.
    pub fn relay(&mut self, upstream_result: Result<String, ProxyError>) -> (result: Vec<
        StreamPayload,
    >)
        ensures
            final(self).client_model == old(self).client_model,
            final(self).upstream_buffer@ == kept(old(self).upstream_buffer@, upstream_result),
            carry_item(
                result@,
                old(self).client_model@,
                relayed(old(self).upstream_buffer@, upstream_result),
            ),
    {
        let mut payloads: Vec<StreamPayload> = Vec::new();
        match upstream_result {
            Ok(piece) => {
                let deltas = extract_text_deltas_from_buffer(
                    &mut self.upstream_buffer,
                    piece.as_str(),
                );
                let ghost list = texts(deltas@);
                let mut i: usize = 0;
                assert(list.take(0) =~= Seq::<Seq<char>>::empty());
                while i < deltas.len()
                    invariant
                        i <= deltas@.len(),
                        list == texts(deltas@),
                        carry_texts(payloads@, self.client_model@, list.take(i as int)),
                    decreases deltas@.len() - i,
                {
                    let chunk = content_stream_chunk(self.client_model.as_str(), deltas[i].clone());
                    payloads.push(StreamPayload::Chunk(chunk));
                    i += 1;
                }
                assert(list.take(list.len() as int) =~= list);
            },
            Err(error) => {
                payloads.push(StreamPayload::Error(stream_error(error.message().as_str())));
            },
        }
        payloads
    }

    /// What the client is sent when upstream has nothing more to send.
    pub fn closing(&self) -> (result: Vec<StreamPayload>)
        ensures
            result@.len() == 2,
            match result@[0] {
                StreamPayload::Chunk(chunk) => is_chunk(chunk, self.client_model@, final_says())
                    && is_dated(chunk),
                _ => false,
            },
            result@[1] is Done,
    {
        let mut payloads: Vec<StreamPayload> = Vec::new();
        payloads.push(StreamPayload::Chunk(final_stream_chunk(self.client_model.as_str())));
        payloads.push(StreamPayload::Done);
        payloads
    }
}

/// Reports an error in a stream.
pub fn stream_error(message: &str) -> (result: JsonValue)
    ensures
        result@ == error_payload(message@),
{
    let mut body: Vec<JsonField> = Vec::new();
    body.push(text_field("message", message));
    body.push(text_field("type", "proxy_stream_error"));
    body.push(JsonField { key: "code".to_owned(), value: JsonValue::Null });
    proof {
        lemma_fields_model(body@);
        assert(fields_model(body@) =~= seq![
            ("message"@, Json::Text(message@)),
            ("type"@, Json::Text("proxy_stream_error"@)),
            ("code"@, Json::Null),
        ]);
    }
    let mut fields: Vec<JsonField> = Vec::new();
    let ghost body_fields = fields_model(body@);
    fields.push(JsonField { key: "error".to_owned(), value: JsonValue::Object(body) });
    proof {
        lemma_fields_model(fields@);
        assert(fields_model(fields@) =~= seq![("error"@, Json::Object(body_fields))]);
    }
    JsonValue::Object(fields)
}

/// An event of the stream to a client: one line with what it carries, and an empty one.
pub open spec fn event(payload: Seq<char>) -> Seq<char> {
    "data: "@ + payload + "\n\n"@
}

/// Events put behind each other.
pub open spec fn events(payloads: Seq<Seq<char>>) -> Seq<char>
    decreases payloads.len(),
{
    if payloads.len() == 0 {
        Seq::empty()
    } else {
        events(payloads.drop_last()) + event(payloads.last())
    }
}

/// Writes events of the stream to a client.
pub fn event_frames(payloads: &Vec<String>) -> (result: String)
    ensures
        result@ == events(texts(payloads@)),
{
    let mut frames = String::new();
    let mut i: usize = 0;
    while i < payloads.len()
        invariant
            i <= payloads@.len(),
            frames@ == events(texts(payloads@).take(i as int)),
        decreases payloads@.len() - i,
    {
        let ghost all = texts(payloads@);
        let ghost before = frames@;
        frames.append("data: ");
        frames.append(payloads[i].as_str());
        frames.append("\n\n");
        assert(all.take(i + 1).drop_last() =~= all.take(i as int));
        assert(frames@ =~= before + event(all[i as int]));
        i += 1;
    }
    assert(texts(payloads@).take(payloads@.len() as int) =~= texts(payloads@));
    frames
}

/// What to send to a client for what upstream sends: events, and nothing where there is nothing
/// to carry.
pub fn frames_to_send(payloads: &Vec<String>) -> (result: Option<String>)
    ensures
        match result {
            Some(frames) => {
                &&& payloads@.len() > 0
                &&& frames@ == events(texts(payloads@))
                &&& frames@.len() > 0
            },
            None => payloads@.len() == 0,
        },
{
    if payloads.len() == 0 {
        return None;
    }
    proof {
        reveal_strlit("data: ");
        assert(event(texts(payloads@).last()).len() > 0);
    }
    Some(event_frames(payloads))
}

/// What ends the stream to a client.
pub const DONE_PAYLOAD: &'static str = "[DONE]";

/// Taking in one more piece goes on where the pieces before it have led.
pub proof fn law_relay_goes_on(pieces: Seq<Seq<char>>, piece: Seq<char>)
    ensures
        buffer_after(pieces.push(piece)) == incomplete_line(buffer_after(pieces) + piece),
        deltas_after(pieces.push(piece)) == deltas_after(pieces) + text_deltas(
            complete_lines(buffer_after(pieces) + piece),
        ),
{
    assert(pieces.push(piece).drop_last() =~= pieces);
}

/// An event holds one line with what it carries, and an empty one, so that a client finds what
/// it carries.
pub proof fn law_event_carries_its_payload(payload: Seq<char>)
    requires
        forall|i: int| 0 <= i < payload.len() ==> #[trigger] payload[i] != '\n',
        payload.len() == 0 || payload.last() != '\r',
    ensures
        lines(event(payload)) == seq!["data: "@ + payload, Seq::<char>::empty()],
        after_prefix("data: "@ + payload, "data: "@) == Some(payload),
{
    reveal_strlit("data: ");
    reveal_strlit("\n\n");
    let line = "data: "@ + payload;
    let text = event(payload);
    assert forall|i: int| 0 <= i < line.len() implies text[i] != '\n' by {
        if i >= "data: "@.len() {
            assert(text[i] == payload[i - "data: "@.len()]);
        }
    }
    lemma_position_unique(text, '\n', line.len() as int);
    let rest = text.skip(line.len() as int + 1);
    assert(rest =~= seq!['\n']);
    lemma_position_unique(rest, '\n', 0);
    assert(rest.skip(1) =~= Seq::<char>::empty());
    assert(text.take(line.len() as int) =~= line);
    assert(line.last() != '\r');
    assert(rest.take(0) =~= Seq::<char>::empty());
    assert(lines(rest.skip(1)) =~= Seq::<Seq<char>>::empty());
    assert(lines(rest) =~= seq![Seq::<char>::empty()]);
    assert(lines(text) =~= seq![line, Seq::<char>::empty()]);
    assert(line.skip("data: "@.len() as int) =~= payload);
}

/// Events that follow each other are read one by one: none changes how those around it are read.
pub proof fn law_events_stand_alone(payloads: Seq<Seq<char>>, payload: Seq<char>)
    ensures
        events(payloads.push(payload)) == events(payloads) + event(payload),
        lines(events(payloads.push(payload))) == lines(events(payloads)) + lines(event(payload)),
{
    reveal_strlit("\n\n");
    assert(payloads.push(payload).drop_last() =~= payloads);
    if payloads.len() > 0 {
        let last = event(payloads.last());
        assert(last[last.len() - 1] == '\n');
        assert(events(payloads).last() == '\n');
    }
    lemma_lines_add(events(payloads), event(payload));
}

} // verus!
