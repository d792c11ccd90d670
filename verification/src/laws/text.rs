//! How texts are taken apart and put together.

use crate::laws::log::holds_word;
use crate::text::{
    char_list, decimal_text, digits_value, ends_with, find, has_text, is_digit, is_white_space,
    join, joined, law_written_number_is_read_back, lemma_find_from, lemma_position_unique,
    occurs_at, parse_unsigned, second_word, span, split_lines, split_second, starts_with,
    strip_prefix, text_between, texts, unsigned_digits, white_space, words,
};
use vstd::prelude::*;

verus! {

/// A text has no lines where it is empty, and one where it has no line feed.
pub proof fn law_last_line_needs_no_end(text: &str, list: Vec<String>)
    requires
        call_ensures(split_lines, (text,), list),
        !text@.contains('\n'),
    ensures
        text@.len() == 0 ==> list@.len() == 0,
        text@.len() > 0 ==> list@.len() == 1 && list@[0]@ == text@,
{
    assert forall|i: int| 0 <= i < text@.len() implies text@[i] != '\n' by {
        assert(text@.contains(text@[i]));
    }
    lemma_position_unique(text@, '\n', text@.len() as int);
    assert(texts(list@).len() == list@.len());
    if text@.len() > 0 {
        assert(texts(list@)[0] == list@[0]@);
    }
}

/// A line ends at a line feed, without the carriage return in front of it, and the other lines
/// are those of the rest.
pub proof fn law_line_ends_at_a_line_feed(
    line: Seq<char>,
    end: Seq<char>,
    rest: &str,
    rest_list: Vec<String>,
    text: &str,
    list: Vec<String>,
)
    requires
        !line.contains('\n'),
        end == seq!['\n'] && (line.len() == 0 || line.last() != '\r') || end == seq!['\r', '\n'],
        text@ == line + end + rest@,
        call_ensures(split_lines, (rest,), rest_list),
        call_ensures(split_lines, (text,), list),
    ensures
        list@.len() == rest_list@.len() + 1,
        list@[0]@ == line,
        forall|i: int| 0 <= i < rest_list@.len() ==> (#[trigger] list@[i + 1])@ == rest_list@[i]@,
{
    let at = line.len() + end.len() - 1;
    assert forall|i: int| 0 <= i < at implies text@[i] != '\n' by {
        if i < line.len() {
            assert(line.contains(line[i]));
            assert(text@[i] == line[i]);
        }
    }
    assert(text@[at] == '\n');
    lemma_position_unique(text@, '\n', at);
    if end.len() == 1 {
        assert(text@.take(at) =~= line);
    } else {
        assert(text@.take(at) =~= line.push('\r'));
        assert(line.push('\r').drop_last() =~= line);
    }
    assert(text@.skip(at + 1) =~= rest@);
    let all = texts(list@);
    assert(all == seq![line] + texts(rest_list@));
    assert(all.len() == list@.len());
    assert(all[0] == list@[0]@);
    assert forall|i: int| 0 <= i < rest_list@.len() implies (#[trigger] list@[i + 1])@
        == rest_list@[i]@ by {
        assert(all[i + 1] == list@[i + 1]@);
        assert(texts(rest_list@)[i] == rest_list@[i]@);
    }
}

/// A prefix is taken off exactly where a text starts with it, and the rest is kept.
pub proof fn law_prefix_is_taken_off(
    text: &str,
    prefix: &str,
    rest: Option<String>,
    starts: bool,
    ends: bool,
    tail: Seq<char>,
)
    requires
        call_ensures(strip_prefix, (text, prefix), rest),
        call_ensures(starts_with, (text, prefix), starts),
        call_ensures(ends_with, (text, prefix), ends),
    ensures
        rest is Some && rest->0@ == tail <==> text@ == prefix@ + tail,
        starts <==> rest is Some,
        text@ == tail + prefix@ ==> ends,
        ends ==> text@.len() >= prefix@.len() && text@ == text@.take(
            text@.len() - prefix@.len(),
        ) + prefix@,
{
    let n = prefix@.len() as int;
    if text@ == prefix@ + tail {
        assert(text@.subrange(0, n) =~= prefix@);
        assert(text@.skip(n) =~= tail);
    }
    if rest is Some {
        assert(text@ =~= text@.subrange(0, n) + text@.skip(n));
    }
    let m = text@.len() - n;
    if text@ == tail + prefix@ {
        assert(text@.subrange(m, text@.len() as int) =~= prefix@);
    }
    if ends {
        assert(text@ =~= text@.take(m) + text@.subrange(m, text@.len() as int));
    }
}

/// A word is found exactly where a text holds it, and at its first place.
pub proof fn law_word_is_found(
    text: &str,
    word: &str,
    found: bool,
    chars: Vec<char>,
    word_chars: Vec<char>,
    place: Option<usize>,
)
    requires
        call_ensures(has_text, (text, word), found),
        call_ensures(char_list, (text,), chars),
        call_ensures(char_list, (word,), word_chars),
        call_ensures(find, (&chars, &word_chars), place),
    ensures
        chars@ == text@,
        found <==> holds_word(text@, word@),
        found <==> place is Some,
        place is Some ==> place->0 + word@.len() <= text@.len() && text@.subrange(
            place->0 as int,
            place->0 + word@.len(),
        ) == word@,
        place is Some ==> forall|i: int|
            0 <= i < place->0 ==> #[trigger] text@.subrange(i, i + word@.len()) != word@,
{
    lemma_find_from(text@, word@, 0);
    crate::laws::log::lemma_holds_word(text@, word@);
    if place is Some {
        assert(occurs_at(text@, word@, place->0 as int));
        assert forall|i: int| 0 <= i < place->0 implies #[trigger] text@.subrange(
            i,
            i + word@.len(),
        ) != word@ by {
            assert(!occurs_at(text@, word@, i));
        }
    }
    if found {
        let at = choose|at: int| occurs_at(text@, word@, at);
        assert(occurs_at(text@, word@, at));
    }
}

/// The part of a text between two places has the characters that stand there.
pub proof fn law_part_of_a_text(chars: Vec<char>, from: usize, to: usize, part: String)
    requires
        from <= to <= chars@.len(),
        call_ensures(text_between, (&chars, from, to), part),
    ensures
        part@.len() == to - from,
        forall|i: int| 0 <= i < part@.len() ==> #[trigger] part@[i] == chars@[from + i],
{
}

/// Texts are joined with the separator in front of every one but the first.
pub proof fn law_texts_are_joined(
    parts: Vec<String>,
    text: String,
    last: String,
    more: Vec<String>,
    longer: String,
    separator: &str,
)
    requires
        call_ensures(join, (&parts, separator), text),
        more@ == parts@.push(last),
        call_ensures(join, (&more, separator), longer),
    ensures
        parts@.len() == 0 ==> text@.len() == 0 && longer@ == last@,
        parts@.len() > 0 ==> longer@ == text@ + separator@ + last@,
{
    assert(texts(more@) =~= texts(parts@).push(last@));
    assert(texts(parts@).push(last@).drop_last() =~= texts(parts@));
}

/// A number is written digit by digit, the last one being the remainder by ten.
pub proof fn law_number_is_written(n: u64, tens: String, text: String)
    requires
        call_ensures(decimal_text, (n,), text),
        call_ensures(decimal_text, ((n / 10) as u64,), tens),
    ensures
        n < 10 ==> text@ == seq![(48 + n as int) as char],
        n >= 10 ==> text@ == tens@.push((48 + n as int % 10) as char),
{
}

/// A number is read digit by digit, and one that is written is read back.
pub proof fn law_number_is_read(
    text: &str,
    max: u64,
    read: Option<u64>,
    c: char,
    longer: &str,
    longer_read: Option<u64>,
    n: u64,
    written: String,
)
    requires
        call_ensures(parse_unsigned, (text, max), read),
        longer@ == text@.push(c),
        call_ensures(parse_unsigned, (longer, max), longer_read),
        call_ensures(decimal_text, (n,), written),
    ensures
        text@ == written@ && n <= max ==> read == Some(n),
        read is Some ==> read->0 <= max,
        read is Some && '0' <= c <= '9' ==> {
            let value = read->0 * 10 + (c as int - 48);
            &&& longer_read is Some <==> value <= max
            &&& longer_read is Some ==> longer_read->0 == value
        },
        !('0' <= c <= '9') ==> longer_read is None,
        read is None && text@.len() > 0 && text@ != seq!['+'] ==> longer_read is None,
        text@.len() == 0 ==> read is None,
        text@.len() == 0 && c as int - 48 > max ==> longer_read is None,
        text@.len() == 0 && '0' <= c <= '9' && c as int - 48 <= max ==> longer_read == Some(
            (c as int - 48) as u64,
        ),
{
    if n <= max {
        law_written_number_is_read_back(n as nat, max as nat);
    }
    let digits = unsigned_digits(text@);
    let more = unsigned_digits(longer@);
    if text@.len() > 0 {
        assert(more =~= digits.push(c));
        assert(more.drop_last() =~= digits);
        assert(more[more.len() - 1] == c);
        if read is Some && is_digit(c) {
            assert forall|i: int| 0 <= i < more.len() implies is_digit(#[trigger] more[i]) by {
                if i < digits.len() {
                    assert(more[i] == digits[i]);
                }
            }
        }
        if read is None && text@ != seq!['+'] && longer_read is Some {
            if digits.len() == 0 {
                assert(text@ =~= seq!['+']);
            }
            assert forall|i: int| 0 <= i < digits.len() implies is_digit(#[trigger] digits[i]) by {
                assert(more[i] == digits[i]);
            }
        }
    } else {
        assert(longer@ =~= seq![c]);
        if c == '+' {
            assert(more =~= Seq::<char>::empty());
        } else {
            assert(more[0] == c);
            assert(more.drop_last() =~= Seq::<char>::empty());
            assert(digits_value(Seq::<char>::empty()) == 0);
        }
    }
}

/// Tells whether a text is a word: not empty and without white space.
pub open spec fn is_word(text: Seq<char>) -> bool {
    text.len() > 0 && forall|i: int| 0 <= i < text.len() ==> !is_white_space(#[trigger] text[i])
}

/// Tells whether a text is nothing but white space.
pub open spec fn is_gap(text: Seq<char>) -> bool {
    forall|i: int| 0 <= i < text.len() ==> is_white_space(#[trigger] text[i])
}

proof fn lemma_span_is(text: Seq<char>, white: bool, n: int)
    requires
        0 <= n <= text.len(),
        forall|i: int| 0 <= i < n ==> is_white_space(#[trigger] text[i]) == white,
        n < text.len() ==> is_white_space(text[n]) != white,
    ensures
        span(text, white) == n,
    decreases n,
{
    if n > 0 {
        assert(is_white_space(text[0]) == white);
        let rest = text.drop_first();
        assert forall|i: int| 0 <= i < n - 1 implies is_white_space(#[trigger] rest[i]) == white by {
            assert(rest[i] == text[i + 1]);
        }
        lemma_span_is(rest, white, n - 1);
    }
}

/// A word behind white space is the first word of a text, and the others are those of the rest.
proof fn lemma_first_word(lead: Seq<char>, word: Seq<char>, tail: Seq<char>)
    requires
        is_gap(lead),
        is_word(word),
        tail.len() == 0 || is_white_space(tail[0]),
    ensures
        words(lead + word + tail) == seq![word] + words(tail),
{
    let text = lead + word + tail;
    let n = lead.len() as int;
    let m = word.len() as int;
    assert forall|i: int| 0 <= i < n implies is_white_space(#[trigger] text[i]) == true by {
        assert(text[i] == lead[i]);
    }
    assert(!is_white_space(word[0]));
    assert(text[n] == word[0]);
    lemma_span_is(text, true, n);
    let rest = text.skip(n);
    assert(rest =~= word + tail);
    assert forall|i: int| 0 <= i < m implies is_white_space(#[trigger] rest[i]) == false by {
        assert(rest[i] == word[i]);
    }
    lemma_span_is(rest, false, m);
    assert(rest.take(m) =~= word);
    assert(rest.skip(m) =~= tail);
}

pub(crate) proof fn lemma_second_word(
    lead: Seq<char>,
    first: Seq<char>,
    gap: Seq<char>,
    second: Seq<char>,
    tail: Seq<char>,
)
    requires
        is_gap(lead),
        is_word(first),
        is_gap(gap),
        gap.len() > 0,
        is_word(second),
        tail.len() == 0 || is_white_space(tail[0]),
    ensures
        words(lead + first + gap + second + tail).len() > 1,
        words(lead + first + gap + second + tail)[1] == second,
{
    let rest = gap + second + tail;
    assert(is_white_space(gap[0]));
    assert(rest[0] == gap[0]);
    lemma_first_word(lead, first, rest);
    lemma_first_word(gap, second, tail);
    assert(lead + first + gap + second + tail =~= lead + first + rest);
}

proof fn lemma_no_words(text: Seq<char>)
    requires
        is_gap(text),
    ensures
        words(text) == Seq::<Seq<char>>::empty(),
{
    lemma_span_is(text, true, text.len() as int);
    assert(text.skip(text.len() as int).len() == 0);
}

/// The second word is what stands between the white space behind the first word and the next
/// white space.
pub proof fn law_second_word_is_found(
    lead: Seq<char>,
    first: Seq<char>,
    gap: Seq<char>,
    second: Seq<char>,
    tail: Seq<char>,
    text: &str,
    word: Option<String>,
)
    requires
        is_gap(lead),
        is_word(first),
        is_gap(gap),
        is_word(second),
        tail.len() == 0 || is_white_space(tail[0]),
        call_ensures(second_word, (text,), word),
    ensures
        gap.len() > 0 && text@ == lead + first + gap + second + tail ==> word is Some && word->0@
            == second,
        text@ == lead + first + gap ==> word is None,
        text@ == lead ==> word is None,
{
    if gap.len() > 0 {
        lemma_second_word(lead, first, gap, second, tail);
        assert(is_white_space(gap[0]));
    }
    lemma_first_word(lead, first, gap);
    lemma_no_words(gap);
    lemma_no_words(lead);
}

/// The characters that are white space.
pub proof fn law_white_space(c: char, white: bool)
    requires
        call_ensures(white_space, (c,), white),
    ensures
        white <==> (9 <= c as int <= 13 || c as int == 0x20 || c as int == 0x85 || c as int == 0xa0
            || c as int == 0x1680 || 0x2000 <= c as int <= 0x200a || c as int == 0x2028 || c as int
            == 0x2029 || c as int == 0x202f || c as int == 0x205f || c as int == 0x3000),
{
}

/// The second part is what stands between the first separator and the next, or behind the only
/// one.
pub proof fn law_second_part_is_found(
    first: Seq<char>,
    second: Seq<char>,
    tail: Seq<char>,
    c: char,
    text: &str,
    part: Option<String>,
)
    requires
        !first.contains(c),
        !second.contains(c),
        tail.len() == 0 || tail[0] == c,
        call_ensures(split_second, (text, c), part),
    ensures
        text@ == first ==> part is None,
        text@ == first + seq![c] + second + tail ==> part is Some && part->0@ == second,
{
    assert forall|i: int| 0 <= i < first.len() implies first[i] != c by {
        assert(first.contains(first[i]));
    }
    assert forall|i: int| 0 <= i < second.len() implies second[i] != c by {
        assert(second.contains(second[i]));
    }
    if text@ == first {
        lemma_position_unique(text@, c, first.len() as int);
    }
    if text@ == first + seq![c] + second + tail {
        let at = first.len() as int;
        assert forall|i: int| 0 <= i < at implies text@[i] != c by {
            assert(text@[i] == first[i]);
        }
        assert(text@[at] == c);
        lemma_position_unique(text@, c, at);
        let rest = text@.skip(at + 1);
        assert(rest =~= second + tail);
        assert forall|i: int| 0 <= i < second.len() implies rest[i] != c by {
            assert(rest[i] == second[i]);
        }
        lemma_position_unique(rest, c, second.len() as int);
        assert(rest.take(second.len() as int) =~= second);
    }
}

/// A plus sign in front of a number changes nothing.
pub proof fn law_plus_sign_is_ignored(
    text: &str,
    max: u64,
    read: Option<u64>,
    signed: &str,
    signed_read: Option<u64>,
)
    requires
        call_ensures(parse_unsigned, (text, max), read),
        signed@ == seq!['+'] + text@,
        call_ensures(parse_unsigned, (signed, max), signed_read),
    ensures
        text@.len() == 0 || text@[0] != '+' ==> signed_read == read,
        text@.len() > 0 && text@[0] == '+' ==> signed_read is None,
{
    assert(signed@.skip(1) =~= text@);
    if text@.len() > 0 && text@[0] == '+' {
        assert(!is_digit(text@[0]));
        assert(unsigned_digits(signed@)[0] == '+');
    }
}

/// The texts of a list are those of its strings, one by one.
pub proof fn law_texts_of_a_list(list: Seq<String>, i: int)
    requires
        0 <= i < list.len(),
    ensures
        texts(list).len() == list.len(),
        texts(list)[i] == list[i]@,
{
}

} // verus!
