//! Operations on text, specified over sequences of characters.

use vstd::prelude::*;

verus! {

/// `String::push` puts one character behind the text.
pub assume_specification[ String::push ](s: &mut String, c: char)
    ensures
        final(s)@ == old(s)@.push(c),
;

/// The texts of a list of strings.
pub open spec fn texts(list: Seq<String>) -> Seq<Seq<char>> {
    Seq::new(list.len(), |i: int| list[i]@)
}

/// The text of an optional string.
pub open spec fn optional_text(text: Option<String>) -> Option<Seq<char>> {
    match text {
        Some(s) => Some(s@),
        None => None,
    }
}

/// The position of the first `c` in `text`, or the length of `text` where there is none.
pub open spec fn position(text: Seq<char>, c: char) -> int
    decreases text.len(),
{
    if text.len() == 0 || text[0] == c {
        0
    } else {
        1 + position(text.drop_first(), c)
    }
}

pub proof fn lemma_position(text: Seq<char>, c: char)
    ensures
        0 <= position(text, c) <= text.len(),
        position(text, c) < text.len() ==> text[position(text, c)] == c,
        forall|i: int| 0 <= i < position(text, c) ==> text[i] != c,
    decreases text.len(),
{
    if text.len() != 0 && text[0] != c {
        let rest = text.drop_first();
        lemma_position(rest, c);
        assert forall|i: int| 0 <= i < position(text, c) implies text[i] != c by {
            if i > 0 {
                assert(rest[i - 1] == text[i]);
            }
        }
    }
}

/// A position before which there is no `c`, and at which there is one, is the first one.
pub proof fn lemma_position_unique(text: Seq<char>, c: char, at: int)
    requires
        0 <= at <= text.len(),
        forall|i: int| 0 <= i < at ==> text[i] != c,
        at < text.len() ==> text[at] == c,
    ensures
        position(text, c) == at,
{
    lemma_position(text, c);
    let p = position(text, c);
    if p < at {
        assert(text[p] != c);
    }
}

/// A line without the carriage return at its end, where it has one.
pub open spec fn without_carriage_return(line: Seq<char>) -> Seq<char> {
    if line.len() > 0 && line.last() == '\r' {
        line.drop_last()
    } else {
        line
    }
}

/// The lines of a text. A line ends with a line feed, or with a carriage return and a line
/// feed; the last line may lack that ending.
pub open spec fn lines(text: Seq<char>) -> Seq<Seq<char>>
    decreases text.len(),
    via lines_decreases
{
    let at = position(text, '\n');
    if text.len() == 0 {
        Seq::empty()
    } else if at < text.len() {
        seq![without_carriage_return(text.take(at))] + lines(text.skip(at + 1))
    } else {
        seq![text]
    }
}

#[via_fn]
proof fn lines_decreases(text: Seq<char>) {
    lemma_position(text, '\n');
}

proof fn lemma_lines_step(done: Seq<char>, rest: Seq<char>)
    requires
        forall|i: int| 0 <= i < done.len() ==> done[i] != '\n',
    ensures
        lines(done + seq!['\n'] + rest) == seq![without_carriage_return(done)] + lines(rest),
{
    let text = done + seq!['\n'] + rest;
    assert(text[done.len() as int] == '\n');
    lemma_position_unique(text, '\n', done.len() as int);
    assert(text.take(done.len() as int) =~= done);
    assert(text.skip(done.len() as int + 1) =~= rest);
}

fn trim_carriage_return(line: String) -> (result: String)
    ensures
        result@ == without_carriage_return(line@),
{
    let length = line.as_str().unicode_len();
    if length > 0 && line.as_str().get_char(length - 1) == '\r' {
        line.as_str().substring_char(0, length - 1).to_owned()
    } else {
        line
    }
}

/// Splits a text into its lines.
pub fn split_lines(text: &str) -> (result: Vec<String>)
    ensures
        texts(result@) == lines(text@),
{
    let mut result: Vec<String> = Vec::new();
    let mut line = String::new();
    proof {
        assert(line@ + text@.skip(0) =~= text@);
        assert(texts(result@) + lines(text@) =~= lines(text@));
    }
    for c in it: text.chars()
        invariant
            it.seq() == text@,
            forall|i: int| 0 <= i < line@.len() ==> line@[i] != '\n',
            texts(result@) + lines(line@ + text@.skip(it.index() as int)) == lines(text@),
    {
        let ghost i = it.index() as int;
        let ghost before = line@;
        let ghost rest = text@.skip(i + 1);
        assert(text@.skip(i) =~= seq![c] + rest);
        if c == '\n' {
            proof {
                assert(before + text@.skip(i) =~= before + seq!['\n'] + rest);
                lemma_lines_step(before, rest);
            }
            let ghost list = result@;
            result.push(trim_carriage_return(line));
            line = String::new();
            proof {
                assert(texts(result@) =~= texts(list).push(without_carriage_return(before)));
                assert(texts(result@) + lines(rest) =~= texts(list) + (seq![
                    without_carriage_return(before),
                ] + lines(rest)));
                assert(line@ + rest =~= rest);
            }
        } else {
            line.push(c);
            assert(before + text@.skip(i) =~= line@ + rest);
        }
    }
    proof {
        assert(line@ + text@.skip(text@.len() as int) =~= line@);
        lemma_position_unique(line@, '\n', line@.len() as int);
    }
    if !line.as_str().is_empty() {
        let ghost list = result@;
        let ghost last = line@;
        result.push(line);
        proof {
            assert(texts(result@) =~= texts(list) + seq![last]);
        }
    } else {
        assert(texts(result@) + lines(line@) =~= texts(result@));
    }
    result
}

/// Tells whether two texts are the same.
pub fn same_text(a: &str, b: &str) -> (result: bool)
    ensures
        result == (a@ == b@),
{
    let left = a.as_bytes();
    let right = b.as_bytes();
    proof {
        vstd::utf8::encode_utf8_decode_utf8(a@);
        vstd::utf8::encode_utf8_decode_utf8(b@);
    }
    if left.len() != right.len() {
        return false;
    }
    let mut i: usize = 0;
    while i < left.len()
        invariant
            left@ == vstd::utf8::encode_utf8(a@),
            right@ == vstd::utf8::encode_utf8(b@),
            left@.len() == right@.len(),
            i <= left@.len(),
            forall|j: int| 0 <= j < i ==> left@[j] == right@[j],
        decreases left@.len() - i,
    {
        if left[i] != right[i] {
            return false;
        }
        i += 1;
    }
    assert(left@ =~= right@);
    true
}

/// The text behind `prefix`, where `text` starts with it.
pub open spec fn after_prefix(text: Seq<char>, prefix: Seq<char>) -> Option<Seq<char>> {
    if prefix.is_prefix_of(text) {
        Some(text.skip(prefix.len() as int))
    } else {
        None
    }
}

/// Takes a prefix off a text.
pub fn strip_prefix(text: &str, prefix: &str) -> (result: Option<String>)
    ensures
        optional_text(result) == after_prefix(text@, prefix@),
{
    let length = text.unicode_len();
    let prefix_length = prefix.unicode_len();
    if length < prefix_length {
        return None;
    }
    let start = text.substring_char(0, prefix_length);
    if same_text(start, prefix) {
        let rest = text.substring_char(prefix_length, length).to_owned();
        assert(rest@ =~= text@.skip(prefix@.len() as int));
        Some(rest)
    } else {
        None
    }
}

/// Tells whether a text starts with another one.
pub fn starts_with(text: &str, prefix: &str) -> (result: bool)
    ensures
        result == prefix@.is_prefix_of(text@),
{
    let prefix_length = prefix.unicode_len();
    if text.unicode_len() < prefix_length {
        return false;
    }
    same_text(text.substring_char(0, prefix_length), prefix)
}

/// Tells whether a text ends with another one.
pub fn ends_with(text: &str, suffix: &str) -> (result: bool)
    ensures
        result == suffix@.is_suffix_of(text@),
{
    let length = text.unicode_len();
    let suffix_length = suffix.unicode_len();
    if length < suffix_length {
        return false;
    }
    same_text(text.substring_char(length - suffix_length, length), suffix)
}

/// Tells whether `needle` stands in `text` at the position `at`.
pub open spec fn occurs_at(text: Seq<char>, needle: Seq<char>, at: int) -> bool {
    0 <= at && at + needle.len() <= text.len() && text.subrange(at, at + needle.len()) == needle
}

/// Tells whether `needle` stands somewhere in `text`.
pub open spec fn contains(text: Seq<char>, needle: Seq<char>) -> bool {
    exists|at: int| occurs_at(text, needle, at)
}

/// The first position, not before `from`, at which `needle` stands in `text`.
pub open spec fn find_from(text: Seq<char>, needle: Seq<char>, from: int) -> Option<int>
    decreases text.len() + 1 - from,
{
    if from + needle.len() > text.len() {
        None
    } else if occurs_at(text, needle, from) {
        Some(from)
    } else {
        find_from(text, needle, from + 1)
    }
}

pub proof fn lemma_find_from(text: Seq<char>, needle: Seq<char>, from: int)
    requires
        0 <= from,
    ensures
        match find_from(text, needle, from) {
            Some(at) => {
                &&& from <= at
                &&& occurs_at(text, needle, at)
                &&& forall|i: int| from <= i < at ==> !occurs_at(text, needle, i)
            },
            None => forall|i: int| from <= i ==> !occurs_at(text, needle, i),
        },
    decreases text.len() + 1 - from,
{
    if from + needle.len() <= text.len() && !occurs_at(text, needle, from) {
        lemma_find_from(text, needle, from + 1);
    }
}

/// Tells whether `needle` stands in `chars` at the position `at`.
fn matches_at(chars: &Vec<char>, needle: &Vec<char>, at: usize) -> (result: bool)
    requires
        at + needle.len() <= chars.len(),
    ensures
        result == occurs_at(chars@, needle@, at as int),
{
    let mut i: usize = 0;
    while i < needle.len()
        invariant
            at + needle.len() <= chars.len(),
            i <= needle@.len(),
            forall|j: int| 0 <= j < i ==> chars@[at + j] == needle@[j],
        decreases needle@.len() - i,
    {
        if chars[at + i] != needle[i] {
            assert(chars@.subrange(at as int, at + needle@.len())[i as int] != needle@[i as int]);
            return false;
        }
        i += 1;
    }
    assert(chars@.subrange(at as int, at + needle@.len()) =~= needle@);
    true
}

/// Finds the first place at which `needle` stands in `chars`.
pub fn find(chars: &Vec<char>, needle: &Vec<char>) -> (result: Option<usize>)
    ensures
        match result {
            Some(at) => find_from(chars@, needle@, 0) == Some(at as int),
            None => find_from(chars@, needle@, 0) is None,
        },
{
    if chars.len() < needle.len() {
        return None;
    }
    let last = chars.len() - needle.len();
    let mut at: usize = 0;
    loop
        invariant
            last == chars@.len() - needle@.len(),
            at <= last,
            find_from(chars@, needle@, 0) == find_from(chars@, needle@, at as int),
        decreases last - at,
    {
        if matches_at(chars, needle, at) {
            return Some(at);
        }
        if at == last {
            assert(find_from(chars@, needle@, at + 1) is None);
            return None;
        }
        at += 1;
    }
}

/// Tells whether a text holds another one.
pub fn has_text(text: &str, needle: &str) -> (result: bool)
    ensures
        result == contains(text@, needle@),
{
    proof {
        lemma_find_from(text@, needle@, 0);
    }
    find(&char_list(text), &char_list(needle)).is_some()
}

/// Texts put behind each other with a separator between them.
pub open spec fn joined(parts: Seq<Seq<char>>, separator: Seq<char>) -> Seq<char>
    decreases parts.len(),
{
    if parts.len() == 0 {
        Seq::empty()
    } else if parts.len() == 1 {
        parts[0]
    } else {
        joined(parts.drop_last(), separator) + separator + parts.last()
    }
}

/// Puts texts behind each other with a separator between them.
pub fn join(parts: &Vec<String>, separator: &str) -> (result: String)
    ensures
        result@ == joined(texts(parts@), separator@),
{
    let mut result = String::new();
    let mut i: usize = 0;
    while i < parts.len()
        invariant
            i <= parts@.len(),
            result@ == joined(texts(parts@).take(i as int), separator@),
        decreases parts@.len() - i,
    {
        let ghost all = texts(parts@);
        if i > 0 {
            result.append(separator);
        }
        result.append(parts[i].as_str());
        assert(all.take(i + 1).drop_last() =~= all.take(i as int));
        if i == 0 {
            assert(result@ =~= all[0]);
        }
        i += 1;
    }
    assert(texts(parts@).take(parts@.len() as int) =~= texts(parts@));
    result
}

/// The decimal digit of a number below ten.
pub open spec fn digit(n: nat) -> char {
    (48 + n) as char
}

/// A number in decimal notation.
pub open spec fn decimal(n: nat) -> Seq<char>
    decreases n,
{
    if n < 10 {
        seq![digit(n)]
    } else {
        decimal(n / 10).push(digit(n % 10))
    }
}

/// Writes a number in decimal notation.
pub fn decimal_text(n: u64) -> (result: String)
    ensures
        result@ == decimal(n as nat),
    decreases n,
{
    let mut result = if n < 10 {
        String::new()
    } else {
        decimal_text(n / 10)
    };
    let d: u8 = 48 + (n % 10) as u8;
    result.push(d as char);
    if n < 10 {
        assert(result@ =~= decimal(n as nat));
    }
    result
}

/// Tells whether a character is a decimal digit.
pub open spec fn is_digit(c: char) -> bool {
    '0' <= c && c <= '9'
}

/// The number that a row of digits stands for.
pub open spec fn digits_value(digits: Seq<char>) -> nat
    decreases digits.len(),
{
    if digits.len() == 0 {
        0
    } else {
        (digits_value(digits.drop_last()) * 10 + (digits.last() as int - 48)) as nat
    }
}

/// The digits of an unsigned number: what stands behind a plus sign, where there is one.
pub open spec fn unsigned_digits(text: Seq<char>) -> Seq<char> {
    if text.len() > 0 && text[0] == '+' {
        text.skip(1)
    } else {
        text
    }
}

/// The unsigned number, not above `max`, that a text denotes: digits, with or without a plus
/// sign in front.
pub open spec fn unsigned_number(text: Seq<char>, max: nat) -> Option<nat> {
    let digits = unsigned_digits(text);
    if digits.len() > 0 && (forall|i: int| 0 <= i < digits.len() ==> is_digit(#[trigger] digits[i]))
        && digits_value(digits) <= max {
        Some(digits_value(digits))
    } else {
        None
    }
}

proof fn lemma_digits_value_monotonic(digits: Seq<char>, length: int)
    requires
        0 <= length <= digits.len(),
        forall|i: int| 0 <= i < digits.len() ==> is_digit(#[trigger] digits[i]),
    ensures
        digits_value(digits.take(length)) <= digits_value(digits),
    decreases digits.len(),
{
    if length == digits.len() {
        assert(digits.take(length) =~= digits);
    } else {
        let shorter = digits.drop_last();
        lemma_digits_value_monotonic(shorter, length);
        assert(shorter.take(length) =~= digits.take(length));
        assert(is_digit(digits[digits.len() - 1]));
    }
}

/// Reads an unsigned number not above `max`.
pub fn parse_unsigned(text: &str, max: u64) -> (result: Option<u64>)
    ensures
        match result {
            Some(n) => unsigned_number(text@, max as nat) == Some(n as nat),
            None => unsigned_number(text@, max as nat) is None,
        },
{
    let chars = char_list(text);
    let start: usize = if chars.len() > 0 && chars[0] == '+' {
        1
    } else {
        0
    };
    let ghost digits = unsigned_digits(text@);
    assert(digits =~= text@.skip(start as int));
    if start == chars.len() {
        return None;
    }
    let mut value: u64 = 0;
    let mut i: usize = start;
    while i < chars.len()
        invariant
            chars@ == text@,
            digits == unsigned_digits(text@),
            digits == text@.skip(start as int),
            start <= i <= chars@.len(),
            forall|j: int| 0 <= j < i - start ==> is_digit(#[trigger] digits[j]),
            value == digits_value(digits.take(i - start)),
            value <= max,
        decreases chars@.len() - i,
    {
        let c = chars[i];
        assert(digits[i - start] == c);
        if c < '0' || c > '9' {
            return None;
        }
        let d: u64 = (c as u32 - 48) as u64;
        assert(digits.take(i + 1 - start).drop_last() =~= digits.take(i - start));
        let ghost next = digits_value(digits.take(i + 1 - start));
        assert(next == value * 10 + d);
        if value > max / 10 || d > max || value * 10 > max - d {
            proof {
                if forall|j: int| 0 <= j < digits.len() ==> is_digit(#[trigger] digits[j]) {
                    lemma_digits_value_monotonic(digits, i + 1 - start);
                }
            }
            return None;
        }
        value = value * 10 + d;
        i += 1;
    }
    assert(digits.take(digits.len() as int) =~= digits);
    Some(value)
}

/// The characters of a text.
pub fn char_list(text: &str) -> (result: Vec<char>)
    ensures
        result@ == text@,
{
    let mut result: Vec<char> = Vec::new();
    for c in it: text.chars()
        invariant
            it.seq() == text@,
            result@ == text@.take(it.index() as int),
    {
        result.push(c);
        assert(result@ =~= text@.take(it.index() as int + 1));
    }
    assert(text@.take(text@.len() as int) =~= text@);
    result
}

/// The text of a part of a list of characters.
pub fn text_between(chars: &Vec<char>, from: usize, to: usize) -> (result: String)
    requires
        from <= to <= chars@.len(),
    ensures
        result@ == chars@.subrange(from as int, to as int),
{
    let mut result = String::new();
    let mut i: usize = from;
    while i < to
        invariant
            from <= i <= to <= chars@.len(),
            result@ == chars@.subrange(from as int, i as int),
        decreases to - i,
    {
        result.push(chars[i]);
        i += 1;
        assert(result@ =~= chars@.subrange(from as int, i as int));
    }
    result
}

/// Tells whether a character is white space, as Unicode defines that property.
pub open spec fn is_white_space(c: char) -> bool {
    ||| '\u{9}' <= c <= '\u{d}'
    ||| c == ' '
    ||| c == '\u{85}'
    ||| c == '\u{a0}'
    ||| c == '\u{1680}'
    ||| '\u{2000}' <= c <= '\u{200a}'
    ||| c == '\u{2028}'
    ||| c == '\u{2029}'
    ||| c == '\u{202f}'
    ||| c == '\u{205f}'
    ||| c == '\u{3000}'
}

/// Tells whether a character is white space.
pub fn white_space(c: char) -> (result: bool)
    ensures
        result == is_white_space(c),
{
    ('\u{9}' <= c && c <= '\u{d}') || c == ' ' || c == '\u{85}' || c == '\u{a0}' || c == '\u{1680}'
        || ('\u{2000}' <= c && c <= '\u{200a}') || c == '\u{2028}' || c == '\u{2029}' || c
        == '\u{202f}' || c == '\u{205f}' || c == '\u{3000}'
}

/// How many characters at the start of a text are white space, or are not, as `white` says.
pub open spec fn span(text: Seq<char>, white: bool) -> int
    decreases text.len(),
{
    if text.len() == 0 || is_white_space(text[0]) != white {
        0
    } else {
        1 + span(text.drop_first(), white)
    }
}

/// The words of a text: its longest runs of characters that are not white space.
pub open spec fn words(text: Seq<char>) -> Seq<Seq<char>>
    decreases text.len(),
    via words_decreases
{
    let rest = text.skip(span(text, true));
    if rest.len() == 0 {
        Seq::empty()
    } else {
        seq![rest.take(span(rest, false))] + words(rest.skip(span(rest, false)))
    }
}

proof fn lemma_span(text: Seq<char>, white: bool)
    ensures
        0 <= span(text, white) <= text.len(),
        span(text, white) < text.len() ==> is_white_space(text[span(text, white)]) != white,
    decreases text.len(),
{
    if text.len() != 0 && is_white_space(text[0]) == white {
        lemma_span(text.drop_first(), white);
    }
}

#[via_fn]
proof fn words_decreases(text: Seq<char>) {
    lemma_span(text, true);
    let rest = text.skip(span(text, true));
    lemma_span(rest, false);
    if rest.len() > 0 {
        assert(rest[0] == text[span(text, true)]);
        assert(span(rest, false) > 0) by {
            lemma_span(rest.drop_first(), false);
        }
    }
}

/// The end of the run of characters that starts at `from`.
fn span_end(chars: &Vec<char>, from: usize, white: bool) -> (result: usize)
    requires
        from <= chars.len(),
    ensures
        from <= result <= chars.len(),
        result == from + span(chars@.skip(from as int), white),
{
    let mut i: usize = from;
    while i < chars.len() && white_space(chars[i]) == white
        invariant
            from <= i <= chars.len(),
            from + span(chars@.skip(from as int), white) == i + span(chars@.skip(i as int), white),
        decreases chars.len() - i,
    {
        assert(chars@.skip(i as int).drop_first() =~= chars@.skip(i + 1));
        i += 1;
    }
    i
}

/// Finds the second word of a text.
pub fn second_word(text: &str) -> (result: Option<String>)
    ensures
        optional_text(result) == (if words(text@).len() > 1 {
            Some(words(text@)[1])
        } else {
            None
        }),
{
    let chars = char_list(text);
    let first = span_end(&chars, 0, true);
    assert(chars@.skip(0) =~= text@);
    if first == chars.len() {
        return None;
    }
    let first_end = span_end(&chars, first, false);
    let second = span_end(&chars, first_end, true);
    let ghost rest = text@.skip(first as int);
    let ghost tail = text@.skip(first_end as int);
    proof {
        assert(rest.skip(span(rest, false)) =~= tail);
        assert(tail.skip(span(tail, true)) =~= text@.skip(second as int));
        assert(words(text@) == seq![rest.take(span(rest, false))] + words(tail));
    }
    if second == chars.len() {
        return None;
    }
    let second_end = span_end(&chars, second, false);
    let ghost last = text@.skip(second as int);
    let word = text_between(&chars, second, second_end);
    assert(last.take(span(last, false)) =~= word@);
    Some(word)
}

/// The part of a text between the first and the second `c` in it, or behind the only one.
pub open spec fn second_segment(text: Seq<char>, c: char) -> Option<Seq<char>> {
    let at = position(text, c);
    if at < text.len() {
        let rest = text.skip(at + 1);
        Some(rest.take(position(rest, c)))
    } else {
        None
    }
}

/// The first place of `c` from `from` on, or the length of the list.
fn char_position(chars: &Vec<char>, c: char, from: usize) -> (result: usize)
    requires
        from <= chars.len(),
    ensures
        from <= result <= chars.len(),
        result == from + position(chars@.skip(from as int), c),
{
    let mut i: usize = from;
    while i < chars.len() && chars[i] != c
        invariant
            from <= i <= chars.len(),
            from + position(chars@.skip(from as int), c) == i + position(chars@.skip(i as int), c),
        decreases chars.len() - i,
    {
        assert(chars@.skip(i as int).drop_first() =~= chars@.skip(i + 1));
        i += 1;
    }
    i
}

/// Finds the part of a text between the first and the second `c` in it.
pub fn split_second(text: &str, c: char) -> (result: Option<String>)
    ensures
        optional_text(result) == second_segment(text@, c),
{
    let chars = char_list(text);
    assert(chars@.skip(0) =~= text@);
    let at = char_position(&chars, c, 0);
    if at == chars.len() {
        return None;
    }
    let end = char_position(&chars, c, at + 1);
    let segment = text_between(&chars, at + 1, end);
    let ghost rest = text@.skip(at + 1);
    assert(segment@ =~= rest.take(position(rest, c)));
    Some(segment)
}

/// A number that is written in decimal notation is read back as it was.
pub proof fn law_written_number_is_read_back(n: nat, max: nat)
    requires
        n <= max,
    ensures
        unsigned_number(decimal(n), max) == Some(n),
{
    lemma_decimal(n);
    assert(is_digit(decimal(n)[0]));
}

proof fn lemma_decimal(n: nat)
    ensures
        decimal(n).len() > 0,
        forall|i: int| 0 <= i < decimal(n).len() ==> is_digit(#[trigger] decimal(n)[i]),
        digits_value(decimal(n)) == n,
    decreases n,
{
    if n < 10 {
        assert(decimal(n).drop_last() =~= Seq::<char>::empty());
        assert(digits_value(Seq::<char>::empty()) == 0);
    } else {
        let before = decimal(n / 10);
        lemma_decimal(n / 10);
        assert(decimal(n).drop_last() =~= before);
        assert forall|i: int| 0 <= i < decimal(n).len() implies is_digit(
            #[trigger] decimal(n)[i],
        ) by {
            if i < before.len() {
                assert(decimal(n)[i] == before[i]);
            }
        }
    }
}

} // verus!
