//! Encodings, digests and random bytes, as the crates that provide them document them.

use base64::Engine;
use rand::RngCore;
use sha2::Digest;
use vstd::prelude::*;
use vstd::utf8::{decode_utf8, encode_utf8, valid_utf8};

verus! {

/// The characters of the URL-safe alphabet of base64.
pub open spec fn is_url_safe(c: char) -> bool {
    ||| 'A' <= c <= 'Z'
    ||| 'a' <= c <= 'z'
    ||| '0' <= c <= '9'
    ||| c == '-'
    ||| c == '_'
}

/// The length of the unpadded base64 encoding of so many bytes.
pub open spec fn base64_length(bytes: nat) -> nat {
    bytes / 3 * 4 + if bytes % 3 == 0 {
        0nat
    } else {
        bytes % 3 + 1
    }
}

/// The encoding of bytes by the `URL_SAFE_NO_PAD` engine of the `base64` crate.
pub uninterp spec fn base64url(bytes: Seq<u8>) -> Seq<char>;

/// The bytes that the `URL_SAFE_NO_PAD` engine of the `base64` crate decodes a text to, where
/// it accepts the text.
pub uninterp spec fn base64url_decoded(text: Seq<char>) -> Option<Seq<u8>>;

/// Calls `Engine::encode` of the `base64` crate with the engine `URL_SAFE_NO_PAD`; claims that
/// the result depends on the bytes alone, that it has the length of an unpadded encoding, that
/// it is made of the URL-safe alphabet, and that decoding it gives the bytes back.
#[verifier::external_body]
pub(crate) fn encode_base64url(bytes: &Vec<u8>) -> (result: String)
    requires
        bytes@.len() <= usize::MAX / 4,
    ensures
        result@ == base64url(bytes@),
        result@.len() == base64_length(bytes@.len()),
        forall|i: int| 0 <= i < result@.len() ==> is_url_safe(#[trigger] result@[i]),
        base64url_decoded(result@) == Some(bytes@),
{
    base64::engine::general_purpose::URL_SAFE_NO_PAD.encode(bytes)
}

/// Calls `Engine::decode` of the `base64` crate with the engine `URL_SAFE_NO_PAD`; claims that
/// the result depends on the text alone.
#[verifier::external_body]
pub(crate) fn decode_base64url(text: &str) -> (result: Option<Vec<u8>>)
    ensures
        match result {
            Some(bytes) => base64url_decoded(text@) == Some(bytes@),
            None => base64url_decoded(text@) is None,
        },
{
    base64::engine::general_purpose::URL_SAFE_NO_PAD.decode(text).ok()
}

/// The SHA-256 digest of bytes, as the `sha2` crate computes it.
pub uninterp spec fn sha256(bytes: Seq<u8>) -> Seq<u8>;

/// Calls `sha2::Sha256::digest`; claims that the result depends on the bytes alone and is 32
/// bytes long.
#[verifier::external_body]
pub(crate) fn digest_sha256(bytes: &[u8]) -> (result: Vec<u8>)
    ensures
        result@ == sha256(bytes@),
        result@.len() == 32,
{
    sha2::Sha256::digest(bytes).to_vec()
}

/// Calls `RngCore::fill_bytes` of the `rand` crate on the generator of the thread; claims only
/// how many bytes there are.
#[verifier::external_body]
fn random_bytes(count: usize) -> (result: Vec<u8>)
    requires
        count <= usize::MAX / 4,
    ensures
        result@.len() == count,
{
    let mut bytes = vec![0u8; count];
    rand::thread_rng().fill_bytes(&mut bytes);
    bytes
}

/// Tells whether bytes are some that the generator has drawn: nothing but drawing shows that.
pub closed spec fn is_drawn(count: usize, bytes: Seq<u8>) -> bool {
    exists|drawn: Vec<u8>| #[trigger] call_ensures(random_bytes, (count,), drawn) && drawn@ == bytes
}

/// Draws random bytes.
pub(crate) fn draw_bytes(count: usize) -> (result: Vec<u8>)
    requires
        count <= usize::MAX / 4,
    ensures
        result@.len() == count,
        is_drawn(count, result@),
{
    let drawn = random_bytes(count);
    assert(call_ensures(random_bytes, (count,), drawn));
    drawn
}

/// The hexadecimal digit of a number below sixteen.
pub open spec fn hex_digit(n: int) -> char {
    if n < 10 {
        (48 + n) as char
    } else {
        (55 + n) as char
    }
}

/// A byte in the `application/x-www-form-urlencoded` syntax.
pub open spec fn form_byte(byte: u8) -> Seq<char> {
    let c = byte as char;
    if is_url_safe(c) || c == '*' || c == '.' {
        seq![c]
    } else if c == ' ' {
        seq!['+']
    } else {
        seq!['%', hex_digit(byte as int / 16), hex_digit(byte as int % 16)]
    }
}

/// Bytes in the `application/x-www-form-urlencoded` syntax.
pub open spec fn form_bytes(bytes: Seq<u8>) -> Seq<char>
    decreases bytes.len(),
{
    if bytes.len() == 0 {
        Seq::empty()
    } else {
        form_bytes(bytes.drop_last()) + form_byte(bytes.last())
    }
}

/// Names and values in the `application/x-www-form-urlencoded` syntax.
pub open spec fn form_encoded(pairs: Seq<(Seq<char>, Seq<char>)>) -> Seq<char>
    decreases pairs.len(),
{
    if pairs.len() == 0 {
        Seq::empty()
    } else {
        let (name, value) = pairs.last();
        let pair = form_bytes(encode_utf8(name)) + seq!['='] + form_bytes(encode_utf8(value));
        if pairs.len() == 1 {
            pair
        } else {
            form_encoded(pairs.drop_last()) + seq!['&'] + pair
        }
    }
}

/// The texts of a list of names and values.
pub open spec fn pair_texts(pairs: Seq<(String, String)>) -> Seq<(Seq<char>, Seq<char>)> {
    Seq::new(pairs.len(), |i: int| (pairs[i].0@, pairs[i].1@))
}

/// Calls `extend_pairs` and `finish` of `url::form_urlencoded::Serializer`; claims that the
/// result is the names and the values, joined by `=` and `&`, with every byte outside the
/// letters, the digits and `*-._` written as `+` for a space and as a percent sign and two
/// hexadecimal digits else.
#[verifier::external_body]
pub(crate) fn encode_form(pairs: &Vec<(String, String)>) -> (result: String)
    ensures
        result@ == form_encoded(pair_texts(pairs@)),
{
    url::form_urlencoded::Serializer::new(String::new()).extend_pairs(pairs).finish()
}

pub open spec fn is_small_letter(c: char) -> bool {
    'a' <= c <= 'z'
}

/// A host name made of small letters, in parts with a dot between them.
pub open spec fn is_plain_host(host: Seq<char>) -> bool {
    &&& 0 < host.len() < 256
    &&& is_small_letter(host[0])
    &&& is_small_letter(host.last())
    &&& forall|i: int|
        0 <= i < host.len() ==> is_small_letter(#[trigger] host[i]) || (host[i] == '.'
            && is_small_letter(host[i + 1]))
}

/// A path made of small letters and slashes.
pub open spec fn is_plain_path(path: Seq<char>) -> bool {
    &&& path.len() < 256
    &&& forall|i: int|
        0 <= i < path.len() ==> is_small_letter(#[trigger] path[i]) || path[i] == '/'
}

/// The address of a page of a host.
pub open spec fn page_address(host: Seq<char>, path: Seq<char>) -> Seq<char> {
    "https://"@ + host + "/"@ + path
}

/// Tells whether an address is that of a page with a plain host and a plain path.
pub open spec fn is_plain_address(address: Seq<char>) -> bool {
    exists|host: Seq<char>, path: Seq<char>|
        is_plain_host(host) && is_plain_path(path) && address == #[trigger] page_address(host, path)
}

/// Calls `url::Url::parse` and `extend_pairs` on its `query_pairs_mut`; claims that a plain
/// address is kept as it is, and that the query put behind it is what `form_encoded` says.
#[verifier::external_body]
pub(crate) fn with_query(address: &str, pairs: &Vec<(String, String)>) -> (result: String)
    requires
        is_plain_address(address@),
    ensures
        result@ == address@ + "?"@ + form_encoded(pair_texts(pairs@)),
{
    let mut url = url::Url::parse(address).expect("a plain address parses");
    url.query_pairs_mut().extend_pairs(pairs);
    url.to_string()
}

/// What `url::Url::parse` and `Url::query_pairs` find in a URL: the names and the values of its
/// query, or the description of what is wrong with it.
pub uninterp spec fn url_query(url: Seq<char>) -> Result<Seq<(Seq<char>, Seq<char>)>, Seq<char>>;

/// Calls `url::Url::parse` and `Url::query_pairs`; claims that the result depends on the text
/// alone.
#[verifier::external_body]
pub(crate) fn parse_url_query(url: &str) -> (result: Result<Vec<(String, String)>, String>)
    ensures
        match result {
            Ok(pairs) => url_query(url@) == Ok::<Seq<(Seq<char>, Seq<char>)>, Seq<char>>(
                pair_texts(pairs@),
            ),
            Err(reason) => url_query(url@) == Err::<Seq<(Seq<char>, Seq<char>)>, Seq<char>>(
                reason@,
            ),
        },
{
    match url::Url::parse(url) {
        Ok(parsed) => Ok(parsed.query_pairs().into_owned().collect()),
        Err(error) => Err(error.to_string()),
    }
}

/// The text that `String::from_utf8_lossy` reads from bytes.
pub uninterp spec fn lossy_text(bytes: Seq<u8>) -> Seq<char>;

/// Calls `String::from_utf8_lossy`; claims that the text depends on the bytes alone, and that
/// bytes which encode a text in UTF-8 give that text.
#[verifier::external_body]
pub(crate) fn decode_lossy(bytes: &[u8]) -> (result: String)
    ensures
        result@ == lossy_text(bytes@),
        valid_utf8(bytes@) ==> result@ == decode_utf8(bytes@),
{
    String::from_utf8_lossy(bytes).into_owned()
}

} // verus!
