//! Rewriting of request URIs: percent-decoding and lower-casing.

use vstd::prelude::*;
use vstd::utf8::*;
use crate::text::{ascii_lowercased, has_no_uppercase, lowercased, to_lowercase};

verus! {

/// Declares `http::Uri`. Nothing is said of its fields.
#[verifier::external_type_specification]
#[verifier::external_body]
pub struct ExUri(http::Uri);

/// The text of a URI.
pub uninterp spec fn uri_text(uri: http::Uri) -> Seq<char>;

/// The path and query of a URI as text. A URI that is only an authority has none.
pub uninterp spec fn uri_path_and_query(uri: http::Uri) -> Option<Seq<char>>;

/// The URI that a text is parsed to, or the text of the error if it is not a URI.
pub uninterp spec fn parsed_uri(text: Seq<char>) -> Result<http::Uri, Seq<char>>;

/// One text stands within another.
pub open spec fn stands_in(part: Seq<char>, whole: Seq<char>) -> bool {
    exists|from: int, to: int|
        0 <= from <= to <= whole.len() && part == #[trigger] whole.subrange(from, to)
}

/// Calls the `to_string` of `http::Uri`.
#[verifier::external_body]
fn text_of(uri: &http::Uri) -> (r: String)
    ensures
        r@ == uri_text(*uri),
{
    uri.to_string()
}

/// Calls `http::Uri::path_and_query` and takes its text.
#[verifier::external_body]
fn path_and_query_of(uri: &http::Uri) -> (r: Option<&str>)
    ensures
        match r {
            Some(text) => uri_path_and_query(*uri) == Some(text@),
            None => uri_path_and_query(*uri) is None,
        },
{
    uri.path_and_query().map(http::uri::PathAndQuery::as_str)
}

/// Calls the `parse` of `str` for `http::Uri`: the URI, or the error written as text.
/// The path and query of the URI stand in the text as they are, except that a URI which
/// has none there gets a slash. The empty text is not a URI; which other texts are is
/// left unsaid.
#[verifier::external_body]
fn parse(text: &str) -> (r: Result<http::Uri, String>)
    ensures
        match r {
            Ok(uri) => parsed_uri(text@) == Ok::<http::Uri, Seq<char>>(uri),
            Err(error) => parsed_uri(text@) == Err::<http::Uri, Seq<char>>(error@),
        },
        r matches Ok(uri) ==> (uri_path_and_query(uri) matches Some(part) ==> part == "/"@
            || stands_in(part, text@)),
        text@.len() == 0 ==> r is Err,
{
    text.parse().map_err(|e: http::uri::InvalidUri| e.to_string())
}

/// Calls the `clone` of `http::Uri`: an equal URI.
#[verifier::external_body]
fn clone_uri(uri: &http::Uri) -> (r: http::Uri)
    ensures
        r == *uri,
{
    uri.clone()
}

/// Calls `percent_encoding::percent_decode_str` and the `decode_utf8` of its result:
/// the text whose bytes are the decoded bytes, if these are well-formed UTF-8.
#[verifier::external_body]
fn percent_decode(text: &str) -> (r: Option<String>)
    ensures
        match r {
            Some(decoded) => encode_utf8(decoded@) == percent_decoded(encode_utf8(text@)),
            None => !valid_utf8(percent_decoded(encode_utf8(text@))),
        },
{
    percent_encoding::percent_decode_str(text).decode_utf8().ok().map(|s| s.into_owned())
}

/// The value of a hexadecimal digit, in either case.
pub open spec fn hex_value(b: u8) -> Option<int> {
    if 0x30 <= b <= 0x39 {
        Some(b - 0x30)
    } else if 0x41 <= b <= 0x46 {
        Some(b - 0x41 + 10)
    } else if 0x61 <= b <= 0x66 {
        Some(b - 0x61 + 10)
    } else {
        None
    }
}

/// The bytes start with a percent sign and two hexadecimal digits.
pub open spec fn starts_with_escape(bytes: Seq<u8>) -> bool {
    bytes.len() >= 3 && bytes[0] == 0x25 && hex_value(bytes[1]) is Some && hex_value(
        bytes[2],
    ) is Some
}

/// Each percent sign with two hexadecimal digits replaced by the byte that the digits
/// give, from the left. Anything else stays.
pub open spec fn percent_decoded(bytes: Seq<u8>) -> Seq<u8>
    decreases bytes.len(),
{
    if bytes.len() == 0 {
        Seq::empty()
    } else if starts_with_escape(bytes) {
        seq![(hex_value(bytes[1])->0 * 16 + hex_value(bytes[2])->0) as u8] + percent_decoded(
            bytes.skip(3),
        )
    } else {
        seq![bytes[0]] + percent_decoded(bytes.drop_first())
    }
}

/// A request URI before it is lower-cased: its path and query, percent-decoded, or,
/// where that is not UTF-8, the whole URI.
pub open spec fn decoded(path_and_query: Option<Seq<char>>, whole: Seq<char>) -> Seq<char> {
    let encoded = match path_and_query {
        Some(text) => text,
        None => Seq::empty(),
    };
    let bytes = percent_decoded(encode_utf8(encoded));
    if valid_utf8(bytes) {
        decode_utf8(bytes)
    } else {
        whole
    }
}

/// The text that a request URI is rewritten to.
pub open spec fn rewritten(path_and_query: Option<Seq<char>>, whole: Seq<char>) -> Seq<char> {
    lowercased(decoded(path_and_query, whole))
}

/// A text where there is one, by its contents.
pub open spec fn contents(text: Option<&str>) -> Option<Seq<char>> {
    match text {
        Some(text) => Some(text@),
        None => None,
    }
}

/// The text that a URI is rewritten to, from its path and query and its whole text.
pub fn rewritten_text(path_and_query: Option<&str>, whole: &str) -> (r: String)
    ensures
        r@ == rewritten(contents(path_and_query), whole@),
        is_ascii_chars(decoded(contents(path_and_query), whole@)) ==> r@ == ascii_lowercased(
            decoded(contents(path_and_query), whole@),
        ),
        has_no_uppercase(r@),
        path_and_query is None ==> r@.len() == 0,
        path_and_query matches Some(encoded) ==> forall|text: Seq<char>| #[trigger]
            encode_utf8(text) == percent_decoded(encode_utf8(encoded@)) ==> r@ == lowercased(text),
        path_and_query matches Some(encoded) ==> !valid_utf8(percent_decoded(encode_utf8(encoded@)))
            ==> r@ == lowercased(whole@),
{
    proof {
        reveal_strlit("");
        assert(""@ =~= Seq::<char>::empty());
        if path_and_query is None {
            assert(percent_decoded(encode_utf8(""@)) =~= Seq::<u8>::empty());
            assert(decode_utf8(Seq::<u8>::empty()) =~= Seq::<char>::empty());
        }
    }
    let encoded: &str = match path_and_query {
        Some(text) => text,
        None => "",
    };
    proof {
        assert forall|text: Seq<char>| #[trigger]
            encode_utf8(text) == percent_decoded(encode_utf8(encoded@)) implies valid_utf8(
            encode_utf8(text),
        ) && decode_utf8(encode_utf8(text)) == text by {
            encode_utf8_valid_utf8(text);
            encode_utf8_decode_utf8(text);
        }
    }
    match percent_decode(encoded) {
        Some(text) => {
            proof {
                encode_utf8_valid_utf8(text@);
                encode_utf8_decode_utf8(text@);
            }
            to_lowercase(text.as_str())
        },
        None => to_lowercase(whole),
    }
}

/// What a request URI is rewritten to.
#[derive(Debug)]
pub struct RewrittenUri {
    pub uri: http::Uri,
    /// Why the rewritten text is not a URI, where the original was kept for that.
    pub error: Option<String>,
}

/// The rewritten URI where it parsed, and the original otherwise.
pub fn rewritten_or_original(parsed: Result<http::Uri, String>, original: &http::Uri) -> (r:
    RewrittenUri)
    ensures
        match parsed {
            Ok(uri) => r.uri == uri && r.error is None,
            Err(error) => r.uri == *original && r.error == Some(error),
        },
{
    match parsed {
        Ok(uri) => RewrittenUri { uri, error: None },
        Err(error) => RewrittenUri { uri: clone_uri(original), error: Some(error) },
    }
}

/// Rewrites the URI of a request, so that routes and query parameters can be compared
/// without decoding them again. A URI that has no path stays as it is. Where the URI is
/// rewritten, no letter `A` to `Z` remains in its path and query.
pub fn rewrite_request_uri(uri: &http::Uri) -> (r: RewrittenUri)
    ensures
        match parsed_uri(rewritten(uri_path_and_query(*uri), uri_text(*uri))) {
            Ok(new_uri) => r.uri == new_uri && r.error is None,
            Err(text) => r.uri == *uri && (r.error matches Some(error) && error@ == text),
        },
        r.error is None ==> (uri_path_and_query(r.uri) matches Some(part) ==> has_no_uppercase(
            part,
        )),
        uri_path_and_query(*uri) is None ==> r.uri == *uri,
        uri_path_and_query(*uri) matches Some(encoded) ==> forall|text: Seq<char>| #[trigger]
            encode_utf8(text) == percent_decoded(encode_utf8(encoded)) ==> match parsed_uri(
                lowercased(text),
            ) {
                Ok(new_uri) => r.uri == new_uri && r.error is None,
                Err(cause) => r.uri == *uri && (r.error matches Some(error) && error@ == cause),
            },
        uri_path_and_query(*uri) matches Some(encoded) ==> !valid_utf8(
            percent_decoded(encode_utf8(encoded)),
        ) ==> match parsed_uri(lowercased(uri_text(*uri))) {
            Ok(new_uri) => r.uri == new_uri && r.error is None,
            Err(cause) => r.uri == *uri && (r.error matches Some(error) && error@ == cause),
        },
{
    let whole = text_of(uri);
    let text = rewritten_text(path_and_query_of(uri), whole.as_str());
    let parsed = parse(text.as_str());
    proof {
        reveal_strlit("/");
        if parsed is Ok && uri_path_and_query(parsed->Ok_0) is Some {
            let part = uri_path_and_query(parsed->Ok_0)->0;
            if part != "/"@ {
                lemma_part_has_no_uppercase(part, text@);
            }
        }
    }
    rewritten_or_original(parsed, uri)
}

proof fn lemma_part_has_no_uppercase(part: Seq<char>, whole: Seq<char>)
    requires
        stands_in(part, whole),
        has_no_uppercase(whole),
    ensures
        has_no_uppercase(part),
{
    let (from, to) = choose|from: int, to: int|
        0 <= from <= to <= whole.len() && part == #[trigger] whole.subrange(from, to);
    assert forall|i: int| 0 <= i < part.len() implies !('A' <= #[trigger] part[i] <= 'Z') by {
        assert(part[i] == whole[from + i]);
    }
}

/// A byte written as a percent sign and two hexadecimal digits.
pub open spec fn escape(byte: u8) -> Seq<u8> {
    seq![0x25u8, hex_digit(byte as int / 16), hex_digit(byte as int % 16)]
}

/// The upper-case hexadecimal digit of a value below sixteen.
pub open spec fn hex_digit(value: int) -> u8 {
    if value < 10 {
        (0x30 + value) as u8
    } else {
        (0x41 + value - 10) as u8
    }
}

/// Every byte escaped.
pub open spec fn escaped(bytes: Seq<u8>) -> Seq<u8>
    decreases bytes.len(),
{
    if bytes.len() == 0 {
        Seq::empty()
    } else {
        escape(bytes[0]) + escaped(bytes.drop_first())
    }
}

/// Decoding gives back what was escaped.
pub proof fn lemma_decoding_undoes_escaping(bytes: Seq<u8>)
    ensures
        percent_decoded(escaped(bytes)) == bytes,
    decreases bytes.len(),
{
    if bytes.len() > 0 {
        let all = escaped(bytes);
        let byte = bytes[0];
        assert(0 <= byte as int / 16 < 16);
        assert(all[1] == hex_digit(byte as int / 16));
        assert(all[2] == hex_digit(byte as int % 16));
        assert(hex_value(all[1]) == Some(byte as int / 16));
        assert(hex_value(all[2]) == Some(byte as int % 16));
        assert(starts_with_escape(all));
        assert(all.skip(3) =~= escaped(bytes.drop_first()));
        lemma_decoding_undoes_escaping(bytes.drop_first());
        assert(percent_decoded(all) =~= bytes);
    }
}

/// Bytes without a percent sign stay as they are.
pub proof fn lemma_decoding_keeps_plain_bytes(bytes: Seq<u8>)
    requires
        forall|i: int| 0 <= i < bytes.len() ==> bytes[i] != 0x25,
    ensures
        percent_decoded(bytes) == bytes,
    decreases bytes.len(),
{
    if bytes.len() > 0 {
        lemma_decoding_keeps_plain_bytes(bytes.drop_first());
        assert(percent_decoded(bytes) =~= bytes);
    }
}

/// A path and query that escapes a text is rewritten to that text in lower case.
pub proof fn lemma_escaped_text_is_rewritten(
    path_and_query: Seq<char>,
    text: Seq<char>,
    whole: Seq<char>,
)
    requires
        encode_utf8(path_and_query) == escaped(encode_utf8(text)),
    ensures
        rewritten(Some(path_and_query), whole) == lowercased(text),
{
    lemma_decoding_undoes_escaping(encode_utf8(text));
    encode_utf8_valid_utf8(text);
    encode_utf8_decode_utf8(text);
}

/// A path and query without a percent sign is only lower-cased.
pub proof fn lemma_plain_text_is_lowercased(path_and_query: Seq<char>, whole: Seq<char>)
    requires
        forall|i: int|
            0 <= i < encode_utf8(path_and_query).len() ==> encode_utf8(path_and_query)[i] != 0x25,
    ensures
        rewritten(Some(path_and_query), whole) == lowercased(path_and_query),
{
    lemma_decoding_keeps_plain_bytes(encode_utf8(path_and_query));
    encode_utf8_valid_utf8(path_and_query);
    encode_utf8_decode_utf8(path_and_query);
}

/// Decoding goes from the left, byte by byte: a percent sign and two hexadecimal digits,
/// in either case, give the byte that the digits stand for, and any other byte stays.
pub proof fn lemma_decoding_of_one_byte(high: int, low: int, byte: u8, rest: Seq<u8>)
    requires
        0 <= high < 16,
        0 <= low < 16,
    ensures
        percent_decoded(Seq::empty()) == Seq::<u8>::empty(),
        percent_decoded(
            seq![
                0x25u8,
                (if high < 10 { 48 + high } else { 55 + high }) as u8,
                (if low < 10 { 48 + low } else { 55 + low }) as u8,
            ] + rest,
        ) == seq![(16 * high + low) as u8] + percent_decoded(rest),
        percent_decoded(
            seq![
                0x25u8,
                (if high < 10 { 48 + high } else { 87 + high }) as u8,
                (if low < 10 { 48 + low } else { 87 + low }) as u8,
            ] + rest,
        ) == seq![(16 * high + low) as u8] + percent_decoded(rest),
        byte != 0x25 ==> percent_decoded(seq![byte] + rest) == seq![byte] + percent_decoded(rest),
{
    let upper = seq![
        0x25u8,
        (if high < 10 { 48 + high } else { 55 + high }) as u8,
        (if low < 10 { 48 + low } else { 55 + low }) as u8,
    ] + rest;
    let lower = seq![
        0x25u8,
        (if high < 10 { 48 + high } else { 87 + high }) as u8,
        (if low < 10 { 48 + low } else { 87 + low }) as u8,
    ] + rest;
    assert(hex_value(upper[1]) == Some(high) && hex_value(upper[2]) == Some(low));
    assert(hex_value(lower[1]) == Some(high) && hex_value(lower[2]) == Some(low));
    assert(upper.skip(3) =~= rest);
    assert(lower.skip(3) =~= rest);
    assert((seq![byte] + rest).drop_first() =~= rest);
    assert((seq![byte] + rest)[0] == byte);
}

/// A percent sign that two hexadecimal digits do not follow stays.
pub proof fn lemma_incomplete_escape_stays(bytes: Seq<u8>)
    requires
        bytes.len() > 0,
        bytes.len() < 3 || !(48 <= bytes[1] <= 57 || 65 <= bytes[1] <= 70 || 97 <= bytes[1] <= 102)
            || !(48 <= bytes[2] <= 57 || 65 <= bytes[2] <= 70 || 97 <= bytes[2] <= 102),
    ensures
        percent_decoded(bytes) == seq![bytes[0]] + percent_decoded(bytes.drop_first()),
{
}

/// A path and query is rewritten to what its bytes decode to, in lower case, whichever of
/// its bytes are escaped. Where they do not decode to a text, the whole URI is lower-cased
/// instead.
pub proof fn lemma_decoded_text_is_rewritten(
    path_and_query: Seq<char>,
    text: Seq<char>,
    whole: Seq<char>,
)
    ensures
        encode_utf8(text) == percent_decoded(encode_utf8(path_and_query)) ==> rewritten(
            Some(path_and_query),
            whole,
        ) == lowercased(text),
        !valid_utf8(percent_decoded(encode_utf8(path_and_query))) ==> rewritten(
            Some(path_and_query),
            whole,
        ) == lowercased(whole),
{
    encode_utf8_valid_utf8(text);
    encode_utf8_decode_utf8(text);
}

/// Two path and queries that decode to the same bytes are rewritten alike, however they
/// are escaped.
pub proof fn lemma_escaping_makes_no_difference(a: Seq<char>, b: Seq<char>, whole: Seq<char>)
    requires
        percent_decoded(encode_utf8(a)) == percent_decoded(encode_utf8(b)),
    ensures
        rewritten(Some(a), whole) == rewritten(Some(b), whole),
{
}

} // verus!
