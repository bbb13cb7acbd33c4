//! The web search: the address to open for a piece of selected text.

use vstd::prelude::*;
use vstd::string::*;
use indexmap::IndexMap;
use crate::config::SearchEntry;
use crate::ordered::search_rows;
use crate::settings::{get_search_url, NotDefined};
use crate::text::{matches_at, occurs_at, trim, trimmed};

verus! {

/// Whether a byte stands for itself in an encoded text: ASCII letters and
/// digits, `-`, `.`, `_` and `~`.
pub open spec fn unreserved(byte: u8) -> bool {
    ||| 0x30 <= byte <= 0x39
    ||| 0x41 <= byte <= 0x5a
    ||| 0x61 <= byte <= 0x7a
    ||| byte == 0x2d
    ||| byte == 0x2e
    ||| byte == 0x5f
    ||| byte == 0x7e
}

/// The upper-case hexadecimal digit for a value below sixteen.
pub open spec fn hex_digit(value: u8) -> char {
    if value < 10 {
        ((0x30 + value) as u8) as char
    } else {
        ((0x41 + value - 10) as u8) as char
    }
}

/// The percent-encoding of a sequence of bytes: an unreserved byte stands
/// for itself, any other becomes `%` and its two hexadecimal digits.
pub open spec fn percent_encoded(bytes: Seq<u8>) -> Seq<char>
    decreases bytes.len(),
{
    if bytes.len() == 0 {
        Seq::empty()
    } else {
        let head = bytes[0];
        let rest = percent_encoded(bytes.drop_first());
        if unreserved(head) {
            seq![head as char] + rest
        } else {
            seq!['%', hex_digit(head / 16), hex_digit(head % 16)] + rest
        }
    }
}

/// `urlencoding::encode`: the percent-encoding of the text's UTF-8 bytes.
#[verifier::external_body]
fn encode(text: &str) -> (encoded: String)
    ensures
        encoded@ == percent_encoded(text.spec_bytes()),
{
    urlencoding::encode(text).into_owned()
}

/// `text` with every occurrence of `from` replaced by `to`, going from left
/// to right; occurrences do not overlap.
pub open spec fn replaced(text: Seq<char>, from: Seq<char>, to: Seq<char>) -> Seq<char>
    decreases text.len(),
{
    if text.len() == 0 || from.len() == 0 {
        text
    } else if occurs_at(text, from, 0) {
        to + replaced(text.skip(from.len() as int), from, to)
    } else {
        seq![text[0]] + replaced(text.skip(1), from, to)
    }
}

/// `text` with every occurrence of `from` replaced by `to`.
fn replace_all(text: &str, from: &str, to: &str) -> (out: String)
    requires
        from@.len() > 0,
    ensures
        out@ == replaced(text@, from@, to@),
{
    let n = text.unicode_len();
    let m = from.unicode_len();
    let mut out = String::new();
    let mut i: usize = 0;
    assert(text@.skip(0) =~= text@);
    while i < n
        invariant
            i <= n,
            n == text@.len(),
            m == from@.len(),
            m > 0,
            out@ + replaced(text@.skip(i as int), from@, to@) == replaced(text@, from@, to@),
        decreases n - i,
    {
        let ghost tail = text@.skip(i as int);
        if matches_at(text, from, i) {
            proof {
                assert(tail.subrange(0, m as int) =~= text@.subrange(i as int, i + m));
                assert(occurs_at(tail, from@, 0));
                assert(tail.skip(m as int) =~= text@.skip(i + m));
            }
            let ghost before = out@;
            out.append(to);
            assert(out@ + replaced(text@.skip(i + m), from@, to@) =~= before + (to@ + replaced(
                tail.skip(m as int),
                from@,
                to@,
            )));
            i += m;
        } else {
            proof {
                if m <= tail.len() {
                    assert(tail.subrange(0, m as int) =~= text@.subrange(i as int, i + m));
                }
                assert(!occurs_at(tail, from@, 0));
                assert(tail.skip(1) =~= text@.skip(i + 1));
                assert(tail[0] == text@[i as int]);
            }
            let ghost before = out@;
            let piece = text.substring_char(i, i + 1);
            assert(piece@ =~= seq![text@[i as int]]);
            out.append(piece);
            assert(out@ + replaced(text@.skip(i + 1), from@, to@) =~= before + (seq![tail[0]]
                + replaced(tail.skip(1), from@, to@)));
            i += 1;
        }
    }
    assert(text@.skip(n as int) =~= Seq::<char>::empty());
    assert(out@ + Seq::<char>::empty() =~= out@);
    out
}

/// The address for an encoded query: the template with each `{query}`
/// replaced by `encoded`.
pub fn fill_template(template: &str, encoded: &str) -> (url: String)
    ensures
        url@ == replaced(template@, "{query}"@, encoded@),
{
    proof {
        reveal_strlit("{query}");
    }
    replace_all(template, "{query}", encoded)
}

/// The address to open for the selected text `query`: nothing where the text
/// is empty once trimmed; else the template filled with the trimmed text,
/// percent-encoded.
pub open spec fn search_url_of(template: Seq<char>, query: Seq<char>) -> Option<Seq<char>> {
    if trimmed(query).len() == 0 {
        None
    } else {
        Some(
            replaced(
                template,
                "{query}"@,
                percent_encoded(vstd::utf8::encode_utf8(trimmed(query))),
            ),
        )
    }
}

/// The address to open for the selected text `query`, or nothing where there
/// is no text to search for.
pub fn search_url(template: &str, query: &str) -> (url: Option<String>)
    ensures
        match url {
            Some(address) => search_url_of(template@, query@) == Some(address@),
            None => search_url_of(template@, query@) is None,
        },
{
    let inner = trim(query);
    if inner.is_empty() {
        None
    } else {
        let encoded = encode(inner);
        Some(fill_template(template, encoded.as_str()))
    }
}

/// The address to open when the engine `engine` is asked about `query`.
pub fn run(engine: &str, search: &IndexMap<String, SearchEntry>, query: &str) -> (url: Result<
    Option<String>,
    NotDefined,
>)
    ensures
        match url {
            Ok(found) => exists|i: int|
                0 <= i < search_rows(*search).len() && search_rows(*search)[i].name == engine@
                    && (match found {
                    Some(address) => search_url_of(search_rows(*search)[i].value, query@) == Some(
                        address@,
                    ),
                    None => search_url_of(search_rows(*search)[i].value, query@) is None,
                }),
            Err(e) => e.label@ == "Search engine"@ && e.name@ == engine@ && forall|i: int|
                0 <= i < search_rows(*search).len() ==> search_rows(*search)[i].name != engine@,
        },
{
    match get_search_url(search, engine) {
        Ok(template) => Ok(search_url(template, query)),
        Err(e) => Err(e),
    }
}

} // verus!
