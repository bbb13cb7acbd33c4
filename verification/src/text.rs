//! Comparisons and searches on text, character by character.

use vstd::prelude::*;
use vstd::string::*;

verus! {

/// The texts of a list of strings.
pub open spec fn texts(list: Seq<String>) -> Seq<Seq<char>> {
    Seq::new(list.len(), |i: int| list[i]@)
}

/// Adds `word` to the end of `words`.
pub fn push_word(words: &mut Vec<String>, word: &str)
    ensures
        texts(final(words)@) == texts(old(words)@).push(word@),
{
    words.push(String::from_str(word));
    assert(texts(words@) =~= texts(old(words)@).push(word@));
}

/// Whether `needle` stands in `hay` at position `at`.
pub open spec fn occurs_at(hay: Seq<char>, needle: Seq<char>, at: int) -> bool {
    0 <= at && at + needle.len() <= hay.len() && hay.subrange(at, at + needle.len()) == needle
}

/// Whether `needle` stands somewhere in `hay`.
pub open spec fn occurs_in(hay: Seq<char>, needle: Seq<char>) -> bool {
    exists|at: int| occurs_at(hay, needle, at)
}

/// Whether `hay` begins with `needle`.
pub open spec fn begins_with(hay: Seq<char>, needle: Seq<char>) -> bool {
    occurs_at(hay, needle, 0)
}

/// Whether `hay` ends with `needle`.
pub open spec fn ends_with(hay: Seq<char>, needle: Seq<char>) -> bool {
    occurs_at(hay, needle, hay.len() - needle.len())
}

/// Whether two texts hold the same characters.
pub fn str_eq(a: &str, b: &str) -> (same: bool)
    ensures
        same == (a@ == b@),
{
    let n = a.unicode_len();
    if n != b.unicode_len() {
        return false;
    }
    let mut i: usize = 0;
    while i < n
        invariant
            i <= n,
            n == a@.len(),
            n == b@.len(),
            forall|j: int| 0 <= j < i ==> a@[j] == b@[j],
        decreases n - i,
    {
        if a.get_char(i) != b.get_char(i) {
            return false;
        }
        i += 1;
    }
    assert(a@ =~= b@);
    true
}

/// Whether `needle` stands in `hay` at the character position `at`.
pub fn matches_at(hay: &str, needle: &str, at: usize) -> (found: bool)
    ensures
        found == occurs_at(hay@, needle@, at as int),
{
    let n = hay.unicode_len();
    let m = needle.unicode_len();
    if at > n || m > n - at {
        return false;
    }
    let mut i: usize = 0;
    while i < m
        invariant
            i <= m,
            n == hay@.len(),
            m == needle@.len(),
            at + m <= n,
            forall|j: int| 0 <= j < i ==> hay@[at + j] == needle@[j],
        decreases m - i,
    {
        if hay.get_char(at + i) != needle.get_char(i) {
            assert(hay@.subrange(at as int, at + m)[i as int] == hay@[at + i]);
            return false;
        }
        i += 1;
    }
    assert(hay@.subrange(at as int, at + m) =~= needle@);
    true
}

/// Whether `needle` stands somewhere in `hay`.
pub fn contains(hay: &str, needle: &str) -> (found: bool)
    ensures
        found == occurs_in(hay@, needle@),
{
    let n = hay.unicode_len();
    let mut at: usize = 0;
    loop
        invariant_except_break
            at <= n,
            n == hay@.len(),
            forall|k: int| 0 <= k < at ==> !occurs_at(hay@, needle@, k),
        ensures
            n == hay@.len(),
            forall|k: int| 0 <= k <= n ==> !occurs_at(hay@, needle@, k),
        decreases n - at,
    {
        if matches_at(hay, needle, at) {
            return true;
        }
        if at == n {
            break;
        }
        at += 1;
    }
    assert forall|k: int| !occurs_at(hay@, needle@, k) by {
        if k > n {
            assert(!occurs_at(hay@, needle@, k));
        }
    }
    false
}

/// What is left of `hay` behind the leading `needle`, where it begins with it.
pub fn strip_prefix<'a>(hay: &'a str, needle: &str) -> (rest: Option<&'a str>)
    ensures
        rest is Some <==> begins_with(hay@, needle@),
        rest is Some ==> rest.unwrap()@ == hay@.skip(needle@.len() as int),
{
    if matches_at(hay, needle, 0) {
        let n = hay.unicode_len();
        let m = needle.unicode_len();
        let rest = hay.substring_char(m, n);
        assert(hay@.subrange(m as int, n as int) =~= hay@.skip(m as int));
        Some(rest)
    } else {
        None
    }
}

/// What is left of `hay` before the trailing `needle`, where it ends with it.
pub fn strip_suffix<'a>(hay: &'a str, needle: &str) -> (rest: Option<&'a str>)
    ensures
        rest is Some <==> ends_with(hay@, needle@),
        rest is Some ==> rest.unwrap()@ == hay@.take(hay@.len() - needle@.len()),
{
    let n = hay.unicode_len();
    let m = needle.unicode_len();
    if m > n {
        return None;
    }
    if matches_at(hay, needle, n - m) {
        let rest = hay.substring_char(0, n - m);
        assert(hay@.subrange(0, n - m) =~= hay@.take(n - m));
        Some(rest)
    } else {
        None
    }
}

/// The position of the first `mark` in `text`, or the length of `text` where
/// it holds none.
pub open spec fn first_position(text: Seq<char>, mark: char) -> int
    decreases text.len(),
{
    if text.len() == 0 || text[0] == mark {
        0
    } else {
        1 + first_position(text.drop_first(), mark)
    }
}

/// The first position of a mark lies within the text or at its end; the mark
/// stands there unless the text holds none, and nowhere before.
pub proof fn first_position_is_first(text: Seq<char>, mark: char)
    ensures
        0 <= first_position(text, mark) <= text.len(),
        first_position(text, mark) < text.len() ==> text[first_position(text, mark)] == mark,
        forall|i: int| 0 <= i < first_position(text, mark) ==> text[i] != mark,
    decreases text.len(),
{
    if text.len() != 0 && text[0] != mark {
        first_position_is_first(text.drop_first(), mark);
        assert forall|i: int| 0 <= i < first_position(text, mark) implies text[i] != mark by {
            if i > 0 {
                assert(text[i] == text.drop_first()[i - 1]);
            }
        }
    }
}

/// The first line of `text`, without its line ending: nothing for an empty
/// text; else what stands before the first line feed, less a carriage return
/// right before that line feed.
pub open spec fn first_line_of(text: Seq<char>) -> Option<Seq<char>> {
    if text.len() == 0 {
        None
    } else {
        let end = first_position(text, '\n');
        if 0 < end < text.len() && text[end - 1] == '\r' {
            Some(text.take(end - 1))
        } else {
            Some(text.take(end))
        }
    }
}

/// The position of the first `mark` in `text`, or the length of `text`.
pub fn find_char(text: &str, mark: char) -> (at: usize)
    ensures
        at == first_position(text@, mark),
{
    let n = text.unicode_len();
    let mut i: usize = 0;
    while i < n
        invariant
            i <= n,
            n == text@.len(),
            forall|j: int| 0 <= j < i ==> text@[j] != mark,
        decreases n - i,
    {
        if text.get_char(i) == mark {
            proof {
                first_position_is_first(text@, mark);
                let f = first_position(text@, mark);
                if f < i {
                    assert(text@[f] == mark);
                }
            }
            return i;
        }
        i += 1;
    }
    proof {
        first_position_is_first(text@, mark);
        let f = first_position(text@, mark);
        if f < n {
            assert(text@[f] == mark);
        }
    }
    n
}

/// The first line of `text`, without its line ending.
pub fn first_line<'a>(text: &'a str) -> (line: Option<&'a str>)
    ensures
        slice_view(line) == first_line_of(text@),
{
    let n = text.unicode_len();
    if n == 0 {
        return None;
    }
    let end = find_char(text, '\n');
    proof {
        first_position_is_first(text@, '\n');
    }
    if 0 < end && end < n && text.get_char(end - 1) == '\r' {
        let line = text.substring_char(0, end - 1);
        assert(text@.subrange(0, end - 1) =~= text@.take(end - 1));
        Some(line)
    } else {
        let line = text.substring_char(0, end);
        assert(text@.subrange(0, end as int) =~= text@.take(end as int));
        Some(line)
    }
}

/// The characters of an optional text.
pub open spec fn slice_view(text: Option<&str>) -> Option<Seq<char>> {
    match text {
        Some(t) => Some(t@),
        None => None,
    }
}

/// `c` as a lower-case letter where it is an upper-case ASCII letter, and
/// `c` itself otherwise.
pub open spec fn lower_of(c: char) -> char {
    if 'A' <= c <= 'Z' {
        ((c as u8) + 32) as char
    } else {
        c
    }
}

/// `text` with its ASCII letters in lower case.
pub open spec fn lowered(text: Seq<char>) -> Seq<char> {
    Seq::new(text.len(), |i: int| lower_of(text[i]))
}

/// `c` in lower case, where it is an ASCII letter.
pub fn lower(c: char) -> (l: char)
    ensures
        l == lower_of(c),
{
    if 'A' <= c && c <= 'Z' {
        ((c as u8) + 32) as char
    } else {
        c
    }
}

/// Whether `a` and `b` are the same but for the case of ASCII letters.
pub fn eq_ignore_case(a: &str, b: &str) -> (same: bool)
    ensures
        same == (lowered(a@) == lowered(b@)),
{
    let n = a.unicode_len();
    if n != b.unicode_len() {
        assert(lowered(a@).len() != lowered(b@).len());
        return false;
    }
    let mut i: usize = 0;
    while i < n
        invariant
            i <= n,
            n == a@.len(),
            n == b@.len(),
            forall|j: int| 0 <= j < i ==> lower_of(a@[j]) == lower_of(b@[j]),
        decreases n - i,
    {
        if lower(a.get_char(i)) != lower(b.get_char(i)) {
            assert(lowered(a@)[i as int] != lowered(b@)[i as int]);
            return false;
        }
        i += 1;
    }
    assert(lowered(a@) =~= lowered(b@));
    true
}

/// Whether `hay` ends with `needle`, but for the case of ASCII letters.
pub fn ends_with_ignore_case(hay: &str, needle: &str) -> (found: bool)
    ensures
        found == ends_with(lowered(hay@), lowered(needle@)),
{
    let n = hay.unicode_len();
    let m = needle.unicode_len();
    if m > n {
        return false;
    }
    let tail = hay.substring_char(n - m, n);
    let same = eq_ignore_case(tail, needle);
    proof {
        assert(lowered(hay@).subrange(n - m, n as int) =~= lowered(tail@));
        assert(n - m + lowered(needle@).len() == n);
    }
    same
}

/// The character of a decimal digit.
pub open spec fn digit_of(d: nat) -> char {
    if d == 0 {
        '0'
    } else if d == 1 {
        '1'
    } else if d == 2 {
        '2'
    } else if d == 3 {
        '3'
    } else if d == 4 {
        '4'
    } else if d == 5 {
        '5'
    } else if d == 6 {
        '6'
    } else if d == 7 {
        '7'
    } else if d == 8 {
        '8'
    } else {
        '9'
    }
}

/// The decimal numeral of `n`, without leading zeros.
pub open spec fn decimal_of(n: nat) -> Seq<char>
    decreases n,
{
    if n < 10 {
        seq![digit_of(n)]
    } else {
        decimal_of(n / 10).push(digit_of(n % 10))
    }
}

/// The numeral of one decimal digit.
fn digit(d: u64) -> (text: &'static str)
    requires
        d < 10,
    ensures
        text@ == seq![digit_of(d as nat)],
{
    proof {
        reveal_strlit("0");
        reveal_strlit("1");
        reveal_strlit("2");
        reveal_strlit("3");
        reveal_strlit("4");
        reveal_strlit("5");
        reveal_strlit("6");
        reveal_strlit("7");
        reveal_strlit("8");
        reveal_strlit("9");
    }
    let text = if d == 0 {
        "0"
    } else if d == 1 {
        "1"
    } else if d == 2 {
        "2"
    } else if d == 3 {
        "3"
    } else if d == 4 {
        "4"
    } else if d == 5 {
        "5"
    } else if d == 6 {
        "6"
    } else if d == 7 {
        "7"
    } else if d == 8 {
        "8"
    } else {
        "9"
    };
    assert(text@ =~= seq![digit_of(d as nat)]);
    text
}

/// The decimal numeral of `n`.
pub fn decimal(n: u64) -> (text: String)
    ensures
        text@ == decimal_of(n as nat),
    decreases n,
{
    if n < 10 {
        String::from_str(digit(n))
    } else {
        let mut text = decimal(n / 10);
        text.append(digit(n % 10));
        assert(text@ =~= decimal_of((n / 10) as nat).push(digit_of((n % 10) as nat)));
        text
    }
}

/// `text` without the white space at its two ends, as `str::trim` has it.
pub uninterp spec fn trimmed(text: Seq<char>) -> Seq<char>;

/// `str::trim`: the slice of `text` that is left when leading and trailing
/// white space is taken away.
#[verifier::external_body]
pub(crate) fn trim(text: &str) -> (inner: &str)
    ensures
        inner@ == trimmed(text@),
{
    text.trim()
}

/// Whether `c` is white space, as `char::is_whitespace` has it.
pub uninterp spec fn white_space(c: char) -> bool;

/// `char::is_whitespace`: whether `c` has the Unicode property White_Space.
#[verifier::external_body]
pub(crate) fn is_whitespace(c: char) -> (space: bool)
    ensures
        space == white_space(c),
{
    c.is_whitespace()
}

/// `text` in lower case, as `str::to_lowercase` has it.
pub uninterp spec fn lowercase_of(text: Seq<char>) -> Seq<char>;

/// `str::to_lowercase`: the lower-case equivalent of `text`.
#[verifier::external_body]
pub(crate) fn to_lowercase(text: &str) -> (lower: String)
    ensures
        lower@ == lowercase_of(text@),
{
    text.to_lowercase()
}

} // verus!
