//! The list of running processes that the settings window offers to choose
//! an application from.

use vstd::prelude::*;
use vstd::string::*;
use crate::sorting::{positions, sort_keys, sort_order, stable_order, EntryKey, SortKey};
use crate::switch_app::{process_views, ProcessInfo};
use crate::text::{
    find_char, first_line, first_line_of, first_position, is_whitespace, lowercase_of, str_eq,
    to_lowercase, trim, trimmed, white_space,
};

verus! {

/// The lines of `text`, without their line endings. A line ends with a line
/// feed, or with a carriage return and a line feed; the last line need not
/// end at all.
pub open spec fn lines_of(text: Seq<char>) -> Seq<Seq<char>>
    decreases text.len(),
{
    if text.len() == 0 {
        Seq::empty()
    } else {
        let end = first_position(text, '\n');
        let line = first_line_of(text).unwrap();
        if 0 <= end < text.len() {
            seq![line] + lines_of(text.skip(end + 1))
        } else {
            seq![line]
        }
    }
}

/// The texts of a list of slices.
pub open spec fn slice_texts(list: Seq<&str>) -> Seq<Seq<char>> {
    Seq::new(list.len(), |i: int| list[i]@)
}

/// The lines of `text`.
pub fn lines<'a>(text: &'a str) -> (list: Vec<&'a str>)
    ensures
        slice_texts(list@) == lines_of(text@),
{
    let mut list: Vec<&'a str> = Vec::new();
    let mut rest = text;
    assert(slice_texts(list@) + lines_of(rest@) =~= lines_of(text@));
    loop
        invariant_except_break
            slice_texts(list@) + lines_of(rest@) == lines_of(text@),
        ensures
            slice_texts(list@) == lines_of(text@),
        decreases rest@.len(),
    {
        let n = rest.unicode_len();
        if n == 0 {
            assert(slice_texts(list@) + Seq::<Seq<char>>::empty() =~= slice_texts(list@));
            break;
        }
        let end = find_char(rest, '\n');
        proof {
            crate::text::first_position_is_first(rest@, '\n');
        }
        let line = match first_line(rest) {
            Some(line) => line,
            None => rest,
        };
        let ghost before = slice_texts(list@);
        let ghost here = rest@;
        list.push(line);
        assert(slice_texts(list@) =~= before.push(first_line_of(here).unwrap()));
        if end < n {
            rest = rest.substring_char(end + 1, n);
            assert(rest@ =~= here.skip(end + 1));
            assert(slice_texts(list@) + lines_of(rest@) =~= before + lines_of(here));
        } else {
            assert(slice_texts(list@) =~= before + lines_of(here));
            break;
        }
    }
    list
}

/// The position of the first white space in `text`, or the length of `text`
/// where it holds none.
pub open spec fn first_space(text: Seq<char>) -> int
    decreases text.len(),
{
    if text.len() == 0 || white_space(text[0]) {
        0
    } else {
        1 + first_space(text.drop_first())
    }
}

/// Whether `c` is a decimal digit.
pub open spec fn is_digit(c: char) -> bool {
    '0' <= c <= '9'
}

/// Whether `text` holds decimal digits only.
pub open spec fn all_digits(text: Seq<char>) -> bool {
    forall|i: int| 0 <= i < text.len() ==> is_digit(#[trigger] text[i])
}

/// The number that the digits `digits` write, whatever its size.
pub open spec fn value_of(digits: Seq<char>) -> nat
    decreases digits.len(),
{
    if digits.len() == 0 {
        0
    } else {
        value_of(digits.drop_last()) * 10 + ((digits.last() as u32 - '0' as u32) as nat)
    }
}

/// The number that `text` writes: decimal digits, at least one, with or
/// without a plus sign in front, and not beyond what 32 bits hold. Anything
/// else is no number.
pub open spec fn number_of(text: Seq<char>) -> Option<u32> {
    let digits = if text.len() > 0 && text[0] == '+' {
        text.skip(1)
    } else {
        text
    };
    if digits.len() > 0 && all_digits(digits) && value_of(digits) <= u32::MAX {
        Some(value_of(digits) as u32)
    } else {
        None
    }
}

/// A longer row of digits writes no smaller number than its beginning.
proof fn value_grows(digits: Seq<char>, upto: int)
    requires
        0 <= upto <= digits.len(),
        all_digits(digits),
    ensures
        value_of(digits.take(upto)) <= value_of(digits),
    decreases digits.len() - upto,
{
    if upto < digits.len() {
        value_grows(digits, upto + 1);
        let longer = digits.take(upto + 1);
        assert(longer.drop_last() =~= digits.take(upto));
    } else {
        assert(digits.take(upto) =~= digits);
    }
}

/// The number that `text` writes.
pub fn parse_number(text: &str) -> (number: Option<u32>)
    ensures
        number == number_of(text@),
{
    let n = text.unicode_len();
    let start: usize = if n > 0 && text.get_char(0) == '+' {
        1
    } else {
        0
    };
    let ghost digits = if start == 1 {
        text@.skip(1)
    } else {
        text@
    };
    if start == n {
        return None;
    }
    assert(text@.skip(0) =~= text@);
    let mut value: u64 = 0;
    let mut i: usize = start;
    assert(digits.take(0) =~= Seq::empty());
    while i < n
        invariant
            start <= i <= n,
            n == text@.len(),
            start <= 1,
            digits == text@.skip(start as int),
            digits == (if text@.len() > 0 && text@[0] == '+' {
                text@.skip(1)
            } else {
                text@
            }),
            digits.len() == n - start,
            forall|j: int| 0 <= j < i - start ==> is_digit(digits[j]),
            value == value_of(digits.take(i - start)),
            value <= u32::MAX,
        decreases n - i,
    {
        let c = text.get_char(i);
        assert(digits[i - start] == c);
        if !('0' <= c && c <= '9') {
            assert(!is_digit(digits[i - start]));
            return None;
        }
        let d: u64 = (c as u32 - '0' as u32) as u64;
        let next = value * 10 + d;
        proof {
            let longer = digits.take(i - start + 1);
            assert(longer.drop_last() =~= digits.take(i - start));
            assert(longer.last() == c);
            assert(next == value_of(longer));
        }
        if next > u32::MAX as u64 {
            proof {
                if all_digits(digits) {
                    value_grows(digits, i - start + 1);
                }
            }
            return None;
        }
        value = next;
        i += 1;
    }
    assert(digits.take(i - start) =~= digits);
    Some(value as u32)
}

/// What a line of the process listing says: the name of a process and its
/// identifier. The line is trimmed and split at its first white space; the
/// identifier stands in front and counts as zero where it is no number, the
/// name behind. A line without white space in it says nothing.
pub open spec fn line_entry(line: Seq<char>) -> Option<(Seq<char>, u32)> {
    let inner = trimmed(line);
    let at = first_space(inner);
    if at < inner.len() {
        Some(
            (
                trimmed(inner.skip(at + 1)),
                match number_of(trimmed(inner.take(at))) {
                    Some(pid) => pid,
                    None => 0,
                },
            ),
        )
    } else {
        None
    }
}

/// The position of the first white space in `text`, or its length.
fn find_space(text: &str) -> (at: usize)
    ensures
        at == first_space(text@),
        at <= text@.len(),
{
    let n = text.unicode_len();
    let mut i: usize = 0;
    assert(text@.skip(0) =~= text@);
    while i < n
        invariant
            i <= n,
            n == text@.len(),
            first_space(text@) == i + first_space(text@.skip(i as int)),
        decreases n - i,
    {
        proof {
            let tail = text@.skip(i as int);
            assert(tail[0] == text@[i as int]);
            assert(tail.drop_first() =~= text@.skip(i + 1));
        }
        if is_whitespace(text.get_char(i)) {
            return i;
        }
        i += 1;
    }
    assert(text@.skip(i as int).len() == 0);
    i
}

/// What a line of the process listing says.
pub fn parse_line(line: &str) -> (entry: Option<ProcessInfo>)
    ensures
        match entry {
            Some(process) => line_entry(line@) == Some((process.name@, process.pid)),
            None => line_entry(line@) is None,
        },
{
    let inner = trim(line);
    let n = inner.unicode_len();
    let at = find_space(inner);
    if at < n {
        let head = inner.substring_char(0, at);
        let tail = inner.substring_char(at + 1, n);
        assert(head@ =~= inner@.take(at as int));
        assert(tail@ =~= inner@.skip(at + 1));
        let pid = match parse_number(trim(head)) {
            Some(pid) => pid,
            None => 0,
        };
        Some(ProcessInfo { name: String::from_str(trim(tail)), pid })
    } else {
        None
    }
}

/// Whether `list` holds a process called `name`.
pub open spec fn named(list: Seq<(Seq<char>, u32)>, name: Seq<char>) -> bool {
    exists|i: int| 0 <= i < list.len() && list[i].0 == name
}

/// The processes of `list` without those whose name an earlier one has.
pub open spec fn distinct(list: Seq<(Seq<char>, u32)>) -> Seq<(Seq<char>, u32)>
    decreases list.len(),
{
    if list.len() == 0 {
        Seq::empty()
    } else {
        let before = distinct(list.drop_last());
        if named(before, list.last().0) {
            before
        } else {
            before.push(list.last())
        }
    }
}

/// What the lines of a process listing say, the first line being the
/// heading: one process for each line that names one.
pub open spec fn listed(lines: Seq<Seq<char>>) -> Seq<(Seq<char>, u32)>
    decreases lines.len(),
{
    if lines.len() <= 1 {
        Seq::empty()
    } else {
        let before = listed(lines.drop_last());
        match line_entry(lines.last()) {
            Some(entry) => before.push(entry),
            None => before,
        }
    }
}

/// Whether `list` holds a process called `name`.
fn has_name(list: &Vec<ProcessInfo>, name: &str) -> (found: bool)
    ensures
        found == named(process_views(list@), name@),
{
    let mut i: usize = 0;
    while i < list.len()
        invariant
            i <= list.len(),
            forall|j: int| 0 <= j < i ==> process_views(list@)[j].0 != name@,
        decreases list.len() - i,
    {
        if str_eq(list[i].name.as_str(), name) {
            assert(process_views(list@)[i as int].0 == name@);
            return true;
        }
        i += 1;
    }
    false
}

/// The processes that the output of `ps -eo pid,comm` lists, in the order
/// of the listing.
pub fn parse_ps(stdout: &str) -> (list: Vec<ProcessInfo>)
    ensures
        process_views(list@) == listed(lines_of(stdout@)),
{
    let all = lines(stdout);
    let ghost texts = slice_texts(all@);
    let mut list: Vec<ProcessInfo> = Vec::new();
    let mut i: usize = 1;
    if all.len() <= 1 {
        assert(process_views(list@) =~= listed(texts));
        return list;
    }
    assert(texts.take(1).len() == 1);
    assert(process_views(list@) =~= listed(texts.take(1)));
    while i < all.len()
        invariant
            1 <= i <= all.len(),
            texts == slice_texts(all@),
            process_views(list@) == listed(texts.take(i as int)),
        decreases all.len() - i,
    {
        proof {
            let next = texts.take(i + 1);
            assert(next.drop_last() =~= texts.take(i as int));
            assert(next.last() == all@[i as int]@);
        }
        match parse_line(all[i]) {
            Some(process) => {
                let ghost before = process_views(list@);
                let ghost entry = (process.name@, process.pid);
                list.push(process);
                assert(process_views(list@) =~= before.push(entry));
            },
            None => {},
        }
        i += 1;
    }
    assert(texts.take(i as int) =~= texts);
    list
}

/// What the processes are sorted by: their names in lower case.
pub open spec fn name_keys(list: Seq<(Seq<char>, u32)>) -> Seq<SortKey> {
    Seq::new(
        list.len(),
        |i: int| SortKey { keyless: false, text: vstd::utf8::encode_utf8(lowercase_of(list[i].0)) },
    )
}

/// The processes of `list` by name, without regard to case; processes whose
/// names differ in case only stay in the order in which they stand.
pub open spec fn by_name(list: Seq<(Seq<char>, u32)>) -> Seq<(Seq<char>, u32)> {
    let order = stable_order(name_keys(list), list.len() as int);
    Seq::new(list.len(), |i: int| list[order[i]])
}

/// The processes to choose from: each name once, the first of its processes
/// standing for it, sorted by name without regard to case.
pub fn get_processes_impl(listing: &Vec<ProcessInfo>) -> (list: Vec<ProcessInfo>)
    ensures
        process_views(list@) == by_name(distinct(process_views(listing@))),
{
    let ghost all = process_views(listing@);
    let mut kept: Vec<ProcessInfo> = Vec::new();
    let mut i: usize = 0;
    assert(all.take(0) =~= Seq::empty());
    assert(process_views(kept@) =~= distinct(all.take(0)));
    while i < listing.len()
        invariant
            i <= listing.len(),
            all == process_views(listing@),
            process_views(kept@) == distinct(all.take(i as int)),
        decreases listing.len() - i,
    {
        proof {
            let next = all.take(i + 1);
            assert(next.drop_last() =~= all.take(i as int));
            assert(next.last() == (listing@[i as int].name@, listing@[i as int].pid));
        }
        if !has_name(&kept, listing[i].name.as_str()) {
            let ghost before = process_views(kept@);
            kept.push(ProcessInfo { name: listing[i].name.clone(), pid: listing[i].pid });
            assert(process_views(kept@) =~= before.push(
                (listing@[i as int].name@, listing@[i as int].pid),
            ));
        }
        i += 1;
    }
    assert(all.take(i as int) =~= all);
    let ghost chosen = process_views(kept@);
    let mut keys: Vec<EntryKey> = Vec::new();
    let mut k: usize = 0;
    while k < kept.len()
        invariant
            k <= kept.len(),
            keys@.len() == k,
            chosen == process_views(kept@),
            forall|j: int| 0 <= j < k ==> (#[trigger] sort_keys(keys@)[j]) == name_keys(chosen)[j],
        decreases kept.len() - k,
    {
        let ghost before = sort_keys(keys@);
        keys.push(EntryKey { keyless: false, text: to_lowercase(kept[k].name.as_str()) });
        proof {
            assert forall|j: int| 0 <= j < k + 1 implies (#[trigger] sort_keys(keys@)[j])
                == name_keys(chosen)[j] by {
                if j < k {
                    assert(sort_keys(keys@)[j] == before[j]);
                }
            }
        }
        k += 1;
    }
    assert(sort_keys(keys@) =~= name_keys(chosen));
    let order = sort_order(&keys);
    proof {
        crate::sorting::stable_order_sorts(name_keys(chosen), chosen.len() as int);
    }
    let ghost written = stable_order(name_keys(chosen), chosen.len() as int);
    let mut list: Vec<ProcessInfo> = Vec::new();
    let mut p: usize = 0;
    assert(positions(order@).len() == order@.len());
    while p < order.len()
        invariant
            p <= order.len(),
            order@.len() == kept@.len(),
            chosen == process_views(kept@),
            positions(order@) == written,
            crate::sorting::sorts(name_keys(chosen), written, chosen.len() as int),
            list@.len() == p,
            forall|j: int| 0 <= j < p ==> (#[trigger] process_views(list@)[j]) == chosen[written[j]],
        decreases order.len() - p,
    {
        proof {
            assert(positions(order@)[p as int] == order@[p as int]);
            assert(0 <= written[p as int] < chosen.len());
        }
        let ghost before = process_views(list@);
        let at = order[p];
        list.push(ProcessInfo { name: kept[at].name.clone(), pid: kept[at].pid });
        proof {
            assert forall|j: int| 0 <= j < p + 1 implies (#[trigger] process_views(list@)[j])
                == chosen[written[j]] by {
                if j < p {
                    assert(process_views(list@)[j] == before[j]);
                }
            }
        }
        p += 1;
    }
    assert(process_views(list@) =~= by_name(chosen));
    list
}

/// The processes to choose from, read from the output of
/// `ps -eo pid,comm`.
pub fn get_running_processes(stdout: &str) -> (list: Vec<ProcessInfo>)
    ensures
        process_views(list@) == by_name(distinct(listed(lines_of(stdout@)))),
{
    let parsed = parse_ps(stdout);
    get_processes_impl(&parsed)
}

} // verus!
