//! The order in which entries are written to the settings file: entries with
//! a dispatch key first, by key; the others behind them, by name.

use vstd::prelude::*;
use vstd::string::*;

verus! {

/// Whether `a` comes before `b` when byte sequences are compared position by
/// position, a sequence coming before every sequence that it is a proper
/// beginning of.
pub open spec fn lex_lt(a: Seq<u8>, b: Seq<u8>) -> bool
    decreases a.len(),
{
    if b.len() == 0 {
        false
    } else if a.len() == 0 {
        true
    } else if a[0] != b[0] {
        a[0] < b[0]
    } else {
        lex_lt(a.drop_first(), b.drop_first())
    }
}

/// Of two different sequences, one comes before the other.
pub proof fn lex_lt_total(a: Seq<u8>, b: Seq<u8>)
    ensures
        lex_lt(a, b) || lex_lt(b, a) || a == b,
        !(lex_lt(a, b) && lex_lt(b, a)),
    decreases a.len(),
{
    if a.len() > 0 && b.len() > 0 && a[0] == b[0] {
        lex_lt_total(a.drop_first(), b.drop_first());
        if a.drop_first() == b.drop_first() {
            assert(a =~= seq![a[0]] + a.drop_first());
            assert(b =~= seq![b[0]] + b.drop_first());
        }
    } else if a.len() == 0 && b.len() == 0 {
        assert(a =~= b);
    }
}

/// What comes before something that comes before `c` comes before `c`.
pub proof fn lex_lt_transitive(a: Seq<u8>, b: Seq<u8>, c: Seq<u8>)
    requires
        lex_lt(a, b),
        lex_lt(b, c),
    ensures
        lex_lt(a, c),
    decreases a.len(),
{
    if a.len() > 0 && a[0] == b[0] && b[0] == c[0] {
        lex_lt_transitive(a.drop_first(), b.drop_first(), c.drop_first());
    }
}

/// Whether the text `a` comes before the text `b` in the order of their
/// UTF-8 bytes.
pub fn text_lt(a: &str, b: &str) -> (lt: bool)
    ensures
        lt == lex_lt(a.spec_bytes(), b.spec_bytes()),
{
    let x = a.as_bytes();
    let y = b.as_bytes();
    let mut i: usize = 0;
    assert(x@.skip(0) =~= x@);
    assert(y@.skip(0) =~= y@);
    while i < x.len() && i < y.len()
        invariant
            i <= x@.len(),
            i <= y@.len(),
            x@ == a.spec_bytes(),
            y@ == b.spec_bytes(),
            lex_lt(x@, y@) == lex_lt(x@.skip(i as int), y@.skip(i as int)),
        decreases x@.len() - i,
    {
        proof {
            let xs = x@.skip(i as int);
            let ys = y@.skip(i as int);
            assert(xs[0] == x@[i as int]);
            assert(ys[0] == y@[i as int]);
            assert(xs.drop_first() =~= x@.skip(i + 1));
            assert(ys.drop_first() =~= y@.skip(i + 1));
        }
        if x[i] < y[i] {
            return true;
        }
        if x[i] > y[i] {
            return false;
        }
        i += 1;
    }
    proof {
        let xs = x@.skip(i as int);
        let ys = y@.skip(i as int);
        assert(xs.len() == x@.len() - i);
        assert(ys.len() == y@.len() - i);
    }
    i < y.len()
}

/// What an entry is sorted by: whether it lacks a dispatch key, and the
/// bytes of its key, or of its name where it has no key.
pub struct SortKey {
    pub keyless: bool,
    pub text: Seq<u8>,
}

/// Whether an entry sorted by `a` is written before one sorted by `b`.
pub open spec fn key_lt(a: SortKey, b: SortKey) -> bool {
    (!a.keyless && b.keyless) || (a.keyless == b.keyless && lex_lt(a.text, b.text))
}

/// Where the entry `item` goes among the entries `order`, which are sorted:
/// in front of the first one that it comes before, and at the end where
/// there is none.
pub open spec fn slot(keys: Seq<SortKey>, order: Seq<int>, item: int) -> int
    decreases order.len(),
{
    if order.len() == 0 || key_lt(keys[item], keys[order[0]]) {
        0
    } else {
        1 + slot(keys, order.drop_first(), item)
    }
}

/// The first `n` entries in the order in which they are written, each given
/// by its position in `keys`. Entries that are sorted by the same key stay
/// in the order in which they stand.
pub open spec fn stable_order(keys: Seq<SortKey>, n: int) -> Seq<int>
    decreases n,
{
    if n <= 0 {
        Seq::empty()
    } else {
        let before = stable_order(keys, n - 1);
        before.insert(slot(keys, before, n - 1), n - 1)
    }
}

/// Whether the entry at position `i` is written before the one at `j`: by
/// its key, and by its position where the keys are the same.
pub open spec fn written_before(keys: Seq<SortKey>, i: int, j: int) -> bool {
    key_lt(keys[i], keys[j]) || (!key_lt(keys[j], keys[i]) && i < j)
}

/// `order` holds each of the first `n` positions once, and each entry in it
/// is written before all that follow it.
pub open spec fn sorts(keys: Seq<SortKey>, order: Seq<int>, n: int) -> bool {
    &&& order.len() == n
    &&& forall|a: int| 0 <= a < order.len() ==> 0 <= #[trigger] order[a] < n
    &&& forall|a: int, b: int|
        0 <= a < b < order.len() ==> written_before(keys, #[trigger] order[a], #[trigger] order[b])
    &&& forall|i: int| 0 <= i < n ==> #[trigger] order.contains(i)
}

/// The slot of an entry lies within the order; the entry comes before what
/// stands at its slot, and before nothing that stands in front of it.
pub proof fn slot_is_first(keys: Seq<SortKey>, order: Seq<int>, item: int)
    ensures
        0 <= slot(keys, order, item) <= order.len(),
        slot(keys, order, item) < order.len() ==> key_lt(
            keys[item],
            keys[order[slot(keys, order, item)]],
        ),
        forall|a: int|
            0 <= a < slot(keys, order, item) ==> !key_lt(keys[item], keys[#[trigger] order[a]]),
    decreases order.len(),
{
    if order.len() != 0 && !key_lt(keys[item], keys[order[0]]) {
        slot_is_first(keys, order.drop_first(), item);
        assert forall|a: int| 0 <= a < slot(keys, order, item) implies !key_lt(
            keys[item],
            keys[#[trigger] order[a]],
        ) by {
            if a > 0 {
                assert(order[a] == order.drop_first()[a - 1]);
            }
        }
    }
}

/// Key order is transitive.
pub proof fn key_lt_transitive(a: SortKey, b: SortKey, c: SortKey)
    requires
        key_lt(a, b),
        key_lt(b, c),
    ensures
        key_lt(a, c),
{
    if a.keyless == b.keyless && b.keyless == c.keyless {
        lex_lt_transitive(a.text, b.text, c.text);
    }
}

/// What comes before `b` comes before whatever does not come before `b`.
pub proof fn key_lt_le(a: SortKey, b: SortKey, c: SortKey)
    requires
        key_lt(a, b),
        !key_lt(c, b),
    ensures
        key_lt(a, c),
{
    lex_lt_total(b.text, c.text);
    if key_lt(b, c) {
        key_lt_transitive(a, b, c);
    }
}

/// The written order holds every entry once, sorted by key, with entries of
/// the same key in the order in which they stand.
pub proof fn stable_order_sorts(keys: Seq<SortKey>, n: int)
    requires
        0 <= n <= keys.len(),
    ensures
        sorts(keys, stable_order(keys, n), n),
    decreases n,
{
    if n > 0 {
        let before = stable_order(keys, n - 1);
        stable_order_sorts(keys, n - 1);
        slot_is_first(keys, before, n - 1);
        let p = slot(keys, before, n - 1);
        let after = before.insert(p, n - 1);
        assert forall|a: int, b: int| 0 <= a < b < after.len() implies written_before(
            keys,
            #[trigger] after[a],
            #[trigger] after[b],
        ) by {
            if b < p {
                assert(after[a] == before[a] && after[b] == before[b]);
            } else if b == p {
                assert(after[a] == before[a]);
                assert(!key_lt(keys[n - 1], keys[before[a]]));
            } else if a < p {
                assert(after[a] == before[a] && after[b] == before[b - 1]);
            } else if a == p {
                assert(after[b] == before[b - 1]);
                if b - 1 > p {
                    assert(written_before(keys, before[p], before[b - 1]));
                    lex_lt_total(keys[before[p]].text, keys[before[b - 1]].text);
                    key_lt_le(keys[n - 1], keys[before[p]], keys[before[b - 1]]);
                }
            } else {
                assert(after[a] == before[a - 1] && after[b] == before[b - 1]);
            }
        }
        assert forall|i: int| 0 <= i < n implies #[trigger] after.contains(i) by {
            if i == n - 1 {
                assert(after[p] == i);
            } else {
                assert(before.contains(i));
                let k = choose|k: int| 0 <= k < before.len() && before[k] == i;
                if k < p {
                    assert(after[k] == i);
                } else {
                    assert(after[k + 1] == i);
                }
            }
        }
        assert forall|a: int| 0 <= a < after.len() implies 0 <= #[trigger] after[a] < n by {
            if a < p {
                assert(after[a] == before[a]);
            } else if a > p {
                assert(after[a] == before[a - 1]);
            }
        }
    }
}

/// What an entry is sorted by, as it is handed to `sort_order`.
#[derive(Debug, Clone, PartialEq, Eq)]
pub struct EntryKey {
    pub keyless: bool,
    pub text: String,
}

/// The keys as the contracts see them.
pub open spec fn sort_keys(keys: Seq<EntryKey>) -> Seq<SortKey> {
    Seq::new(keys.len(), |i: int| SortKey { keyless: keys[i].keyless, text: vstd::utf8::encode_utf8(keys[i].text@) })
}

/// The positions as the contracts see them.
pub open spec fn positions(order: Seq<usize>) -> Seq<int> {
    Seq::new(order.len(), |i: int| order[i] as int)
}

/// Whether an entry sorted by `a` is written before one sorted by `b`.
fn key_before(a: &EntryKey, b: &EntryKey) -> (lt: bool)
    ensures
        lt == key_lt(
            SortKey { keyless: a.keyless, text: vstd::utf8::encode_utf8(a.text@) },
            SortKey { keyless: b.keyless, text: vstd::utf8::encode_utf8(b.text@) },
        ),
{
    if a.keyless == b.keyless {
        text_lt(a.text.as_str(), b.text.as_str())
    } else {
        !a.keyless
    }
}

/// The order in which the entries with the keys `keys` are written.
pub fn sort_order(keys: &Vec<EntryKey>) -> (order: Vec<usize>)
    ensures
        positions(order@) == stable_order(sort_keys(keys@), keys@.len() as int),
{
    let ghost all = sort_keys(keys@);
    let mut order: Vec<usize> = Vec::new();
    let mut i: usize = 0;
    assert(positions(order@) =~= stable_order(all, 0));
    while i < keys.len()
        invariant
            i <= keys.len(),
            all == sort_keys(keys@),
            positions(order@) == stable_order(all, i as int),
        decreases keys.len() - i,
    {
        proof {
            stable_order_sorts(all, i as int);
        }
        let ghost before = positions(order@);
        let mut p: usize = 0;
        assert(before.skip(0) =~= before);
        while p < order.len() && !key_before(&keys[i], &keys[order[p]])
            invariant
                p <= order.len(),
                i < keys.len(),
                all == sort_keys(keys@),
                before == positions(order@),
                sorts(all, before, i as int),
                slot(all, before, i as int) == p + slot(all, before.skip(p as int), i as int),
            decreases order.len() - p,
        {
            proof {
                let tail = before.skip(p as int);
                assert(tail[0] == before[p as int]);
                assert(tail.drop_first() =~= before.skip(p + 1));
            }
            p += 1;
        }
        proof {
            let tail = before.skip(p as int);
            if p < order.len() {
                assert(tail[0] == before[p as int]);
            } else {
                assert(tail.len() == 0);
            }
            assert(slot(all, before, i as int) == p);
        }
        order.insert(p, i);
        assert(positions(order@) =~= before.insert(p as int, i as int));
        i += 1;
    }
    order
}

} // verus!
