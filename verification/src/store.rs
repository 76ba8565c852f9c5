//! The store as the scans and commits see it: its entries in ascending key
//! order, no key twice. The laws here say what a whole scan yields from such
//! a store, and what a committed batch leaves in it.

use vstd::prelude::*;
use crate::keys::{
    lemma_lex_lt_transitive, lemma_lex_total, lemma_prefix_range_convex,
    lemma_prefixed_not_below, lex_le, lex_lt,
};
use crate::rows::{entries_of, DBRow, Entry};
use crate::scan::scan_output;

verus! {

/// The entries stand in strictly ascending key order.
pub open spec fn strictly_ascending(store: Seq<Entry>) -> bool {
    forall|i: int, j: int|
        0 <= i < j < store.len() ==> lex_lt(#[trigger] store[i].0, #[trigger] store[j].0)
}

/// The entry's key starts with `prefix`.
pub open spec fn has_prefix(prefix: Seq<u8>) -> spec_fn(Entry) -> bool {
    |entry: Entry| prefix.is_prefix_of(entry.0)
}

/// The entry's key is `start` or sorts after it.
pub open spec fn not_below(start: Seq<u8>) -> spec_fn(Entry) -> bool {
    |entry: Entry| !lex_lt(entry.0, start)
}

/// The entry's key is `bound` or sorts before it.
pub open spec fn not_above(bound: Seq<u8>) -> spec_fn(Entry) -> bool {
    |entry: Entry| lex_le(entry.0, bound)
}

/// What a forward cursor hands out after a seek to `start`: the entries
/// from the first key at or after `start` on, ascending.
pub open spec fn forward_cursor(store: Seq<Entry>, start: Seq<u8>) -> Seq<Entry> {
    store.filter(not_below(start))
}

/// What a backward cursor hands out after a seek to the last key at or
/// before `bound`: the entries from that key down, descending.
pub open spec fn reverse_cursor(store: Seq<Entry>, bound: Seq<u8>) -> Seq<Entry> {
    store.filter(not_above(bound)).reverse()
}

/// `bound` closes the range of `prefix` in `store`: every key with the
/// prefix is at or before it, and every other key at or before it lies
/// below the prefix.
pub open spec fn bounds_prefix(store: Seq<Entry>, prefix: Seq<u8>, bound: Seq<u8>) -> bool {
    forall|i: int|
        0 <= i < store.len() ==> {
            &&& prefix.is_prefix_of((#[trigger] store[i]).0) ==> lex_le(store[i].0, bound)
            &&& lex_le(store[i].0, bound) && !prefix.is_prefix_of(store[i].0) ==> lex_lt(
                store[i].0,
                prefix,
            )
        }
}

proof fn lemma_filter_none(s: Seq<Entry>, pred: spec_fn(Entry) -> bool)
    requires
        forall|i: int| 0 <= i < s.len() ==> !pred(#[trigger] s[i]),
    ensures
        s.filter(pred) == Seq::<Entry>::empty(),
    decreases s.len(),
{
    reveal(Seq::filter);
    if s.len() > 0 {
        lemma_filter_none(s.drop_last(), pred);
    }
}

proof fn lemma_filter_all(s: Seq<Entry>, pred: spec_fn(Entry) -> bool)
    requires
        forall|i: int| 0 <= i < s.len() ==> pred(#[trigger] s[i]),
    ensures
        s.filter(pred) == s,
    decreases s.len(),
{
    reveal(Seq::filter);
    if s.len() > 0 {
        lemma_filter_all(s.drop_last(), pred);
        assert(s.drop_last().push(s.last()) =~= s);
    }
}

/// Over ascending entries none of which lies below the prefix, stopping at
/// the first key without the prefix loses no key with it.
proof fn lemma_scan_from_prefix(prefix: Seq<u8>, cursor: Seq<Entry>)
    requires
        strictly_ascending(cursor),
        forall|i: int| 0 <= i < cursor.len() ==> !lex_lt((#[trigger] cursor[i]).0, prefix),
    ensures
        scan_output(prefix, cursor) == cursor.filter(has_prefix(prefix)),
    decreases cursor.len(),
{
    let pred = has_prefix(prefix);
    if cursor.len() == 0 {
        lemma_filter_none(cursor, pred);
    } else {
        let head = cursor[0];
        let tail = cursor.drop_first();
        assert(cursor =~= seq![head] + tail);
        tail.lemma_filter_prepend(head, pred);
        assert forall|i: int, j: int| 0 <= i < j < tail.len() implies lex_lt(
            #[trigger] tail[i].0,
            #[trigger] tail[j].0,
        ) by {
            assert(tail[i] == cursor[i + 1]);
            assert(tail[j] == cursor[j + 1]);
        }
        assert forall|i: int| 0 <= i < tail.len() implies !lex_lt(
            (#[trigger] tail[i]).0,
            prefix,
        ) by {
            assert(tail[i] == cursor[i + 1]);
        }
        if pred(head) {
            lemma_scan_from_prefix(prefix, tail);
        } else {
            assert forall|i: int| 0 <= i < tail.len() implies !pred(#[trigger] tail[i]) by {
                assert(tail[i] == cursor[i + 1]);
                if prefix.is_prefix_of(tail[i].0) {
                    lemma_prefix_range_convex(head.0, tail[i].0, prefix);
                }
            }
            lemma_filter_none(tail, pred);
            assert(cursor.filter(pred) =~= Seq::<Entry>::empty());
        }
    }
}

/// A forward scan over `prefix`, begun with a seek to the prefix itself,
/// yields exactly the entries of the store whose key starts with the
/// prefix, in the store's ascending order, and nothing else.
pub proof fn lemma_forward_scan_exact(store: Seq<Entry>, prefix: Seq<u8>)
    requires
        strictly_ascending(store),
    ensures
        scan_output(prefix, forward_cursor(store, prefix)) == store.filter(has_prefix(prefix)),
    decreases store.len(),
{
    let wanted = has_prefix(prefix);
    let reached = not_below(prefix);
    if store.len() == 0 {
        lemma_filter_none(store, wanted);
        lemma_filter_none(store, reached);
    } else {
        let head = store[0];
        let tail = store.drop_first();
        assert(store =~= seq![head] + tail);
        tail.lemma_filter_prepend(head, wanted);
        tail.lemma_filter_prepend(head, reached);
        assert forall|i: int, j: int| 0 <= i < j < tail.len() implies lex_lt(
            #[trigger] tail[i].0,
            #[trigger] tail[j].0,
        ) by {
            assert(tail[i] == store[i + 1]);
            assert(tail[j] == store[j + 1]);
        }
        if lex_lt(head.0, prefix) {
            if prefix.is_prefix_of(head.0) {
                lemma_prefixed_not_below(head.0, prefix);
            }
            lemma_forward_scan_exact(tail, prefix);
            assert(store.filter(reached) =~= tail.filter(reached));
            assert(store.filter(wanted) =~= tail.filter(wanted));
        } else {
            assert forall|i: int| 0 <= i < store.len() implies !lex_lt(
                (#[trigger] store[i]).0,
                prefix,
            ) by {
                if 0 < i && lex_lt(store[i].0, prefix) {
                    lemma_lex_lt_transitive(head.0, store[i].0, prefix);
                }
            }
            lemma_filter_all(store, reached);
            lemma_scan_from_prefix(prefix, store);
        }
    }
}

/// What is picked from ascending entries ascends, and comes from them.
proof fn lemma_filter_keeps_order(store: Seq<Entry>, pred: spec_fn(Entry) -> bool)
    requires
        strictly_ascending(store),
    ensures
        strictly_ascending(store.filter(pred)),
        forall|i: int|
            0 <= i < store.filter(pred).len() ==> store.contains(#[trigger] store.filter(pred)[i]),
    decreases store.len(),
{
    reveal(Seq::filter);
    if store.len() > 0 {
        let init = store.drop_last();
        let kept = init.filter(pred);
        assert forall|i: int, j: int| 0 <= i < j < init.len() implies lex_lt(
            #[trigger] init[i].0,
            #[trigger] init[j].0,
        ) by {
            assert(init[i] == store[i]);
            assert(init[j] == store[j]);
        }
        lemma_filter_keeps_order(init, pred);
        assert forall|i: int| 0 <= i < kept.len() implies store.contains(#[trigger] kept[i])
            && lex_lt(kept[i].0, store.last().0) by {
            assert(init.contains(kept[i]));
            let k = choose|k: int| 0 <= k < init.len() && init[k] == kept[i];
            assert(store[k] == kept[i]);
        }
        let out = store.filter(pred);
        assert forall|i: int| 0 <= i < out.len() implies store.contains(#[trigger] out[i]) by {
            if i < kept.len() {
                assert(out[i] == kept[i]);
            } else {
                assert(out[i] == store[store.len() - 1]);
            }
        }
        assert forall|i: int, j: int| 0 <= i < j < out.len() implies lex_lt(
            #[trigger] out[i].0,
            #[trigger] out[j].0,
        ) by {
            assert(out[i] == kept[i]);
            if j < kept.len() {
                assert(out[j] == kept[j]);
            }
        }
    }
}

/// What a forward scan over `prefix` yields ascends by key, every entry of
/// it starts with the prefix, and an entry is among it exactly when the
/// store holds it and its key starts with the prefix.
pub proof fn lemma_forward_scan_sound_and_complete(store: Seq<Entry>, prefix: Seq<u8>)
    requires
        strictly_ascending(store),
    ensures
        strictly_ascending(scan_output(prefix, forward_cursor(store, prefix))),
        forall|entry: Entry|
            #[trigger] scan_output(prefix, forward_cursor(store, prefix)).contains(entry) <==> (
            store.contains(entry) && prefix.is_prefix_of(entry.0)),
{
    let wanted = has_prefix(prefix);
    let out = scan_output(prefix, forward_cursor(store, prefix));
    lemma_forward_scan_exact(store, prefix);
    lemma_filter_keeps_order(store, wanted);
    assert forall|entry: Entry| #[trigger] out.contains(entry) <==> (store.contains(entry)
        && prefix.is_prefix_of(entry.0)) by {
        if out.contains(entry) {
            let i = choose|i: int| 0 <= i < out.len() && out[i] == entry;
            store.lemma_filter_pred(wanted, i);
            assert(store.contains(out[i]));
        }
        if store.contains(entry) && prefix.is_prefix_of(entry.0) {
            let k = choose|k: int| 0 <= k < store.len() && store[k] == entry;
            store.lemma_filter_contains(wanted, k);
        }
    }
}

/// A forward scan begun at a key that is not below the prefix, such as the
/// key at which an earlier scan stopped, yields exactly the entries at or
/// after that key whose key starts with the prefix.
pub proof fn lemma_forward_scan_from_start(store: Seq<Entry>, prefix: Seq<u8>, start: Seq<u8>)
    requires
        strictly_ascending(store),
        !lex_lt(start, prefix),
    ensures
        scan_output(prefix, forward_cursor(store, start)) == forward_cursor(store, start).filter(
            has_prefix(prefix),
        ),
{
    let cursor = forward_cursor(store, start);
    lemma_filter_keeps_order(store, not_below(start));
    assert forall|i: int| 0 <= i < cursor.len() implies !lex_lt(
        (#[trigger] cursor[i]).0,
        prefix,
    ) by {
        store.lemma_filter_pred(not_below(start), i);
        if lex_lt(cursor[i].0, prefix) && prefix != start {
            lemma_lex_total(prefix, start);
            lemma_lex_lt_transitive(cursor[i].0, prefix, start);
        }
    }
    lemma_scan_from_prefix(prefix, cursor);
}

proof fn lemma_reverse_push(s: Seq<Entry>, last: Entry)
    ensures
        s.push(last).reverse() == seq![last] + s.reverse(),
{
    assert(s.push(last).reverse() =~= seq![last] + s.reverse());
}

/// A reverse scan over `prefix` from a bound that closes the prefix's range
/// yields the entries whose key starts with the prefix, last key first.
pub proof fn lemma_reverse_scan_exact(store: Seq<Entry>, prefix: Seq<u8>, bound: Seq<u8>)
    requires
        strictly_ascending(store),
        bounds_prefix(store, prefix, bound),
    ensures
        scan_output(prefix, reverse_cursor(store, bound)) == store.filter(
            has_prefix(prefix),
        ).reverse(),
    decreases store.len(),
{
    let wanted = has_prefix(prefix);
    let reached = not_above(bound);
    reveal(Seq::filter);
    if store.len() > 0 {
        let last = store.last();
        let init = store.drop_last();
        assert(last == store[store.len() - 1]);
        assert forall|i: int, j: int| 0 <= i < j < init.len() implies lex_lt(
            #[trigger] init[i].0,
            #[trigger] init[j].0,
        ) by {
            assert(init[i] == store[i]);
            assert(init[j] == store[j]);
        }
        assert forall|i: int| 0 <= i < init.len() implies {
            &&& prefix.is_prefix_of((#[trigger] init[i]).0) ==> lex_le(init[i].0, bound)
            &&& lex_le(init[i].0, bound) && !prefix.is_prefix_of(init[i].0) ==> lex_lt(
                init[i].0,
                prefix,
            )
        } by {
            assert(init[i] == store[i]);
        }
        if !reached(last) {
            lemma_reverse_scan_exact(init, prefix, bound);
        } else if wanted(last) {
            lemma_reverse_scan_exact(init, prefix, bound);
            let below = init.filter(reached);
            let found = init.filter(wanted);
            lemma_reverse_push(below, last);
            lemma_reverse_push(found, last);
            let cursor = below.push(last).reverse();
            assert(cursor[0] == last);
            assert(cursor.drop_first() =~= below.reverse());
        } else {
            assert(lex_lt(last.0, prefix));
            assert forall|i: int| 0 <= i < store.len() implies !wanted(#[trigger] store[i]) by {
                if i < store.len() - 1 {
                    lemma_lex_lt_transitive(store[i].0, last.0, prefix);
                }
                if prefix.is_prefix_of(store[i].0) {
                    lemma_prefixed_not_below(store[i].0, prefix);
                }
            }
            lemma_filter_none(store, wanted);
            let below = init.filter(reached);
            lemma_reverse_push(below, last);
            let cursor = below.push(last).reverse();
            assert(cursor[0] == last);
        }
    }
}

/// From a bound that closes the prefix's range, the reverse scan yields
/// what the forward scan yields, in the opposite order.
pub proof fn lemma_reverse_scan_mirrors_forward(
    store: Seq<Entry>,
    prefix: Seq<u8>,
    bound: Seq<u8>,
)
    requires
        strictly_ascending(store),
        bounds_prefix(store, prefix, bound),
    ensures
        scan_output(prefix, reverse_cursor(store, bound)) == scan_output(
            prefix,
            forward_cursor(store, prefix),
        ).reverse(),
{
    lemma_forward_scan_exact(store, prefix);
    lemma_reverse_scan_exact(store, prefix, bound);
}

/// What the store holds, key by key.
pub type Contents = Map<Seq<u8>, Seq<u8>>;

/// A point lookup: the value under `key`, or `None` where there is none.
/// An empty value is a value.
pub open spec fn store_get(contents: Contents, key: Seq<u8>) -> Option<Seq<u8>> {
    if contents.contains_key(key) {
        Some(contents[key])
    } else {
        None
    }
}

/// The store after a single upsert.
pub open spec fn store_put(contents: Contents, key: Seq<u8>, value: Seq<u8>) -> Contents {
    contents.insert(key, value)
}

/// The store after one committed batch: every entry of the batch is put, in
/// the batch's order, so that of two entries with one key the later stays.
pub open spec fn store_write(contents: Contents, batch: Seq<Entry>) -> Contents
    decreases batch.len(),
{
    if batch.len() == 0 {
        contents
    } else {
        store_write(contents, batch.drop_last()).insert(batch.last().0, batch.last().1)
    }
}

/// After a put, a lookup of the key gives the value that was put, and a
/// lookup of any other key gives what it gave before.
pub proof fn lemma_put_then_get(contents: Contents, key: Seq<u8>, value: Seq<u8>, other: Seq<u8>)
    ensures
        store_get(store_put(contents, key, value), key) == Some(value),
        other != key ==> store_get(store_put(contents, key, value), other) == store_get(
            contents,
            other,
        ),
{
}

/// After a commit, a lookup of an entry's key gives that entry's value,
/// unless the batch holds the key again further on.
pub proof fn lemma_write_then_get(contents: Contents, batch: Seq<Entry>, i: int)
    requires
        0 <= i < batch.len(),
        forall|j: int| i < j < batch.len() ==> (#[trigger] batch[j]).0 != batch[i].0,
    ensures
        store_get(store_write(contents, batch), batch[i].0) == Some(batch[i].1),
    decreases batch.len(),
{
    if i < batch.len() - 1 {
        let init = batch.drop_last();
        assert(init[i] == batch[i]);
        assert forall|j: int| i < j < init.len() implies (#[trigger] init[j]).0 != init[i].0 by {
            assert(init[j] == batch[j]);
        }
        lemma_write_then_get(contents, init, i);
        assert(batch.last() == batch[batch.len() - 1]);
    }
}

/// A commit leaves every key that the batch does not hold as it was.
pub proof fn lemma_write_keeps_other_keys(contents: Contents, batch: Seq<Entry>, key: Seq<u8>)
    requires
        forall|j: int| 0 <= j < batch.len() ==> (#[trigger] batch[j]).0 != key,
    ensures
        store_get(store_write(contents, batch), key) == store_get(contents, key),
    decreases batch.len(),
{
    if batch.len() > 0 {
        let init = batch.drop_last();
        assert forall|j: int| 0 <= j < init.len() implies (#[trigger] init[j]).0 != key by {
            assert(init[j] == batch[j]);
        }
        lemma_write_keeps_other_keys(contents, init, key);
        assert(batch.last() == batch[batch.len() - 1]);
    }
}

/// After a commit the store holds a value under every key of the batch.
pub proof fn lemma_write_covers_batch(contents: Contents, batch: Seq<Entry>, i: int)
    requires
        0 <= i < batch.len(),
    ensures
        store_write(contents, batch).contains_key(batch[i].0),
    decreases batch.len(),
{
    if i < batch.len() - 1 {
        let init = batch.drop_last();
        assert(init[i] == batch[i]);
        lemma_write_covers_batch(contents, init, i);
    }
}

/// A row whose key no other row of the batch has keeps that standing in any
/// reordering of the batch.
proof fn lemma_single_key_in_reordering(rows: Seq<DBRow>, sorted: Seq<DBRow>, i: int) -> (at: int)
    requires
        0 <= i < rows.len(),
        sorted.to_multiset() == rows.to_multiset(),
        forall|j: int| 0 <= j < rows.len() && j != i ==> (#[trigger] rows[j]).key@ != rows[i].key@,
    ensures
        0 <= at < sorted.len(),
        sorted[at] == rows[i],
        forall|m: int|
            0 <= m < sorted.len() && m != at ==> (#[trigger] sorted[m]).key@ != rows[i].key@,
{
    broadcast use vstd::multiset::group_multiset_axioms;

    let row = rows[i];
    rows.to_multiset_ensures();
    sorted.to_multiset_ensures();
    assert(rows.contains(row));
    assert(rows.to_multiset().count(row) > 0);
    assert(sorted.to_multiset().count(row) > 0);
    assert(sorted.contains(row));
    let at = choose|at: int| 0 <= at < sorted.len() && sorted[at] == row;
    assert forall|m: int| 0 <= m < sorted.len() && m != at implies (#[trigger] sorted[m]).key@
        != row.key@ by {
        if sorted[m].key@ == row.key@ {
            assert(sorted.contains(sorted[m]));
            assert(sorted.to_multiset().count(sorted[m]) > 0);
            assert(rows.to_multiset().count(sorted[m]) > 0);
            assert(rows.contains(sorted[m]));
            let n = choose|n: int| 0 <= n < rows.len() && rows[n] == sorted[m];
            assert(n == i);
            let others = sorted.remove(at);
            others.to_multiset_ensures();
            let shifted = if m < at { m } else { m - 1 };
            assert(others[shifted] == row);
            assert(others.contains(row));
            assert(others.to_multiset().count(row) > 0);
            assert(others.to_multiset() =~= sorted.to_multiset().remove(row));
            assert(sorted.to_multiset().count(row) >= 2);
            let rest = rows.remove(i);
            rest.to_multiset_ensures();
            if rest.contains(row) {
                let t = choose|t: int| 0 <= t < rest.len() && rest[t] == row;
                let from = if t < i { t } else { t + 1 };
                assert(rest[t] == rows[from]);
            }
            assert(rest.to_multiset().count(row) == 0);
            assert(rest.to_multiset() =~= rows.to_multiset().remove(row));
            assert(rows.to_multiset().count(row) == 1);
        }
    }
    at
}

/// A written row is read back: after the rows of a batch have been put in
/// key order and committed, a lookup of a row's key gives that row's value,
/// for every row whose key no other row of the batch has.
pub proof fn lemma_written_row_is_read(
    contents: Contents,
    rows: Seq<DBRow>,
    sorted: Seq<DBRow>,
    i: int,
)
    requires
        0 <= i < rows.len(),
        sorted.to_multiset() == rows.to_multiset(),
        forall|j: int| 0 <= j < rows.len() && j != i ==> (#[trigger] rows[j]).key@ != rows[i].key@,
    ensures
        store_get(store_write(contents, entries_of(sorted)), rows[i].key@) == Some(rows[i].value@),
{
    let at = lemma_single_key_in_reordering(rows, sorted, i);
    let batch = entries_of(sorted);
    assert(batch[at] == rows[i]@);
    assert forall|j: int| at < j < batch.len() implies (#[trigger] batch[j]).0 != batch[at].0 by {
        assert(batch[j] == sorted[j]@);
    }
    lemma_write_then_get(contents, batch, at);
}

} // verus!
