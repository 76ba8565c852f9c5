//! Byte-lexicographic order on keys, the order in which the engine keeps its
//! entries and on which prefix scans rely.

use vstd::prelude::*;

verus! {

/// The first `k` bytes of `a` and `b` exist and are the same.
pub open spec fn agree_below(a: Seq<u8>, b: Seq<u8>, k: int) -> bool {
    &&& 0 <= k <= a.len()
    &&& k <= b.len()
    &&& forall|i: int| 0 <= i < k ==> #[trigger] a[i] == b[i]
}

/// `a` and `b` agree on their first `k` bytes, and at position `k` either `a`
/// has ended while `b` goes on, or `a` holds the smaller byte.
pub open spec fn lt_at(a: Seq<u8>, b: Seq<u8>, k: int) -> bool {
    &&& agree_below(a, b, k)
    &&& k < b.len()
    &&& (k == a.len() || a[k] < b[k])
}

/// `a` sorts strictly before `b` in byte-lexicographic order.
pub open spec fn lex_lt(a: Seq<u8>, b: Seq<u8>) -> bool {
    exists|k: int| lt_at(a, b, k)
}

/// `a` sorts before `b`, or is the same key.
pub open spec fn lex_le(a: Seq<u8>, b: Seq<u8>) -> bool {
    a == b || lex_lt(a, b)
}

/// How one key stands to another.
#[derive(Clone, Copy, Debug, PartialEq, Eq, Structural)]
pub enum KeyOrder {
    Before,
    Same,
    After,
}

/// No key sorts before itself, and no two keys sort before each other.
pub proof fn lemma_lex_lt_asymmetric(a: Seq<u8>, b: Seq<u8>)
    requires
        lex_lt(a, b),
    ensures
        !lex_lt(b, a),
        a != b,
{
    let k = choose|k: int| lt_at(a, b, k);
    if lex_lt(b, a) {
        let j = choose|j: int| lt_at(b, a, j);
        if j < k {
            assert(a[j] == b[j]);
        } else if k < j {
            assert(b[k] == a[k]);
        }
    }
}

/// The order is transitive.
pub proof fn lemma_lex_lt_transitive(a: Seq<u8>, b: Seq<u8>, c: Seq<u8>)
    requires
        lex_lt(a, b),
        lex_lt(b, c),
    ensures
        lex_lt(a, c),
{
    let k = choose|k: int| lt_at(a, b, k);
    let j = choose|j: int| lt_at(b, c, j);
    let m = if k <= j { k } else { j };
    assert forall|i: int| 0 <= i < m implies #[trigger] a[i] == c[i] by {
        assert(a[i] == b[i]);
        assert(b[i] == c[i]);
    }
    if j < k {
        assert(a[j] == b[j]);
    } else if k < j {
        assert(b[k] == c[k]);
    }
    assert(lt_at(a, c, m));
}

/// Of two different keys one sorts before the other.
pub proof fn lemma_lex_total(a: Seq<u8>, b: Seq<u8>)
    ensures
        a == b || lex_lt(a, b) || lex_lt(b, a),
    decreases a.len() + b.len(),
{
    if a.len() == 0 || b.len() == 0 {
        if a.len() == 0 && b.len() == 0 {
            assert(a =~= b);
        } else if a.len() == 0 {
            assert(lt_at(a, b, 0));
        } else {
            assert(lt_at(b, a, 0));
        }
    } else if a[0] < b[0] {
        assert(lt_at(a, b, 0));
    } else if b[0] < a[0] {
        assert(lt_at(b, a, 0));
    } else {
        let x = a.drop_first();
        let y = b.drop_first();
        lemma_lex_total(x, y);
        if x == y {
            assert(a =~= seq![a[0]] + x);
            assert(b =~= seq![b[0]] + y);
        } else if lex_lt(x, y) {
            let k = choose|k: int| lt_at(x, y, k);
            assert forall|i: int| 0 <= i < k + 1 implies #[trigger] a[i] == b[i] by {
                if i > 0 {
                    assert(x[i - 1] == y[i - 1]);
                }
            }
            assert(k < x.len() ==> x[k] == a[k + 1]);
            assert(y[k] == b[k + 1]);
            assert(lt_at(a, b, k + 1));
        } else {
            let k = choose|k: int| lt_at(y, x, k);
            assert forall|i: int| 0 <= i < k + 1 implies #[trigger] b[i] == a[i] by {
                if i > 0 {
                    assert(y[i - 1] == x[i - 1]);
                }
            }
            assert(k < y.len() ==> y[k] == b[k + 1]);
            assert(x[k] == a[k + 1]);
            assert(lt_at(b, a, k + 1));
        }
    }
}

/// `lex_le` is transitive as well.
pub proof fn lemma_lex_le_transitive(a: Seq<u8>, b: Seq<u8>, c: Seq<u8>)
    requires
        lex_le(a, b),
        lex_le(b, c),
    ensures
        lex_le(a, c),
{
    if a != b && b != c {
        lemma_lex_lt_transitive(a, b, c);
    }
}

/// A key that starts with `prefix` never sorts before `prefix`.
pub proof fn lemma_prefixed_not_below(key: Seq<u8>, prefix: Seq<u8>)
    requires
        prefix.is_prefix_of(key),
    ensures
        !lex_lt(key, prefix),
{
    if lex_lt(key, prefix) {
        let k = choose|k: int| lt_at(key, prefix, k);
        assert(key.subrange(0, prefix.len() as int)[k] == key[k]);
    }
}

/// The keys that start with `prefix` lie together in the order: a key that
/// is not below `prefix` and sorts before a key with the prefix has the
/// prefix too.
pub proof fn lemma_prefix_range_convex(low: Seq<u8>, high: Seq<u8>, prefix: Seq<u8>)
    requires
        !lex_lt(low, prefix),
        lex_lt(low, high),
        prefix.is_prefix_of(high),
    ensures
        prefix.is_prefix_of(low),
{
    let k = choose|k: int| lt_at(low, high, k);
    let n = prefix.len() as int;
    assert forall|i: int| 0 <= i < n implies #[trigger] high[i] == prefix[i] by {
        assert(high.subrange(0, n)[i] == high[i]);
    }
    if k < n {
        assert forall|i: int| 0 <= i < k implies #[trigger] low[i] == prefix[i] by {
            assert(low[i] == high[i]);
        }
        assert(lt_at(low, prefix, k));
    } else {
        assert forall|i: int| 0 <= i < n implies #[trigger] low[i] == prefix[i] by {
            assert(low[i] == high[i]);
        }
        assert(low.subrange(0, n) =~= prefix);
    }
}

/// Compares two keys byte by byte.
pub fn key_order(a: &[u8], b: &[u8]) -> (order: KeyOrder)
    ensures
        order == KeyOrder::Before <==> lex_lt(a@, b@),
        order == KeyOrder::Same <==> a@ == b@,
        order == KeyOrder::After <==> lex_lt(b@, a@),
{
    let mut i: usize = 0;
    while i < a.len() && i < b.len()
        invariant
            agree_below(a@, b@, i as int),
        decreases a.len() - i,
    {
        if a[i] < b[i] {
            proof {
                assert(lt_at(a@, b@, i as int));
                lemma_lex_lt_asymmetric(a@, b@);
            }
            return KeyOrder::Before;
        }
        if b[i] < a[i] {
            proof {
                assert(agree_below(b@, a@, i as int));
                assert(lt_at(b@, a@, i as int));
                lemma_lex_lt_asymmetric(b@, a@);
            }
            return KeyOrder::After;
        }
        i += 1;
    }
    if i < b.len() {
        proof {
            assert(lt_at(a@, b@, i as int));
            lemma_lex_lt_asymmetric(a@, b@);
        }
        KeyOrder::Before
    } else if i < a.len() {
        proof {
            assert(agree_below(b@, a@, i as int));
            assert(lt_at(b@, a@, i as int));
            lemma_lex_lt_asymmetric(b@, a@);
        }
        KeyOrder::After
    } else {
        proof {
            assert(a@ =~= b@);
            if lex_lt(a@, b@) {
                lemma_lex_lt_asymmetric(a@, b@);
            }
            if lex_lt(b@, a@) {
                lemma_lex_lt_asymmetric(b@, a@);
            }
        }
        KeyOrder::Same
    }
}

/// Tells whether `key` begins with the bytes of `prefix`.
pub fn key_starts_with(key: &[u8], prefix: &[u8]) -> (found: bool)
    ensures
        found == prefix@.is_prefix_of(key@),
{
    if prefix.len() > key.len() {
        return false;
    }
    let mut i: usize = 0;
    while i < prefix.len()
        invariant
            i <= prefix.len() <= key.len(),
            forall|j: int| 0 <= j < i ==> #[trigger] key@[j] == prefix@[j],
        decreases prefix.len() - i,
    {
        if key[i] != prefix[i] {
            proof {
                assert(key@.subrange(0, prefix@.len() as int)[i as int] == key@[i as int]);
            }
            return false;
        }
        i += 1;
    }
    proof {
        assert(prefix@ =~= key@.subrange(0, prefix@.len() as int));
    }
    true
}

} // verus!
