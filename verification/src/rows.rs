//! Rows, and the preparation of a batch of rows for one atomic commit.

use vstd::prelude::*;
use vstd::seq_lib::*;
use crate::keys::{key_order, lemma_lex_le_transitive, lex_le, KeyOrder};

verus! {

/// A key and a value as plain byte sequences.
pub type Entry = (Seq<u8>, Seq<u8>);

/// The elementary persisted unit: an exact key and an exact value.
#[derive(Debug, Eq, PartialEq, Clone)]
pub struct DBRow {
    pub key: Vec<u8>,
    pub value: Vec<u8>,
}

impl View for DBRow {
    type V = Entry;

    open spec fn view(&self) -> Entry {
        (self.key@, self.value@)
    }
}

/// Whether a batch is made durable before the commit returns.
#[derive(Copy, Clone, Debug, PartialEq, Eq, Structural)]
pub enum DBFlush {
    Disable,
    Enable,
}

/// What the engine is told of one commit.
#[derive(Copy, Clone, Debug, PartialEq, Eq, Structural)]
pub struct WriteMode {
    /// Wait until the commit has reached stable storage.
    pub sync: bool,
    /// Leave the write-ahead log out of this commit.
    pub disable_wal: bool,
}

impl DBFlush {
    /// `Enable` asks for a synchronous commit through the write-ahead log;
    /// `Disable` for neither.
    pub open spec fn spec_write_mode(self) -> WriteMode {
        match self {
            DBFlush::Enable => WriteMode { sync: true, disable_wal: false },
            DBFlush::Disable => WriteMode { sync: false, disable_wal: true },
        }
    }

    pub fn write_mode(self) -> (mode: WriteMode)
        ensures
            mode == self.spec_write_mode(),
    {
        match self {
            DBFlush::Enable => WriteMode { sync: true, disable_wal: false },
            DBFlush::Disable => WriteMode { sync: false, disable_wal: true },
        }
    }
}

/// Why the engine could not look one key up. A batched lookup reports it
/// for that key alone.
#[derive(Copy, Clone, Debug, PartialEq, Eq, Structural)]
pub enum LookupFailure {
    /// The storage underneath could not be read.
    Io,
    /// What was read is damaged.
    Corruption,
    /// Any other failure of the engine.
    Other,
}

/// The plain entries of a sequence of rows, in the same order.
pub open spec fn entries_of(rows: Seq<DBRow>) -> Seq<Entry> {
    rows.map_values(|row: DBRow| row@)
}

/// Every row's key is at or after the key of each row before it.
pub open spec fn keys_ascending(rows: Seq<DBRow>) -> bool {
    forall|i: int, j: int|
        0 <= i < j < rows.len() ==> lex_le(#[trigger] rows[i].key@, #[trigger] rows[j].key@)
}

/// Every row's key is at or before the key of each row before it.
pub open spec fn keys_descending(rows: Seq<DBRow>) -> bool {
    forall|i: int, j: int|
        0 <= i < j < rows.len() ==> lex_le(#[trigger] rows[j].key@, #[trigger] rows[i].key@)
}

/// Merges two runs of ascending keys into one, greatest key first.
fn merge_descending(left: Vec<DBRow>, right: Vec<DBRow>) -> (merged: Vec<DBRow>)
    requires
        keys_ascending(left@),
        keys_ascending(right@),
    ensures
        keys_descending(merged@),
        merged@.to_multiset() == left@.to_multiset().add(right@.to_multiset()),
{
    let ghost total = left@.to_multiset().add(right@.to_multiset());
    let mut left = left;
    let mut right = right;
    let mut merged: Vec<DBRow> = Vec::new();
    proof {
        broadcast use vstd::multiset::group_multiset_axioms;
        merged@.to_multiset_ensures();
        vstd::multiset::lemma_multiset_empty_len(merged@.to_multiset());
        assert(merged@.to_multiset().add(left@.to_multiset()).add(right@.to_multiset()) =~= total);
    }
    while left.len() > 0 || right.len() > 0
        invariant
            keys_ascending(left@),
            keys_ascending(right@),
            keys_descending(merged@),
            merged@.len() > 0 && left@.len() > 0 ==> lex_le(left@.last().key@, merged@.last().key@),
            merged@.len() > 0 && right@.len() > 0 ==> lex_le(
                right@.last().key@,
                merged@.last().key@,
            ),
            merged@.to_multiset().add(left@.to_multiset()).add(right@.to_multiset()) == total,
        decreases left.len() + right.len(),
    {
        let from_left = if left.len() == 0 {
            false
        } else if right.len() == 0 {
            true
        } else {
            !matches!(
                key_order(
                    left[left.len() - 1].key.as_slice(),
                    right[right.len() - 1].key.as_slice(),
                ),
                KeyOrder::Before
            )
        };
        let ghost before = merged@;
        let ghost left_before = left@;
        let ghost right_before = right@;
        let row = if from_left {
            left.pop().unwrap()
        } else {
            right.pop().unwrap()
        };
        proof {
            broadcast use vstd::multiset::group_multiset_axioms;
            assert(left@.len() > 0 ==> left@.last() == left_before[left@.len() - 1]);
            assert(right@.len() > 0 ==> right@.last() == right_before[right@.len() - 1]);
            assert(left@.len() > 0 ==> lex_le(left@.last().key@, row.key@));
            assert(right@.len() > 0 ==> lex_le(right@.last().key@, row.key@));
            assert forall|i: int| 0 <= i < before.len() implies lex_le(
                row.key@,
                #[trigger] before[i].key@,
            ) by {
                if i < before.len() - 1 {
                    lemma_lex_le_transitive(row.key@, before.last().key@, before[i].key@);
                }
            }
            if from_left {
                assert(left_before =~= left@.push(row));
                to_multiset_build(left@, row);
            } else {
                assert(right_before =~= right@.push(row));
                to_multiset_build(right@, row);
            }
            to_multiset_build(before, row);
            assert(before.push(row).to_multiset().add(left@.to_multiset()).add(
                right@.to_multiset(),
            ) =~= before.to_multiset().add(left_before.to_multiset()).add(
                right_before.to_multiset(),
            ));
        }
        merged.push(row);
    }
    proof {
        broadcast use vstd::multiset::group_multiset_axioms;
        left@.to_multiset_ensures();
        right@.to_multiset_ensures();
        vstd::multiset::lemma_multiset_empty_len(left@.to_multiset());
        vstd::multiset::lemma_multiset_empty_len(right@.to_multiset());
        assert(merged@.to_multiset() =~= total);
    }
    merged
}

/// Turns a run of descending keys round.
fn reversed(rows: Vec<DBRow>) -> (turned: Vec<DBRow>)
    requires
        keys_descending(rows@),
    ensures
        keys_ascending(turned@),
        turned@.to_multiset() == rows@.to_multiset(),
{
    let ghost total = rows@.to_multiset();
    let mut rest = rows;
    let mut turned: Vec<DBRow> = Vec::new();
    proof {
        broadcast use vstd::multiset::group_multiset_axioms;
        turned@.to_multiset_ensures();
        vstd::multiset::lemma_multiset_empty_len(turned@.to_multiset());
        assert(turned@.to_multiset().add(rest@.to_multiset()) =~= total);
    }
    while rest.len() > 0
        invariant
            keys_descending(rest@),
            keys_ascending(turned@),
            forall|i: int, k: int|
                0 <= i < turned@.len() && 0 <= k < rest@.len() ==> lex_le(
                    #[trigger] turned@[i].key@,
                    #[trigger] rest@[k].key@,
                ),
            turned@.to_multiset().add(rest@.to_multiset()) == total,
        decreases rest.len(),
    {
        let ghost before = rest@;
        let ghost done = turned@;
        let row = rest.pop().unwrap();
        proof {
            broadcast use vstd::multiset::group_multiset_axioms;
            assert(row == before[before.len() - 1]);
            assert forall|k: int| 0 <= k < rest@.len() implies lex_le(
                row.key@,
                #[trigger] rest@[k].key@,
            ) by {
                assert(rest@[k] == before[k]);
            }
            assert forall|i: int, k: int|
                0 <= i < done.len() && 0 <= k < rest@.len() implies lex_le(
                #[trigger] done[i].key@,
                #[trigger] rest@[k].key@,
            ) by {
                assert(rest@[k] == before[k]);
            }
            assert(before =~= rest@.push(row));
            to_multiset_build(rest@, row);
            to_multiset_build(done, row);
            assert(done.push(row).to_multiset().add(rest@.to_multiset()) =~= done.to_multiset().add(
                before.to_multiset(),
            ));
        }
        turned.push(row);
    }
    proof {
        broadcast use vstd::multiset::group_multiset_axioms;
        rest@.to_multiset_ensures();
        vstd::multiset::lemma_multiset_empty_len(rest@.to_multiset());
        assert(turned@.to_multiset() =~= total);
    }
    turned
}

/// Puts the rows of a batch in ascending key order. The rows themselves are
/// kept, each as often as it was given; rows of one key stay next to each
/// other, in no promised order.
pub fn sort_rows(rows: Vec<DBRow>) -> (sorted: Vec<DBRow>)
    ensures
        keys_ascending(sorted@),
        sorted@.to_multiset() == rows@.to_multiset(),
        sorted@.len() == rows@.len(),
    decreases rows@.len(),
{
    let ghost given = rows@;
    proof {
        given.to_multiset_ensures();
    }
    if rows.len() <= 1 {
        return rows;
    }
    let half = rows.len() / 2;
    let mut left = rows;
    let mut right: Vec<DBRow> = Vec::new();
    proof {
        broadcast use vstd::multiset::group_multiset_axioms;
        right@.to_multiset_ensures();
        vstd::multiset::lemma_multiset_empty_len(right@.to_multiset());
        assert(left@.to_multiset().add(right@.to_multiset()) =~= given.to_multiset());
    }
    while right.len() < half
        invariant
            left@.len() + right@.len() == given.len(),
            half == given.len() / 2,
            right@.len() <= half,
            left@.to_multiset().add(right@.to_multiset()) == given.to_multiset(),
        decreases half - right.len(),
    {
        let ghost left_before = left@;
        let ghost right_before = right@;
        let row = left.pop().unwrap();
        proof {
            broadcast use vstd::multiset::group_multiset_axioms;
            assert(left_before =~= left@.push(row));
            to_multiset_build(left@, row);
            to_multiset_build(right_before, row);
            assert(left@.to_multiset().add(right_before.push(row).to_multiset())
                =~= left_before.to_multiset().add(right_before.to_multiset()));
        }
        right.push(row);
    }
    let left_sorted = sort_rows(left);
    let right_sorted = sort_rows(right);
    let sorted = reversed(merge_descending(left_sorted, right_sorted));
    proof {
        sorted@.to_multiset_ensures();
    }
    sorted
}

/// One batch as it is handed to the engine.
#[derive(Debug, Clone, PartialEq, Eq)]
pub struct WriteBatch {
    /// The rows in the order in which they are put.
    pub rows: Vec<DBRow>,
    pub mode: WriteMode,
}

/// Prepares the one atomic commit of a set of rows: the rows in ascending
/// key order, and the write mode of the flush mode.
pub fn prepare_write(rows: Vec<DBRow>, flush: DBFlush) -> (batch: WriteBatch)
    ensures
        keys_ascending(batch.rows@),
        batch.rows@.to_multiset() == rows@.to_multiset(),
        batch.mode == flush.spec_write_mode(),
{
    WriteBatch { rows: sort_rows(rows), mode: flush.write_mode() }
}

} // verus!
