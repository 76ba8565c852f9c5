//! Prefix-bounded scans: the two iterators as state machines over the
//! entries that an engine cursor hands out, and what a whole scan yields
//! from an ordered store.

use vstd::prelude::*;
use vstd::slice::slice_to_vec;
use crate::keys::key_starts_with;
use crate::rows::{entries_of, DBRow, Entry};

verus! {

/// One pull of a forward scan: the new `done` flag and the entry yielded.
/// A finished scan yields nothing. An exhausted cursor, or an entry whose
/// key lacks the prefix, finishes the scan.
pub open spec fn scan_step(prefix: Seq<u8>, done: bool, fetched: Option<Entry>) -> (
    bool,
    Option<Entry>,
) {
    if done {
        (true, None)
    } else {
        match fetched {
            None => (true, None),
            Some(entry) => if prefix.is_prefix_of(entry.0) {
                (false, Some(entry))
            } else {
                (true, None)
            },
        }
    }
}

/// One pull of a reverse scan. A cursor that stands on no entry yields
/// nothing and leaves the state as it is; an entry whose key lacks the
/// prefix finishes the scan. The cursor steps back exactly when an entry is
/// yielded.
pub open spec fn reverse_scan_step(prefix: Seq<u8>, done: bool, current: Option<Entry>) -> (
    bool,
    Option<Entry>,
) {
    if done {
        (true, None)
    } else {
        match current {
            None => (false, None),
            Some(entry) => if prefix.is_prefix_of(entry.0) {
                (false, Some(entry))
            } else {
                (true, None)
            },
        }
    }
}

/// All that a scan yields from a cursor that hands out `cursor`, entry by
/// entry: the entries up to the first one whose key lacks the prefix.
pub open spec fn scan_output(prefix: Seq<u8>, cursor: Seq<Entry>) -> Seq<Entry>
    decreases cursor.len(),
{
    if cursor.len() == 0 || !prefix.is_prefix_of(cursor[0].0) {
        Seq::empty()
    } else {
        seq![cursor[0]] + scan_output(prefix, cursor.drop_first())
    }
}

pub open spec fn option_entry(row: Option<DBRow>) -> Option<Entry> {
    match row {
        Some(r) => Some(r@),
        None => None,
    }
}

/// A forward scan over the keys that start with a fixed prefix.
pub struct ScanIterator {
    prefix: Vec<u8>,
    done: bool,
}

impl ScanIterator {
    pub closed spec fn prefix(&self) -> Seq<u8> {
        self.prefix@
    }

    pub closed spec fn done(&self) -> bool {
        self.done
    }

    /// A scan that has yielded nothing yet.
    pub fn new(prefix: &[u8]) -> (scan: Self)
        ensures
            scan.prefix() == prefix@,
            !scan.done(),
    {
        ScanIterator { prefix: slice_to_vec(prefix), done: false }
    }

    /// Whether the scan has finished. The cursor is fetched from only while
    /// it has not.
    pub fn is_done(&self) -> (done: bool)
        ensures
            done == self.done(),
    {
        self.done
    }

    /// Takes what the cursor handed out (`None` once it is exhausted) and
    /// yields the next row of the scan, if there is one.
    pub fn next(&mut self, fetched: Option<DBRow>) -> (row: Option<DBRow>)
        ensures
            final(self).prefix() == old(self).prefix(),
            (final(self).done(), option_entry(row)) == scan_step(
                old(self).prefix(),
                old(self).done(),
                option_entry(fetched),
            ),
            row is Some ==> row == fetched,
    {
        if self.done {
            return None;
        }
        match fetched {
            None => {
                self.done = true;
                None
            },
            Some(entry) => {
                if key_starts_with(entry.key.as_slice(), self.prefix.as_slice()) {
                    Some(entry)
                } else {
                    self.done = true;
                    None
                }
            },
        }
    }

    /// Runs the scan to its end over a cursor that hands out the rows of
    /// `cursor` in order, and returns what it yields.
    pub fn collect(&mut self, cursor: &[DBRow]) -> (rows: Vec<DBRow>)
        ensures
            final(self).prefix() == old(self).prefix(),
            final(self).done(),
            entries_of(rows@) == if old(self).done() {
                Seq::<Entry>::empty()
            } else {
                scan_output(old(self).prefix(), entries_of(cursor@))
            },
    {
        let ghost start_done = self.done;
        let ghost all = entries_of(cursor@);
        let ghost prefix = self.prefix@;
        let mut rows: Vec<DBRow> = Vec::new();
        let mut at: usize = 0;
        proof {
            assert(all.skip(0) =~= all);
            assert(entries_of(rows@) =~= Seq::<Entry>::empty());
        }
        while !self.done
            invariant
                self.prefix@ == prefix,
                at <= cursor@.len(),
                all == entries_of(cursor@),
                start_done ==> self.done && rows@.len() == 0,
                !start_done && !self.done ==> scan_output(prefix, all) == entries_of(rows@)
                    + scan_output(prefix, all.skip(at as int)),
                !start_done && self.done ==> scan_output(prefix, all) == entries_of(rows@),
            decreases cursor@.len() - at + (if self.done { 0int } else { 1int }),
        {
            let ghost before = all.skip(at as int);
            let ghost yielded = entries_of(rows@);
            let fetched = if at < cursor.len() {
                let entry = DBRow {
                    key: slice_to_vec(cursor[at].key.as_slice()),
                    value: slice_to_vec(cursor[at].value.as_slice()),
                };
                at += 1;
                Some(entry)
            } else {
                None
            };
            proof {
                if fetched is Some {
                    assert(before[0] == fetched.unwrap()@);
                    assert(before.drop_first() =~= all.skip(at as int));
                } else {
                    assert(before.len() == 0);
                }
            }
            match self.next(fetched) {
                Some(row) => {
                    rows.push(row);
                    proof {
                        assert(entries_of(rows@) =~= yielded + seq![before[0]]);
                        assert(scan_output(prefix, all) =~= entries_of(rows@) + scan_output(
                            prefix,
                            all.skip(at as int),
                        ));
                    }
                },
                None => {
                    proof {
                        assert(scan_output(prefix, before) =~= Seq::<Entry>::empty());
                        assert(scan_output(prefix, all) =~= entries_of(rows@));
                    }
                },
            }
        }
        proof {
            if start_done {
                assert(entries_of(rows@) =~= Seq::<Entry>::empty());
            }
        }
        rows
    }
}

/// A backward scan over the keys that start with a fixed prefix, from an
/// upper bound down.
pub struct ReverseScanIterator {
    prefix: Vec<u8>,
    done: bool,
}

impl ReverseScanIterator {
    pub closed spec fn prefix(&self) -> Seq<u8> {
        self.prefix@
    }

    pub closed spec fn done(&self) -> bool {
        self.done
    }

    /// A scan that has yielded nothing yet.
    pub fn new(prefix: &[u8]) -> (scan: Self)
        ensures
            scan.prefix() == prefix@,
            !scan.done(),
    {
        ReverseScanIterator { prefix: slice_to_vec(prefix), done: false }
    }

    /// Whether the scan has finished.
    pub fn is_done(&self) -> (done: bool)
        ensures
            done == self.done(),
    {
        self.done
    }

    /// Takes the entry on which the cursor stands (`None` where it stands
    /// on none) and yields the next row of the scan, if there is one. The
    /// caller steps the cursor back exactly when a row comes out.
    pub fn next(&mut self, current: Option<DBRow>) -> (row: Option<DBRow>)
        ensures
            final(self).prefix() == old(self).prefix(),
            (final(self).done(), option_entry(row)) == reverse_scan_step(
                old(self).prefix(),
                old(self).done(),
                option_entry(current),
            ),
            row is Some ==> row == current,
    {
        if self.done {
            return None;
        }
        match current {
            None => None,
            Some(entry) => {
                if key_starts_with(entry.key.as_slice(), self.prefix.as_slice()) {
                    Some(entry)
                } else {
                    self.done = true;
                    None
                }
            },
        }
    }

    /// Runs the scan over a cursor that visits the rows of `cursor` in
    /// order, then stands on none, and returns what it yields. The scan is
    /// finished afterwards where it met a key without the prefix.
    pub fn collect(&mut self, cursor: &[DBRow]) -> (rows: Vec<DBRow>)
        ensures
            final(self).prefix() == old(self).prefix(),
            entries_of(rows@) == if old(self).done() {
                Seq::<Entry>::empty()
            } else {
                scan_output(old(self).prefix(), entries_of(cursor@))
            },
            final(self).done() == (old(self).done() || rows@.len() < cursor@.len()),
    {
        let ghost start_done = self.done;
        let ghost all = entries_of(cursor@);
        let ghost prefix = self.prefix@;
        let mut rows: Vec<DBRow> = Vec::new();
        let mut at: usize = 0;
        proof {
            assert(all.skip(0) =~= all);
            assert(entries_of(rows@) =~= Seq::<Entry>::empty());
        }
        while !self.done && at < cursor.len()
            invariant
                self.prefix@ == prefix,
                at <= cursor@.len(),
                all == entries_of(cursor@),
                start_done ==> self.done && rows@.len() == 0,
                !start_done && !self.done ==> rows@.len() == at && scan_output(prefix, all)
                    == entries_of(rows@) + scan_output(prefix, all.skip(at as int)),
                !start_done && self.done ==> rows@.len() < cursor@.len() && scan_output(prefix, all)
                    == entries_of(rows@),
            decreases cursor@.len() - at,
        {
            let ghost before = all.skip(at as int);
            let ghost yielded = entries_of(rows@);
            let current = DBRow {
                key: slice_to_vec(cursor[at].key.as_slice()),
                value: slice_to_vec(cursor[at].value.as_slice()),
            };
            at += 1;
            proof {
                assert(before[0] == current@);
                assert(before.drop_first() =~= all.skip(at as int));
            }
            match self.next(Some(current)) {
                Some(row) => {
                    rows.push(row);
                    proof {
                        assert(entries_of(rows@) =~= yielded + seq![before[0]]);
                        assert(scan_output(prefix, all) =~= entries_of(rows@) + scan_output(
                            prefix,
                            all.skip(at as int),
                        ));
                    }
                },
                None => {
                    proof {
                        assert(scan_output(prefix, before) =~= Seq::<Entry>::empty());
                        assert(scan_output(prefix, all) =~= entries_of(rows@));
                    }
                },
            }
        }
        proof {
            if start_done {
                assert(entries_of(rows@) =~= Seq::<Entry>::empty());
            } else if !self.done {
                assert(all.skip(at as int) =~= Seq::<Entry>::empty());
                assert(scan_output(prefix, all) =~= entries_of(rows@));
            }
        }
        rows
    }
}

} // verus!
