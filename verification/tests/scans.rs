use chain_store::rows::{sort_rows, DBRow};
use chain_store::scan::{ReverseScanIterator, ScanIterator};

fn row(key: &[u8], value: &[u8]) -> DBRow {
    DBRow { key: key.to_vec(), value: value.to_vec() }
}

fn store() -> Vec<DBRow> {
    sort_rows(vec![row(b"b1", b"z"), row(b"a1", b"x"), row(b"a2", b"y")])
}

/// What a forward cursor hands out after a seek to `start`.
fn forward_cursor(store: &[DBRow], start: &[u8]) -> Vec<DBRow> {
    store.iter().filter(|r| r.key.as_slice() >= start).cloned().collect()
}

/// Pulls a reverse scan over a cursor that starts at the last key at or
/// before `bound`.
fn run_reverse(store: &[DBRow], prefix: &[u8], bound: &[u8]) -> Vec<DBRow> {
    let reachable: Vec<DBRow> =
        store.iter().filter(|r| r.key.as_slice() <= bound).cloned().collect();
    let mut at = reachable.len();
    let mut scan = ReverseScanIterator::new(prefix);
    let mut out = Vec::new();
    for _ in 0..reachable.len() + 2 {
        let current = if at > 0 { Some(reachable[at - 1].clone()) } else { None };
        match scan.next(current) {
            Some(r) => {
                at -= 1;
                out.push(r);
            }
            None => {}
        }
    }
    out
}

#[test]
fn forward_scan_yields_the_prefix_in_order() {
    let store = store();
    let mut scan = ScanIterator::new(b"a");
    let rows = scan.collect(&forward_cursor(&store, b"a"));
    assert_eq!(rows, vec![row(b"a1", b"x"), row(b"a2", b"y")]);
    assert!(scan.is_done());
}

#[test]
fn reverse_scan_yields_the_prefix_backwards() {
    let store = store();
    assert_eq!(run_reverse(&store, b"a", b"a\xff"), vec![row(b"a2", b"y"), row(b"a1", b"x")]);
}

#[test]
fn reverse_scan_mirrors_forward_scan() {
    let store = sort_rows(vec![
        row(b"", b"0"),
        row(b"a", b"1"),
        row(b"ab", b"2"),
        row(b"ab\x00", b"3"),
        row(b"abc", b"4"),
        row(b"ac", b"5"),
        row(b"b", b"6"),
    ]);
    let mut forward = ScanIterator::new(b"ab").collect(&forward_cursor(&store, b"ab"));
    assert_eq!(forward, vec![row(b"ab", b"2"), row(b"ab\x00", b"3"), row(b"abc", b"4")]);
    forward.reverse();
    assert_eq!(run_reverse(&store, b"ab", b"ab\xff"), forward);
    assert_eq!(run_reverse(&store, b"ab", b"abc"), forward);
}

#[test]
fn reverse_scan_from_a_foreign_stored_key_yields_nothing() {
    let store = sort_rows(vec![row(b"ab", b"2"), row(b"abc", b"4"), row(b"ac", b"5")]);
    assert_eq!(run_reverse(&store, b"ab", b"ac"), Vec::new());
    assert_eq!(run_reverse(&store, b"ab", b"ab"), vec![row(b"ab", b"2")]);
}

#[test]
fn forward_scan_stops_for_good_at_a_foreign_key() {
    let mut scan = ScanIterator::new(b"a");
    assert_eq!(scan.next(Some(row(b"a1", b"x"))), Some(row(b"a1", b"x")));
    assert!(!scan.is_done());
    assert_eq!(scan.next(Some(row(b"b1", b"z"))), None);
    assert!(scan.is_done());
    assert_eq!(scan.next(Some(row(b"a2", b"y"))), None);
    assert!(scan.is_done());
}

#[test]
fn forward_scan_ends_with_the_cursor() {
    let mut scan = ScanIterator::new(b"a");
    assert_eq!(scan.next(None), None);
    assert!(scan.is_done());
    assert_eq!(scan.next(Some(row(b"a1", b"x"))), None);
}

#[test]
fn forward_scan_of_nothing() {
    let mut scan = ScanIterator::new(b"a");
    assert_eq!(scan.collect(&[]), Vec::new());
    assert!(scan.is_done());
    let mut scan = ScanIterator::new(b"c");
    assert_eq!(scan.collect(&forward_cursor(&store(), b"c")), Vec::new());
}

#[test]
fn finished_scan_collects_nothing() {
    let mut scan = ScanIterator::new(b"a");
    assert_eq!(scan.next(None), None);
    assert_eq!(scan.collect(&store()), Vec::new());
}

#[test]
fn empty_prefix_scans_the_whole_store() {
    let store = store();
    let mut scan = ScanIterator::new(b"");
    assert_eq!(scan.collect(&forward_cursor(&store, b"")), store);
}

#[test]
fn scan_from_a_later_key_resumes_there() {
    let store = store();
    let mut scan = ScanIterator::new(b"a");
    assert_eq!(scan.collect(&forward_cursor(&store, b"a2")), vec![row(b"a2", b"y")]);
}

#[test]
fn reverse_scan_stops_for_good_at_a_foreign_key() {
    let mut scan = ReverseScanIterator::new(b"b");
    assert_eq!(scan.next(Some(row(b"b1", b"z"))), Some(row(b"b1", b"z")));
    assert!(!scan.is_done());
    assert_eq!(scan.next(Some(row(b"a2", b"y"))), None);
    assert!(scan.is_done());
    assert_eq!(scan.next(Some(row(b"b0", b"w"))), None);
}

#[test]
fn reverse_collect_follows_the_cursor_down() {
    let visited = vec![row(b"a2", b"y"), row(b"a1", b"x"), row(b"", b"w")];
    let mut scan = ReverseScanIterator::new(b"a");
    assert_eq!(scan.collect(&visited), vec![row(b"a2", b"y"), row(b"a1", b"x")]);
    assert!(scan.is_done());
    assert_eq!(scan.collect(&visited), Vec::new());

    let mut scan = ReverseScanIterator::new(b"a");
    assert_eq!(scan.collect(&visited[..2]), vec![row(b"a2", b"y"), row(b"a1", b"x")]);
    assert!(!scan.is_done());

    let mut scan = ReverseScanIterator::new(b"b");
    assert_eq!(scan.collect(&visited), Vec::new());
    assert!(scan.is_done());
}

#[test]
fn reverse_collect_agrees_with_single_pulls() {
    let store = sort_rows(vec![
        row(b"a", b"1"),
        row(b"ab", b"2"),
        row(b"abc", b"4"),
        row(b"b", b"6"),
    ]);
    let mut visited: Vec<DBRow> =
        store.iter().filter(|r| r.key.as_slice() <= &b"ab\xff"[..]).cloned().collect();
    visited.reverse();
    let mut scan = ReverseScanIterator::new(b"ab");
    assert_eq!(scan.collect(&visited), run_reverse(&store, b"ab", b"ab\xff"));
}

#[test]
fn reverse_scan_waits_on_an_invalid_cursor() {
    let mut scan = ReverseScanIterator::new(b"a");
    assert_eq!(scan.next(None), None);
    assert!(!scan.is_done());
    assert_eq!(scan.next(Some(row(b"a1", b"x"))), Some(row(b"a1", b"x")));
}
