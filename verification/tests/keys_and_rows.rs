use chain_store::keys::{key_order, key_starts_with, KeyOrder};
use chain_store::rows::{sort_rows, DBFlush, DBRow, WriteMode};

fn row(key: &[u8], value: &[u8]) -> DBRow {
    DBRow { key: key.to_vec(), value: value.to_vec() }
}

#[test]
fn key_order_follows_bytes() {
    assert_eq!(key_order(b"a1", b"a2"), KeyOrder::Before);
    assert_eq!(key_order(b"a2", b"a1"), KeyOrder::After);
    assert_eq!(key_order(b"a1", b"a1"), KeyOrder::Same);
    assert_eq!(key_order(b"b", b"a\xff"), KeyOrder::After);
    assert_eq!(key_order(&[0x7f], &[0x80]), KeyOrder::Before);
}

#[test]
fn key_order_puts_a_prefix_first() {
    assert_eq!(key_order(b"a", b"a1"), KeyOrder::Before);
    assert_eq!(key_order(b"a1", b"a"), KeyOrder::After);
    assert_eq!(key_order(b"", b""), KeyOrder::Same);
    assert_eq!(key_order(b"", b"\x00"), KeyOrder::Before);
}

#[test]
fn key_order_agrees_with_slice_order() {
    let keys: [&[u8]; 6] = [b"", b"a", b"a\x00", b"ab", b"b", b"\xff\xff"];
    for a in keys.iter() {
        for b in keys.iter() {
            let expected = if a < b {
                KeyOrder::Before
            } else if a == b {
                KeyOrder::Same
            } else {
                KeyOrder::After
            };
            assert_eq!(key_order(a, b), expected);
        }
    }
}

#[test]
fn key_starts_with_checks_leading_bytes() {
    assert!(key_starts_with(b"a1", b"a"));
    assert!(key_starts_with(b"a1", b"a1"));
    assert!(key_starts_with(b"a1", b""));
    assert!(!key_starts_with(b"a", b"a1"));
    assert!(!key_starts_with(b"b1", b"a"));
    assert!(!key_starts_with(b"", b"a"));
}

#[test]
fn sort_rows_orders_by_key() {
    let sorted = sort_rows(vec![row(b"b1", b"z"), row(b"a2", b"y"), row(b"a1", b"x")]);
    assert_eq!(sorted, vec![row(b"a1", b"x"), row(b"a2", b"y"), row(b"b1", b"z")]);
}

#[test]
fn sort_rows_keeps_every_row() {
    let given = vec![
        row(b"k", b"1"),
        row(b"", b"e"),
        row(b"k", b"2"),
        row(b"j\xff", b"3"),
        row(b"k", b"1"),
    ];
    let sorted = sort_rows(given.clone());
    assert_eq!(sorted.len(), 5);
    for pair in sorted.windows(2) {
        assert!(pair[0].key <= pair[1].key);
    }
    for r in given.iter() {
        let before = given.iter().filter(|g| *g == r).count();
        let after = sorted.iter().filter(|s| *s == r).count();
        assert_eq!(before, after);
    }
    assert_eq!(sorted[0], row(b"", b"e"));
    assert_eq!(sorted[1], row(b"j\xff", b"3"));
}

#[test]
fn sort_rows_of_nothing_is_nothing() {
    assert_eq!(sort_rows(Vec::new()), Vec::new());
}

#[test]
fn flush_mode_sets_sync_and_log() {
    assert_eq!(DBFlush::Enable.write_mode(), WriteMode { sync: true, disable_wal: false });
    assert_eq!(DBFlush::Disable.write_mode(), WriteMode { sync: false, disable_wal: true });
}

#[test]
fn prepare_write_sorts_and_sets_the_mode() {
    let batch = chain_store::rows::prepare_write(
        vec![row(b"b", b"2"), row(b"a", b"1")],
        DBFlush::Enable,
    );
    assert_eq!(batch.rows, vec![row(b"a", b"1"), row(b"b", b"2")]);
    assert_eq!(batch.mode, WriteMode { sync: true, disable_wal: false });
    let batch = chain_store::rows::prepare_write(Vec::new(), DBFlush::Disable);
    assert_eq!(batch.rows, Vec::new());
    assert_eq!(batch.mode, WriteMode { sync: false, disable_wal: true });
}

#[test]
fn written_rows_are_read_back() {
    let given = vec![row(b"k2", b"two"), row(b"k1", b"one"), row(b"k3", b"")];
    let batch = chain_store::rows::prepare_write(given.clone(), DBFlush::Disable);
    let mut contents = std::collections::BTreeMap::new();
    contents.insert(b"k0".to_vec(), b"zero".to_vec());
    for r in batch.rows {
        contents.insert(r.key, r.value);
    }
    for r in given.iter() {
        assert_eq!(contents.get(&r.key), Some(&r.value));
    }
    assert_eq!(contents.get(&b"k0".to_vec()), Some(&b"zero".to_vec()));
    assert_eq!(contents.get(&b"k4".to_vec()), None);
    assert_eq!(contents.len(), 4);
}

#[test]
fn sort_rows_agrees_with_the_slice_order_on_many_rows() {
    let mut seed: u32 = 12345;
    let mut given = Vec::new();
    for i in 0..2000u32 {
        seed = seed.wrapping_mul(1664525).wrapping_add(1013904223);
        let len = (seed >> 28) as usize;
        let key: Vec<u8> = (0..len).map(|k| (seed >> (k % 24)) as u8).collect();
        given.push(DBRow { key, value: i.to_le_bytes().to_vec() });
    }
    let sorted = sort_rows(given.clone());
    let mut expected = given;
    expected.sort_by(|a, b| a.key.cmp(&b.key));
    assert_eq!(sorted.len(), expected.len());
    for (s, e) in sorted.iter().zip(expected.iter()) {
        assert_eq!(s.key, e.key);
    }
    let mut all_sorted = sorted.clone();
    all_sorted.sort_by(|a, b| (&a.key, &a.value).cmp(&(&b.key, &b.value)));
    expected.sort_by(|a, b| (&a.key, &a.value).cmp(&(&b.key, &b.value)));
    assert_eq!(all_sorted, expected);
}
