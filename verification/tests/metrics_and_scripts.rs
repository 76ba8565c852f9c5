use chain_store::metrics::{RocksDbMetrics, STATS_INTERVAL_SECS};
use chain_store::script::{get_innerscripts, select_innerscripts, InnerScripts, Script, TxIn, TxOut};

fn script(bytes: &[u8]) -> Script {
    Script { bytes: bytes.to_vec() }
}

fn p2sh() -> Script {
    let mut bytes = vec![0xa9u8, 0x14];
    bytes.extend_from_slice(&[7u8; 20]);
    bytes.push(0x87);
    script(&bytes)
}

fn p2wsh() -> Script {
    let mut bytes = vec![0x00u8, 0x20];
    bytes.extend_from_slice(&[9u8; 32]);
    script(&bytes)
}

/// A script that pushes each of `items` in turn.
fn pushes(items: &[&[u8]]) -> Script {
    let mut bytes = Vec::new();
    for item in items {
        assert!(item.len() < 76);
        bytes.push(item.len() as u8);
        bytes.extend_from_slice(item);
    }
    script(&bytes)
}

#[test]
fn gauges_carry_name_help_and_label() {
    let m = RocksDbMetrics::new();
    assert_eq!(m.num_immutable_mem_table.name, "rocksdb_num_immutable_mem_table");
    assert_eq!(
        m.num_immutable_mem_table.help,
        "Number of immutable memtables that have not yet been flushed."
    );
    assert_eq!(m.num_immutable_mem_table.label, "db");
    assert_eq!(m.cur_size_active_mem_table.name, "rocksdb_cur_size_active_mem_table_bytes");
    assert_eq!(m.block_cache_pinned_usage.name, "rocksdb_block_cache_pinned_usage_bytes");
    assert_eq!(m.block_cache_pinned_usage.help, "The memory size for the entries being pinned.");
}

#[test]
fn samples_come_in_a_fixed_order() {
    let m = RocksDbMetrics::new();
    let samples = m.samples();
    assert_eq!(samples.len(), 33);
    assert_eq!(samples[0].property, "rocksdb.num-immutable-mem-table");
    assert_eq!(samples[0].gauge.name, "rocksdb_num_immutable_mem_table");
    assert_eq!(samples[2].property, "rocksdb.compaction-pending");
    assert_eq!(samples[2].gauge.name, "rocksdb_compaction_pending");
    assert_eq!(samples[32].property, "rocksdb.block-cache-pinned-usage");
    assert_eq!(samples[32].gauge.name, "rocksdb_block_cache_pinned_usage_bytes");
    assert_eq!(STATS_INTERVAL_SECS, 5);
}

#[test]
fn gauge_names_are_distinct() {
    let samples = RocksDbMetrics::new().samples();
    for (i, a) in samples.iter().enumerate() {
        assert_eq!(a.gauge.label, "db");
        for b in samples.iter().skip(i + 1) {
            assert_ne!(a.gauge.name, b.gauge.name);
            assert_ne!(a.property, b.property);
        }
    }
}

#[test]
fn script_hash_spend_wraps_a_redeem_script() {
    let redeem: &[u8] = &[0x51, 0x52, 0x93];
    let txin = TxIn { script_sig: pushes(&[&[1, 2, 3, 4], redeem]), witness: Vec::new() };
    let inner = get_innerscripts(&txin, &TxOut { script_pubkey: p2sh() });
    assert_eq!(inner, InnerScripts { redeem_script: Some(script(redeem)), witness_script: None });
}

#[test]
fn witness_script_hash_spend_wraps_a_witness_script() {
    let txin = TxIn {
        script_sig: script(&[]),
        witness: vec![vec![1u8, 2], vec![0xacu8, 0x51]],
    };
    let inner = get_innerscripts(&txin, &TxOut { script_pubkey: p2wsh() });
    assert_eq!(
        inner,
        InnerScripts { redeem_script: None, witness_script: Some(script(&[0xac, 0x51])) }
    );
}

#[test]
fn nested_spend_wraps_both() {
    let redeem = p2wsh();
    let txin = TxIn {
        script_sig: pushes(&[redeem.bytes.as_slice()]),
        witness: vec![vec![3u8], vec![0x51u8]],
    };
    let inner = get_innerscripts(&txin, &TxOut { script_pubkey: p2sh() });
    assert_eq!(
        inner,
        InnerScripts { redeem_script: Some(redeem), witness_script: Some(script(&[0x51])) }
    );
}

#[test]
fn plain_spend_wraps_nothing() {
    let txin = TxIn { script_sig: pushes(&[&[1, 2, 3]]), witness: vec![vec![5u8]] };
    let prevout = TxOut { script_pubkey: script(&[0x76, 0xa9, 0x14]) };
    let inner = get_innerscripts(&txin, &prevout);
    assert_eq!(inner, InnerScripts { redeem_script: None, witness_script: None });
}

#[test]
fn script_hash_spend_without_a_last_push() {
    let ends_in_opcode = TxIn { script_sig: script(&[0x01, 0xaa, 0x87]), witness: Vec::new() };
    let inner = get_innerscripts(&ends_in_opcode, &TxOut { script_pubkey: p2sh() });
    assert_eq!(inner, InnerScripts { redeem_script: None, witness_script: None });
    let cut_short = TxIn { script_sig: script(&[0x05, 0xaa]), witness: Vec::new() };
    let inner = get_innerscripts(&cut_short, &TxOut { script_pubkey: p2sh() });
    assert_eq!(inner.redeem_script, None);
    let empty = TxIn { script_sig: script(&[]), witness: Vec::new() };
    assert_eq!(get_innerscripts(&empty, &TxOut { script_pubkey: p2sh() }).redeem_script, None);
}

#[test]
fn witness_spend_with_an_empty_witness() {
    let txin = TxIn { script_sig: script(&[]), witness: Vec::new() };
    let inner = get_innerscripts(&txin, &TxOut { script_pubkey: p2wsh() });
    assert_eq!(inner, InnerScripts { redeem_script: None, witness_script: None });
}

#[test]
fn near_misses_are_no_script_hash_outputs() {
    let txin = TxIn { script_sig: pushes(&[&[0x51]]), witness: vec![vec![0x52u8]] };
    let mut wrong_end = p2sh();
    wrong_end.bytes[22] = 0x88;
    let mut too_long = p2sh();
    too_long.bytes.push(0);
    let mut version_one = p2wsh();
    version_one.bytes[0] = 0x51;
    let mut short_program = p2wsh();
    short_program.bytes[1] = 0x14;
    for script_pubkey in [wrong_end, too_long, version_one, short_program] {
        let inner = get_innerscripts(&txin, &TxOut { script_pubkey });
        assert_eq!(inner, InnerScripts { redeem_script: None, witness_script: None });
    }
}

#[test]
fn select_innerscripts_takes_the_push_as_given() {
    let inner = select_innerscripts(&p2sh(), Some(vec![0x51u8]), &Vec::new());
    assert_eq!(inner.redeem_script, Some(script(&[0x51])));
    let inner = select_innerscripts(&p2wsh(), Some(vec![0x51u8]), &vec![vec![1u8], vec![2u8]]);
    assert_eq!(inner, InnerScripts { redeem_script: None, witness_script: Some(script(&[2])) });
    let inner = select_innerscripts(&p2sh(), None, &vec![vec![1u8]]);
    assert_eq!(inner, InnerScripts { redeem_script: None, witness_script: None });
}
