use cilium_map_viewer::EncryptConfig;
use cilium_map_viewer::Lb4ReverseNatKey;
use cilium_map_viewer::MetricsKey;
use cilium_map_viewer::MetricsValue;
use cilium_map_viewer::cursor::StoreEntry;
use cilium_map_viewer::cursor::StoreSnapshot;
use cilium_map_viewer::engine::dump;
use cilium_map_viewer::engine::dump_capped;
use cilium_map_viewer::engine::enumerate_pass;
use cilium_map_viewer::wire::bytes_eq;
use cilium_map_viewer::wire::copy_bytes;
use cilium_map_viewer::wire::read_be_u16;
use cilium_map_viewer::wire::read_le_u64;

fn single(key: Vec<u8>, value: Vec<u8>) -> StoreEntry {
    StoreEntry { key, values: Some(vec![value]) }
}

#[test]
fn enumeration_visits_all_keys_in_order() {
    // One pass visits exactly the store's keys, in order; a second pass
    // visits the same keys again.
    let entries: Vec<StoreEntry> = (0u16..50)
        .map(|i| single(i.to_le_bytes().to_vec(), vec![i as u8]))
        .collect();
    let snap = StoreSnapshot::new(entries);
    let (keys, _) = enumerate_pass(&snap);
    assert_eq!(keys.len(), 50);
    for (i, k) in keys.iter().enumerate() {
        assert_eq!(k, &(i as u16).to_le_bytes().to_vec());
    }
    let (again, _) = enumerate_pass(&snap);
    assert_eq!(keys, again);
}

#[test]
fn enumeration_of_empty_store() {
    let snap = StoreSnapshot::new(vec![]);
    let (keys, _) = enumerate_pass(&snap);
    assert!(keys.is_empty());
}

#[test]
fn dump_header_layout() {
    let key_schema = MetricsKey::schema();
    let value_schema = MetricsValue::schema();
    let snap = StoreSnapshot::new(vec![]);
    let (_, header) = dump(&snap, &key_schema, &value_schema, true).unwrap();
    assert_eq!(header, vec!["cpu", "reason", "dir", "│", "count", "bytes"]);
    let (_, header) = dump(&snap, &key_schema, &value_schema, false).unwrap();
    assert_eq!(header, vec!["reason", "dir", "│", "count", "bytes"]);
}

#[test]
fn dump_renders_rows_in_order() {
    let key_schema = MetricsKey::schema();
    let value_schema = MetricsValue::schema();
    let mut count = vec![0u8; 16];
    count[0] = 7; // count = 7
    count[8] = 0; // bytes = 1024
    count[9] = 4;
    let entries = vec![
        single(vec![133, 2], count.clone()),
        single(vec![0, 1], vec![0; 16]),
    ];
    let snap = StoreSnapshot::new(entries);
    let (rows, header) = dump(&snap, &key_schema, &value_schema, false).unwrap();
    assert_eq!(rows.len(), 2);
    assert_eq!(rows[0], vec!["DROP_POLICY", "EGRESS", "│", "7", "1024"]);
    assert_eq!(rows[1], vec!["REASON_FORWARDED", "INGRESS", "│", "0", "0"]);
    for row in &rows {
        assert_eq!(row.len(), header.len());
    }
}

#[test]
fn dump_percpu_fans_out_replicas() {
    let key_schema = MetricsKey::schema();
    let value_schema = MetricsValue::schema();
    let mut replicas = Vec::new();
    for cpu in 0u8..3 {
        let mut v = vec![0u8; 16];
        v[0] = cpu + 1;
        replicas.push(v);
    }
    let snap = StoreSnapshot::new(vec![StoreEntry { key: vec![0, 2], values: Some(replicas) }]);
    let (rows, _) = dump(&snap, &key_schema, &value_schema, true).unwrap();
    assert_eq!(rows.len(), 3);
    assert_eq!(rows[0], vec!["0", "REASON_FORWARDED", "EGRESS", "│", "1", "0"]);
    assert_eq!(rows[1], vec!["1", "REASON_FORWARDED", "EGRESS", "│", "2", "0"]);
    assert_eq!(rows[2], vec!["2", "REASON_FORWARDED", "EGRESS", "│", "3", "0"]);
}

#[test]
fn dump_cap_bounds_visited_keys() {
    // 500 entries, cap 100: at most 100 rows without replicas, and at most
    // 100 keys * 4 replicas with them.
    let key_schema = Lb4ReverseNatKey::schema();
    let value_schema = EncryptConfig::schema();
    let entries: Vec<StoreEntry> = (0u16..500)
        .map(|i| single(i.to_le_bytes().to_vec(), vec![1]))
        .collect();
    let snap = StoreSnapshot::new(entries);
    let (rows, _) = dump(&snap, &key_schema, &value_schema, false).unwrap();
    assert_eq!(rows.len(), 100);

    let entries: Vec<StoreEntry> = (0u16..500)
        .map(|i| StoreEntry {
            key: i.to_le_bytes().to_vec(),
            values: Some(vec![vec![1], vec![2], vec![3], vec![4]]),
        })
        .collect();
    let snap = StoreSnapshot::new(entries);
    let (rows, _) = dump(&snap, &key_schema, &value_schema, true).unwrap();
    assert_eq!(rows.len(), 400);
}

#[test]
fn dump_custom_cap() {
    let key_schema = Lb4ReverseNatKey::schema();
    let value_schema = EncryptConfig::schema();
    let entries: Vec<StoreEntry> = (0u16..10)
        .map(|i| single(i.to_le_bytes().to_vec(), vec![1]))
        .collect();
    let snap = StoreSnapshot::new(entries);
    let (rows, _) = dump_capped(&snap, &key_schema, &value_schema, false, 3).unwrap();
    assert_eq!(rows.len(), 3);
}

#[test]
fn dump_skips_missed_lookup() {
    // A key whose lookup misses is skipped; the dump completes with one
    // fewer row and no error.
    let key_schema = Lb4ReverseNatKey::schema();
    let value_schema = EncryptConfig::schema();
    let with_miss = vec![
        single(vec![1, 0], vec![1]),
        StoreEntry { key: vec![2, 0], values: None },
        single(vec![3, 0], vec![3]),
    ];
    let snap = StoreSnapshot::new(with_miss);
    let (rows, header) = dump(&snap, &key_schema, &value_schema, false).unwrap();
    assert_eq!(rows.len(), 2);
    assert_eq!(rows[0], vec!["1", "│", "1"]);
    assert_eq!(rows[1], vec!["3", "│", "3"]);
    assert_eq!(header.len(), 3);
}

#[test]
fn dump_zero_width_schema_is_the_only_failure() {
    let empty = cilium_map_viewer::schema::RecordSchema::new(vec![]);
    let value_schema = EncryptConfig::schema();
    let snap = StoreSnapshot::new(vec![]);
    assert!(dump(&snap, &empty, &value_schema, false).is_err());
}

#[test]
fn store_successor_protocol() {
    let snap = StoreSnapshot::new(vec![
        single(vec![10], vec![0]),
        single(vec![20], vec![0]),
    ]);
    assert_eq!(snap.successor_key(None), Some(vec![10]));
    assert_eq!(snap.successor_key(Some(&vec![10])), Some(vec![20]));
    assert_eq!(snap.successor_key(Some(&vec![20])), None);
    // A key the store no longer holds has no successor: the pass ends.
    assert_eq!(snap.successor_key(Some(&vec![99])), None);
    let empty = StoreSnapshot::new(vec![]);
    assert_eq!(empty.successor_key(None), None);
}

#[test]
fn byte_primitives() {
    assert_eq!(read_le_u64(&[]), 0);
    assert_eq!(read_le_u64(&[1, 1]), 257);
    assert_eq!(read_le_u64(&[0xff; 8]), u64::MAX);
    assert_eq!(read_be_u16(&[1, 187]), 443);
    assert!(bytes_eq(&vec![1, 2], &vec![1, 2]));
    assert!(!bytes_eq(&vec![1, 2], &vec![1, 3]));
    assert!(!bytes_eq(&vec![1, 2], &vec![1, 2, 3]));
    assert_eq!(copy_bytes(&vec![9, 8, 7]), vec![9, 8, 7]);
}
