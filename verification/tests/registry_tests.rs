use cilium_map_viewer::cursor::StoreEntry;
use cilium_map_viewer::cursor::StoreSnapshot;
use cilium_map_viewer::nav::col_widths;
use cilium_map_viewer::nav::next_index;
use cilium_map_viewer::nav::previous_index;
use cilium_map_viewer::registry::display_name;
use cilium_map_viewer::registry::dump_named;
use cilium_map_viewer::registry::is_supported;
use cilium_map_viewer::registry::resolve;

#[test]
fn resolve_known_names() {
    let d = resolve("metrics").unwrap();
    assert!(d.percpu);
    assert_eq!(d.key_schema.header(), vec!["reason", "dir"]);
    assert_eq!(d.value_schema.header(), vec!["count", "bytes"]);
    let d = resolve("ipcache").unwrap();
    assert!(!d.percpu);
    assert_eq!(d.key_schema.header(), vec!["cluster_id", "family", "addr"]);
    assert!(resolve("tunnel map").is_some());
    assert!(resolve("ct4 global").is_some());
    assert!(resolve("ct any4 global").is_some());
    assert!(resolve("lb4 reverse nat").is_some());
    assert!(resolve("lb4 reverse sk").is_some());
    assert!(resolve("lb4 services v2").is_some());
    assert!(resolve("snat v4 external").is_some());
    assert!(resolve("lb4 backends v3").is_some());
    assert!(resolve("lxc").is_some());
}

#[test]
fn resolve_policy_prefix() {
    // Any name with the policy prefix resolves to the policy schemas,
    // whatever its numeric suffix.
    let d = resolve("policy 00123").unwrap();
    assert_eq!(
        d.key_schema.header(),
        vec!["len", "sec_label", "egress", "protocol", "dport"]
    );
    assert!(resolve("policy").is_some());
    assert!(resolve("polic").is_none());
}

#[test]
fn resolve_unknown_name() {
    assert!(resolve("sock ops map").is_none());
    assert!(resolve("").is_none());
    assert!(resolve("metricsx").is_none());
}

#[test]
fn unsupported_name_dumps_explicit_empty_table() {
    // An absent name yields zero rows, zero header columns, and a title that
    // marks the map unsupported — not an error.
    let snap = StoreSnapshot::new(vec![StoreEntry { key: vec![0, 0], values: Some(vec![vec![0; 16]]) }]);
    let table = dump_named("sock ops map", &snap);
    assert_eq!(table.rows.len(), 0);
    assert_eq!(table.header.len(), 0);
    assert_eq!(table.title, "Not supported");
}

#[test]
fn named_dump_of_supported_map() {
    let mut value = vec![0u8; 16];
    value[0] = 9;
    let snap = StoreSnapshot::new(vec![StoreEntry { key: vec![133, 2], values: Some(vec![value]) }]);
    let table = dump_named("metrics", &snap);
    assert_eq!(table.title, "metrics");
    assert_eq!(table.header, vec!["cpu", "reason", "dir", "│", "count", "bytes"]);
    assert_eq!(table.rows.len(), 1);
    assert_eq!(table.rows[0], vec!["0", "DROP_POLICY", "EGRESS", "│", "9", "0"]);
}

#[test]
fn supported_name_filter() {
    assert!(is_supported("policy 00123"));
    assert!(is_supported("metrics"));
    assert!(is_supported("ipcache"));
    assert!(is_supported("lxc"));
    assert!(is_supported("tunnel map"));
    assert!(!is_supported("sock ops map"));
    assert!(!is_supported(""));
    assert!(!is_supported("arp"));
}

#[test]
fn display_name_strips_prefix_and_underscores() {
    assert_eq!(display_name("cilium_tunnel_map"), "tunnel map");
    assert_eq!(display_name("cilium_metrics"), "metrics");
    assert_eq!(display_name("cilium_policy_00123"), "policy 00123");
    assert_eq!(display_name("cilium_"), "");
}

#[test]
fn selection_wraps_around() {
    assert_eq!(next_index(None, 3), 0);
    assert_eq!(next_index(Some(0), 3), 1);
    assert_eq!(next_index(Some(2), 3), 0);
    assert_eq!(next_index(Some(9), 3), 0);
    assert_eq!(previous_index(None, 3), 0);
    assert_eq!(previous_index(Some(0), 3), 2);
    assert_eq!(previous_index(Some(2), 3), 1);
    assert_eq!(next_index(Some(0), 1), 0);
    assert_eq!(previous_index(Some(0), 1), 0);
}

#[test]
fn column_widths_cover_header_and_cells() {
    let header: Vec<&'static str> = vec!["reason", "dir"];
    let rows = vec![
        vec!["DROP_POLICY".to_string(), "EGRESS".to_string()],
        vec!["x".to_string(), "INGRESS".to_string()],
    ];
    assert_eq!(col_widths(&header, &rows), vec![11, 7]);
    let no_rows: Vec<Vec<String>> = vec![];
    assert_eq!(col_widths(&header, &no_rows), vec![6, 3]);
}

#[test]
fn every_registry_schema_renders_totally() {
    // Each resolvable name's schemas decode and render any buffer, and each
    // row is exactly as long as the header.
    let names = [
        "ipcache",
        "metrics",
        "tunnel map",
        "ct4 global",
        "ct any4 global",
        "lb4 reverse nat",
        "lb4 reverse sk",
        "lb4 services v2",
        "snat v4 external",
        "lb4 backends v3",
        "lxc",
        "policy 00042",
    ];
    for name in names {
        let d = resolve(name).unwrap();
        for schema in [&d.key_schema, &d.value_schema] {
            let width = schema.width();
            assert!(width > 0);
            let header = schema.header();
            for len in [0, 1, width / 2, width, width + 3] {
                let raw: Vec<u8> = vec![0xa5; len];
                let row = cilium_map_viewer::codec::decode_and_render(schema, &raw).unwrap();
                assert_eq!(row.len(), header.len());
            }
        }
    }
}
