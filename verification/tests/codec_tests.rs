use cilium_map_viewer::EndpointKey;
use cilium_map_viewer::MetricsKey;
use cilium_map_viewer::PolicyEntry;
use cilium_map_viewer::PolicyKey;
use cilium_map_viewer::schema::FieldSpec;
use cilium_map_viewer::schema::Formatter;
use cilium_map_viewer::schema::RecordSchema;
use cilium_map_viewer::codec::decode;
use cilium_map_viewer::codec::decode_and_render;

#[test]
fn schema_headers_skip_padding() {
    assert_eq!(
        PolicyKey::schema().header(),
        vec!["len", "sec_label", "egress", "protocol", "dport"]
    );
    // The padding fields consume bytes but never appear.
    assert_eq!(
        PolicyEntry::schema().header(),
        vec!["proxy_port", "flags", "auth_type", "packets", "bytes"]
    );
    assert_eq!(PolicyEntry::schema().width(), 24);
    assert_eq!(PolicyKey::schema().width(), 12);
    assert_eq!(MetricsKey::schema().width(), 2);
}

#[test]
fn decode_full_buffer() {
    let schema = PolicyKey::schema();
    let raw: Vec<u8> = vec![
        40, 0, 0, 0, // len = 40
        57, 48, 0, 0, // sec_label = 12345
        1,  // egress = true
        6,  // protocol = TCP
        1, 187, // dport = 443 in network order
    ];
    let row = decode_and_render(&schema, &raw).unwrap();
    assert_eq!(row, vec!["40", "12345", "true", "TCP", "443"]);
}

#[test]
fn decode_short_buffer_zero_pads() {
    // A buffer shorter than the declared width is zero-padded before
    // interpretation; decoding never fails for it.
    let schema = PolicyKey::schema();
    let raw: Vec<u8> = vec![40, 0, 0, 0];
    let row = decode_and_render(&schema, &raw).unwrap();
    assert_eq!(row, vec!["40", "0", "false", "HOPOPT", "0"]);
    let empty: Vec<u8> = vec![];
    let row = decode_and_render(&schema, &empty).unwrap();
    assert_eq!(row, vec!["0", "0", "false", "HOPOPT", "0"]);
}

#[test]
fn decode_long_buffer_ignores_excess() {
    // Bytes past the declared width are never read.
    let schema = MetricsKey::schema();
    let raw: Vec<u8> = vec![133, 2, 99, 99, 99];
    let row = decode_and_render(&schema, &raw).unwrap();
    assert_eq!(row, vec!["DROP_POLICY", "EGRESS"]);
}

#[test]
fn decode_zero_width_schema_fails() {
    // The only structural failure: a schema that declares no bytes.
    let schema = RecordSchema::new(vec![]);
    let raw: Vec<u8> = vec![1, 2, 3];
    assert!(decode(&schema, &raw).is_err());
    assert!(decode_and_render(&schema, &raw).is_err());
}

#[test]
fn decode_is_positional() {
    let schema = RecordSchema::new(vec![
        FieldSpec { name: "a", width: 2, fmt: Formatter::UintLe, padding: false },
        FieldSpec { name: "pad", width: 1, fmt: Formatter::UintLe, padding: true },
        FieldSpec { name: "b", width: 1, fmt: Formatter::UintLe, padding: false },
    ]);
    let raw: Vec<u8> = vec![1, 1, 255, 9];
    let chunks = decode(&schema, &raw).unwrap();
    assert_eq!(chunks, vec![vec![1, 1], vec![255], vec![9]]);
    let row = decode_and_render(&schema, &raw).unwrap();
    assert_eq!(row, vec!["257", "9"]);
}

#[test]
fn row_length_matches_header_length() {
    // For every buffer length up to the declared width, the rendered row has
    // one cell per non-padding field.
    let schema = EndpointKey::schema();
    let header = schema.header();
    for n in 0..20 {
        let raw: Vec<u8> = vec![7; n];
        let row = decode_and_render(&schema, &raw).unwrap();
        assert_eq!(row.len(), header.len());
    }
}

#[test]
fn family_field_selects_address_form() {
    // addr (16 bytes), family, key, cluster_id; the address renders under
    // the family tag decoded from the same record.
    let schema = EndpointKey::schema();
    let mut raw: Vec<u8> = vec![0; 19];
    raw[0] = 192;
    raw[1] = 168;
    raw[2] = 1;
    raw[3] = 1;
    raw[16] = 1; // family: v4
    raw[17] = 5; // key
    raw[18] = 7; // cluster_id
    let row = decode_and_render(&schema, &raw).unwrap();
    assert_eq!(row, vec!["192.168.1.1", "ipv4", "5", "7"]);
    raw[16] = 2; // family: v6
    let row = decode_and_render(&schema, &raw).unwrap();
    assert_eq!(row, vec!["c0a8:101::", "ipv6", "5", "7"]);
}

#[test]
fn large_counters_render_in_full() {
    let schema = cilium_map_viewer::MetricsValue::schema();
    let raw: Vec<u8> = vec![0xff; 16];
    let row = decode_and_render(&schema, &raw).unwrap();
    assert_eq!(row, vec!["18446744073709551615", "18446744073709551615"]);
}
