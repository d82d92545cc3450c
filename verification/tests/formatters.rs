use cilium_map_viewer::FlagGroup;
use cilium_map_viewer::Ip;
use cilium_map_viewer::IpFamily;
use cilium_map_viewer::Ipv4;
use cilium_map_viewer::Ipv6;
use cilium_map_viewer::L4Proto;
use cilium_map_viewer::Mac;
use cilium_map_viewer::MetricsDir;
use cilium_map_viewer::MetricsReason;
use cilium_map_viewer::Port;
use cilium_map_viewer::flag_defs;
use cilium_map_viewer::render::u64_to_dec;
use cilium_map_viewer::render::u64_to_hex;
use cilium_map_viewer::render_flags;

#[test]
fn decimal_rendering() {
    assert_eq!(u64_to_dec(0), "0");
    assert_eq!(u64_to_dec(7), "7");
    assert_eq!(u64_to_dec(443), "443");
    assert_eq!(u64_to_dec(u64::MAX), "18446744073709551615");
}

#[test]
fn hex_rendering() {
    assert_eq!(u64_to_hex(0), "0");
    assert_eq!(u64_to_hex(0x1a), "1a");
    assert_eq!(u64_to_hex(0xffff), "ffff");
}

#[test]
fn ipv4_dotted_quad() {
    assert_eq!(Ipv4::new([0, 0, 0, 0]).to_string(), "0.0.0.0");
    assert_eq!(Ipv4::new([192, 168, 1, 1]).to_string(), "192.168.1.1");
    assert_eq!(Ipv4::new([255, 255, 255, 255]).to_string(), "255.255.255.255");
}

#[test]
fn mac_colon_hex() {
    // The six-byte pattern renders as colon-separated lowercase hex octets.
    assert_eq!(
        Mac::new([0x00, 0x1a, 0x2b, 0x3c, 0x4d, 0x5e]).to_string(),
        "00:1a:2b:3c:4d:5e"
    );
    assert_eq!(
        Mac::new([0xff, 0xff, 0xff, 0xff, 0xff, 0xff]).to_string(),
        "ff:ff:ff:ff:ff:ff"
    );
}

#[test]
fn port_network_order() {
    // Big-endian two-byte pattern for decimal 443.
    assert_eq!(Port::from_bytes(&[1, 187]).to_string(), "443");
    assert_eq!(Port::from_bytes(&[0, 80]).to_string(), "80");
    assert_eq!(Port::from_bytes(&[0, 0]).to_string(), "0");
    assert_eq!(Port::from_bytes(&[255, 255]).to_string(), "65535");
}

#[test]
fn protocol_mnemonics() {
    assert_eq!(L4Proto::new(0).to_string(), "HOPOPT");
    assert_eq!(L4Proto::new(6).to_string(), "TCP");
    assert_eq!(L4Proto::new(17).to_string(), "UDP");
    assert_eq!(L4Proto::new(132).to_string(), "SCTP");
    // Unrecognized numbers render empty, never a numeric fallback.
    assert_eq!(L4Proto::new(250).to_string(), "");
}

#[test]
fn reason_codes() {
    assert_eq!(MetricsReason::new(0).to_string(), "REASON_FORWARDED");
    assert_eq!(MetricsReason::new(133).to_string(), "DROP_POLICY");
    assert_eq!(MetricsReason::new(195).to_string(), "DROP_UNENCRYPTED_TRAFFIC");
    assert_eq!(MetricsReason::new(100).to_string(), "NAT_46X64_RECIRC");
    assert_eq!(MetricsReason::new(255).to_string(), "");
}

#[test]
fn direction_codes() {
    assert_eq!(MetricsDir::new(1).to_string(), "INGRESS");
    assert_eq!(MetricsDir::new(2).to_string(), "EGRESS");
    assert_eq!(MetricsDir::new(3).to_string(), "SERVICE");
    assert_eq!(MetricsDir::new(0).to_string(), "");
}

#[test]
fn flags_zero_renders_empty() {
    // The all-zero-bits pattern yields the empty set for every group.
    assert_eq!(render_flags(FlagGroup::PolicyEntry, 0), "");
    assert_eq!(render_flags(FlagGroup::CtEntry, 0), "");
    assert_eq!(render_flags(FlagGroup::Tcp, 0), "");
    assert_eq!(render_flags(FlagGroup::Service, 0), "");
    assert_eq!(render_flags(FlagGroup::Service2, 0), "");
}

#[test]
fn flags_single_bit_renders_its_name() {
    // A pattern with exactly one known flag's bits yields exactly its name,
    // for every flag of every group.
    for group in [
        FlagGroup::PolicyEntry,
        FlagGroup::CtEntry,
        FlagGroup::Tcp,
        FlagGroup::Service,
        FlagGroup::Service2,
    ] {
        for (mask, name) in flag_defs(group) {
            assert_eq!(render_flags(group, mask), name);
        }
    }
}

#[test]
fn flags_combinations_and_unknown_bits() {
    assert_eq!(render_flags(FlagGroup::Tcp, 0b11), "FIN | SYN");
    assert_eq!(render_flags(FlagGroup::Tcp, 0b10010), "SYN | ACK");
    // Bits outside the definitions are ignored, never an error.
    assert_eq!(render_flags(FlagGroup::Tcp, 0b1100_0000), "");
    assert_eq!(render_flags(FlagGroup::CtEntry, 512), "");
    assert_eq!(render_flags(FlagGroup::CtEntry, 1024 | 1), "RX_CLOSING | FROM_TUNNEL");
}

#[test]
fn family_tags() {
    assert_eq!(IpFamily::new(1).to_string(), "ipv4");
    assert_eq!(IpFamily::new(2).to_string(), "ipv6");
    assert_eq!(IpFamily::new(0).to_string(), "");
    assert_eq!(IpFamily::new(9).to_string(), "");
    assert!(IpFamily::new(1).is_ipv4());
    assert!(!IpFamily::new(2).is_ipv4());
}

#[test]
fn family_tagged_address_v4() {
    // Family "v4" with a 16-byte buffer whose first four bytes are the
    // address and the rest zero renders as the dotted quad.
    let mut storage = [0u8; 16];
    storage[0] = 192;
    storage[1] = 168;
    storage[2] = 1;
    storage[3] = 1;
    let ip = Ip::new(storage);
    assert_eq!(ip.render(&IpFamily::new(1)), "192.168.1.1");
}

#[test]
fn family_tagged_address_v6_and_fallback() {
    let mut storage = [0u8; 16];
    storage[15] = 1;
    let ip = Ip::new(storage);
    assert_eq!(ip.render(&IpFamily::new(2)), "::1");
    // A tag outside the two recognized values falls back to the
    // sixteen-byte rendering.
    let mut other = [0u8; 16];
    other[0] = 192;
    other[1] = 168;
    other[2] = 1;
    other[3] = 1;
    assert_eq!(Ip::new(other).render(&IpFamily::new(9)), "c0a8:101::");
}

#[test]
fn ipv6_canonical_form() {
    assert_eq!(Ipv6::new([0; 16]).to_string(), "::");
    let mut one = [0u8; 16];
    one[15] = 1;
    assert_eq!(Ipv6::new(one).to_string(), "::1");
    let mut doc = [0u8; 16];
    doc[0] = 0x20;
    doc[1] = 0x01;
    doc[2] = 0x0d;
    doc[3] = 0xb8;
    doc[15] = 0x01;
    assert_eq!(Ipv6::new(doc).to_string(), "2001:db8::1");
}

#[test]
fn ipv6_mapped_v4() {
    let mut mapped = [0u8; 16];
    mapped[10] = 0xff;
    mapped[11] = 0xff;
    mapped[12] = 192;
    mapped[13] = 168;
    mapped[14] = 1;
    mapped[15] = 1;
    assert_eq!(Ipv6::new(mapped).to_string(), "::ffff:192.168.1.1");
}

#[test]
fn ipv6_zero_run_choices() {
    // The longest run wins.
    let segs: [u16; 8] = [1, 0, 0, 2, 0, 0, 0, 3];
    assert_eq!(ipv6_from_segs(segs).to_string(), "1:0:0:2::3");
    // On a tie the leftmost run wins.
    let segs: [u16; 8] = [1, 0, 0, 2, 0, 0, 3, 4];
    assert_eq!(ipv6_from_segs(segs).to_string(), "1::2:0:0:3:4");
    // A lone zero group is not compressed.
    let segs: [u16; 8] = [1, 0, 2, 3, 4, 5, 6, 7];
    assert_eq!(ipv6_from_segs(segs).to_string(), "1:0:2:3:4:5:6:7");
    // Groups render in lowercase hex without leading zeros.
    let segs: [u16; 8] = [0x11, 0x2233, 0xabcd, 0x1, 0x10, 0x100, 0x1000, 0xffff];
    assert_eq!(
        ipv6_from_segs(segs).to_string(),
        "11:2233:abcd:1:10:100:1000:ffff"
    );
}

fn ipv6_from_segs(segs: [u16; 8]) -> Ipv6 {
    let mut b = [0u8; 16];
    for i in 0..8 {
        b[2 * i] = (segs[i] >> 8) as u8;
        b[2 * i + 1] = (segs[i] & 0xff) as u8;
    }
    Ipv6::new(b)
}

#[test]
fn ip_accessors() {
    let mut storage = [0u8; 16];
    storage[0] = 10;
    storage[1] = 0;
    storage[2] = 0;
    storage[3] = 7;
    let ip = Ip::new(storage);
    assert_eq!(ip.ipv4().to_string(), "10.0.0.7");
    assert_eq!(ip.ipv6().to_string(), "a00:7::");
}
