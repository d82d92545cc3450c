//! The record-type catalog: each map record type, as a declarative schema
//! value. Field order and byte widths mirror the kernel's C structures,
//! including alignment padding; padding fields consume bytes but never
//! appear in headers or rows.
use crate::flags::FlagGroup;
use crate::schema::FieldSpec;
use crate::schema::FieldSpecV;
use crate::schema::Formatter;
use crate::schema::RecordSchema;
use crate::schema::field_wf;
use crate::schema::lemma_wf_width_bound;
use crate::schema::schema_wf;
use vstd::prelude::*;

verus! {

/// The policy-map key: rule length, security label, direction, protocol and destination port.
pub struct PolicyKey;

impl PolicyKey {
    /// The field layout of the record.
    pub open spec fn spec_fields() -> Seq<FieldSpecV> {
        seq![
            FieldSpecV { name: "len"@, width: 4, fmt: Formatter::UintLe, padding: false },
            FieldSpecV { name: "sec_label"@, width: 4, fmt: Formatter::UintLe, padding: false },
            FieldSpecV { name: "egress"@, width: 1, fmt: Formatter::Boolean, padding: false },
            FieldSpecV { name: "protocol"@, width: 1, fmt: Formatter::Proto, padding: false },
            FieldSpecV { name: "dport"@, width: 2, fmt: Formatter::PortBe, padding: false },
        ]
    }

    /// The record's schema as data.
    pub fn schema() -> (r: RecordSchema)
        ensures
            r@ == Self::spec_fields(),
            schema_wf(r@),
    {
        let fields = vec![
            FieldSpec { name: "len", width: 4, fmt: Formatter::UintLe, padding: false },
            FieldSpec { name: "sec_label", width: 4, fmt: Formatter::UintLe, padding: false },
            FieldSpec { name: "egress", width: 1, fmt: Formatter::Boolean, padding: false },
            FieldSpec { name: "protocol", width: 1, fmt: Formatter::Proto, padding: false },
            FieldSpec { name: "dport", width: 2, fmt: Formatter::PortBe, padding: false },
        ];
        let r = RecordSchema::new(fields);
        proof {
            assert(r@ =~= Self::spec_fields());
            assert(forall|i: int| 0 <= i < r@.len() ==> field_wf(#[trigger] r@[i]));
            lemma_wf_width_bound(r@);
        }
        r
    }
}

/// A policy-map entry: proxy port, rule flags, authentication type and traffic counters.
pub struct PolicyEntry;

impl PolicyEntry {
    /// The field layout of the record.
    pub open spec fn spec_fields() -> Seq<FieldSpecV> {
        seq![
            FieldSpecV { name: "proxy_port"@, width: 2, fmt: Formatter::PortBe, padding: false },
            FieldSpecV { name: "flags"@, width: 1, fmt: Formatter::Flags(FlagGroup::PolicyEntry), padding: false },
            FieldSpecV { name: "auth_type"@, width: 1, fmt: Formatter::UintLe, padding: false },
            FieldSpecV { name: "pad1"@, width: 2, fmt: Formatter::UintLe, padding: true },
            FieldSpecV { name: "pad2"@, width: 2, fmt: Formatter::UintLe, padding: true },
            FieldSpecV { name: "packets"@, width: 8, fmt: Formatter::UintLe, padding: false },
            FieldSpecV { name: "bytes"@, width: 8, fmt: Formatter::UintLe, padding: false },
        ]
    }

    /// The record's schema as data.
    pub fn schema() -> (r: RecordSchema)
        ensures
            r@ == Self::spec_fields(),
            schema_wf(r@),
    {
        let fields = vec![
            FieldSpec { name: "proxy_port", width: 2, fmt: Formatter::PortBe, padding: false },
            FieldSpec { name: "flags", width: 1, fmt: Formatter::Flags(FlagGroup::PolicyEntry), padding: false },
            FieldSpec { name: "auth_type", width: 1, fmt: Formatter::UintLe, padding: false },
            FieldSpec { name: "pad1", width: 2, fmt: Formatter::UintLe, padding: true },
            FieldSpec { name: "pad2", width: 2, fmt: Formatter::UintLe, padding: true },
            FieldSpec { name: "packets", width: 8, fmt: Formatter::UintLe, padding: false },
            FieldSpec { name: "bytes", width: 8, fmt: Formatter::UintLe, padding: false },
        ];
        let r = RecordSchema::new(fields);
        proof {
            assert(r@ =~= Self::spec_fields());
            assert(forall|i: int| 0 <= i < r@.len() ==> field_wf(#[trigger] r@[i]));
            lemma_wf_width_bound(r@);
        }
        r
    }
}

/// An endpoint-map key: family-tagged address, family, key and cluster.
pub struct EndpointKey;

impl EndpointKey {
    /// The field layout of the record.
    pub open spec fn spec_fields() -> Seq<FieldSpecV> {
        seq![
            FieldSpecV { name: "addr"@, width: 16, fmt: Formatter::FamilyAddr, padding: false },
            FieldSpecV { name: "family"@, width: 1, fmt: Formatter::Family, padding: false },
            FieldSpecV { name: "key"@, width: 1, fmt: Formatter::UintLe, padding: false },
            FieldSpecV { name: "cluster_id"@, width: 1, fmt: Formatter::UintLe, padding: false },
        ]
    }

    /// The record's schema as data.
    pub fn schema() -> (r: RecordSchema)
        ensures
            r@ == Self::spec_fields(),
            schema_wf(r@),
    {
        let fields = vec![
            FieldSpec { name: "addr", width: 16, fmt: Formatter::FamilyAddr, padding: false },
            FieldSpec { name: "family", width: 1, fmt: Formatter::Family, padding: false },
            FieldSpec { name: "key", width: 1, fmt: Formatter::UintLe, padding: false },
            FieldSpec { name: "cluster_id", width: 1, fmt: Formatter::UintLe, padding: false },
        ];
        let r = RecordSchema::new(fields);
        proof {
            assert(r@ =~= Self::spec_fields());
            assert(forall|i: int| 0 <= i < r@.len() ==> field_wf(#[trigger] r@[i]));
            lemma_wf_width_bound(r@);
        }
        r
    }
}

/// A tunnel-map key: family-tagged address, family and cluster.
pub struct TunnelKey;

impl TunnelKey {
    /// The field layout of the record.
    pub open spec fn spec_fields() -> Seq<FieldSpecV> {
        seq![
            FieldSpecV { name: "addr"@, width: 16, fmt: Formatter::FamilyAddr, padding: false },
            FieldSpecV { name: "family"@, width: 1, fmt: Formatter::Family, padding: false },
            FieldSpecV { name: "cluster_id"@, width: 1, fmt: Formatter::UintLe, padding: false },
        ]
    }

    /// The record's schema as data.
    pub fn schema() -> (r: RecordSchema)
        ensures
            r@ == Self::spec_fields(),
            schema_wf(r@),
    {
        let fields = vec![
            FieldSpec { name: "addr", width: 16, fmt: Formatter::FamilyAddr, padding: false },
            FieldSpec { name: "family", width: 1, fmt: Formatter::Family, padding: false },
            FieldSpec { name: "cluster_id", width: 1, fmt: Formatter::UintLe, padding: false },
        ];
        let r = RecordSchema::new(fields);
        proof {
            assert(r@ =~= Self::spec_fields());
            assert(forall|i: int| 0 <= i < r@.len() ==> field_wf(#[trigger] r@[i]));
            lemma_wf_width_bound(r@);
        }
        r
    }
}

/// A tunnel-map value: family-tagged address, family, key and node.
pub struct TunnelValue;

impl TunnelValue {
    /// The field layout of the record.
    pub open spec fn spec_fields() -> Seq<FieldSpecV> {
        seq![
            FieldSpecV { name: "addr"@, width: 16, fmt: Formatter::FamilyAddr, padding: false },
            FieldSpecV { name: "family"@, width: 1, fmt: Formatter::Family, padding: false },
            FieldSpecV { name: "key"@, width: 1, fmt: Formatter::UintLe, padding: false },
            FieldSpecV { name: "node_id"@, width: 2, fmt: Formatter::UintLe, padding: false },
        ]
    }

    /// The record's schema as data.
    pub fn schema() -> (r: RecordSchema)
        ensures
            r@ == Self::spec_fields(),
            schema_wf(r@),
    {
        let fields = vec![
            FieldSpec { name: "addr", width: 16, fmt: Formatter::FamilyAddr, padding: false },
            FieldSpec { name: "family", width: 1, fmt: Formatter::Family, padding: false },
            FieldSpec { name: "key", width: 1, fmt: Formatter::UintLe, padding: false },
            FieldSpec { name: "node_id", width: 2, fmt: Formatter::UintLe, padding: false },
        ];
        let r = RecordSchema::new(fields);
        proof {
            assert(r@ =~= Self::spec_fields());
            assert(forall|i: int| 0 <= i < r@.len() ==> field_wf(#[trigger] r@[i]));
            lemma_wf_width_bound(r@);
        }
        r
    }
}

/// An endpoint-map value: interface, container, flags, both hardware addresses and security id.
pub struct EndpointInfo;

impl EndpointInfo {
    /// The field layout of the record.
    pub open spec fn spec_fields() -> Seq<FieldSpecV> {
        seq![
            FieldSpecV { name: "ifindex"@, width: 4, fmt: Formatter::UintLe, padding: false },
            FieldSpecV { name: "pad"@, width: 2, fmt: Formatter::UintLe, padding: true },
            FieldSpecV { name: "lxc_id"@, width: 2, fmt: Formatter::UintLe, padding: false },
            FieldSpecV { name: "flags"@, width: 4, fmt: Formatter::UintLe, padding: false },
            FieldSpecV { name: "pad2"@, width: 4, fmt: Formatter::UintLe, padding: true },
            FieldSpecV { name: "mac"@, width: 6, fmt: Formatter::MacAddr, padding: false },
            FieldSpecV { name: "pad3"@, width: 2, fmt: Formatter::UintLe, padding: true },
            FieldSpecV { name: "node_mac"@, width: 6, fmt: Formatter::MacAddr, padding: false },
            FieldSpecV { name: "pad4"@, width: 2, fmt: Formatter::UintLe, padding: true },
            FieldSpecV { name: "sec_id"@, width: 4, fmt: Formatter::UintLe, padding: false },
        ]
    }

    /// The record's schema as data.
    pub fn schema() -> (r: RecordSchema)
        ensures
            r@ == Self::spec_fields(),
            schema_wf(r@),
    {
        let fields = vec![
            FieldSpec { name: "ifindex", width: 4, fmt: Formatter::UintLe, padding: false },
            FieldSpec { name: "pad", width: 2, fmt: Formatter::UintLe, padding: true },
            FieldSpec { name: "lxc_id", width: 2, fmt: Formatter::UintLe, padding: false },
            FieldSpec { name: "flags", width: 4, fmt: Formatter::UintLe, padding: false },
            FieldSpec { name: "pad2", width: 4, fmt: Formatter::UintLe, padding: true },
            FieldSpec { name: "mac", width: 6, fmt: Formatter::MacAddr, padding: false },
            FieldSpec { name: "pad3", width: 2, fmt: Formatter::UintLe, padding: true },
            FieldSpec { name: "node_mac", width: 6, fmt: Formatter::MacAddr, padding: false },
            FieldSpec { name: "pad4", width: 2, fmt: Formatter::UintLe, padding: true },
            FieldSpec { name: "sec_id", width: 4, fmt: Formatter::UintLe, padding: false },
        ];
        let r = RecordSchema::new(fields);
        proof {
            assert(r@ =~= Self::spec_fields());
            assert(forall|i: int| 0 <= i < r@.len() ==> field_wf(#[trigger] r@[i]));
            lemma_wf_width_bound(r@);
        }
        r
    }
}

/// An earliest-departure-time map key: the aggregate id.
pub struct EdtId;

impl EdtId {
    /// The field layout of the record.
    pub open spec fn spec_fields() -> Seq<FieldSpecV> {
        seq![
            FieldSpecV { name: "id"@, width: 8, fmt: Formatter::UintLe, padding: false },
        ]
    }

    /// The record's schema as data.
    pub fn schema() -> (r: RecordSchema)
        ensures
            r@ == Self::spec_fields(),
            schema_wf(r@),
    {
        let fields = vec![
            FieldSpec { name: "id", width: 8, fmt: Formatter::UintLe, padding: false },
        ];
        let r = RecordSchema::new(fields);
        proof {
            assert(r@ =~= Self::spec_fields());
            assert(forall|i: int| 0 <= i < r@.len() ==> field_wf(#[trigger] r@[i]));
            lemma_wf_width_bound(r@);
        }
        r
    }
}

/// An earliest-departure-time map value: rate and timestamps.
pub struct EdtInfo;

impl EdtInfo {
    /// The field layout of the record.
    pub open spec fn spec_fields() -> Seq<FieldSpecV> {
        seq![
            FieldSpecV { name: "bps"@, width: 8, fmt: Formatter::UintLe, padding: false },
            FieldSpecV { name: "t_last"@, width: 8, fmt: Formatter::UintLe, padding: false },
            FieldSpecV { name: "t_horizon_drop"@, width: 8, fmt: Formatter::UintLe, padding: false },
        ]
    }

    /// The record's schema as data.
    pub fn schema() -> (r: RecordSchema)
        ensures
            r@ == Self::spec_fields(),
            schema_wf(r@),
    {
        let fields = vec![
            FieldSpec { name: "bps", width: 8, fmt: Formatter::UintLe, padding: false },
            FieldSpec { name: "t_last", width: 8, fmt: Formatter::UintLe, padding: false },
            FieldSpec { name: "t_horizon_drop", width: 8, fmt: Formatter::UintLe, padding: false },
        ];
        let r = RecordSchema::new(fields);
        proof {
            assert(r@ =~= Self::spec_fields());
            assert(forall|i: int| 0 <= i < r@.len() ==> field_wf(#[trigger] r@[i]));
            lemma_wf_width_bound(r@);
        }
        r
    }
}

/// An ipcache value: security identity, tunnel endpoint, node and key.
pub struct RemoteEndpointInfo;

impl RemoteEndpointInfo {
    /// The field layout of the record.
    pub open spec fn spec_fields() -> Seq<FieldSpecV> {
        seq![
            FieldSpecV { name: "sec_identity"@, width: 4, fmt: Formatter::UintLe, padding: false },
            FieldSpecV { name: "tunnel_endpoint"@, width: 4, fmt: Formatter::V4Addr, padding: false },
            FieldSpecV { name: "node_id"@, width: 2, fmt: Formatter::UintLe, padding: false },
            FieldSpecV { name: "key"@, width: 1, fmt: Formatter::UintLe, padding: false },
            FieldSpecV { name: "pad_end"@, width: 1, fmt: Formatter::UintLe, padding: true },
        ]
    }

    /// The record's schema as data.
    pub fn schema() -> (r: RecordSchema)
        ensures
            r@ == Self::spec_fields(),
            schema_wf(r@),
    {
        let fields = vec![
            FieldSpec { name: "sec_identity", width: 4, fmt: Formatter::UintLe, padding: false },
            FieldSpec { name: "tunnel_endpoint", width: 4, fmt: Formatter::V4Addr, padding: false },
            FieldSpec { name: "node_id", width: 2, fmt: Formatter::UintLe, padding: false },
            FieldSpec { name: "key", width: 1, fmt: Formatter::UintLe, padding: false },
            FieldSpec { name: "pad_end", width: 1, fmt: Formatter::UintLe, padding: true },
        ];
        let r = RecordSchema::new(fields);
        proof {
            assert(r@ =~= Self::spec_fields());
            assert(forall|i: int| 0 <= i < r@.len() ==> field_wf(#[trigger] r@[i]));
            lemma_wf_width_bound(r@);
        }
        r
    }
}

/// An auth-map key: the two security labels, the remote node and the authentication type.
pub struct AuthKey;

impl AuthKey {
    /// The field layout of the record.
    pub open spec fn spec_fields() -> Seq<FieldSpecV> {
        seq![
            FieldSpecV { name: "local_sec_label"@, width: 4, fmt: Formatter::UintLe, padding: false },
            FieldSpecV { name: "remote_sec_label"@, width: 4, fmt: Formatter::UintLe, padding: false },
            FieldSpecV { name: "remote_node_id"@, width: 2, fmt: Formatter::UintLe, padding: false },
            FieldSpecV { name: "auth_type"@, width: 1, fmt: Formatter::UintLe, padding: false },
            FieldSpecV { name: "pad_end"@, width: 1, fmt: Formatter::UintLe, padding: true },
        ]
    }

    /// The record's schema as data.
    pub fn schema() -> (r: RecordSchema)
        ensures
            r@ == Self::spec_fields(),
            schema_wf(r@),
    {
        let fields = vec![
            FieldSpec { name: "local_sec_label", width: 4, fmt: Formatter::UintLe, padding: false },
            FieldSpec { name: "remote_sec_label", width: 4, fmt: Formatter::UintLe, padding: false },
            FieldSpec { name: "remote_node_id", width: 2, fmt: Formatter::UintLe, padding: false },
            FieldSpec { name: "auth_type", width: 1, fmt: Formatter::UintLe, padding: false },
            FieldSpec { name: "pad_end", width: 1, fmt: Formatter::UintLe, padding: true },
        ];
        let r = RecordSchema::new(fields);
        proof {
            assert(r@ =~= Self::spec_fields());
            assert(forall|i: int| 0 <= i < r@.len() ==> field_wf(#[trigger] r@[i]));
            lemma_wf_width_bound(r@);
        }
        r
    }
}

/// An auth-map value: the expiration time.
pub struct AuthInfo;

impl AuthInfo {
    /// The field layout of the record.
    pub open spec fn spec_fields() -> Seq<FieldSpecV> {
        seq![
            FieldSpecV { name: "expiration"@, width: 8, fmt: Formatter::UintLe, padding: false },
        ]
    }

    /// The record's schema as data.
    pub fn schema() -> (r: RecordSchema)
        ensures
            r@ == Self::spec_fields(),
            schema_wf(r@),
    {
        let fields = vec![
            FieldSpec { name: "expiration", width: 8, fmt: Formatter::UintLe, padding: false },
        ];
        let r = RecordSchema::new(fields);
        proof {
            assert(r@ =~= Self::spec_fields());
            assert(forall|i: int| 0 <= i < r@.len() ==> field_wf(#[trigger] r@[i]));
            lemma_wf_width_bound(r@);
        }
        r
    }
}

/// A metrics-map key: reason and traffic direction.
pub struct MetricsKey;

impl MetricsKey {
    /// The field layout of the record.
    pub open spec fn spec_fields() -> Seq<FieldSpecV> {
        seq![
            FieldSpecV { name: "reason"@, width: 1, fmt: Formatter::Reason, padding: false },
            FieldSpecV { name: "dir"@, width: 1, fmt: Formatter::Direction, padding: false },
        ]
    }

    /// The record's schema as data.
    pub fn schema() -> (r: RecordSchema)
        ensures
            r@ == Self::spec_fields(),
            schema_wf(r@),
    {
        let fields = vec![
            FieldSpec { name: "reason", width: 1, fmt: Formatter::Reason, padding: false },
            FieldSpec { name: "dir", width: 1, fmt: Formatter::Direction, padding: false },
        ];
        let r = RecordSchema::new(fields);
        proof {
            assert(r@ =~= Self::spec_fields());
            assert(forall|i: int| 0 <= i < r@.len() ==> field_wf(#[trigger] r@[i]));
            lemma_wf_width_bound(r@);
        }
        r
    }
}

/// A metrics-map value: packet and byte counters.
pub struct MetricsValue;

impl MetricsValue {
    /// The field layout of the record.
    pub open spec fn spec_fields() -> Seq<FieldSpecV> {
        seq![
            FieldSpecV { name: "count"@, width: 8, fmt: Formatter::UintLe, padding: false },
            FieldSpecV { name: "bytes"@, width: 8, fmt: Formatter::UintLe, padding: false },
        ]
    }

    /// The record's schema as data.
    pub fn schema() -> (r: RecordSchema)
        ensures
            r@ == Self::spec_fields(),
            schema_wf(r@),
    {
        let fields = vec![
            FieldSpec { name: "count", width: 8, fmt: Formatter::UintLe, padding: false },
            FieldSpec { name: "bytes", width: 8, fmt: Formatter::UintLe, padding: false },
        ];
        let r = RecordSchema::new(fields);
        proof {
            assert(r@ =~= Self::spec_fields());
            assert(forall|i: int| 0 <= i < r@.len() ==> field_wf(#[trigger] r@[i]));
            lemma_wf_width_bound(r@);
        }
        r
    }
}

/// An egress-gateway policy key: source and destination addresses.
pub struct EgressGwPolicyKey;

impl EgressGwPolicyKey {
    /// The field layout of the record.
    pub open spec fn spec_fields() -> Seq<FieldSpecV> {
        seq![
            FieldSpecV { name: "saddr"@, width: 4, fmt: Formatter::V4Addr, padding: false },
            FieldSpecV { name: "daddr"@, width: 4, fmt: Formatter::V4Addr, padding: false },
        ]
    }

    /// The record's schema as data.
    pub fn schema() -> (r: RecordSchema)
        ensures
            r@ == Self::spec_fields(),
            schema_wf(r@),
    {
        let fields = vec![
            FieldSpec { name: "saddr", width: 4, fmt: Formatter::V4Addr, padding: false },
            FieldSpec { name: "daddr", width: 4, fmt: Formatter::V4Addr, padding: false },
        ];
        let r = RecordSchema::new(fields);
        proof {
            assert(r@ =~= Self::spec_fields());
            assert(forall|i: int| 0 <= i < r@.len() ==> field_wf(#[trigger] r@[i]));
            lemma_wf_width_bound(r@);
        }
        r
    }
}

/// An egress-gateway policy entry: egress and gateway addresses.
pub struct EgressGwPolicyEntry;

impl EgressGwPolicyEntry {
    /// The field layout of the record.
    pub open spec fn spec_fields() -> Seq<FieldSpecV> {
        seq![
            FieldSpecV { name: "egress_ip"@, width: 4, fmt: Formatter::V4Addr, padding: false },
            FieldSpecV { name: "gateway_ip"@, width: 4, fmt: Formatter::V4Addr, padding: false },
        ]
    }

    /// The record's schema as data.
    pub fn schema() -> (r: RecordSchema)
        ensures
            r@ == Self::spec_fields(),
            schema_wf(r@),
    {
        let fields = vec![
            FieldSpec { name: "egress_ip", width: 4, fmt: Formatter::V4Addr, padding: false },
            FieldSpec { name: "gateway_ip", width: 4, fmt: Formatter::V4Addr, padding: false },
        ];
        let r = RecordSchema::new(fields);
        proof {
            assert(r@ =~= Self::spec_fields());
            assert(forall|i: int| 0 <= i < r@.len() ==> field_wf(#[trigger] r@[i]));
            lemma_wf_width_bound(r@);
        }
        r
    }
}

/// A segment-routing VRF key over four-byte addresses.
pub struct Srv6VrfKey4;

impl Srv6VrfKey4 {
    /// The field layout of the record.
    pub open spec fn spec_fields() -> Seq<FieldSpecV> {
        seq![
            FieldSpecV { name: "src_ip"@, width: 4, fmt: Formatter::V4Addr, padding: false },
            FieldSpecV { name: "dst_cidr"@, width: 4, fmt: Formatter::V4Addr, padding: false },
        ]
    }

    /// The record's schema as data.
    pub fn schema() -> (r: RecordSchema)
        ensures
            r@ == Self::spec_fields(),
            schema_wf(r@),
    {
        let fields = vec![
            FieldSpec { name: "src_ip", width: 4, fmt: Formatter::V4Addr, padding: false },
            FieldSpec { name: "dst_cidr", width: 4, fmt: Formatter::V4Addr, padding: false },
        ];
        let r = RecordSchema::new(fields);
        proof {
            assert(r@ =~= Self::spec_fields());
            assert(forall|i: int| 0 <= i < r@.len() ==> field_wf(#[trigger] r@[i]));
            lemma_wf_width_bound(r@);
        }
        r
    }
}

/// A segment-routing VRF key over sixteen-byte addresses.
pub struct Srv6VrfKey6;

impl Srv6VrfKey6 {
    /// The field layout of the record.
    pub open spec fn spec_fields() -> Seq<FieldSpecV> {
        seq![
            FieldSpecV { name: "src_ip"@, width: 16, fmt: Formatter::V6Addr, padding: false },
            FieldSpecV { name: "dst_cidr"@, width: 16, fmt: Formatter::V6Addr, padding: false },
        ]
    }

    /// The record's schema as data.
    pub fn schema() -> (r: RecordSchema)
        ensures
            r@ == Self::spec_fields(),
            schema_wf(r@),
    {
        let fields = vec![
            FieldSpec { name: "src_ip", width: 16, fmt: Formatter::V6Addr, padding: false },
            FieldSpec { name: "dst_cidr", width: 16, fmt: Formatter::V6Addr, padding: false },
        ];
        let r = RecordSchema::new(fields);
        proof {
            assert(r@ =~= Self::spec_fields());
            assert(forall|i: int| 0 <= i < r@.len() ==> field_wf(#[trigger] r@[i]));
            lemma_wf_width_bound(r@);
        }
        r
    }
}

/// A segment-routing policy key over four-byte addresses.
pub struct Srv6PolicyKey4;

impl Srv6PolicyKey4 {
    /// The field layout of the record.
    pub open spec fn spec_fields() -> Seq<FieldSpecV> {
        seq![
            FieldSpecV { name: "vrf_id"@, width: 4, fmt: Formatter::UintLe, padding: false },
            FieldSpecV { name: "dst_cidr"@, width: 4, fmt: Formatter::V4Addr, padding: false },
        ]
    }

    /// The record's schema as data.
    pub fn schema() -> (r: RecordSchema)
        ensures
            r@ == Self::spec_fields(),
            schema_wf(r@),
    {
        let fields = vec![
            FieldSpec { name: "vrf_id", width: 4, fmt: Formatter::UintLe, padding: false },
            FieldSpec { name: "dst_cidr", width: 4, fmt: Formatter::V4Addr, padding: false },
        ];
        let r = RecordSchema::new(fields);
        proof {
            assert(r@ =~= Self::spec_fields());
            assert(forall|i: int| 0 <= i < r@.len() ==> field_wf(#[trigger] r@[i]));
            lemma_wf_width_bound(r@);
        }
        r
    }
}

/// A segment-routing policy key over sixteen-byte addresses.
pub struct Srv6PolicyKey6;

impl Srv6PolicyKey6 {
    /// The field layout of the record.
    pub open spec fn spec_fields() -> Seq<FieldSpecV> {
        seq![
            FieldSpecV { name: "vrf_id"@, width: 4, fmt: Formatter::UintLe, padding: false },
            FieldSpecV { name: "dst_cidr"@, width: 16, fmt: Formatter::V6Addr, padding: false },
        ]
    }

    /// The record's schema as data.
    pub fn schema() -> (r: RecordSchema)
        ensures
            r@ == Self::spec_fields(),
            schema_wf(r@),
    {
        let fields = vec![
            FieldSpec { name: "vrf_id", width: 4, fmt: Formatter::UintLe, padding: false },
            FieldSpec { name: "dst_cidr", width: 16, fmt: Formatter::V6Addr, padding: false },
        ];
        let r = RecordSchema::new(fields);
        proof {
            assert(r@ =~= Self::spec_fields());
            assert(forall|i: int| 0 <= i < r@.len() ==> field_wf(#[trigger] r@[i]));
            lemma_wf_width_bound(r@);
        }
        r
    }
}

/// A segment-routing two-tuple of four-byte addresses.
pub struct Srv6Ipv4_2tuple;

impl Srv6Ipv4_2tuple {
    /// The field layout of the record.
    pub open spec fn spec_fields() -> Seq<FieldSpecV> {
        seq![
            FieldSpecV { name: "src"@, width: 4, fmt: Formatter::V4Addr, padding: false },
            FieldSpecV { name: "dst"@, width: 4, fmt: Formatter::V4Addr, padding: false },
        ]
    }

    /// The record's schema as data.
    pub fn schema() -> (r: RecordSchema)
        ensures
            r@ == Self::spec_fields(),
            schema_wf(r@),
    {
        let fields = vec![
            FieldSpec { name: "src", width: 4, fmt: Formatter::V4Addr, padding: false },
            FieldSpec { name: "dst", width: 4, fmt: Formatter::V4Addr, padding: false },
        ];
        let r = RecordSchema::new(fields);
        proof {
            assert(r@ =~= Self::spec_fields());
            assert(forall|i: int| 0 <= i < r@.len() ==> field_wf(#[trigger] r@[i]));
            lemma_wf_width_bound(r@);
        }
        r
    }
}

/// A segment-routing two-tuple of sixteen-byte addresses.
pub struct Srv6Ipv6_2tuple;

impl Srv6Ipv6_2tuple {
    /// The field layout of the record.
    pub open spec fn spec_fields() -> Seq<FieldSpecV> {
        seq![
            FieldSpecV { name: "src"@, width: 16, fmt: Formatter::V6Addr, padding: false },
            FieldSpecV { name: "dst"@, width: 16, fmt: Formatter::V6Addr, padding: false },
        ]
    }

    /// The record's schema as data.
    pub fn schema() -> (r: RecordSchema)
        ensures
            r@ == Self::spec_fields(),
            schema_wf(r@),
    {
        let fields = vec![
            FieldSpec { name: "src", width: 16, fmt: Formatter::V6Addr, padding: false },
            FieldSpec { name: "dst", width: 16, fmt: Formatter::V6Addr, padding: false },
        ];
        let r = RecordSchema::new(fields);
        proof {
            assert(r@ =~= Self::spec_fields());
            assert(forall|i: int| 0 <= i < r@.len() ==> field_wf(#[trigger] r@[i]));
            lemma_wf_width_bound(r@);
        }
        r
    }
}

/// A VTEP-map key: the endpoint address.
pub struct VtepKey;

impl VtepKey {
    /// The field layout of the record.
    pub open spec fn spec_fields() -> Seq<FieldSpecV> {
        seq![
            FieldSpecV { name: "vtep_ip"@, width: 4, fmt: Formatter::V4Addr, padding: false },
        ]
    }

    /// The record's schema as data.
    pub fn schema() -> (r: RecordSchema)
        ensures
            r@ == Self::spec_fields(),
            schema_wf(r@),
    {
        let fields = vec![
            FieldSpec { name: "vtep_ip", width: 4, fmt: Formatter::V4Addr, padding: false },
        ];
        let r = RecordSchema::new(fields);
        proof {
            assert(r@ =~= Self::spec_fields());
            assert(forall|i: int| 0 <= i < r@.len() ==> field_wf(#[trigger] r@[i]));
            lemma_wf_width_bound(r@);
        }
        r
    }
}

/// A VTEP-map value: hardware address bits and tunnel endpoint.
pub struct VtepValue;

impl VtepValue {
    /// The field layout of the record.
    pub open spec fn spec_fields() -> Seq<FieldSpecV> {
        seq![
            FieldSpecV { name: "vtep_mac"@, width: 8, fmt: Formatter::UintLe, padding: false },
            FieldSpecV { name: "tunnel_endpoint"@, width: 4, fmt: Formatter::UintLe, padding: false },
            FieldSpecV { name: "pad_end"@, width: 4, fmt: Formatter::UintLe, padding: true },
        ]
    }

    /// The record's schema as data.
    pub fn schema() -> (r: RecordSchema)
        ensures
            r@ == Self::spec_fields(),
            schema_wf(r@),
    {
        let fields = vec![
            FieldSpec { name: "vtep_mac", width: 8, fmt: Formatter::UintLe, padding: false },
            FieldSpec { name: "tunnel_endpoint", width: 4, fmt: Formatter::UintLe, padding: false },
            FieldSpec { name: "pad_end", width: 4, fmt: Formatter::UintLe, padding: true },
        ];
        let r = RecordSchema::new(fields);
        proof {
            assert(r@ =~= Self::spec_fields());
            assert(forall|i: int| 0 <= i < r@.len() ==> field_wf(#[trigger] r@[i]));
            lemma_wf_width_bound(r@);
        }
        r
    }
}

/// The encryption configuration record: the key index.
pub struct EncryptConfig;

impl EncryptConfig {
    /// The field layout of the record.
    pub open spec fn spec_fields() -> Seq<FieldSpecV> {
        seq![
            FieldSpecV { name: "encrypt_key"@, width: 1, fmt: Formatter::UintLe, padding: false },
        ]
    }

    /// The record's schema as data.
    pub fn schema() -> (r: RecordSchema)
        ensures
            r@ == Self::spec_fields(),
            schema_wf(r@),
    {
        let fields = vec![
            FieldSpec { name: "encrypt_key", width: 1, fmt: Formatter::UintLe, padding: false },
        ];
        let r = RecordSchema::new(fields);
        proof {
            assert(r@ =~= Self::spec_fields());
            assert(forall|i: int| 0 <= i < r@.len() ==> field_wf(#[trigger] r@[i]));
            lemma_wf_width_bound(r@);
        }
        r
    }
}

/// A connection-tracking tuple over sixteen-byte addresses; the address fields are stored swapped.
pub struct Ipv6CtTuple;

impl Ipv6CtTuple {
    /// The field layout of the record.
    pub open spec fn spec_fields() -> Seq<FieldSpecV> {
        seq![
            FieldSpecV { name: "daddr"@, width: 16, fmt: Formatter::V6Addr, padding: false },
            FieldSpecV { name: "saddr"@, width: 16, fmt: Formatter::V6Addr, padding: false },
            FieldSpecV { name: "dport"@, width: 2, fmt: Formatter::PortBe, padding: false },
            FieldSpecV { name: "sport"@, width: 2, fmt: Formatter::PortBe, padding: false },
            FieldSpecV { name: "nexthdr"@, width: 1, fmt: Formatter::Proto, padding: false },
            FieldSpecV { name: "flags"@, width: 1, fmt: Formatter::UintLe, padding: false },
        ]
    }

    /// The record's schema as data.
    pub fn schema() -> (r: RecordSchema)
        ensures
            r@ == Self::spec_fields(),
            schema_wf(r@),
    {
        let fields = vec![
            FieldSpec { name: "daddr", width: 16, fmt: Formatter::V6Addr, padding: false },
            FieldSpec { name: "saddr", width: 16, fmt: Formatter::V6Addr, padding: false },
            FieldSpec { name: "dport", width: 2, fmt: Formatter::PortBe, padding: false },
            FieldSpec { name: "sport", width: 2, fmt: Formatter::PortBe, padding: false },
            FieldSpec { name: "nexthdr", width: 1, fmt: Formatter::Proto, padding: false },
            FieldSpec { name: "flags", width: 1, fmt: Formatter::UintLe, padding: false },
        ];
        let r = RecordSchema::new(fields);
        proof {
            assert(r@ =~= Self::spec_fields());
            assert(forall|i: int| 0 <= i < r@.len() ==> field_wf(#[trigger] r@[i]));
            lemma_wf_width_bound(r@);
        }
        r
    }
}

/// A connection-tracking tuple over four-byte addresses; the address fields are stored swapped.
pub struct Ipv4CtTuple;

impl Ipv4CtTuple {
    /// The field layout of the record.
    pub open spec fn spec_fields() -> Seq<FieldSpecV> {
        seq![
            FieldSpecV { name: "daddr"@, width: 4, fmt: Formatter::V4Addr, padding: false },
            FieldSpecV { name: "saddr"@, width: 4, fmt: Formatter::V4Addr, padding: false },
            FieldSpecV { name: "dport"@, width: 2, fmt: Formatter::PortBe, padding: false },
            FieldSpecV { name: "sport"@, width: 2, fmt: Formatter::PortBe, padding: false },
            FieldSpecV { name: "nexthdr"@, width: 1, fmt: Formatter::Proto, padding: false },
            FieldSpecV { name: "flags"@, width: 1, fmt: Formatter::UintLe, padding: false },
        ]
    }

    /// The record's schema as data.
    pub fn schema() -> (r: RecordSchema)
        ensures
            r@ == Self::spec_fields(),
            schema_wf(r@),
    {
        let fields = vec![
            FieldSpec { name: "daddr", width: 4, fmt: Formatter::V4Addr, padding: false },
            FieldSpec { name: "saddr", width: 4, fmt: Formatter::V4Addr, padding: false },
            FieldSpec { name: "dport", width: 2, fmt: Formatter::PortBe, padding: false },
            FieldSpec { name: "sport", width: 2, fmt: Formatter::PortBe, padding: false },
            FieldSpec { name: "nexthdr", width: 1, fmt: Formatter::Proto, padding: false },
            FieldSpec { name: "flags", width: 1, fmt: Formatter::UintLe, padding: false },
        ];
        let r = RecordSchema::new(fields);
        proof {
            assert(r@ =~= Self::spec_fields());
            assert(forall|i: int| 0 <= i < r@.len() ==> field_wf(#[trigger] r@[i]));
            lemma_wf_width_bound(r@);
        }
        r
    }
}

/// A connection-tracking entry: counters, lifetime, state flags and reports.
pub struct CtEntry;

impl CtEntry {
    /// The field layout of the record.
    pub open spec fn spec_fields() -> Seq<FieldSpecV> {
        seq![
            FieldSpecV { name: "rx_packets"@, width: 8, fmt: Formatter::UintLe, padding: false },
            FieldSpecV { name: "rx_bytes"@, width: 8, fmt: Formatter::UintLe, padding: false },
            FieldSpecV { name: "tx_packets"@, width: 8, fmt: Formatter::UintLe, padding: false },
            FieldSpecV { name: "tx_bytes"@, width: 8, fmt: Formatter::UintLe, padding: false },
            FieldSpecV { name: "lifetime"@, width: 4, fmt: Formatter::UintLe, padding: false },
            FieldSpecV { name: "flags"@, width: 2, fmt: Formatter::Flags(FlagGroup::CtEntry), padding: false },
            FieldSpecV { name: "rev_nat_index"@, width: 2, fmt: Formatter::UintLe, padding: false },
            FieldSpecV { name: "ifindex"@, width: 2, fmt: Formatter::UintLe, padding: false },
            FieldSpecV { name: "tx_flags_seen"@, width: 1, fmt: Formatter::Flags(FlagGroup::Tcp), padding: false },
            FieldSpecV { name: "rx_flags_seen"@, width: 1, fmt: Formatter::Flags(FlagGroup::Tcp), padding: false },
            FieldSpecV { name: "src_sec_id"@, width: 4, fmt: Formatter::UintLe, padding: false },
            FieldSpecV { name: "last_tx_report"@, width: 4, fmt: Formatter::UintLe, padding: false },
            FieldSpecV { name: "last_rx_report"@, width: 4, fmt: Formatter::UintLe, padding: false },
        ]
    }

    /// The record's schema as data.
    pub fn schema() -> (r: RecordSchema)
        ensures
            r@ == Self::spec_fields(),
            schema_wf(r@),
    {
        let fields = vec![
            FieldSpec { name: "rx_packets", width: 8, fmt: Formatter::UintLe, padding: false },
            FieldSpec { name: "rx_bytes", width: 8, fmt: Formatter::UintLe, padding: false },
            FieldSpec { name: "tx_packets", width: 8, fmt: Formatter::UintLe, padding: false },
            FieldSpec { name: "tx_bytes", width: 8, fmt: Formatter::UintLe, padding: false },
            FieldSpec { name: "lifetime", width: 4, fmt: Formatter::UintLe, padding: false },
            FieldSpec { name: "flags", width: 2, fmt: Formatter::Flags(FlagGroup::CtEntry), padding: false },
            FieldSpec { name: "rev_nat_index", width: 2, fmt: Formatter::UintLe, padding: false },
            FieldSpec { name: "ifindex", width: 2, fmt: Formatter::UintLe, padding: false },
            FieldSpec { name: "tx_flags_seen", width: 1, fmt: Formatter::Flags(FlagGroup::Tcp), padding: false },
            FieldSpec { name: "rx_flags_seen", width: 1, fmt: Formatter::Flags(FlagGroup::Tcp), padding: false },
            FieldSpec { name: "src_sec_id", width: 4, fmt: Formatter::UintLe, padding: false },
            FieldSpec { name: "last_tx_report", width: 4, fmt: Formatter::UintLe, padding: false },
            FieldSpec { name: "last_rx_report", width: 4, fmt: Formatter::UintLe, padding: false },
        ];
        let r = RecordSchema::new(fields);
        proof {
            assert(r@ =~= Self::spec_fields());
            assert(forall|i: int| 0 <= i < r@.len() ==> field_wf(#[trigger] r@[i]));
            lemma_wf_width_bound(r@);
        }
        r
    }
}

/// A load-balancer service key over sixteen-byte addresses.
pub struct Lb6Key;

impl Lb6Key {
    /// The field layout of the record.
    pub open spec fn spec_fields() -> Seq<FieldSpecV> {
        seq![
            FieldSpecV { name: "address"@, width: 16, fmt: Formatter::V6Addr, padding: false },
            FieldSpecV { name: "dport"@, width: 2, fmt: Formatter::PortBe, padding: false },
            FieldSpecV { name: "backend_slot"@, width: 2, fmt: Formatter::UintLe, padding: false },
            FieldSpecV { name: "proto"@, width: 1, fmt: Formatter::Proto, padding: false },
            FieldSpecV { name: "scope"@, width: 1, fmt: Formatter::UintLe, padding: false },
        ]
    }

    /// The record's schema as data.
    pub fn schema() -> (r: RecordSchema)
        ensures
            r@ == Self::spec_fields(),
            schema_wf(r@),
    {
        let fields = vec![
            FieldSpec { name: "address", width: 16, fmt: Formatter::V6Addr, padding: false },
            FieldSpec { name: "dport", width: 2, fmt: Formatter::PortBe, padding: false },
            FieldSpec { name: "backend_slot", width: 2, fmt: Formatter::UintLe, padding: false },
            FieldSpec { name: "proto", width: 1, fmt: Formatter::Proto, padding: false },
            FieldSpec { name: "scope", width: 1, fmt: Formatter::UintLe, padding: false },
        ];
        let r = RecordSchema::new(fields);
        proof {
            assert(r@ =~= Self::spec_fields());
            assert(forall|i: int| 0 <= i < r@.len() ==> field_wf(#[trigger] r@[i]));
            lemma_wf_width_bound(r@);
        }
        r
    }
}

/// A load-balancer service entry over sixteen-byte addresses.
pub struct Lb6Service;

impl Lb6Service {
    /// The field layout of the record.
    pub open spec fn spec_fields() -> Seq<FieldSpecV> {
        seq![
            FieldSpecV { name: "backend_id"@, width: 4, fmt: Formatter::UintLe, padding: false },
            FieldSpecV { name: "count"@, width: 2, fmt: Formatter::UintLe, padding: false },
            FieldSpecV { name: "rev_nat_index"@, width: 2, fmt: Formatter::UintLe, padding: false },
            FieldSpecV { name: "flags"@, width: 1, fmt: Formatter::Flags(FlagGroup::Service), padding: false },
            FieldSpecV { name: "flags2"@, width: 1, fmt: Formatter::Flags(FlagGroup::Service2), padding: false },
            FieldSpecV { name: "pad_end"@, width: 2, fmt: Formatter::UintLe, padding: true },
        ]
    }

    /// The record's schema as data.
    pub fn schema() -> (r: RecordSchema)
        ensures
            r@ == Self::spec_fields(),
            schema_wf(r@),
    {
        let fields = vec![
            FieldSpec { name: "backend_id", width: 4, fmt: Formatter::UintLe, padding: false },
            FieldSpec { name: "count", width: 2, fmt: Formatter::UintLe, padding: false },
            FieldSpec { name: "rev_nat_index", width: 2, fmt: Formatter::UintLe, padding: false },
            FieldSpec { name: "flags", width: 1, fmt: Formatter::Flags(FlagGroup::Service), padding: false },
            FieldSpec { name: "flags2", width: 1, fmt: Formatter::Flags(FlagGroup::Service2), padding: false },
            FieldSpec { name: "pad_end", width: 2, fmt: Formatter::UintLe, padding: true },
        ];
        let r = RecordSchema::new(fields);
        proof {
            assert(r@ =~= Self::spec_fields());
            assert(forall|i: int| 0 <= i < r@.len() ==> field_wf(#[trigger] r@[i]));
            lemma_wf_width_bound(r@);
        }
        r
    }
}

/// A load-balancer backend over sixteen-byte addresses.
pub struct Lb6Backend;

impl Lb6Backend {
    /// The field layout of the record.
    pub open spec fn spec_fields() -> Seq<FieldSpecV> {
        seq![
            FieldSpecV { name: "address"@, width: 16, fmt: Formatter::V6Addr, padding: false },
            FieldSpecV { name: "port"@, width: 2, fmt: Formatter::PortBe, padding: false },
            FieldSpecV { name: "proto"@, width: 1, fmt: Formatter::Proto, padding: false },
            FieldSpecV { name: "flags"@, width: 1, fmt: Formatter::UintLe, padding: false },
            FieldSpecV { name: "cluster_id"@, width: 1, fmt: Formatter::UintLe, padding: false },
            FieldSpecV { name: "pad_end"@, width: 1, fmt: Formatter::UintLe, padding: true },
        ]
    }

    /// The record's schema as data.
    pub fn schema() -> (r: RecordSchema)
        ensures
            r@ == Self::spec_fields(),
            schema_wf(r@),
    {
        let fields = vec![
            FieldSpec { name: "address", width: 16, fmt: Formatter::V6Addr, padding: false },
            FieldSpec { name: "port", width: 2, fmt: Formatter::PortBe, padding: false },
            FieldSpec { name: "proto", width: 1, fmt: Formatter::Proto, padding: false },
            FieldSpec { name: "flags", width: 1, fmt: Formatter::UintLe, padding: false },
            FieldSpec { name: "cluster_id", width: 1, fmt: Formatter::UintLe, padding: false },
            FieldSpec { name: "pad_end", width: 1, fmt: Formatter::UintLe, padding: true },
        ];
        let r = RecordSchema::new(fields);
        proof {
            assert(r@ =~= Self::spec_fields());
            assert(forall|i: int| 0 <= i < r@.len() ==> field_wf(#[trigger] r@[i]));
            lemma_wf_width_bound(r@);
        }
        r
    }
}

/// A reverse translation record over sixteen-byte addresses.
pub struct Lb6ReverseNat;

impl Lb6ReverseNat {
    /// The field layout of the record.
    pub open spec fn spec_fields() -> Seq<FieldSpecV> {
        seq![
            FieldSpecV { name: "address"@, width: 16, fmt: Formatter::V6Addr, padding: false },
            FieldSpecV { name: "port"@, width: 2, fmt: Formatter::PortBe, padding: false },
        ]
    }

    /// The record's schema as data.
    pub fn schema() -> (r: RecordSchema)
        ensures
            r@ == Self::spec_fields(),
            schema_wf(r@),
    {
        let fields = vec![
            FieldSpec { name: "address", width: 16, fmt: Formatter::V6Addr, padding: false },
            FieldSpec { name: "port", width: 2, fmt: Formatter::PortBe, padding: false },
        ];
        let r = RecordSchema::new(fields);
        proof {
            assert(r@ =~= Self::spec_fields());
            assert(forall|i: int| 0 <= i < r@.len() ==> field_wf(#[trigger] r@[i]));
            lemma_wf_width_bound(r@);
        }
        r
    }
}

/// A reverse translation key over sixteen-byte addresses: cookie, address and port.
pub struct Ipv6RevnatTuple;

impl Ipv6RevnatTuple {
    /// The field layout of the record.
    pub open spec fn spec_fields() -> Seq<FieldSpecV> {
        seq![
            FieldSpecV { name: "cookie"@, width: 8, fmt: Formatter::UintLe, padding: false },
            FieldSpecV { name: "address"@, width: 16, fmt: Formatter::V6Addr, padding: false },
            FieldSpecV { name: "port"@, width: 2, fmt: Formatter::PortBe, padding: false },
            FieldSpecV { name: "pad_end"@, width: 6, fmt: Formatter::UintLe, padding: true },
        ]
    }

    /// The record's schema as data.
    pub fn schema() -> (r: RecordSchema)
        ensures
            r@ == Self::spec_fields(),
            schema_wf(r@),
    {
        let fields = vec![
            FieldSpec { name: "cookie", width: 8, fmt: Formatter::UintLe, padding: false },
            FieldSpec { name: "address", width: 16, fmt: Formatter::V6Addr, padding: false },
            FieldSpec { name: "port", width: 2, fmt: Formatter::PortBe, padding: false },
            FieldSpec { name: "pad_end", width: 6, fmt: Formatter::UintLe, padding: true },
        ];
        let r = RecordSchema::new(fields);
        proof {
            assert(r@ =~= Self::spec_fields());
            assert(forall|i: int| 0 <= i < r@.len() ==> field_wf(#[trigger] r@[i]));
            lemma_wf_width_bound(r@);
        }
        r
    }
}

/// A reverse translation entry over sixteen-byte addresses.
pub struct Ipv6RevnatEntry;

impl Ipv6RevnatEntry {
    /// The field layout of the record.
    pub open spec fn spec_fields() -> Seq<FieldSpecV> {
        seq![
            FieldSpecV { name: "address"@, width: 16, fmt: Formatter::V6Addr, padding: false },
            FieldSpecV { name: "port"@, width: 2, fmt: Formatter::PortBe, padding: false },
            FieldSpecV { name: "rev_nat_index"@, width: 2, fmt: Formatter::UintLe, padding: false },
        ]
    }

    /// The record's schema as data.
    pub fn schema() -> (r: RecordSchema)
        ensures
            r@ == Self::spec_fields(),
            schema_wf(r@),
    {
        let fields = vec![
            FieldSpec { name: "address", width: 16, fmt: Formatter::V6Addr, padding: false },
            FieldSpec { name: "port", width: 2, fmt: Formatter::PortBe, padding: false },
            FieldSpec { name: "rev_nat_index", width: 2, fmt: Formatter::UintLe, padding: false },
        ];
        let r = RecordSchema::new(fields);
        proof {
            assert(r@ =~= Self::spec_fields());
            assert(forall|i: int| 0 <= i < r@.len() ==> field_wf(#[trigger] r@[i]));
            lemma_wf_width_bound(r@);
        }
        r
    }
}

/// A load-balancer service key over four-byte addresses.
pub struct Lb4Key;

impl Lb4Key {
    /// The field layout of the record.
    pub open spec fn spec_fields() -> Seq<FieldSpecV> {
        seq![
            FieldSpecV { name: "address"@, width: 4, fmt: Formatter::V4Addr, padding: false },
            FieldSpecV { name: "dport"@, width: 2, fmt: Formatter::PortBe, padding: false },
            FieldSpecV { name: "backend_slot"@, width: 2, fmt: Formatter::UintLe, padding: false },
            FieldSpecV { name: "proto"@, width: 1, fmt: Formatter::Proto, padding: false },
            FieldSpecV { name: "scope"@, width: 1, fmt: Formatter::UintLe, padding: false },
        ]
    }

    /// The record's schema as data.
    pub fn schema() -> (r: RecordSchema)
        ensures
            r@ == Self::spec_fields(),
            schema_wf(r@),
    {
        let fields = vec![
            FieldSpec { name: "address", width: 4, fmt: Formatter::V4Addr, padding: false },
            FieldSpec { name: "dport", width: 2, fmt: Formatter::PortBe, padding: false },
            FieldSpec { name: "backend_slot", width: 2, fmt: Formatter::UintLe, padding: false },
            FieldSpec { name: "proto", width: 1, fmt: Formatter::Proto, padding: false },
            FieldSpec { name: "scope", width: 1, fmt: Formatter::UintLe, padding: false },
        ];
        let r = RecordSchema::new(fields);
        proof {
            assert(r@ =~= Self::spec_fields());
            assert(forall|i: int| 0 <= i < r@.len() ==> field_wf(#[trigger] r@[i]));
            lemma_wf_width_bound(r@);
        }
        r
    }
}

/// A load-balancer service entry over four-byte addresses.
pub struct Lb4Service;

impl Lb4Service {
    /// The field layout of the record.
    pub open spec fn spec_fields() -> Seq<FieldSpecV> {
        seq![
            FieldSpecV { name: "backend_id"@, width: 4, fmt: Formatter::UintLe, padding: false },
            FieldSpecV { name: "count"@, width: 2, fmt: Formatter::UintLe, padding: false },
            FieldSpecV { name: "rev_nat_index"@, width: 2, fmt: Formatter::UintLe, padding: false },
            FieldSpecV { name: "flags"@, width: 1, fmt: Formatter::Flags(FlagGroup::Service), padding: false },
            FieldSpecV { name: "flags2"@, width: 1, fmt: Formatter::Flags(FlagGroup::Service2), padding: false },
            FieldSpecV { name: "pad_end"@, width: 2, fmt: Formatter::UintLe, padding: true },
        ]
    }

    /// The record's schema as data.
    pub fn schema() -> (r: RecordSchema)
        ensures
            r@ == Self::spec_fields(),
            schema_wf(r@),
    {
        let fields = vec![
            FieldSpec { name: "backend_id", width: 4, fmt: Formatter::UintLe, padding: false },
            FieldSpec { name: "count", width: 2, fmt: Formatter::UintLe, padding: false },
            FieldSpec { name: "rev_nat_index", width: 2, fmt: Formatter::UintLe, padding: false },
            FieldSpec { name: "flags", width: 1, fmt: Formatter::Flags(FlagGroup::Service), padding: false },
            FieldSpec { name: "flags2", width: 1, fmt: Formatter::Flags(FlagGroup::Service2), padding: false },
            FieldSpec { name: "pad_end", width: 2, fmt: Formatter::UintLe, padding: true },
        ];
        let r = RecordSchema::new(fields);
        proof {
            assert(r@ =~= Self::spec_fields());
            assert(forall|i: int| 0 <= i < r@.len() ==> field_wf(#[trigger] r@[i]));
            lemma_wf_width_bound(r@);
        }
        r
    }
}

/// A load-balancer backend key: the backend id.
pub struct Lb4BackendKey;

impl Lb4BackendKey {
    /// The field layout of the record.
    pub open spec fn spec_fields() -> Seq<FieldSpecV> {
        seq![
            FieldSpecV { name: "backend_id"@, width: 4, fmt: Formatter::UintLe, padding: false },
        ]
    }

    /// The record's schema as data.
    pub fn schema() -> (r: RecordSchema)
        ensures
            r@ == Self::spec_fields(),
            schema_wf(r@),
    {
        let fields = vec![
            FieldSpec { name: "backend_id", width: 4, fmt: Formatter::UintLe, padding: false },
        ];
        let r = RecordSchema::new(fields);
        proof {
            assert(r@ =~= Self::spec_fields());
            assert(forall|i: int| 0 <= i < r@.len() ==> field_wf(#[trigger] r@[i]));
            lemma_wf_width_bound(r@);
        }
        r
    }
}

/// A load-balancer backend over four-byte addresses.
pub struct Lb4Backend;

impl Lb4Backend {
    /// The field layout of the record.
    pub open spec fn spec_fields() -> Seq<FieldSpecV> {
        seq![
            FieldSpecV { name: "address"@, width: 4, fmt: Formatter::V4Addr, padding: false },
            FieldSpecV { name: "port"@, width: 2, fmt: Formatter::PortBe, padding: false },
            FieldSpecV { name: "proto"@, width: 1, fmt: Formatter::Proto, padding: false },
            FieldSpecV { name: "flags"@, width: 1, fmt: Formatter::UintLe, padding: false },
            FieldSpecV { name: "cluster_id"@, width: 1, fmt: Formatter::UintLe, padding: false },
            FieldSpecV { name: "pad_end"@, width: 1, fmt: Formatter::UintLe, padding: true },
        ]
    }

    /// The record's schema as data.
    pub fn schema() -> (r: RecordSchema)
        ensures
            r@ == Self::spec_fields(),
            schema_wf(r@),
    {
        let fields = vec![
            FieldSpec { name: "address", width: 4, fmt: Formatter::V4Addr, padding: false },
            FieldSpec { name: "port", width: 2, fmt: Formatter::PortBe, padding: false },
            FieldSpec { name: "proto", width: 1, fmt: Formatter::Proto, padding: false },
            FieldSpec { name: "flags", width: 1, fmt: Formatter::UintLe, padding: false },
            FieldSpec { name: "cluster_id", width: 1, fmt: Formatter::UintLe, padding: false },
            FieldSpec { name: "pad_end", width: 1, fmt: Formatter::UintLe, padding: true },
        ];
        let r = RecordSchema::new(fields);
        proof {
            assert(r@ =~= Self::spec_fields());
            assert(forall|i: int| 0 <= i < r@.len() ==> field_wf(#[trigger] r@[i]));
            lemma_wf_width_bound(r@);
        }
        r
    }
}

/// A reverse translation key: the translation index.
pub struct Lb4ReverseNatKey;

impl Lb4ReverseNatKey {
    /// The field layout of the record.
    pub open spec fn spec_fields() -> Seq<FieldSpecV> {
        seq![
            FieldSpecV { name: "rev_nat_index"@, width: 2, fmt: Formatter::UintLe, padding: false },
        ]
    }

    /// The record's schema as data.
    pub fn schema() -> (r: RecordSchema)
        ensures
            r@ == Self::spec_fields(),
            schema_wf(r@),
    {
        let fields = vec![
            FieldSpec { name: "rev_nat_index", width: 2, fmt: Formatter::UintLe, padding: false },
        ];
        let r = RecordSchema::new(fields);
        proof {
            assert(r@ =~= Self::spec_fields());
            assert(forall|i: int| 0 <= i < r@.len() ==> field_wf(#[trigger] r@[i]));
            lemma_wf_width_bound(r@);
        }
        r
    }
}

/// A reverse translation record over four-byte addresses.
pub struct Lb4ReverseNat;

impl Lb4ReverseNat {
    /// The field layout of the record.
    pub open spec fn spec_fields() -> Seq<FieldSpecV> {
        seq![
            FieldSpecV { name: "address"@, width: 4, fmt: Formatter::V4Addr, padding: false },
            FieldSpecV { name: "port"@, width: 2, fmt: Formatter::PortBe, padding: false },
        ]
    }

    /// The record's schema as data.
    pub fn schema() -> (r: RecordSchema)
        ensures
            r@ == Self::spec_fields(),
            schema_wf(r@),
    {
        let fields = vec![
            FieldSpec { name: "address", width: 4, fmt: Formatter::V4Addr, padding: false },
            FieldSpec { name: "port", width: 2, fmt: Formatter::PortBe, padding: false },
        ];
        let r = RecordSchema::new(fields);
        proof {
            assert(r@ =~= Self::spec_fields());
            assert(forall|i: int| 0 <= i < r@.len() ==> field_wf(#[trigger] r@[i]));
            lemma_wf_width_bound(r@);
        }
        r
    }
}

/// A reverse translation key over four-byte addresses: cookie, address and port.
pub struct Ipv4RevnatTuple;

impl Ipv4RevnatTuple {
    /// The field layout of the record.
    pub open spec fn spec_fields() -> Seq<FieldSpecV> {
        seq![
            FieldSpecV { name: "cookie"@, width: 8, fmt: Formatter::UintLe, padding: false },
            FieldSpecV { name: "address"@, width: 4, fmt: Formatter::V4Addr, padding: false },
            FieldSpecV { name: "port"@, width: 2, fmt: Formatter::PortBe, padding: false },
            FieldSpecV { name: "pad_end"@, width: 2, fmt: Formatter::UintLe, padding: true },
        ]
    }

    /// The record's schema as data.
    pub fn schema() -> (r: RecordSchema)
        ensures
            r@ == Self::spec_fields(),
            schema_wf(r@),
    {
        let fields = vec![
            FieldSpec { name: "cookie", width: 8, fmt: Formatter::UintLe, padding: false },
            FieldSpec { name: "address", width: 4, fmt: Formatter::V4Addr, padding: false },
            FieldSpec { name: "port", width: 2, fmt: Formatter::PortBe, padding: false },
            FieldSpec { name: "pad_end", width: 2, fmt: Formatter::UintLe, padding: true },
        ];
        let r = RecordSchema::new(fields);
        proof {
            assert(r@ =~= Self::spec_fields());
            assert(forall|i: int| 0 <= i < r@.len() ==> field_wf(#[trigger] r@[i]));
            lemma_wf_width_bound(r@);
        }
        r
    }
}

/// A reverse translation entry over four-byte addresses.
pub struct Ipv4RevnatEntry;

impl Ipv4RevnatEntry {
    /// The field layout of the record.
    pub open spec fn spec_fields() -> Seq<FieldSpecV> {
        seq![
            FieldSpecV { name: "address"@, width: 4, fmt: Formatter::V4Addr, padding: false },
            FieldSpecV { name: "port"@, width: 2, fmt: Formatter::PortBe, padding: false },
            FieldSpecV { name: "rev_nat_index"@, width: 2, fmt: Formatter::UintLe, padding: false },
        ]
    }

    /// The record's schema as data.
    pub fn schema() -> (r: RecordSchema)
        ensures
            r@ == Self::spec_fields(),
            schema_wf(r@),
    {
        let fields = vec![
            FieldSpec { name: "address", width: 4, fmt: Formatter::V4Addr, padding: false },
            FieldSpec { name: "port", width: 2, fmt: Formatter::PortBe, padding: false },
            FieldSpec { name: "rev_nat_index", width: 2, fmt: Formatter::UintLe, padding: false },
        ];
        let r = RecordSchema::new(fields);
        proof {
            assert(r@ =~= Self::spec_fields());
            assert(forall|i: int| 0 <= i < r@.len() ==> field_wf(#[trigger] r@[i]));
            lemma_wf_width_bound(r@);
        }
        r
    }
}

/// A session-affinity key: client address and cookie, translation id and namespace cookie.
pub struct Lb4AffinityKey;

impl Lb4AffinityKey {
    /// The field layout of the record.
    pub open spec fn spec_fields() -> Seq<FieldSpecV> {
        seq![
            FieldSpecV { name: "client_ip"@, width: 4, fmt: Formatter::V4Addr, padding: false },
            FieldSpecV { name: "pad_mid"@, width: 4, fmt: Formatter::UintLe, padding: true },
            FieldSpecV { name: "client_cookie"@, width: 8, fmt: Formatter::UintLe, padding: false },
            FieldSpecV { name: "rev_nat_id"@, width: 2, fmt: Formatter::UintLe, padding: false },
            FieldSpecV { name: "netns_cookie"@, width: 1, fmt: Formatter::UintLe, padding: false },
            FieldSpecV { name: "pad_end"@, width: 5, fmt: Formatter::UintLe, padding: true },
        ]
    }

    /// The record's schema as data.
    pub fn schema() -> (r: RecordSchema)
        ensures
            r@ == Self::spec_fields(),
            schema_wf(r@),
    {
        let fields = vec![
            FieldSpec { name: "client_ip", width: 4, fmt: Formatter::V4Addr, padding: false },
            FieldSpec { name: "pad_mid", width: 4, fmt: Formatter::UintLe, padding: true },
            FieldSpec { name: "client_cookie", width: 8, fmt: Formatter::UintLe, padding: false },
            FieldSpec { name: "rev_nat_id", width: 2, fmt: Formatter::UintLe, padding: false },
            FieldSpec { name: "netns_cookie", width: 1, fmt: Formatter::UintLe, padding: false },
            FieldSpec { name: "pad_end", width: 5, fmt: Formatter::UintLe, padding: true },
        ];
        let r = RecordSchema::new(fields);
        proof {
            assert(r@ =~= Self::spec_fields());
            assert(forall|i: int| 0 <= i < r@.len() ==> field_wf(#[trigger] r@[i]));
            lemma_wf_width_bound(r@);
        }
        r
    }
}

/// A session-affinity value: last use and backend.
pub struct LbAffinityVal;

impl LbAffinityVal {
    /// The field layout of the record.
    pub open spec fn spec_fields() -> Seq<FieldSpecV> {
        seq![
            FieldSpecV { name: "last_used"@, width: 8, fmt: Formatter::UintLe, padding: false },
            FieldSpecV { name: "backend_id"@, width: 4, fmt: Formatter::UintLe, padding: false },
            FieldSpecV { name: "pad_end"@, width: 4, fmt: Formatter::UintLe, padding: true },
        ]
    }

    /// The record's schema as data.
    pub fn schema() -> (r: RecordSchema)
        ensures
            r@ == Self::spec_fields(),
            schema_wf(r@),
    {
        let fields = vec![
            FieldSpec { name: "last_used", width: 8, fmt: Formatter::UintLe, padding: false },
            FieldSpec { name: "backend_id", width: 4, fmt: Formatter::UintLe, padding: false },
            FieldSpec { name: "pad_end", width: 4, fmt: Formatter::UintLe, padding: true },
        ];
        let r = RecordSchema::new(fields);
        proof {
            assert(r@ =~= Self::spec_fields());
            assert(forall|i: int| 0 <= i < r@.len() ==> field_wf(#[trigger] r@[i]));
            lemma_wf_width_bound(r@);
        }
        r
    }
}

/// A source-range key: translation id and address.
pub struct Lb4SrcRangeKey;

impl Lb4SrcRangeKey {
    /// The field layout of the record.
    pub open spec fn spec_fields() -> Seq<FieldSpecV> {
        seq![
            FieldSpecV { name: "rev_nat_id"@, width: 2, fmt: Formatter::UintLe, padding: false },
            FieldSpecV { name: "pad"@, width: 2, fmt: Formatter::UintLe, padding: true },
            FieldSpecV { name: "addr"@, width: 4, fmt: Formatter::V4Addr, padding: false },
        ]
    }

    /// The record's schema as data.
    pub fn schema() -> (r: RecordSchema)
        ensures
            r@ == Self::spec_fields(),
            schema_wf(r@),
    {
        let fields = vec![
            FieldSpec { name: "rev_nat_id", width: 2, fmt: Formatter::UintLe, padding: false },
            FieldSpec { name: "pad", width: 2, fmt: Formatter::UintLe, padding: true },
            FieldSpec { name: "addr", width: 4, fmt: Formatter::V4Addr, padding: false },
        ];
        let r = RecordSchema::new(fields);
        proof {
            assert(r@ =~= Self::spec_fields());
            assert(forall|i: int| 0 <= i < r@.len() ==> field_wf(#[trigger] r@[i]));
            lemma_wf_width_bound(r@);
        }
        r
    }
}

/// A longest-prefix-match key over a four-byte address.
pub struct LpmV4Key;

impl LpmV4Key {
    /// The field layout of the record.
    pub open spec fn spec_fields() -> Seq<FieldSpecV> {
        seq![
            FieldSpecV { name: "addr"@, width: 4, fmt: Formatter::V4Addr, padding: false },
        ]
    }

    /// The record's schema as data.
    pub fn schema() -> (r: RecordSchema)
        ensures
            r@ == Self::spec_fields(),
            schema_wf(r@),
    {
        let fields = vec![
            FieldSpec { name: "addr", width: 4, fmt: Formatter::V4Addr, padding: false },
        ];
        let r = RecordSchema::new(fields);
        proof {
            assert(r@ =~= Self::spec_fields());
            assert(forall|i: int| 0 <= i < r@.len() ==> field_wf(#[trigger] r@[i]));
            lemma_wf_width_bound(r@);
        }
        r
    }
}

/// A network-address-translation entry: timestamps and the translated address and port.
pub struct Ipv4NatEntry;

impl Ipv4NatEntry {
    /// The field layout of the record.
    pub open spec fn spec_fields() -> Seq<FieldSpecV> {
        seq![
            FieldSpecV { name: "created"@, width: 8, fmt: Formatter::UintLe, padding: false },
            FieldSpecV { name: "host_local"@, width: 8, fmt: Formatter::UintLe, padding: false },
            FieldSpecV { name: "pad1"@, width: 8, fmt: Formatter::UintLe, padding: true },
            FieldSpecV { name: "pad2"@, width: 8, fmt: Formatter::UintLe, padding: true },
            FieldSpecV { name: "to_addr"@, width: 4, fmt: Formatter::V4Addr, padding: false },
            FieldSpecV { name: "to_port"@, width: 2, fmt: Formatter::PortBe, padding: false },
            FieldSpecV { name: "pad_end"@, width: 2, fmt: Formatter::UintLe, padding: true },
        ]
    }

    /// The record's schema as data.
    pub fn schema() -> (r: RecordSchema)
        ensures
            r@ == Self::spec_fields(),
            schema_wf(r@),
    {
        let fields = vec![
            FieldSpec { name: "created", width: 8, fmt: Formatter::UintLe, padding: false },
            FieldSpec { name: "host_local", width: 8, fmt: Formatter::UintLe, padding: false },
            FieldSpec { name: "pad1", width: 8, fmt: Formatter::UintLe, padding: true },
            FieldSpec { name: "pad2", width: 8, fmt: Formatter::UintLe, padding: true },
            FieldSpec { name: "to_addr", width: 4, fmt: Formatter::V4Addr, padding: false },
            FieldSpec { name: "to_port", width: 2, fmt: Formatter::PortBe, padding: false },
            FieldSpec { name: "pad_end", width: 2, fmt: Formatter::UintLe, padding: true },
        ];
        let r = RecordSchema::new(fields);
        proof {
            assert(r@ =~= Self::spec_fields());
            assert(forall|i: int| 0 <= i < r@.len() ==> field_wf(#[trigger] r@[i]));
            lemma_wf_width_bound(r@);
        }
        r
    }
}

/// An ipcache key: cluster, family and family-tagged address.
pub struct IpcacheKey;

impl IpcacheKey {
    /// The field layout of the record.
    pub open spec fn spec_fields() -> Seq<FieldSpecV> {
        seq![
            FieldSpecV { name: "pad0"@, width: 4, fmt: Formatter::UintLe, padding: true },
            FieldSpecV { name: "pad1"@, width: 2, fmt: Formatter::UintLe, padding: true },
            FieldSpecV { name: "cluster_id"@, width: 1, fmt: Formatter::UintLe, padding: false },
            FieldSpecV { name: "family"@, width: 1, fmt: Formatter::Family, padding: false },
            FieldSpecV { name: "addr"@, width: 16, fmt: Formatter::FamilyAddr, padding: false },
        ]
    }

    /// The record's schema as data.
    pub fn schema() -> (r: RecordSchema)
        ensures
            r@ == Self::spec_fields(),
            schema_wf(r@),
    {
        let fields = vec![
            FieldSpec { name: "pad0", width: 4, fmt: Formatter::UintLe, padding: true },
            FieldSpec { name: "pad1", width: 2, fmt: Formatter::UintLe, padding: true },
            FieldSpec { name: "cluster_id", width: 1, fmt: Formatter::UintLe, padding: false },
            FieldSpec { name: "family", width: 1, fmt: Formatter::Family, padding: false },
            FieldSpec { name: "addr", width: 16, fmt: Formatter::FamilyAddr, padding: false },
        ];
        let r = RecordSchema::new(fields);
        proof {
            assert(r@ =~= Self::spec_fields());
            assert(forall|i: int| 0 <= i < r@.len() ==> field_wf(#[trigger] r@[i]));
            lemma_wf_width_bound(r@);
        }
        r
    }
}

} // verus!
