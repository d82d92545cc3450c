//! Viewer library for kernel-resident key/value tables whose binary layout
//! mirrors fixed C structures.
//!
//! The library decodes raw fixed-size byte records according to declarative
//! per-map schemas, renders each field as a display string (addresses, MAC,
//! port, protocol mnemonics, bit-flag sets, metric codes), enumerates a keyed
//! store with a successor-key cursor, and assembles the result as an ordered
//! header + row table. Store access itself (a kernel resource) and the
//! terminal front end live outside this crate; they hand plain byte records
//! in and take rendered tables back.

pub mod codec;
pub mod cursor;
pub mod engine;
pub use engine::dump;
mod flags;
pub use flags::FlagGroup;
pub use flags::flag_defs;
pub use flags::flag_table;
pub use flags::flags_chars;
pub use flags::lemma_flags_single;
pub use flags::lemma_flags_zero;
pub use flags::lemma_group_disjoint;
pub use flags::lemma_group_flag_renders_alone;
pub use flags::render_flags;
pub use flags::table_disjoint;
mod ip;
pub use ip::ENDPOINT_KEY_IPV4;
pub use ip::ENDPOINT_KEY_IPV6;
pub use ip::Ip;
pub use ip::IpFamily;
pub use ip::addr_chars;
pub use ip::family_chars;
mod ipv4;
pub use ipv4::Ipv4;
pub use ipv4::ipv4_chars;
mod ipv6;
pub use ipv6::Ipv6;
pub use ipv6::ipv6_chars;
mod l4proto;
pub use l4proto::L4Proto;
pub use l4proto::l4proto_chars;
mod mac;
pub use mac::Mac;
pub use mac::mac_chars;
pub mod nav;
mod metrics;
pub use metrics::MetricsDir;
pub use metrics::MetricsReason;
pub use metrics::dir_chars;
pub use metrics::reason_chars;
mod port;
pub use port::Port;
pub mod registry;
pub mod render;
pub mod schema;
pub mod types;
pub use types::PolicyKey;
pub use types::PolicyEntry;
pub use types::EndpointKey;
pub use types::TunnelKey;
pub use types::TunnelValue;
pub use types::EndpointInfo;
pub use types::EdtId;
pub use types::EdtInfo;
pub use types::RemoteEndpointInfo;
pub use types::AuthKey;
pub use types::AuthInfo;
pub use types::MetricsKey;
pub use types::MetricsValue;
pub use types::EgressGwPolicyKey;
pub use types::EgressGwPolicyEntry;
pub use types::Srv6VrfKey4;
pub use types::Srv6VrfKey6;
pub use types::Srv6PolicyKey4;
pub use types::Srv6PolicyKey6;
pub use types::Srv6Ipv4_2tuple;
pub use types::Srv6Ipv6_2tuple;
pub use types::VtepKey;
pub use types::VtepValue;
pub use types::EncryptConfig;
pub use types::Ipv6CtTuple;
pub use types::Ipv4CtTuple;
pub use types::CtEntry;
pub use types::Lb6Key;
pub use types::Lb6Service;
pub use types::Lb6Backend;
pub use types::Lb6ReverseNat;
pub use types::Ipv6RevnatTuple;
pub use types::Ipv6RevnatEntry;
pub use types::Lb4Key;
pub use types::Lb4Service;
pub use types::Lb4BackendKey;
pub use types::Lb4Backend;
pub use types::Lb4ReverseNatKey;
pub use types::Lb4ReverseNat;
pub use types::Ipv4RevnatTuple;
pub use types::Ipv4RevnatEntry;
pub use types::Lb4AffinityKey;
pub use types::LbAffinityVal;
pub use types::Lb4SrcRangeKey;
pub use types::LpmV4Key;
pub use types::Ipv4NatEntry;
pub use types::IpcacheKey;
pub mod wire;
