//! One-byte metric code fields: the drop/forward reason table and the
//! traffic-direction table. Unknown codes render as the empty string.
use vstd::prelude::*;

verus! {

/// A drop or forward reason code.
pub struct MetricsReason {
    reason: u8,
}

impl View for MetricsReason {
    type V = u8;

    closed spec fn view(&self) -> u8 {
        self.reason
    }
}

/// A traffic-direction code.
pub struct MetricsDir {
    dir: u8,
}

impl View for MetricsDir {
    type V = u8;

    closed spec fn view(&self) -> u8 {
        self.dir
    }
}

/// The name of a reason code from the closed lookup table; unknown codes
/// render as the empty string.
pub open spec fn reason_chars(r: u8) -> Seq<char> {
    if r == 0 {
        "REASON_FORWARDED"@
    } else if r == 3 {
        "REASON_PLAINTEXT"@
    } else if r == 4 {
        "REASON_DECRYPT"@
    } else if r == 5 {
        "REASON_LB_NO_BACKEND_SLOT"@
    } else if r == 6 {
        "REASON_LB_NO_BACKEND"@
    } else if r == 7 {
        "REASON_LB_REVNAT_UPDATE"@
    } else if r == 8 {
        "REASON_LB_REVNAT_STALE"@
    } else if r == 9 {
        "REASON_FRAG_PACKET"@
    } else if r == 10 {
        "REASON_FRAG_PACKET_UPDATE"@
    } else if r == 11 {
        "REASON_MISSED_CUSTOM_CALL"@
    } else if r == 130 {
        "DROP_UNUSED1"@
    } else if r == 131 {
        "DROP_UNUSED2"@
    } else if r == 132 {
        "DROP_INVALID_SIP"@
    } else if r == 133 {
        "DROP_POLICY"@
    } else if r == 134 {
        "DROP_INVALID"@
    } else if r == 135 {
        "DROP_CT_INVALID_HDR"@
    } else if r == 136 {
        "DROP_FRAG_NEEDED"@
    } else if r == 137 {
        "DROP_CT_UNKNOWN_PROTO"@
    } else if r == 138 {
        "DROP_UNUSED4"@
    } else if r == 139 {
        "DROP_UNKNOWN_L3"@
    } else if r == 140 {
        "DROP_MISSED_TAIL_CALL"@
    } else if r == 141 {
        "DROP_WRITE_ERROR"@
    } else if r == 142 {
        "DROP_UNKNOWN_L4"@
    } else if r == 143 {
        "DROP_UNKNOWN_ICMP_CODE"@
    } else if r == 144 {
        "DROP_UNKNOWN_ICMP_TYPE"@
    } else if r == 145 {
        "DROP_UNKNOWN_ICMP6_CODE"@
    } else if r == 146 {
        "DROP_UNKNOWN_ICMP6_TYPE"@
    } else if r == 147 {
        "DROP_NO_TUNNEL_KEY"@
    } else if r == 148 {
        "DROP_UNUSED5"@
    } else if r == 149 {
        "DROP_UNUSED6"@
    } else if r == 150 {
        "DROP_UNKNOWN_TARGET"@
    } else if r == 151 {
        "DROP_UNROUTABLE"@
    } else if r == 152 {
        "DROP_UNUSED7"@
    } else if r == 153 {
        "DROP_CSUM_L3"@
    } else if r == 154 {
        "DROP_CSUM_L4"@
    } else if r == 155 {
        "DROP_CT_CREATE_FAILED"@
    } else if r == 156 {
        "DROP_INVALID_EXTHDR"@
    } else if r == 157 {
        "DROP_FRAG_NOSUPPORT"@
    } else if r == 158 {
        "DROP_NO_SERVICE"@
    } else if r == 159 {
        "DROP_UNUSED8"@
    } else if r == 160 {
        "DROP_NO_TUNNEL_ENDPOINT"@
    } else if r == 161 {
        "DROP_NAT_46X64_DISABLED"@
    } else if r == 162 {
        "DROP_EDT_HORIZON"@
    } else if r == 163 {
        "DROP_UNKNOWN_CT"@
    } else if r == 164 {
        "DROP_HOST_UNREACHABLE"@
    } else if r == 165 {
        "DROP_NO_CONFIG"@
    } else if r == 166 {
        "DROP_UNSUPPORTED_L2"@
    } else if r == 167 {
        "DROP_NAT_NO_MAPPING"@
    } else if r == 168 {
        "DROP_NAT_UNSUPP_PROTO"@
    } else if r == 169 {
        "DROP_NO_FIB"@
    } else if r == 170 {
        "DROP_ENCAP_PROHIBITED"@
    } else if r == 171 {
        "DROP_INVALID_IDENTITY"@
    } else if r == 172 {
        "DROP_UNKNOWN_SENDER"@
    } else if r == 173 {
        "DROP_NAT_NOT_NEEDED"@
    } else if r == 174 {
        "DROP_IS_CLUSTER_IP"@
    } else if r == 175 {
        "DROP_FRAG_NOT_FOUND"@
    } else if r == 176 {
        "DROP_FORBIDDEN_ICMP6"@
    } else if r == 177 {
        "DROP_NOT_IN_SRC_RANGE"@
    } else if r == 178 {
        "DROP_PROXY_LOOKUP_FAILED"@
    } else if r == 179 {
        "DROP_PROXY_SET_FAILED"@
    } else if r == 180 {
        "DROP_PROXY_UNKNOWN_PROTO"@
    } else if r == 181 {
        "DROP_POLICY_DENY"@
    } else if r == 182 {
        "DROP_VLAN_FILTERED"@
    } else if r == 183 {
        "DROP_INVALID_VNI"@
    } else if r == 184 {
        "DROP_INVALID_TC_BUFFER"@
    } else if r == 185 {
        "DROP_NO_SID"@
    } else if r == 186 {
        "DROP_MISSING_SRV6_STATE"@
    } else if r == 187 {
        "DROP_NAT46"@
    } else if r == 188 {
        "DROP_NAT64"@
    } else if r == 189 {
        "DROP_POLICY_AUTH_REQUIRED"@
    } else if r == 190 {
        "DROP_CT_NO_MAP_FOUND"@
    } else if r == 191 {
        "DROP_SNAT_NO_MAP_FOUND"@
    } else if r == 192 {
        "DROP_INVALID_CLUSTER_ID"@
    } else if r == 193 {
        "DROP_DSR_ENCAP_UNSUPP_PROTO"@
    } else if r == 194 {
        "DROP_NO_EGRESS_GATEWAY"@
    } else if r == 195 {
        "DROP_UNENCRYPTED_TRAFFIC"@
    } else if r == 100 {
        "NAT_46X64_RECIRC"@
    } else {
        Seq::<char>::empty()
    }
}

/// The name of a direction code from the closed lookup table; unknown codes
/// render as the empty string.
pub open spec fn dir_chars(d: u8) -> Seq<char> {
    if d == 1 {
        "INGRESS"@
    } else if d == 2 {
        "EGRESS"@
    } else if d == 3 {
        "SERVICE"@
    } else {
        Seq::<char>::empty()
    }
}

impl MetricsReason {
    /// Wraps a reason code.
    pub fn new(reason: u8) -> (r: Self)
        ensures
            r@ == reason,
    {
        MetricsReason { reason }
    }

    /// Renders the reason name, or the empty string for an unknown code.
    pub fn to_string(&self) -> (r: String)
        ensures
            r@ == reason_chars(self@),
    {
        let s: &'static str = match self.reason {
            0 => "REASON_FORWARDED",
            3 => "REASON_PLAINTEXT",
            4 => "REASON_DECRYPT",
            5 => "REASON_LB_NO_BACKEND_SLOT",
            6 => "REASON_LB_NO_BACKEND",
            7 => "REASON_LB_REVNAT_UPDATE",
            8 => "REASON_LB_REVNAT_STALE",
            9 => "REASON_FRAG_PACKET",
            10 => "REASON_FRAG_PACKET_UPDATE",
            11 => "REASON_MISSED_CUSTOM_CALL",
            130 => "DROP_UNUSED1",
            131 => "DROP_UNUSED2",
            132 => "DROP_INVALID_SIP",
            133 => "DROP_POLICY",
            134 => "DROP_INVALID",
            135 => "DROP_CT_INVALID_HDR",
            136 => "DROP_FRAG_NEEDED",
            137 => "DROP_CT_UNKNOWN_PROTO",
            138 => "DROP_UNUSED4",
            139 => "DROP_UNKNOWN_L3",
            140 => "DROP_MISSED_TAIL_CALL",
            141 => "DROP_WRITE_ERROR",
            142 => "DROP_UNKNOWN_L4",
            143 => "DROP_UNKNOWN_ICMP_CODE",
            144 => "DROP_UNKNOWN_ICMP_TYPE",
            145 => "DROP_UNKNOWN_ICMP6_CODE",
            146 => "DROP_UNKNOWN_ICMP6_TYPE",
            147 => "DROP_NO_TUNNEL_KEY",
            148 => "DROP_UNUSED5",
            149 => "DROP_UNUSED6",
            150 => "DROP_UNKNOWN_TARGET",
            151 => "DROP_UNROUTABLE",
            152 => "DROP_UNUSED7",
            153 => "DROP_CSUM_L3",
            154 => "DROP_CSUM_L4",
            155 => "DROP_CT_CREATE_FAILED",
            156 => "DROP_INVALID_EXTHDR",
            157 => "DROP_FRAG_NOSUPPORT",
            158 => "DROP_NO_SERVICE",
            159 => "DROP_UNUSED8",
            160 => "DROP_NO_TUNNEL_ENDPOINT",
            161 => "DROP_NAT_46X64_DISABLED",
            162 => "DROP_EDT_HORIZON",
            163 => "DROP_UNKNOWN_CT",
            164 => "DROP_HOST_UNREACHABLE",
            165 => "DROP_NO_CONFIG",
            166 => "DROP_UNSUPPORTED_L2",
            167 => "DROP_NAT_NO_MAPPING",
            168 => "DROP_NAT_UNSUPP_PROTO",
            169 => "DROP_NO_FIB",
            170 => "DROP_ENCAP_PROHIBITED",
            171 => "DROP_INVALID_IDENTITY",
            172 => "DROP_UNKNOWN_SENDER",
            173 => "DROP_NAT_NOT_NEEDED",
            174 => "DROP_IS_CLUSTER_IP",
            175 => "DROP_FRAG_NOT_FOUND",
            176 => "DROP_FORBIDDEN_ICMP6",
            177 => "DROP_NOT_IN_SRC_RANGE",
            178 => "DROP_PROXY_LOOKUP_FAILED",
            179 => "DROP_PROXY_SET_FAILED",
            180 => "DROP_PROXY_UNKNOWN_PROTO",
            181 => "DROP_POLICY_DENY",
            182 => "DROP_VLAN_FILTERED",
            183 => "DROP_INVALID_VNI",
            184 => "DROP_INVALID_TC_BUFFER",
            185 => "DROP_NO_SID",
            186 => "DROP_MISSING_SRV6_STATE",
            187 => "DROP_NAT46",
            188 => "DROP_NAT64",
            189 => "DROP_POLICY_AUTH_REQUIRED",
            190 => "DROP_CT_NO_MAP_FOUND",
            191 => "DROP_SNAT_NO_MAP_FOUND",
            192 => "DROP_INVALID_CLUSTER_ID",
            193 => "DROP_DSR_ENCAP_UNSUPP_PROTO",
            194 => "DROP_NO_EGRESS_GATEWAY",
            195 => "DROP_UNENCRYPTED_TRAFFIC",
            100 => "NAT_46X64_RECIRC",
            _ => "",
        };
        proof {
            reveal_strlit("");
        }
        let r = s.to_owned();
        proof {
            assert(r@ =~= reason_chars(self@));
        }
        r
    }
}

impl MetricsDir {
    /// Wraps a direction code.
    pub fn new(dir: u8) -> (r: Self)
        ensures
            r@ == dir,
    {
        MetricsDir { dir }
    }

    /// Renders the direction name, or the empty string for an unknown code.
    pub fn to_string(&self) -> (r: String)
        ensures
            r@ == dir_chars(self@),
    {
        let s: &'static str = match self.dir {
            1 => "INGRESS",
            2 => "EGRESS",
            3 => "SERVICE",
            _ => "",
        };
        proof {
            reveal_strlit("");
        }
        let r = s.to_owned();
        proof {
            assert(r@ =~= dir_chars(self@));
        }
        r
    }
}

} // verus!
