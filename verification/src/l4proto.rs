//! One-byte transport-protocol field rendered as its IANA mnemonic.
use vstd::prelude::*;

verus! {

/// A transport-protocol number.
pub struct L4Proto {
    proto: u8,
}

impl View for L4Proto {
    type V = u8;

    closed spec fn view(&self) -> u8 {
        self.proto
    }
}

/// The mnemonic of a protocol number from the closed lookup table;
/// unrecognized numbers render as the empty string, never as a numeric
/// fallback.
pub open spec fn l4proto_chars(p: u8) -> Seq<char> {
    if p == 0 {
        "HOPOPT"@
    } else if p == 1 {
        "ICMP"@
    } else if p == 6 {
        "TCP"@
    } else if p == 17 {
        "UDP"@
    } else if p == 41 {
        "IPv6"@
    } else if p == 43 {
        "IPv6-Route"@
    } else if p == 44 {
        "IPv6-Frag"@
    } else if p == 58 {
        "IPv6-ICMP"@
    } else if p == 132 {
        "SCTP"@
    } else {
        Seq::<char>::empty()
    }
}

impl L4Proto {
    /// Wraps a protocol number.
    pub fn new(proto: u8) -> (r: Self)
        ensures
            r@ == proto,
    {
        L4Proto { proto }
    }

    /// Renders the protocol mnemonic, or the empty string for a number
    /// outside the table.
    pub fn to_string(&self) -> (r: String)
        ensures
            r@ == l4proto_chars(self@),
    {
        let s: &'static str = match self.proto {
            0 => "HOPOPT",
            1 => "ICMP",
            6 => "TCP",
            17 => "UDP",
            41 => "IPv6",
            43 => "IPv6-Route",
            44 => "IPv6-Frag",
            58 => "IPv6-ICMP",
            132 => "SCTP",
            _ => "",
        };
        proof {
            reveal_strlit("");
        }
        let r = s.to_owned();
        proof {
            assert(r@ =~= l4proto_chars(self@));
        }
        r
    }
}

} // verus!
