//! Sixteen-byte address storage read as a four-byte or sixteen-byte address
//! depending on a sibling family-tag field.
use crate::ipv4::Ipv4;
use crate::ipv4::ipv4_chars;
use crate::ipv6::Ipv6;
use crate::ipv6::ipv6_chars;
use vstd::prelude::*;

verus! {

/// The family tag for a four-byte address.
pub const ENDPOINT_KEY_IPV4: u8 = 1;

/// The family tag for a sixteen-byte address.
pub const ENDPOINT_KEY_IPV6: u8 = 2;

/// Sixteen bytes of address storage; how many of them are meaningful is
/// decided by a family tag held in a sibling field of the same record.
pub struct Ip {
    octets: [u8; 16],
}

impl View for Ip {
    type V = Seq<u8>;

    closed spec fn view(&self) -> Seq<u8> {
        self.octets@
    }
}

/// A one-byte address-family tag.
pub struct IpFamily {
    family: u8,
}

impl View for IpFamily {
    type V = u8;

    closed spec fn view(&self) -> u8 {
        self.family
    }
}

/// The rendering of the family tag; tags outside the two recognized values
/// render as the empty string.
pub open spec fn family_chars(f: u8) -> Seq<char> {
    if f == ENDPOINT_KEY_IPV4 {
        "ipv4"@
    } else if f == ENDPOINT_KEY_IPV6 {
        "ipv6"@
    } else {
        Seq::<char>::empty()
    }
}

/// The rendering of the address storage under a family tag. A tag outside
/// the two recognized values falls back to the sixteen-byte form; that
/// fallback mirrors long-standing behavior and is kept deliberately, though
/// it is an open question whether it is intentional.
pub open spec fn addr_chars(b: Seq<u8>, f: u8) -> Seq<char>
    recommends
        b.len() == 16,
{
    if f == ENDPOINT_KEY_IPV4 {
        ipv4_chars(seq![b[0], b[1], b[2], b[3]])
    } else {
        ipv6_chars(b)
    }
}

impl IpFamily {
    /// Wraps a family tag.
    pub fn new(family: u8) -> (r: Self)
        ensures
            r@ == family,
    {
        IpFamily { family }
    }

    /// Whether the tag selects the four-byte family.
    pub fn is_ipv4(&self) -> (r: bool)
        ensures
            r == (self@ == ENDPOINT_KEY_IPV4),
    {
        self.family == ENDPOINT_KEY_IPV4
    }

    /// Renders the family name, or the empty string for an unknown tag.
    pub fn to_string(&self) -> (r: String)
        ensures
            r@ == family_chars(self@),
    {
        let s: &'static str = if self.family == ENDPOINT_KEY_IPV4 {
            "ipv4"
        } else if self.family == ENDPOINT_KEY_IPV6 {
            "ipv6"
        } else {
            ""
        };
        proof {
            reveal_strlit("");
        }
        let r = s.to_owned();
        proof {
            assert(r@ =~= family_chars(self@));
        }
        r
    }
}

impl Ip {
    /// Wraps sixteen bytes of address storage.
    pub fn new(octets: [u8; 16]) -> (r: Self)
        ensures
            r@ == octets@,
    {
        Ip { octets }
    }

    /// Wraps the first sixteen bytes of a raw chunk.
    pub fn from_bytes(b: &[u8]) -> (r: Self)
        requires
            b@.len() >= 16,
        ensures
            r@ == b@.subrange(0, 16),
    {
        let r = Ip {
            octets: [
                b[0],
                b[1],
                b[2],
                b[3],
                b[4],
                b[5],
                b[6],
                b[7],
                b[8],
                b[9],
                b[10],
                b[11],
                b[12],
                b[13],
                b[14],
                b[15],
            ],
        };
        proof {
            assert(r@ =~= b@.subrange(0, 16));
        }
        r
    }

    /// The first four bytes of the storage as a four-byte address.
    pub fn ipv4(&self) -> (r: Ipv4)
        ensures
            r@ == seq![self@[0], self@[1], self@[2], self@[3]],
    {
        Ipv4::new([self.octets[0], self.octets[1], self.octets[2], self.octets[3]])
    }

    /// The whole storage as a sixteen-byte address.
    pub fn ipv6(&self) -> (r: Ipv6)
        ensures
            r@ == self@,
    {
        Ipv6::new(self.octets)
    }

    /// Renders the storage as the family tag directs.
    pub fn render(&self, family: &IpFamily) -> (r: String)
        ensures
            r@ == addr_chars(self@, family@),
    {
        if family.is_ipv4() {
            self.ipv4().to_string()
        } else {
            self.ipv6().to_string()
        }
    }
}

} // verus!
