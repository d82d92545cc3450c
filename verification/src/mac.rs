//! Six-byte hardware address field rendered as colon-separated lowercase
//! hexadecimal octets.
use crate::render::hex2_chars;
use vstd::prelude::*;

verus! {

/// A hardware address held as six raw octets.
pub struct Mac {
    octets: [u8; 6],
}

impl View for Mac {
    type V = Seq<u8>;

    closed spec fn view(&self) -> Seq<u8> {
        self.octets@
    }
}

/// Six octets, each as two lowercase hexadecimal digits, joined by colons.
pub open spec fn mac_chars(b: Seq<u8>) -> Seq<char>
    recommends
        b.len() == 6,
{
    hex2_chars(b[0] as nat) + seq![':'] + hex2_chars(b[1] as nat) + seq![':'] + hex2_chars(
        b[2] as nat,
    ) + seq![':'] + hex2_chars(b[3] as nat) + seq![':'] + hex2_chars(b[4] as nat) + seq![':']
        + hex2_chars(b[5] as nat)
}

impl Mac {
    /// Wraps six octets.
    pub fn new(octets: [u8; 6]) -> (r: Self)
        ensures
            r@ == octets@,
    {
        Mac { octets }
    }

    /// Wraps the first six bytes of a raw chunk.
    pub fn from_bytes(b: &[u8]) -> (r: Self)
        requires
            b@.len() >= 6,
        ensures
            r@ == seq![b@[0], b@[1], b@[2], b@[3], b@[4], b@[5]],
    {
        let r = Mac { octets: [b[0], b[1], b[2], b[3], b[4], b[5]] };
        proof {
            assert(r@ =~= seq![b@[0], b@[1], b@[2], b@[3], b@[4], b@[5]]);
        }
        r
    }

    /// Renders the address as colon-separated hexadecimal octets.
    pub fn to_string(&self) -> (r: String)
        ensures
            r@ == mac_chars(self@),
    {
        proof {
            reveal_strlit(":");
        }
        let mut r = String::new();
        crate::render::append_hex2(&mut r, self.octets[0]);
        r.append(":");
        crate::render::append_hex2(&mut r, self.octets[1]);
        r.append(":");
        crate::render::append_hex2(&mut r, self.octets[2]);
        r.append(":");
        crate::render::append_hex2(&mut r, self.octets[3]);
        r.append(":");
        crate::render::append_hex2(&mut r, self.octets[4]);
        r.append(":");
        crate::render::append_hex2(&mut r, self.octets[5]);
        proof {
            assert(r@ =~= mac_chars(self@));
        }
        r
    }
}

} // verus!
