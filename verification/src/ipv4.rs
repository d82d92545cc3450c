//! Four-byte address field rendered in dotted-quad form.
use crate::render::dec_chars;
use vstd::prelude::*;

verus! {

/// An address held as four raw octets, as the record lays it out.
pub struct Ipv4 {
    octets: [u8; 4],
}

impl View for Ipv4 {
    type V = Seq<u8>;

    closed spec fn view(&self) -> Seq<u8> {
        self.octets@
    }
}

/// The dotted-quad rendering of four octets: each octet in decimal,
/// joined by dots.
pub open spec fn ipv4_chars(b: Seq<u8>) -> Seq<char>
    recommends
        b.len() == 4,
{
    dec_chars(b[0] as nat) + seq!['.'] + dec_chars(b[1] as nat) + seq!['.'] + dec_chars(
        b[2] as nat,
    ) + seq!['.'] + dec_chars(b[3] as nat)
}

impl Ipv4 {
    /// Wraps four octets.
    pub fn new(octets: [u8; 4]) -> (r: Self)
        ensures
            r@ == octets@,
    {
        Ipv4 { octets }
    }

    /// Wraps the first four bytes of a raw chunk.
    pub fn from_bytes(b: &[u8]) -> (r: Self)
        requires
            b@.len() >= 4,
        ensures
            r@ == seq![b@[0], b@[1], b@[2], b@[3]],
    {
        let r = Ipv4 { octets: [b[0], b[1], b[2], b[3]] };
        proof {
            assert(r@ =~= seq![b@[0], b@[1], b@[2], b@[3]]);
        }
        r
    }

    /// Renders the address in dotted-quad form.
    pub fn to_string(&self) -> (r: String)
        ensures
            r@ == ipv4_chars(self@),
    {
        proof {
            reveal_strlit(".");
        }
        let mut r = crate::render::u64_to_dec(self.octets[0] as u64);
        r.append(".");
        r.append(crate::render::u64_to_dec(self.octets[1] as u64).as_str());
        r.append(".");
        r.append(crate::render::u64_to_dec(self.octets[2] as u64).as_str());
        r.append(".");
        r.append(crate::render::u64_to_dec(self.octets[3] as u64).as_str());
        proof {
            assert(r@ =~= ipv4_chars(self@));
        }
        r
    }
}

} // verus!
