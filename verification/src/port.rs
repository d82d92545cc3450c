//! Two-byte port field held in network order and rendered in decimal.
use crate::render::dec_chars;
use crate::wire::be16_val;
use vstd::prelude::*;

verus! {

/// A port number, held in host order once decoded.
pub struct Port {
    port: u16,
}

impl View for Port {
    type V = nat;

    closed spec fn view(&self) -> nat {
        self.port as nat
    }
}

impl Port {
    /// Wraps a host-order port number.
    pub fn new(port: u16) -> (r: Self)
        ensures
            r@ == port as nat,
    {
        Port { port }
    }

    /// Decodes the two raw bytes of the field, which hold the port in
    /// network order (big-endian).
    pub fn from_bytes(b: &[u8]) -> (r: Self)
        requires
            b@.len() == 2,
        ensures
            r@ == be16_val(b@),
    {
        Port { port: crate::wire::read_be_u16(b) }
    }

    /// Renders the port in decimal.
    pub fn to_string(&self) -> (r: String)
        ensures
            r@ == dec_chars(self@),
    {
        crate::render::u64_to_dec(self.port as u64)
    }
}

} // verus!
