//! Sixteen-byte address field rendered in canonical form: lowercase
//! hexadecimal groups without leading zeros, the leftmost longest run of two
//! or more zero groups compressed to "::", and the mapped-v4 prefix rendered
//! with a trailing dotted quad.
use crate::ipv4::ipv4_chars;
use crate::render::hex_chars;
use vstd::prelude::*;

verus! {

/// An address held as sixteen raw octets, as the record lays it out.
pub struct Ipv6 {
    octets: [u8; 16],
}

impl View for Ipv6 {
    type V = Seq<u8>;

    closed spec fn view(&self) -> Seq<u8> {
        self.octets@
    }
}

/// Group `i` of the address: two octets in network order.
pub open spec fn seg_at(b: Seq<u8>, i: int) -> u16
    recommends
        b.len() == 16,
        0 <= i < 8,
{
    (256 * b[2 * i] + b[2 * i + 1]) as u16
}

/// The eight groups of the address.
pub open spec fn segments(b: Seq<u8>) -> Seq<u16> {
    Seq::new(8, |i: int| seg_at(b, i))
}

/// One scan step of the leftmost-longest zero-run search: `i` is the next
/// group, (`cs`, `cl`) the run in progress, (`bs`, `bl`) the best run seen.
/// A run only displaces a strictly shorter one, so the leftmost longest run
/// wins.
pub open spec fn zero_run_scan(
    s: Seq<u16>,
    i: int,
    cs: int,
    cl: int,
    bs: int,
    bl: int,
) -> (int, int)
    decreases s.len() - i,
{
    if i < 0 || i >= s.len() {
        (bs, bl)
    } else if s[i] == 0 {
        let ncs = if cl == 0 {
            i
        } else {
            cs
        };
        if cl + 1 > bl {
            zero_run_scan(s, i + 1, ncs, cl + 1, ncs, cl + 1)
        } else {
            zero_run_scan(s, i + 1, ncs, cl + 1, bs, bl)
        }
    } else {
        zero_run_scan(s, i + 1, 0, 0, bs, bl)
    }
}

/// The leftmost longest run of zero groups: (start, length).
pub open spec fn best_zero_run(s: Seq<u16>) -> (int, int) {
    zero_run_scan(s, 0, 0, 0, 0, 0)
}

/// Groups `from..to` in lowercase hexadecimal, joined by colons.
pub open spec fn groups_chars(s: Seq<u16>, from: int, to: int) -> Seq<char>
    decreases to - from,
{
    if from >= to {
        Seq::<char>::empty()
    } else if to == from + 1 {
        hex_chars(s[from] as nat)
    } else {
        groups_chars(s, from, to - 1) + seq![':'] + hex_chars(s[to - 1] as nat)
    }
}

/// Whether the address is a mapped dotted-quad address: five zero groups,
/// then a group of all-one bits.
pub open spec fn is_v4_mapped(s: Seq<u16>) -> bool {
    s[0] == 0 && s[1] == 0 && s[2] == 0 && s[3] == 0 && s[4] == 0 && s[5] == 0xffff
}

/// The canonical rendering of a sixteen-byte address.
pub open spec fn ipv6_chars(b: Seq<u8>) -> Seq<char> {
    let s = segments(b);
    if is_v4_mapped(s) {
        "::ffff:"@ + ipv4_chars(seq![b[12], b[13], b[14], b[15]])
    } else {
        let run = best_zero_run(s);
        if run.1 > 1 {
            groups_chars(s, 0, run.0) + seq![':', ':'] + groups_chars(s, run.0 + run.1, 8)
        } else {
            groups_chars(s, 0, 8)
        }
    }
}

/// Appends groups `from..to`, colon-joined.
fn append_groups(out: &mut String, segs: &Vec<u16>, from: usize, to: usize)
    requires
        from <= to <= segs@.len(),
    ensures
        final(out)@ == old(out)@ + groups_chars(segs@, from as int, to as int),
{
    proof {
        reveal_strlit(":");
    }
    let mut i: usize = from;
    while i < to
        invariant
            from <= i <= to <= segs@.len(),
            out@ == old(out)@ + groups_chars(segs@, from as int, i as int),
        decreases to - i,
    {
        if i > from {
            out.append(":");
        }
        out.append(crate::render::u64_to_hex(segs[i] as u64).as_str());
        proof {
            reveal_strlit(":");
            if i == from {
                assert(groups_chars(segs@, from as int, i + 1) =~= hex_chars(
                    segs@[i as int] as nat,
                ));
            } else {
                assert(groups_chars(segs@, from as int, i + 1) =~= groups_chars(
                    segs@,
                    from as int,
                    i as int,
                ) + seq![':'] + hex_chars(segs@[i as int] as nat));
                assert(":"@ =~= seq![':']);
            }
            assert(out@ =~= old(out)@ + groups_chars(segs@, from as int, i + 1));
        }
        i = i + 1;
    }
}

impl Ipv6 {
    /// Wraps sixteen octets.
    pub fn new(octets: [u8; 16]) -> (r: Self)
        ensures
            r@ == octets@,
    {
        Ipv6 { octets }
    }

    /// Wraps the first sixteen bytes of a raw chunk.
    pub fn from_bytes(b: &[u8]) -> (r: Self)
        requires
            b@.len() >= 16,
        ensures
            r@ == b@.subrange(0, 16),
    {
        let r = Ipv6 {
            octets: [
                b[0],
                b[1],
                b[2],
                b[3],
                b[4],
                b[5],
                b[6],
                b[7],
                b[8],
                b[9],
                b[10],
                b[11],
                b[12],
                b[13],
                b[14],
                b[15],
            ],
        };
        proof {
            assert(r@ =~= b@.subrange(0, 16));
        }
        r
    }

    /// Renders the address in canonical form.
    pub fn to_string(&self) -> (r: String)
        ensures
            r@ == ipv6_chars(self@),
    {
        let ghost bv = self@;
        let mut segs: Vec<u16> = Vec::new();
        let mut i: usize = 0;
        while i < 8
            invariant
                i <= 8,
                bv == self@,
                bv.len() == 16,
                segs@.len() == i,
                forall|j: int| 0 <= j < i ==> segs@[j] == seg_at(bv, j),
            decreases 8 - i,
        {
            segs.push((self.octets[2 * i] as u16) * 256 + (self.octets[2 * i + 1] as u16));
            i = i + 1;
        }
        proof {
            assert(segs@ =~= segments(bv));
        }
        if segs[0] == 0 && segs[1] == 0 && segs[2] == 0 && segs[3] == 0 && segs[4] == 0 && segs[5]
            == 0xffff {
            proof {
                reveal_strlit("::ffff:");
            }
            let mut r = String::from_str("::ffff:");
            let quad = crate::ipv4::Ipv4::from_bytes(&[
                self.octets[12],
                self.octets[13],
                self.octets[14],
                self.octets[15],
            ]);
            r.append(quad.to_string().as_str());
            proof {
                assert(r@ =~= ipv6_chars(bv));
            }
            return r;
        }
        let ghost s = segs@;
        let mut cs: usize = 0;
        let mut cl: usize = 0;
        let mut bs: usize = 0;
        let mut bl: usize = 0;
        let mut j: usize = 0;
        while j < 8
            invariant
                j <= 8,
                segs@ == s,
                s.len() == 8,
                cl <= j,
                cs <= j,
                bs <= j,
                bl <= j,
                bs + bl <= j,
                cl > 0 ==> cs + cl == j,
                best_zero_run(s) == zero_run_scan(s, j as int, cs as int, cl as int, bs as int, bl as int),
            decreases 8 - j,
        {
            if segs[j] == 0 {
                if cl == 0 {
                    cs = j;
                }
                cl = cl + 1;
                if cl > bl {
                    bs = cs;
                    bl = cl;
                }
            } else {
                cs = 0;
                cl = 0;
            }
            j = j + 1;
        }
        proof {
            assert(best_zero_run(s) == (bs as int, bl as int));
        }
        let mut r = String::new();
        if bl > 1 {
            proof {
                reveal_strlit("::");
            }
            append_groups(&mut r, &segs, 0, bs);
            r.append("::");
            append_groups(&mut r, &segs, bs + bl, 8);
            proof {
                assert(r@ =~= ipv6_chars(bv));
            }
        } else {
            append_groups(&mut r, &segs, 0, 8);
            proof {
                assert(r@ =~= ipv6_chars(bv));
            }
        }
        r
    }
}

} // verus!
