//! Bit-flag set fields: an unsigned integer rendered as the names of its set
//! bits, driven by a closed definition table per flag group. Bits outside the
//! table are ignored (lossy, never an error).
use vstd::prelude::*;

verus! {

/// The flag groups the record schemas use.
#[derive(Clone, Copy)]
pub enum FlagGroup {
    PolicyEntry,
    CtEntry,
    Tcp,
    Service,
    Service2,
}

/// The definition table of a flag group: one (bit mask, name) pair per flag,
/// in rendering order.
pub open spec fn flag_table(g: FlagGroup) -> Seq<(u64, Seq<char>)> {
    match g {
        FlagGroup::PolicyEntry => seq![
            (1u64, "DENY"@),
            (2u64, "WILDCARD_PROTOCOL"@),
            (4u64, "WILDCARD_DPORT"@),
        ],
        FlagGroup::CtEntry => seq![
            (1u64, "RX_CLOSING"@),
            (2u64, "TX_CLOSING"@),
            (4u64, "NAT46"@),
            (8u64, "LB_LOOPBACK"@),
            (16u64, "SEEN_NON_SYN"@),
            (32u64, "NODE_PORT"@),
            (64u64, "PROXY_REDIRECT"@),
            (128u64, "DSR"@),
            (256u64, "FROM_L7LB"@),
            (1024u64, "FROM_TUNNEL"@),
        ],
        FlagGroup::Tcp => seq![
            (1u64, "FIN"@),
            (2u64, "SYN"@),
            (4u64, "RST"@),
            (8u64, "PSH"@),
            (16u64, "ACK"@),
            (32u64, "URG"@),
        ],
        FlagGroup::Service => seq![
            (1u64, "SVC_FLAG_EXTERNAL_IP"@),
            (2u64, "SVC_FLAG_NODEPORT"@),
            (4u64, "SVC_FLAG_EXT_LOCAL_SCOPE"@),
            (8u64, "SVC_FLAG_HOSTPORT"@),
            (16u64, "SVC_FLAG_AFFINITY"@),
            (32u64, "SVC_FLAG_LOADBALANCER"@),
            (64u64, "SVC_FLAG_ROUTABLE"@),
            (128u64, "SVC_FLAG_SOURCE_RANGE"@),
        ],
        FlagGroup::Service2 => seq![
            (1u64, "SVC_FLAG_LOCALREDIRECT"@),
            (2u64, "SVC_FLAG_NAT_46X64"@),
            (4u64, "SVC_FLAG_L7LOADBALANCER"@),
            (8u64, "SVC_FLAG_LOOPBACK"@),
            (16u64, "SVC_FLAG_INT_LOCAL_SCOPE"@),
            (32u64, "SVC_FLAG_TWO_SCOPES"@),
        ],
    }
}

/// The separator between flag names.
pub open spec fn flag_sep() -> Seq<char> {
    " | "@
}

/// The rendering of the table entries at `i..` against value `v`, given
/// whether a name was already written before `i`.
pub open spec fn flags_chars_from(
    t: Seq<(u64, Seq<char>)>,
    v: u64,
    i: int,
    started: bool,
) -> Seq<char>
    decreases t.len() - i,
{
    if i < 0 || i >= t.len() {
        Seq::<char>::empty()
    } else if v & t[i].0 != 0 {
        (if started {
            flag_sep()
        } else {
            Seq::<char>::empty()
        }) + t[i].1 + flags_chars_from(t, v, i + 1, true)
    } else {
        flags_chars_from(t, v, i + 1, started)
    }
}

/// The rendering of a flag value against a definition table: the names of
/// the set bits that the table knows, in table order, joined by the
/// separator.
pub open spec fn flags_chars(t: Seq<(u64, Seq<char>)>, v: u64) -> Seq<char> {
    flags_chars_from(t, v, 0, false)
}

/// The definition table of a flag group, as data.
pub fn flag_defs(g: FlagGroup) -> (r: Vec<(u64, &'static str)>)
    ensures
        r@.len() == flag_table(g).len(),
        forall|i: int|
            0 <= i < r@.len() ==> r@[i].0 == flag_table(g)[i].0 && r@[i].1@ == flag_table(g)[i].1,
{
    match g {
        FlagGroup::PolicyEntry => {
            vec![(1u64, "DENY"), (2u64, "WILDCARD_PROTOCOL"), (4u64, "WILDCARD_DPORT")]
        },
        FlagGroup::CtEntry => {
            vec![
                (1u64, "RX_CLOSING"),
                (2u64, "TX_CLOSING"),
                (4u64, "NAT46"),
                (8u64, "LB_LOOPBACK"),
                (16u64, "SEEN_NON_SYN"),
                (32u64, "NODE_PORT"),
                (64u64, "PROXY_REDIRECT"),
                (128u64, "DSR"),
                (256u64, "FROM_L7LB"),
                (1024u64, "FROM_TUNNEL"),
            ]
        },
        FlagGroup::Tcp => {
            vec![
                (1u64, "FIN"),
                (2u64, "SYN"),
                (4u64, "RST"),
                (8u64, "PSH"),
                (16u64, "ACK"),
                (32u64, "URG"),
            ]
        },
        FlagGroup::Service => {
            vec![
                (1u64, "SVC_FLAG_EXTERNAL_IP"),
                (2u64, "SVC_FLAG_NODEPORT"),
                (4u64, "SVC_FLAG_EXT_LOCAL_SCOPE"),
                (8u64, "SVC_FLAG_HOSTPORT"),
                (16u64, "SVC_FLAG_AFFINITY"),
                (32u64, "SVC_FLAG_LOADBALANCER"),
                (64u64, "SVC_FLAG_ROUTABLE"),
                (128u64, "SVC_FLAG_SOURCE_RANGE"),
            ]
        },
        FlagGroup::Service2 => {
            vec![
                (1u64, "SVC_FLAG_LOCALREDIRECT"),
                (2u64, "SVC_FLAG_NAT_46X64"),
                (4u64, "SVC_FLAG_L7LOADBALANCER"),
                (8u64, "SVC_FLAG_LOOPBACK"),
                (16u64, "SVC_FLAG_INT_LOCAL_SCOPE"),
                (32u64, "SVC_FLAG_TWO_SCOPES"),
            ]
        },
    }
}

/// Renders a flag value against its group's table: recognized set bits
/// become their names, joined by the separator; unknown bits are ignored.
pub fn render_flags(g: FlagGroup, v: u64) -> (r: String)
    ensures
        r@ == flags_chars(flag_table(g), v),
{
    let defs = flag_defs(g);
    let ghost t = flag_table(g);
    let mut r = String::new();
    let mut started = false;
    let mut i: usize = 0;
    proof {
        reveal_strlit(" | ");
    }
    while i < defs.len()
        invariant
            i <= defs@.len(),
            defs@.len() == t.len(),
            forall|j: int| 0 <= j < defs@.len() ==> defs@[j].0 == t[j].0 && defs@[j].1@ == t[j].1,
            flags_chars(t, v) == r@ + flags_chars_from(t, v, i as int, started),
        decreases defs@.len() - i,
    {
        if v & defs[i].0 != 0 {
            if started {
                r.append(" | ");
            }
            r.append(defs[i].1);
            started = true;
        }
        i = i + 1;
    }
    proof {
        assert(r@ =~= flags_chars(t, v));
    }
    r
}

/// Entries at `i..` that the value misses render as the empty string.
proof fn lemma_flags_none_from(t: Seq<(u64, Seq<char>)>, v: u64, i: int, started: bool)
    requires
        forall|j: int| i <= j < t.len() ==> v & t[j].0 == 0,
    ensures
        flags_chars_from(t, v, i, started) == Seq::<char>::empty(),
    decreases t.len() - i,
{
    if 0 <= i < t.len() {
        lemma_flags_none_from(t, v, i + 1, started);
    }
}

/// The all-zero-bits pattern renders as the empty set: the empty string.
/// This holds of every definition table, so of every flag group.
pub proof fn lemma_flags_zero(t: Seq<(u64, Seq<char>)>)
    ensures
        flags_chars(t, 0) == Seq::<char>::empty(),
{
    assert forall|j: int| 0 <= j < t.len() implies 0u64 & t[j].0 == 0 by {
        let m = t[j].0;
        assert(0u64 & m == 0) by (bit_vector);
    }
    lemma_flags_none_from(t, 0, 0, false);
}

/// A table whose masks are nonzero and pairwise disjoint.
pub open spec fn table_disjoint(t: Seq<(u64, Seq<char>)>) -> bool {
    (forall|k: int| 0 <= k < t.len() ==> t[k].0 != 0) && (forall|j: int, k: int|
        0 <= j < t.len() && 0 <= k < t.len() && j != k ==> t[j].0 & t[k].0 == 0)
}

/// Against a disjoint table, a pattern with exactly the bits of one known
/// flag renders as exactly that flag's name.
pub proof fn lemma_flags_single(t: Seq<(u64, Seq<char>)>, k: int)
    requires
        table_disjoint(t),
        0 <= k < t.len(),
    ensures
        flags_chars(t, t[k].0) == t[k].1,
{
    let v = t[k].0;
    assert(v & v == v) by (bit_vector);
    assert forall|i: int| 0 <= i <= k implies flags_chars_from(t, v, i, false) == t[k].1 by {
        lemma_flags_skip_to(t, k, i);
    }
}

/// Helper for the single-flag law: entries before the flag contribute
/// nothing, the flag contributes its name, entries after contribute nothing.
proof fn lemma_flags_skip_to(t: Seq<(u64, Seq<char>)>, k: int, i: int)
    requires
        table_disjoint(t),
        0 <= k < t.len(),
        0 <= i <= k,
    ensures
        flags_chars_from(t, t[k].0, i, false) == t[k].1,
    decreases k - i,
{
    let v = t[k].0;
    if i == k {
        assert(v & v == v) by (bit_vector);
        lemma_flags_none_from(t, v, k + 1, true);
        assert(flags_chars_from(t, v, k, false) =~= t[k].1);
    } else {
        assert(v & t[i].0 == 0);
        lemma_flags_skip_to(t, k, i + 1);
    }
}

/// Bitwise and is commutative.
proof fn lemma_and_comm(a: u64, b: u64)
    ensures
        a & b == b & a,
{
    assert(a & b == b & a) by (bit_vector);
}

/// Every flag group's table has nonzero, pairwise disjoint masks.
pub proof fn lemma_group_disjoint(g: FlagGroup)
    ensures
        table_disjoint(flag_table(g)),
{
    let t = flag_table(g);
    assert forall|j: int, k: int|
        0 <= j < t.len() && 0 <= k < t.len() && j != k implies t[j].0 & t[k].0 == 0 by {
        lemma_and_comm(t[j].0, t[k].0);
        lemma_group_pairs(g);
    }
}

/// The pairwise facts of each group's concrete masks, in one direction.
proof fn lemma_group_pairs(g: FlagGroup)
    ensures
        forall|j: int, k: int|
            0 <= j < k < flag_table(g).len() ==> flag_table(g)[j].0 & flag_table(g)[k].0 == 0,
{
    let t = flag_table(g);
    match g {
        FlagGroup::PolicyEntry => {
            assert(1u64 & 2 == 0 && 1u64 & 4 == 0 && 2u64 & 4 == 0) by (bit_vector);
        },
        FlagGroup::CtEntry => {
            assert(1u64 & 2 == 0 && 1u64 & 4 == 0 && 1u64 & 8 == 0 && 1u64 & 16 == 0 && 1u64 & 32
                == 0 && 1u64 & 64 == 0 && 1u64 & 128 == 0 && 1u64 & 256 == 0 && 1u64 & 1024 == 0
                && 2u64 & 4 == 0 && 2u64 & 8 == 0 && 2u64 & 16 == 0 && 2u64 & 32 == 0 && 2u64 & 64
                == 0 && 2u64 & 128 == 0 && 2u64 & 256 == 0 && 2u64 & 1024 == 0 && 4u64 & 8 == 0
                && 4u64 & 16 == 0 && 4u64 & 32 == 0 && 4u64 & 64 == 0 && 4u64 & 128 == 0 && 4u64
                & 256 == 0 && 4u64 & 1024 == 0 && 8u64 & 16 == 0 && 8u64 & 32 == 0 && 8u64 & 64
                == 0 && 8u64 & 128 == 0 && 8u64 & 256 == 0 && 8u64 & 1024 == 0 && 16u64 & 32 == 0
                && 16u64 & 64 == 0 && 16u64 & 128 == 0 && 16u64 & 256 == 0 && 16u64 & 1024 == 0
                && 32u64 & 64 == 0 && 32u64 & 128 == 0 && 32u64 & 256 == 0 && 32u64 & 1024 == 0
                && 64u64 & 128 == 0 && 64u64 & 256 == 0 && 64u64 & 1024 == 0 && 128u64 & 256 == 0
                && 128u64 & 1024 == 0 && 256u64 & 1024 == 0) by (bit_vector);
        },
        FlagGroup::Tcp => {
            assert(1u64 & 2 == 0 && 1u64 & 4 == 0 && 1u64 & 8 == 0 && 1u64 & 16 == 0 && 1u64 & 32
                == 0 && 2u64 & 4 == 0 && 2u64 & 8 == 0 && 2u64 & 16 == 0 && 2u64 & 32 == 0 && 4u64
                & 8 == 0 && 4u64 & 16 == 0 && 4u64 & 32 == 0 && 8u64 & 16 == 0 && 8u64 & 32 == 0
                && 16u64 & 32 == 0) by (bit_vector);
        },
        FlagGroup::Service => {
            assert(1u64 & 2 == 0 && 1u64 & 4 == 0 && 1u64 & 8 == 0 && 1u64 & 16 == 0 && 1u64 & 32
                == 0 && 1u64 & 64 == 0 && 1u64 & 128 == 0 && 2u64 & 4 == 0 && 2u64 & 8 == 0 && 2u64
                & 16 == 0 && 2u64 & 32 == 0 && 2u64 & 64 == 0 && 2u64 & 128 == 0 && 4u64 & 8 == 0
                && 4u64 & 16 == 0 && 4u64 & 32 == 0 && 4u64 & 64 == 0 && 4u64 & 128 == 0 && 8u64
                & 16 == 0 && 8u64 & 32 == 0 && 8u64 & 64 == 0 && 8u64 & 128 == 0 && 16u64 & 32 == 0
                && 16u64 & 64 == 0 && 16u64 & 128 == 0 && 32u64 & 64 == 0 && 32u64 & 128 == 0
                && 64u64 & 128 == 0) by (bit_vector);
        },
        FlagGroup::Service2 => {
            assert(1u64 & 2 == 0 && 1u64 & 4 == 0 && 1u64 & 8 == 0 && 1u64 & 16 == 0 && 1u64 & 32
                == 0 && 2u64 & 4 == 0 && 2u64 & 8 == 0 && 2u64 & 16 == 0 && 2u64 & 32 == 0 && 4u64
                & 8 == 0 && 4u64 & 16 == 0 && 4u64 & 32 == 0 && 8u64 & 16 == 0 && 8u64 & 32 == 0
                && 16u64 & 32 == 0) by (bit_vector);
        },
    }
}

/// For every flag group, the pattern of exactly one known flag renders as
/// exactly that flag's name.
pub proof fn lemma_group_flag_renders_alone(g: FlagGroup, k: int)
    requires
        0 <= k < flag_table(g).len(),
    ensures
        flags_chars(flag_table(g), flag_table(g)[k].0) == flag_table(g)[k].1,
{
    lemma_group_disjoint(g);
    lemma_flags_single(flag_table(g), k);
}

} // verus!
