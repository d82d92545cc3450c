//! Schema registry: resolves a store's symbolic name to its key schema,
//! value schema and per-CPU flag. Unknown names are not an error: the dump
//! of an unresolved name is an explicit empty table marked unsupported.
//! Also derives display names from pinned-object file names, by one
//! deliberate convention: the seven-character naming prefix is stripped and
//! underscores become spaces.
use crate::codec::DecodeError;
use crate::cursor::StoreSnapshot;
use crate::cursor::distinct_keys;
use crate::engine::RESULT_CAP;
use crate::engine::dump;
use crate::engine::spec_dump_rows;
use crate::engine::spec_header;
use crate::schema::FieldSpecV;
use crate::schema::RecordSchema;
use crate::schema::schema_wf;
use crate::schema::spec_width;
use crate::types::CtEntry;
use crate::types::EndpointInfo;
use crate::types::EndpointKey;
use crate::types::IpcacheKey;
use crate::types::Ipv4CtTuple;
use crate::types::Ipv4NatEntry;
use crate::types::Ipv4RevnatEntry;
use crate::types::Ipv4RevnatTuple;
use crate::types::Lb4Backend;
use crate::types::Lb4BackendKey;
use crate::types::Lb4Key;
use crate::types::Lb4ReverseNat;
use crate::types::Lb4ReverseNatKey;
use crate::types::Lb4Service;
use crate::types::MetricsKey;
use crate::types::MetricsValue;
use crate::types::PolicyEntry;
use crate::types::PolicyKey;
use crate::types::RemoteEndpointInfo;
use crate::types::TunnelKey;
use crate::types::TunnelValue;
use vstd::prelude::*;

verus! {

/// Whether one character sequence begins with another.
pub open spec fn spec_starts_with(s: Seq<char>, p: Seq<char>) -> bool {
    s.len() >= p.len() && s.subrange(0, p.len() as int) == p
}

/// Compares two strings by their characters.
fn str_eq(a: &str, b: &str) -> (r: bool)
    ensures
        r == (a@ == b@),
{
    let alen = a.unicode_len();
    let blen = b.unicode_len();
    if alen != blen {
        proof {
            assert(a@ != b@);
        }
        return false;
    }
    let mut i: usize = 0;
    while i < alen
        invariant
            i <= alen,
            alen == a@.len(),
            alen == b@.len(),
            forall|j: int| 0 <= j < i ==> a@[j] == b@[j],
        decreases alen - i,
    {
        if a.get_char(i) != b.get_char(i) {
            return false;
        }
        i = i + 1;
    }
    proof {
        assert(a@ =~= b@);
    }
    true
}

/// Whether a string begins with a prefix.
fn str_starts_with(s: &str, p: &str) -> (r: bool)
    ensures
        r == spec_starts_with(s@, p@),
{
    let slen = s.unicode_len();
    let plen = p.unicode_len();
    if slen < plen {
        return false;
    }
    let mut i: usize = 0;
    while i < plen
        invariant
            i <= plen,
            plen == p@.len(),
            slen == s@.len(),
            plen <= slen,
            forall|j: int| 0 <= j < i ==> s@[j] == p@[j],
        decreases plen - i,
    {
        if s.get_char(i) != p.get_char(i) {
            proof {
                assert(s@.subrange(0, p@.len() as int)[i as int] == s@[i as int]);
            }
            return false;
        }
        i = i + 1;
    }
    proof {
        assert(s@.subrange(0, p@.len() as int) =~= p@);
    }
    true
}

/// The resolution table: the schemas and per-CPU flag of each supported
/// symbolic name; a name with the policy prefix resolves to the policy
/// schemas whatever its suffix; anything else is unsupported.
pub open spec fn spec_resolve(name: Seq<char>) -> Option<(Seq<FieldSpecV>, Seq<FieldSpecV>, bool)> {
    if name == "ipcache"@ {
        Option::Some((IpcacheKey::spec_fields(), RemoteEndpointInfo::spec_fields(), false))
    } else if name == "metrics"@ {
        Option::Some((MetricsKey::spec_fields(), MetricsValue::spec_fields(), true))
    } else if name == "tunnel map"@ {
        Option::Some((TunnelKey::spec_fields(), TunnelValue::spec_fields(), false))
    } else if name == "ct4 global"@ || name == "ct any4 global"@ {
        Option::Some((Ipv4CtTuple::spec_fields(), CtEntry::spec_fields(), false))
    } else if name == "lb4 reverse nat"@ {
        Option::Some((Lb4ReverseNatKey::spec_fields(), Lb4ReverseNat::spec_fields(), false))
    } else if name == "lb4 reverse sk"@ {
        Option::Some((Ipv4RevnatTuple::spec_fields(), Ipv4RevnatEntry::spec_fields(), false))
    } else if name == "lb4 services v2"@ {
        Option::Some((Lb4Key::spec_fields(), Lb4Service::spec_fields(), false))
    } else if name == "snat v4 external"@ {
        Option::Some((Ipv4CtTuple::spec_fields(), Ipv4NatEntry::spec_fields(), false))
    } else if name == "lb4 backends v3"@ {
        Option::Some((Lb4BackendKey::spec_fields(), Lb4Backend::spec_fields(), false))
    } else if name == "lxc"@ {
        Option::Some((EndpointKey::spec_fields(), EndpointInfo::spec_fields(), false))
    } else if spec_starts_with(name, "policy"@) {
        Option::Some((PolicyKey::spec_fields(), PolicyEntry::spec_fields(), false))
    } else {
        Option::None
    }
}

/// The schemas of one dump invocation: how to decode the keys and values of
/// one map, and whether each key fans out into per-CPU value replicas.
pub struct MapDescriptor {
    pub key_schema: RecordSchema,
    pub value_schema: RecordSchema,
    pub percpu: bool,
}

/// Resolves a symbolic map name against the closed registry; an unknown
/// name is unsupported, not an error.
pub fn resolve(name: &str) -> (r: Option<MapDescriptor>)
    ensures
        match r {
            Option::Some(d) => spec_resolve(name@) matches Option::Some(t) && d.key_schema@ == t.0
                && d.value_schema@ == t.1 && d.percpu == t.2 && schema_wf(d.key_schema@)
                && schema_wf(d.value_schema@),
            Option::None => spec_resolve(name@) is None,
        },
{
    if str_eq(name, "ipcache") {
        Some(
            MapDescriptor {
                key_schema: IpcacheKey::schema(),
                value_schema: RemoteEndpointInfo::schema(),
                percpu: false,
            },
        )
    } else if str_eq(name, "metrics") {
        Some(
            MapDescriptor {
                key_schema: MetricsKey::schema(),
                value_schema: MetricsValue::schema(),
                percpu: true,
            },
        )
    } else if str_eq(name, "tunnel map") {
        Some(
            MapDescriptor {
                key_schema: TunnelKey::schema(),
                value_schema: TunnelValue::schema(),
                percpu: false,
            },
        )
    } else if str_eq(name, "ct4 global") || str_eq(name, "ct any4 global") {
        Some(
            MapDescriptor {
                key_schema: Ipv4CtTuple::schema(),
                value_schema: CtEntry::schema(),
                percpu: false,
            },
        )
    } else if str_eq(name, "lb4 reverse nat") {
        Some(
            MapDescriptor {
                key_schema: Lb4ReverseNatKey::schema(),
                value_schema: Lb4ReverseNat::schema(),
                percpu: false,
            },
        )
    } else if str_eq(name, "lb4 reverse sk") {
        Some(
            MapDescriptor {
                key_schema: Ipv4RevnatTuple::schema(),
                value_schema: Ipv4RevnatEntry::schema(),
                percpu: false,
            },
        )
    } else if str_eq(name, "lb4 services v2") {
        Some(
            MapDescriptor {
                key_schema: Lb4Key::schema(),
                value_schema: Lb4Service::schema(),
                percpu: false,
            },
        )
    } else if str_eq(name, "snat v4 external") {
        Some(
            MapDescriptor {
                key_schema: Ipv4CtTuple::schema(),
                value_schema: Ipv4NatEntry::schema(),
                percpu: false,
            },
        )
    } else if str_eq(name, "lb4 backends v3") {
        Some(
            MapDescriptor {
                key_schema: Lb4BackendKey::schema(),
                value_schema: Lb4Backend::schema(),
                percpu: false,
            },
        )
    } else if str_eq(name, "lxc") {
        Some(
            MapDescriptor {
                key_schema: EndpointKey::schema(),
                value_schema: EndpointInfo::schema(),
                percpu: false,
            },
        )
    } else if str_starts_with(name, "policy") {
        Some(
            MapDescriptor {
                key_schema: PolicyKey::schema(),
                value_schema: PolicyEntry::schema(),
                percpu: false,
            },
        )
    } else {
        None
    }
}

/// Whether a display name belongs to a map the viewer lists: it begins with
/// one of the known name prefixes.
pub open spec fn spec_supported(name: Seq<char>) -> bool {
    ||| spec_starts_with(name, "policy"@)
    ||| spec_starts_with(name, "tunnel map"@)
    ||| spec_starts_with(name, "ct4 global"@)
    ||| spec_starts_with(name, "metrics"@)
    ||| spec_starts_with(name, "ct any4 global"@)
    ||| spec_starts_with(name, "lb4 reverse nat"@)
    ||| spec_starts_with(name, "lb4 reverse sk"@)
    ||| spec_starts_with(name, "lb4 services v2"@)
    ||| spec_starts_with(name, "lb4 backends v3"@)
    ||| spec_starts_with(name, "snat v4 external"@)
    ||| spec_starts_with(name, "lxc"@)
    ||| spec_starts_with(name, "ipcache"@)
}

/// Whether a display name belongs to a map the viewer lists.
pub fn is_supported(name: &str) -> (r: bool)
    ensures
        r == spec_supported(name@),
{
    str_starts_with(name, "policy") || str_starts_with(name, "tunnel map") || str_starts_with(
        name,
        "ct4 global",
    ) || str_starts_with(name, "metrics") || str_starts_with(name, "ct any4 global")
        || str_starts_with(name, "lb4 reverse nat") || str_starts_with(name, "lb4 reverse sk")
        || str_starts_with(name, "lb4 services v2") || str_starts_with(name, "lb4 backends v3")
        || str_starts_with(name, "snat v4 external") || str_starts_with(name, "lxc")
        || str_starts_with(name, "ipcache")
}

/// An underscore becomes a space; every other character stays.
pub open spec fn swap_underscore(c: char) -> char {
    if c == '_' {
        ' '
    } else {
        c
    }
}

/// The display name of a pinned-object file name: the seven-character
/// naming prefix stripped, underscores turned into spaces.
pub open spec fn spec_display_name(s: Seq<char>) -> Seq<char>
    recommends
        s.len() >= 7,
{
    Seq::new((s.len() - 7) as nat, |i: int| swap_underscore(s[7 + i]))
}

/// Derives the display name of a pinned-object file name.
pub fn display_name(name: &str) -> (r: String)
    requires
        name@.len() >= 7,
    ensures
        r@ == spec_display_name(name@),
{
    let len = name.unicode_len();
    let mut r = String::new();
    let mut i: usize = 7;
    while i < len
        invariant
            7 <= i <= len,
            len == name@.len(),
            r@.len() == i - 7,
            forall|j: int| 0 <= j < i - 7 ==> r@[j] == swap_underscore(name@[7 + j]),
        decreases len - i,
    {
        let c = name.get_char(i);
        if c == '_' {
            proof {
                reveal_strlit(" ");
            }
            r.append(" ");
        } else {
            let piece = name.substring_char(i, i + 1);
            r.append(piece);
        }
        i = i + 1;
    }
    proof {
        assert(r@ =~= spec_display_name(name@));
    }
    r
}

/// A rendered table: the header names, the data rows (each exactly as long
/// as the header), and a title identifying the source map.
pub struct Table {
    pub header: Vec<&'static str>,
    pub rows: Vec<Vec<String>>,
    pub title: String,
}

/// A well-formed schema of at least one field declares at least one byte.
proof fn lemma_nonempty_width(fs: Seq<FieldSpecV>)
    requires
        fs.len() > 0,
        schema_wf(fs),
    ensures
        spec_width(fs) > 0,
{
    assert(crate::schema::width_from(fs, 0) == fs[0].width + crate::schema::width_from(fs, 1));
    assert(crate::schema::field_wf(fs[0]));
}

/// Dumps the map a symbolic name resolves to: the registry's schemas drive
/// the engine over the snapshot, capped at the display volume. An
/// unsupported name yields an explicit empty table, never an error.
pub fn dump_named(name: &str, snap: &StoreSnapshot) -> (r: Table)
    requires
        distinct_keys(snap@),
    ensures
        match spec_resolve(name@) {
            Option::Some(t) => r.title@ == name@ && r.header.deep_view() == spec_header(
                t.0,
                t.1,
                t.2,
            ) && r.rows.deep_view() == spec_dump_rows(t.0, t.1, t.2, snap@, RESULT_CAP as int),
            Option::None => r.title@ == "Not supported"@ && r.header@.len() == 0 && r.rows@.len()
                == 0,
        },
{
    match resolve(name) {
        Some(d) => {
            proof {
                lemma_nonempty_width(d.key_schema@);
                lemma_nonempty_width(d.value_schema@);
            }
            match dump(snap, &d.key_schema, &d.value_schema, d.percpu) {
                Ok((rows, header)) => Table { header, rows, title: name.to_owned() },
                Err(_) => unreached(),
            }
        },
        None => Table { header: Vec::new(), rows: Vec::new(), title: "Not supported".to_owned() },
    }
}

} // verus!
