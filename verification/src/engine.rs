//! Table dump engine: drives the cursor over a store snapshot, decodes each
//! key and its value replicas against the key and value schemas, and emits
//! an ordered table. A lookup miss (the key vanished between the cursor step
//! and the lookup) skips that record and never fails the dump; the result
//! cap bounds the keys visited, not the rows emitted.
use crate::codec::DecodeError;
use crate::codec::decode_and_render;
use crate::codec::spec_render;
use crate::cursor::CursorV;
use crate::cursor::EntryV;
use crate::cursor::MapCursor;
use crate::cursor::StoreSnapshot;
use crate::cursor::distinct_keys;
use crate::cursor::lemma_key_index_of_entry;
use crate::cursor::snap_keys;
use crate::render::dec_chars;
use crate::schema::FieldSpecV;
use crate::schema::RecordSchema;
use crate::schema::header_names;
use crate::schema::schema_wf;
use crate::schema::spec_width;
use vstd::prelude::*;

verus! {

/// The number of keys one dump visits at most.
pub const RESULT_CAP: usize = 100;

/// The separator column between the key fields and the value fields.
pub open spec fn sep_chars() -> Seq<char> {
    "│"@
}

/// The separator cell as a string.
fn sep_string() -> (r: String)
    ensures
        r@ == sep_chars(),
{
    "│".to_owned()
}

/// The table header: a leading cpu column when the map is per-CPU, the key
/// schema's field names, the separator, then the value schema's field names.
pub open spec fn spec_header(keyf: Seq<FieldSpecV>, valf: Seq<FieldSpecV>, percpu: bool) -> Seq<
    Seq<char>,
> {
    (if percpu {
        seq!["cpu"@]
    } else {
        Seq::<Seq<char>>::empty()
    }) + header_names(keyf) + seq![sep_chars()] + header_names(valf)
}

/// One data row: the replica index when per-CPU, the rendered key cells, the
/// separator, then the rendered value cells.
pub open spec fn spec_dump_row(
    keyf: Seq<FieldSpecV>,
    valf: Seq<FieldSpecV>,
    percpu: bool,
    key: Seq<u8>,
    cpu: int,
    val: Seq<u8>,
) -> Seq<Seq<char>> {
    (if percpu {
        seq![dec_chars(cpu as nat)]
    } else {
        Seq::<Seq<char>>::empty()
    }) + spec_render(keyf, key) + seq![sep_chars()] + spec_render(valf, val)
}

/// The rows of one entry's replicas at `c..`.
pub open spec fn entry_rows_from(
    keyf: Seq<FieldSpecV>,
    valf: Seq<FieldSpecV>,
    percpu: bool,
    key: Seq<u8>,
    vs: Seq<Seq<u8>>,
    c: int,
) -> Seq<Seq<Seq<char>>>
    decreases vs.len() - c,
{
    if c < 0 || c >= vs.len() {
        Seq::<Seq<Seq<char>>>::empty()
    } else {
        seq![spec_dump_row(keyf, valf, percpu, key, c, vs[c])] + entry_rows_from(
            keyf,
            valf,
            percpu,
            key,
            vs,
            c + 1,
        )
    }
}

/// The rows one entry contributes: one per value replica, or none when its
/// lookup missed.
pub open spec fn entry_rows(
    keyf: Seq<FieldSpecV>,
    valf: Seq<FieldSpecV>,
    percpu: bool,
    e: EntryV,
) -> Seq<Seq<Seq<char>>> {
    match e.values {
        Option::None => Seq::<Seq<Seq<char>>>::empty(),
        Option::Some(vs) => entry_rows_from(keyf, valf, percpu, e.key, vs, 0),
    }
}

/// The rows of the entries at `i..`, visiting at most `cap` more keys.
pub open spec fn dump_rows_from(
    keyf: Seq<FieldSpecV>,
    valf: Seq<FieldSpecV>,
    percpu: bool,
    es: Seq<EntryV>,
    i: int,
    cap: int,
) -> Seq<Seq<Seq<char>>>
    decreases es.len() - i,
{
    if i < 0 || i >= es.len() || cap <= 0 {
        Seq::<Seq<Seq<char>>>::empty()
    } else {
        entry_rows(keyf, valf, percpu, es[i]) + dump_rows_from(keyf, valf, percpu, es, i + 1, cap - 1)
    }
}

/// The rows of a whole dump: the entries in enumeration order, at most `cap`
/// keys visited, each contributing one row per replica and a missed lookup
/// contributing none.
pub open spec fn spec_dump_rows(
    keyf: Seq<FieldSpecV>,
    valf: Seq<FieldSpecV>,
    percpu: bool,
    es: Seq<EntryV>,
    cap: int,
) -> Seq<Seq<Seq<char>>> {
    dump_rows_from(keyf, valf, percpu, es, 0, cap)
}

/// Builds the table header.
fn build_header(key_schema: &RecordSchema, value_schema: &RecordSchema, percpu: bool) -> (r: Vec<
    &'static str,
>)
    ensures
        r.deep_view() == spec_header(key_schema@, value_schema@, percpu),
{
    let mut h: Vec<&'static str> = Vec::new();
    if percpu {
        h.push("cpu");
    }
    let mut kh = key_schema.header();
    h.append(&mut kh);
    h.push("│");
    let mut vh = value_schema.header();
    h.append(&mut vh);
    proof {
        assert(h.deep_view() =~~= spec_header(key_schema@, value_schema@, percpu));
    }
    h
}

/// Dumps a store snapshot against a key schema and a value schema, visiting
/// at most `cap` keys. Fails exactly when a schema declares no bytes at all;
/// a lookup miss only skips its record.
pub fn dump_capped(
    snap: &StoreSnapshot,
    key_schema: &RecordSchema,
    value_schema: &RecordSchema,
    percpu: bool,
    cap: usize,
) -> (r: Result<(Vec<Vec<String>>, Vec<&'static str>), DecodeError>)
    requires
        schema_wf(key_schema@),
        schema_wf(value_schema@),
        distinct_keys(snap@),
    ensures
        match r {
            Ok(out) => spec_width(key_schema@) > 0 && spec_width(value_schema@) > 0
                && out.1.deep_view() == spec_header(key_schema@, value_schema@, percpu)
                && out.0.deep_view() == spec_dump_rows(
                key_schema@,
                value_schema@,
                percpu,
                snap@,
                cap as int,
            ),
            Err(_) => spec_width(key_schema@) == 0 || spec_width(value_schema@) == 0,
        },
{
    if key_schema.width() == 0 || value_schema.width() == 0 {
        return Err(DecodeError);
    }
    let header = build_header(key_schema, value_schema, percpu);
    let ghost es = snap@;
    let ghost keyf = key_schema@;
    let ghost valf = value_schema@;
    let mut cursor = MapCursor::new();
    let mut rows: Vec<Vec<String>> = Vec::new();
    let mut visited: usize = 0;
    loop
        invariant_except_break
            schema_wf(keyf),
            schema_wf(valf),
            keyf == key_schema@,
            valf == value_schema@,
            es == snap@,
            distinct_keys(es),
            spec_width(keyf) > 0,
            spec_width(valf) > 0,
            visited <= cap,
            visited <= es.len(),
            cursor@ == (if visited == 0 {
                CursorV::Start
            } else {
                CursorV::Positioned(es[visited - 1].key)
            }),
            spec_dump_rows(keyf, valf, percpu, es, cap as int) == rows.deep_view() + dump_rows_from(
                keyf,
                valf,
                percpu,
                es,
                visited as int,
                cap - visited,
            ),
        ensures
            rows.deep_view() == spec_dump_rows(keyf, valf, percpu, es, cap as int),
        decreases cap - visited,
    {
        if visited == cap {
            proof {
                assert(rows.deep_view() =~~= spec_dump_rows(keyf, valf, percpu, es, cap as int));
            }
            break;
        }
        proof {
            if visited > 0 {
                lemma_key_index_of_entry(es, visited - 1);
            }
        }
        let next = cursor.step(snap);
        match next {
            None => {
                proof {
                    assert(visited == es.len());
                    assert(rows.deep_view() =~~= spec_dump_rows(keyf, valf, percpu, es, cap as int));
                }
                break;
            },
            Some(key) => {
                proof {
                    assert(key.deep_view() =~= key@);
                    assert(key@ == es[visited as int].key);
                    lemma_key_index_of_entry(es, visited as int);
                }
                match snap.lookup(&key) {
                    Some(vals) => {
                        let ghost vs = vals.deep_view();
                        let ghost prefix = rows.deep_view();
                        proof {
                            assert(es[visited as int].values == Option::Some(vs));
                        }
                        let mut c: usize = 0;
                        while c < vals.len()
                            invariant
                                schema_wf(keyf),
                                schema_wf(valf),
                                keyf == key_schema@,
                                valf == value_schema@,
                                spec_width(keyf) > 0,
                                spec_width(valf) > 0,
                                c <= vals@.len(),
                                vs == vals.deep_view(),
                                vs.len() == vals@.len(),
                                prefix + entry_rows_from(keyf, valf, percpu, key@, vs, 0)
                                    == rows.deep_view() + entry_rows_from(
                                    keyf,
                                    valf,
                                    percpu,
                                    key@,
                                    vs,
                                    c as int,
                                ),
                            decreases vals@.len() - c,
                        {
                            let mut row: Vec<String> = Vec::new();
                            if percpu {
                                row.push(crate::render::u64_to_dec(c as u64));
                            }
                            let mut kr = match decode_and_render(key_schema, &key) {
                                Ok(v) => v,
                                Err(_) => unreached(),
                            };
                            row.append(&mut kr);
                            row.push(sep_string());
                            let mut vr = match decode_and_render(value_schema, &vals[c]) {
                                Ok(v) => v,
                                Err(_) => unreached(),
                            };
                            row.append(&mut vr);
                            proof {
                                assert(vals@[c as int]@ =~= vs[c as int]);
                                assert(row.deep_view() =~~= spec_dump_row(
                                    keyf,
                                    valf,
                                    percpu,
                                    key@,
                                    c as int,
                                    vs[c as int],
                                ));
                            }
                            rows.push(row);
                            proof {
                                assert(prefix + entry_rows_from(keyf, valf, percpu, key@, vs, 0)
                                    =~~= rows.deep_view() + entry_rows_from(
                                    keyf,
                                    valf,
                                    percpu,
                                    key@,
                                    vs,
                                    c + 1,
                                ));
                            }
                            c = c + 1;
                        }
                        proof {
                            assert(rows.deep_view() =~~= prefix + entry_rows(
                                keyf,
                                valf,
                                percpu,
                                es[visited as int],
                            ));
                            assert(spec_dump_rows(keyf, valf, percpu, es, cap as int)
                                =~~= rows.deep_view() + dump_rows_from(
                                keyf,
                                valf,
                                percpu,
                                es,
                                visited + 1,
                                cap - visited - 1,
                            ));
                        }
                    },
                    None => {
                        proof {
                            assert(es[visited as int].values is None);
                            assert(spec_dump_rows(keyf, valf, percpu, es, cap as int)
                                =~~= rows.deep_view() + dump_rows_from(
                                keyf,
                                valf,
                                percpu,
                                es,
                                visited + 1,
                                cap - visited - 1,
                            ));
                        }
                    },
                }
                visited = visited + 1;
            },
        }
    }
    Ok((rows, header))
}

/// Dumps a store snapshot with the display-volume cap.
pub fn dump(
    snap: &StoreSnapshot,
    key_schema: &RecordSchema,
    value_schema: &RecordSchema,
    percpu: bool,
) -> (r: Result<(Vec<Vec<String>>, Vec<&'static str>), DecodeError>)
    requires
        schema_wf(key_schema@),
        schema_wf(value_schema@),
        distinct_keys(snap@),
    ensures
        match r {
            Ok(out) => spec_width(key_schema@) > 0 && spec_width(value_schema@) > 0
                && out.1.deep_view() == spec_header(key_schema@, value_schema@, percpu)
                && out.0.deep_view() == spec_dump_rows(
                key_schema@,
                value_schema@,
                percpu,
                snap@,
                RESULT_CAP as int,
            ),
            Err(_) => spec_width(key_schema@) == 0 || spec_width(value_schema@) == 0,
        },
{
    dump_capped(snap, key_schema, value_schema, percpu, RESULT_CAP)
}

/// One full enumeration pass: every key of the snapshot, in order, and the
/// cursor left in the terminal state.
pub fn enumerate_pass(snap: &StoreSnapshot) -> (r: (Vec<Vec<u8>>, MapCursor))
    requires
        distinct_keys(snap@),
    ensures
        r.0.deep_view() == snap_keys(snap@),
        r.1@ == CursorV::Exhausted,
{
    let ghost es = snap@;
    let n = snap.entries.len();
    let mut cursor = MapCursor::new();
    let mut keys: Vec<Vec<u8>> = Vec::new();
    let mut visited: usize = 0;
    loop
        invariant_except_break
            es == snap@,
            es.len() == n,
            distinct_keys(es),
            visited <= es.len(),
            keys@.len() == visited,
            forall|i: int| 0 <= i < visited ==> #[trigger] keys@[i]@ == es[i].key,
            cursor@ == (if visited == 0 {
                CursorV::Start
            } else {
                CursorV::Positioned(es[visited - 1].key)
            }),
        ensures
            keys.deep_view() == snap_keys(snap@),
            cursor@ == CursorV::Exhausted,
        decreases es.len() - visited + 1,
    {
        proof {
            if visited > 0 {
                lemma_key_index_of_entry(es, visited - 1);
            }
        }
        let next = cursor.step(snap);
        match next {
            None => {
                proof {
                    assert(visited == es.len());
                    assert(keys.deep_view() =~~= snap_keys(es));
                }
                break;
            },
            Some(key) => {
                proof {
                    assert(key.deep_view() =~= key@);
                    assert(key@ == es[visited as int].key);
                }
                keys.push(key);
                visited = visited + 1;
            },
        }
    }
    (keys, cursor)
}

/// One enumeration pass with no concurrent mutation visits exactly the
/// store's keys: as many as the store has entries, pairwise distinct, in
/// enumeration order. `enumerate_pass` returns exactly this sequence and
/// ends in the terminal state, so re-running a pass from the start visits
/// the same keys in the same order.
pub proof fn lemma_single_pass(es: Seq<EntryV>)
    requires
        distinct_keys(es),
    ensures
        snap_keys(es).len() == es.len(),
        forall|i: int, j: int|
            0 <= i < es.len() && 0 <= j < es.len() && i != j ==> snap_keys(es)[i] != snap_keys(
                es,
            )[j],
{
}

/// Every data row is exactly as long as the header: decoding and rendering
/// are total, and each non-padding field of either schema contributes one
/// cell to both.
pub proof fn lemma_row_matches_header(
    keyf: Seq<FieldSpecV>,
    valf: Seq<FieldSpecV>,
    percpu: bool,
    key: Seq<u8>,
    cpu: int,
    val: Seq<u8>,
)
    ensures
        spec_dump_row(keyf, valf, percpu, key, cpu, val).len() == spec_header(
            keyf,
            valf,
            percpu,
        ).len(),
{
    crate::codec::lemma_render_total(keyf, key);
    crate::codec::lemma_render_total(valf, val);
}

/// The replicas of one entry yield one row each.
proof fn lemma_entry_rows_len(
    keyf: Seq<FieldSpecV>,
    valf: Seq<FieldSpecV>,
    percpu: bool,
    key: Seq<u8>,
    vs: Seq<Seq<u8>>,
    c: int,
)
    requires
        0 <= c <= vs.len(),
    ensures
        entry_rows_from(keyf, valf, percpu, key, vs, c).len() == vs.len() - c,
    decreases vs.len() - c,
{
    if c < vs.len() {
        lemma_entry_rows_len(keyf, valf, percpu, key, vs, c + 1);
    }
}

/// The cap bounds the rows of a dump: with at most `reps` replicas per
/// entry, at most `cap` visited keys contribute at most `cap * reps` rows.
pub proof fn lemma_dump_rows_bound(
    keyf: Seq<FieldSpecV>,
    valf: Seq<FieldSpecV>,
    percpu: bool,
    es: Seq<EntryV>,
    cap: int,
    reps: int,
)
    requires
        0 <= cap,
        0 <= reps,
        forall|i: int|
            0 <= i < es.len() ==> match (#[trigger] es[i]).values {
                Option::Some(vs) => vs.len() <= reps,
                Option::None => true,
            },
    ensures
        spec_dump_rows(keyf, valf, percpu, es, cap).len() <= cap * reps,
{
    lemma_dump_rows_bound_from(keyf, valf, percpu, es, 0, cap, reps);
}

/// The suffix form of the row-count bound.
proof fn lemma_dump_rows_bound_from(
    keyf: Seq<FieldSpecV>,
    valf: Seq<FieldSpecV>,
    percpu: bool,
    es: Seq<EntryV>,
    i: int,
    cap: int,
    reps: int,
)
    requires
        0 <= cap,
        0 <= reps,
        forall|j: int|
            0 <= j < es.len() ==> match (#[trigger] es[j]).values {
                Option::Some(vs) => vs.len() <= reps,
                Option::None => true,
            },
    ensures
        dump_rows_from(keyf, valf, percpu, es, i, cap).len() <= cap * reps,
    decreases es.len() - i,
{
    if i < 0 || i >= es.len() || cap <= 0 {
        assert(0 <= cap * reps) by (nonlinear_arith)
            requires
                0 <= cap,
                0 <= reps,
        ;
    } else {
        lemma_dump_rows_bound_from(keyf, valf, percpu, es, i + 1, cap - 1, reps);
        match es[i].values {
            Option::Some(vs) => {
                lemma_entry_rows_len(keyf, valf, percpu, es[i].key, vs, 0);
            },
            Option::None => {},
        }
        assert((cap - 1) * reps + reps == cap * reps) by (nonlinear_arith);
    }
}

/// A lookup miss only loses its own record's rows: against a store that is
/// identical except that one visited entry's lookup misses, the dump has
/// exactly that entry's replica rows fewer, and still completes. With a
/// single replica that is one row fewer.
pub proof fn lemma_miss_skipped(
    keyf: Seq<FieldSpecV>,
    valf: Seq<FieldSpecV>,
    percpu: bool,
    es1: Seq<EntryV>,
    es2: Seq<EntryV>,
    vs: Seq<Seq<u8>>,
    m: int,
    cap: int,
)
    requires
        es1.len() == es2.len(),
        0 <= m < es1.len(),
        forall|i: int| 0 <= i < es1.len() && i != m ==> es1[i] == es2[i],
        es1[m].values == Option::Some(vs),
        es2[m].values is None,
        m < cap,
    ensures
        spec_dump_rows(keyf, valf, percpu, es1, cap).len() == spec_dump_rows(
            keyf,
            valf,
            percpu,
            es2,
            cap,
        ).len() + vs.len(),
{
    lemma_miss_skipped_from(keyf, valf, percpu, es1, es2, vs, m, 0, cap);
}

/// The suffix form of the miss-resilience law.
proof fn lemma_miss_skipped_from(
    keyf: Seq<FieldSpecV>,
    valf: Seq<FieldSpecV>,
    percpu: bool,
    es1: Seq<EntryV>,
    es2: Seq<EntryV>,
    vs: Seq<Seq<u8>>,
    m: int,
    i: int,
    cap: int,
)
    requires
        es1.len() == es2.len(),
        0 <= i <= m < es1.len(),
        forall|j: int| 0 <= j < es1.len() && j != m ==> es1[j] == es2[j],
        es1[m].values == Option::Some(vs),
        es2[m].values is None,
        m < i + cap,
    ensures
        dump_rows_from(keyf, valf, percpu, es1, i, cap).len() == dump_rows_from(
            keyf,
            valf,
            percpu,
            es2,
            i,
            cap,
        ).len() + vs.len(),
    decreases m - i,
{
    if i == m {
        lemma_entry_rows_len(keyf, valf, percpu, es1[m].key, vs, 0);
        lemma_dump_rows_same(keyf, valf, percpu, es1, es2, m, i + 1, cap - 1);
    } else {
        lemma_miss_skipped_from(keyf, valf, percpu, es1, es2, vs, m, i + 1, cap - 1);
    }
}

/// Two stores that agree on the entries at `i..` dump the same rows there.
proof fn lemma_dump_rows_same(
    keyf: Seq<FieldSpecV>,
    valf: Seq<FieldSpecV>,
    percpu: bool,
    es1: Seq<EntryV>,
    es2: Seq<EntryV>,
    m: int,
    i: int,
    cap: int,
)
    requires
        es1.len() == es2.len(),
        forall|j: int| 0 <= j < es1.len() && j != m ==> es1[j] == es2[j],
        m < i,
    ensures
        dump_rows_from(keyf, valf, percpu, es1, i, cap) == dump_rows_from(
            keyf,
            valf,
            percpu,
            es2,
            i,
            cap,
        ),
    decreases es1.len() - i,
{
    if 0 <= i < es1.len() && cap > 0 {
        lemma_dump_rows_same(keyf, valf, percpu, es1, es2, m, i + 1, cap - 1);
    }
}

} // verus!
