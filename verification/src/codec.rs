//! Record codec: reinterprets a raw byte buffer as a schema instance and
//! renders each field as a display string. Decoding is strictly positional
//! and total: every declared field, in order, consumes its fixed width; a
//! short buffer is zero-padded up to the declared width, and bytes past the
//! declared width are never read.
use crate::flags::flag_table;
use crate::flags::flags_chars;
use crate::ip::addr_chars;
use crate::ip::family_chars;
use crate::ipv4::ipv4_chars;
use crate::ipv6::ipv6_chars;
use crate::l4proto::l4proto_chars;
use crate::mac::mac_chars;
use crate::metrics::dir_chars;
use crate::metrics::reason_chars;
use crate::render::dec_chars;
use crate::schema::FieldSpec;
use crate::schema::FieldSpecV;
use crate::schema::Formatter;
use crate::schema::RecordSchema;
use crate::schema::field_wf;
use crate::schema::schema_wf;
use crate::schema::spec_width;
use crate::schema::width_from;
use crate::wire::be16_val;
use crate::wire::le_val;
use vstd::prelude::*;

verus! {

/// A structural decoding failure: the schema's total declared width cannot
/// describe a record. Field *values* never fail to decode.
#[derive(Debug, Clone, Copy, PartialEq, Eq)]
pub struct DecodeError;

/// The bytes of one field: `w` bytes starting at `pos`, zero-padded where
/// the buffer ends early.
pub open spec fn chunk_at(raw: Seq<u8>, pos: int, w: nat) -> Seq<u8> {
    Seq::new(
        w,
        |j: int|
            if pos + j < raw.len() {
                raw[pos + j]
            } else {
                0u8
            },
    )
}

/// The chunks of the fields at `i..`, consuming from byte `pos` on.
pub open spec fn chunks_from(fs: Seq<FieldSpecV>, raw: Seq<u8>, i: int, pos: int) -> Seq<Seq<u8>>
    decreases fs.len() - i,
{
    if i < 0 || i >= fs.len() {
        Seq::<Seq<u8>>::empty()
    } else {
        seq![chunk_at(raw, pos, fs[i].width)] + chunks_from(fs, raw, i + 1, pos + fs[i].width)
    }
}

/// The decoded chunks of a record: one byte chunk per declared field, in
/// order, consumed positionally from the start of the buffer.
pub open spec fn spec_chunks(fs: Seq<FieldSpecV>, raw: Seq<u8>) -> Seq<Seq<u8>> {
    chunks_from(fs, raw, 0, 0)
}

/// The record's family-tag byte: the first byte of the first family-tagged
/// field, or zero when the record has none.
pub open spec fn family_byte_from(fs: Seq<FieldSpecV>, chunks: Seq<Seq<u8>>, i: int) -> u8
    decreases fs.len() - i,
{
    if i < 0 || i >= fs.len() {
        0u8
    } else if fs[i].fmt is Family {
        chunks[i][0]
    } else {
        family_byte_from(fs, chunks, i + 1)
    }
}

/// The record's family-tag byte.
pub open spec fn spec_family_byte(fs: Seq<FieldSpecV>, chunks: Seq<Seq<u8>>) -> u8 {
    family_byte_from(fs, chunks, 0)
}

/// The rendering of one byte as a truth value.
pub open spec fn bool_chars(b: u8) -> Seq<char> {
    if b == 0 {
        "false"@
    } else {
        "true"@
    }
}

/// The display string of one field's chunk, under the record's family tag.
pub open spec fn spec_cell(f: FieldSpecV, chunk: Seq<u8>, fam: u8) -> Seq<char> {
    match f.fmt {
        Formatter::UintLe => dec_chars(le_val(chunk)),
        Formatter::PortBe => dec_chars(be16_val(chunk)),
        Formatter::MacAddr => mac_chars(chunk),
        Formatter::V4Addr => ipv4_chars(chunk),
        Formatter::V6Addr => ipv6_chars(chunk),
        Formatter::FamilyAddr => addr_chars(chunk, fam),
        Formatter::Family => family_chars(chunk[0]),
        Formatter::Boolean => bool_chars(chunk[0]),
        Formatter::Proto => l4proto_chars(chunk[0]),
        Formatter::Reason => reason_chars(chunk[0]),
        Formatter::Direction => dir_chars(chunk[0]),
        Formatter::Flags(g) => flags_chars(flag_table(g), le_val(chunk) as u64),
    }
}

/// The cells of the non-padding fields at `i..`.
pub open spec fn row_from(fs: Seq<FieldSpecV>, chunks: Seq<Seq<u8>>, fam: u8, i: int) -> Seq<
    Seq<char>,
>
    decreases fs.len() - i,
{
    if i < 0 || i >= fs.len() {
        Seq::<Seq<char>>::empty()
    } else if fs[i].padding {
        row_from(fs, chunks, fam, i + 1)
    } else {
        seq![spec_cell(fs[i], chunks[i], fam)] + row_from(fs, chunks, fam, i + 1)
    }
}

/// The rendered row of decoded chunks: one cell per non-padding field.
pub open spec fn spec_row(fs: Seq<FieldSpecV>, chunks: Seq<Seq<u8>>) -> Seq<Seq<char>> {
    row_from(fs, chunks, spec_family_byte(fs, chunks), 0)
}

/// The rendered row of a raw buffer: decode positionally, then render every
/// non-padding field.
pub open spec fn spec_render(fs: Seq<FieldSpecV>, raw: Seq<u8>) -> Seq<Seq<char>> {
    spec_row(fs, spec_chunks(fs, raw))
}

/// Decodes a raw buffer against a schema: one chunk per declared field,
/// zero-padded where the buffer ends early; bytes past the declared width
/// are ignored. Fails exactly when the schema declares no bytes at all.
pub fn decode(schema: &RecordSchema, raw: &Vec<u8>) -> (r: Result<Vec<Vec<u8>>, DecodeError>)
    requires
        schema_wf(schema@),
    ensures
        match r {
            Ok(chunks) => spec_width(schema@) > 0 && chunks.deep_view() == spec_chunks(
                schema@,
                raw@,
            ),
            Err(_) => spec_width(schema@) == 0,
        },
{
    if schema.width() == 0 {
        return Err(DecodeError);
    }
    let ghost fs = schema@;
    let mut chunks: Vec<Vec<u8>> = Vec::new();
    let mut pos: usize = 0;
    let mut i: usize = 0;
    while i < schema.fields.len()
        invariant
            schema_wf(fs),
            fs == schema@,
            i <= schema.fields@.len(),
            fs.len() == schema.fields@.len(),
            pos + width_from(fs, i as int) == spec_width(fs),
            spec_chunks(fs, raw@) == chunks.deep_view() + chunks_from(fs, raw@, i as int, pos as int),
        decreases schema.fields@.len() - i,
    {
        let w = schema.fields[i].width;
        let mut chunk: Vec<u8> = Vec::new();
        let mut j: usize = 0;
        while j < w
            invariant
                j <= w,
                pos + w <= usize::MAX,
                chunk@.len() == j,
                forall|k: int|
                    0 <= k < j ==> chunk@[k] == (if pos + k < raw@.len() {
                        raw@[pos + k]
                    } else {
                        0u8
                    }),
            decreases w - j,
        {
            if pos + j < raw.len() {
                chunk.push(raw[pos + j]);
            } else {
                chunk.push(0);
            }
            j = j + 1;
        }
        proof {
            assert(chunk@ =~= chunk_at(raw@, pos as int, fs[i as int].width));
        }
        chunks.push(chunk);
        proof {
            assert(spec_chunks(fs, raw@) =~~= chunks.deep_view() + chunks_from(
                fs,
                raw@,
                i + 1,
                pos + fs[i as int].width,
            ));
        }
        pos = pos + w;
        i = i + 1;
    }
    proof {
        assert(chunks.deep_view() =~~= spec_chunks(fs, raw@));
    }
    Ok(chunks)
}

/// Whether decoded chunks structurally match a schema: one chunk per field,
/// each of its declared width.
pub open spec fn chunks_match(fs: Seq<FieldSpecV>, chunks: Seq<Seq<u8>>) -> bool {
    chunks.len() == fs.len() && forall|i: int|
        0 <= i < fs.len() ==> (#[trigger] chunks[i]).len() == fs[i].width
}

/// Decoded chunks always match their schema.
pub proof fn lemma_decode_matches(fs: Seq<FieldSpecV>, raw: Seq<u8>)
    ensures
        chunks_match(fs, spec_chunks(fs, raw)),
{
    lemma_chunks_from_matches(fs, raw, 0, 0);
}

/// The chunks of the fields at `i..` have the fields' widths.
proof fn lemma_chunks_from_matches(fs: Seq<FieldSpecV>, raw: Seq<u8>, i: int, pos: int)
    ensures
        i >= 0 ==> chunks_from(fs, raw, i, pos).len() == if i <= fs.len() {
            fs.len() - i
        } else {
            0
        },
        forall|k: int|
            0 <= k < chunks_from(fs, raw, i, pos).len() ==> (#[trigger] chunks_from(
                fs,
                raw,
                i,
                pos,
            )[k]).len() == fs[i + k].width,
    decreases fs.len() - i,
{
    if 0 <= i < fs.len() {
        lemma_chunks_from_matches(fs, raw, i + 1, pos + fs[i].width);
    }
}

/// Renders one field's chunk under the record's family tag.
fn render_cell(f: &FieldSpec, chunk: &Vec<u8>, fam: u8) -> (r: String)
    requires
        field_wf(f@),
        chunk@.len() == f@.width,
    ensures
        r@ == spec_cell(f@, chunk@, fam),
{
    match f.fmt {
        Formatter::UintLe => {
            proof {
                crate::wire::lemma_le_val_fits_u64(chunk@);
            }
            crate::render::u64_to_dec(crate::wire::read_le_u64(chunk.as_slice()))
        },
        Formatter::PortBe => crate::port::Port::from_bytes(chunk.as_slice()).to_string(),
        Formatter::MacAddr => {
            let m = crate::mac::Mac::from_bytes(chunk.as_slice());
            proof {
                assert(m@ =~= chunk@);
            }
            m.to_string()
        },
        Formatter::V4Addr => {
            let a = crate::ipv4::Ipv4::from_bytes(chunk.as_slice());
            proof {
                assert(a@ =~= chunk@);
            }
            a.to_string()
        },
        Formatter::V6Addr => {
            let a = crate::ipv6::Ipv6::from_bytes(chunk.as_slice());
            proof {
                assert(a@ =~= chunk@);
            }
            a.to_string()
        },
        Formatter::FamilyAddr => {
            let ip = crate::ip::Ip::from_bytes(chunk.as_slice());
            proof {
                assert(ip@ =~= chunk@);
            }
            let family = crate::ip::IpFamily::new(fam);
            ip.render(&family)
        },
        Formatter::Family => crate::ip::IpFamily::new(chunk[0]).to_string(),
        Formatter::Boolean => {
            let s: &'static str = if chunk[0] == 0 {
                "false"
            } else {
                "true"
            };
            let r = s.to_owned();
            proof {
                assert(r@ =~= bool_chars(chunk@[0]));
            }
            r
        },
        Formatter::Proto => crate::l4proto::L4Proto::new(chunk[0]).to_string(),
        Formatter::Reason => crate::metrics::MetricsReason::new(chunk[0]).to_string(),
        Formatter::Direction => crate::metrics::MetricsDir::new(chunk[0]).to_string(),
        Formatter::Flags(g) => {
            proof {
                crate::wire::lemma_le_val_fits_u64(chunk@);
            }
            crate::flags::render_flags(g, crate::wire::read_le_u64(chunk.as_slice()))
        },
    }
}

/// The record's family-tag byte, read from its decoded chunks.
fn find_family_byte(schema: &RecordSchema, chunks: &Vec<Vec<u8>>) -> (r: u8)
    requires
        schema_wf(schema@),
        chunks_match(schema@, chunks.deep_view()),
    ensures
        r == spec_family_byte(schema@, chunks.deep_view()),
{
    let ghost fs = schema@;
    let ghost cv = chunks.deep_view();
    let mut i: usize = 0;
    while i < schema.fields.len()
        invariant
            schema_wf(fs),
            fs == schema@,
            cv == chunks.deep_view(),
            chunks_match(fs, cv),
            i <= fs.len(),
            fs.len() == schema.fields@.len(),
            spec_family_byte(fs, cv) == family_byte_from(fs, cv, i as int),
        decreases fs.len() - i,
    {
        let take = match schema.fields[i].fmt {
            Formatter::Family => true,
            _ => false,
        };
        if take {
            return chunks[i][0];
        }
        i = i + 1;
    }
    0
}

/// Renders the non-padding fields of decoded chunks, in declaration order.
pub fn render_row(schema: &RecordSchema, chunks: &Vec<Vec<u8>>) -> (r: Vec<String>)
    requires
        schema_wf(schema@),
        chunks_match(schema@, chunks.deep_view()),
    ensures
        r.deep_view() == spec_row(schema@, chunks.deep_view()),
{
    let ghost fs = schema@;
    let ghost cv = chunks.deep_view();
    let fam = find_family_byte(schema, chunks);
    let mut r: Vec<String> = Vec::new();
    let mut i: usize = 0;
    while i < schema.fields.len()
        invariant
            schema_wf(fs),
            fs == schema@,
            cv == chunks.deep_view(),
            chunks_match(fs, cv),
            i <= fs.len(),
            fs.len() == schema.fields@.len(),
            fam == spec_family_byte(fs, cv),
            spec_row(fs, cv) == r.deep_view() + row_from(fs, cv, fam, i as int),
        decreases fs.len() - i,
    {
        proof {
            assert(cv[i as int] =~= chunks@[i as int]@);
        }
        if !schema.fields[i].padding {
            let cell = render_cell(&schema.fields[i], &chunks[i], fam);
            proof {
                assert(cell@ == spec_cell(fs[i as int], cv[i as int], fam));
            }
            r.push(cell);
        }
        proof {
            assert(spec_row(fs, cv) =~~= r.deep_view() + row_from(fs, cv, fam, i + 1));
        }
        i = i + 1;
    }
    proof {
        assert(r.deep_view() =~~= spec_row(fs, cv));
    }
    r
}

/// Decodes a raw buffer and renders its row in one step.
pub fn decode_and_render(schema: &RecordSchema, raw: &Vec<u8>) -> (r: Result<
    Vec<String>,
    DecodeError,
>)
    requires
        schema_wf(schema@),
    ensures
        match r {
            Ok(row) => spec_width(schema@) > 0 && row.deep_view() == spec_render(schema@, raw@),
            Err(_) => spec_width(schema@) == 0,
        },
{
    let chunks = match decode(schema, raw) {
        Ok(chunks) => chunks,
        Err(e) => {
            return Err(e);
        },
    };
    proof {
        lemma_decode_matches(schema@, raw@);
    }
    Ok(render_row(schema, &chunks))
}

/// Decoding then rendering is total on every well-formed schema of nonzero
/// width and every raw buffer, and the row holds exactly one cell per
/// non-padding field.
pub proof fn lemma_render_total(fs: Seq<FieldSpecV>, raw: Seq<u8>)
    ensures
        spec_render(fs, raw).len() == crate::schema::header_names(fs).len(),
{
    lemma_row_len(fs, spec_chunks(fs, raw), spec_family_byte(fs, spec_chunks(fs, raw)), 0);
}

/// Each suffix contributes one cell per non-padding field, matching the
/// header names.
proof fn lemma_row_len(fs: Seq<FieldSpecV>, chunks: Seq<Seq<u8>>, fam: u8, i: int)
    ensures
        row_from(fs, chunks, fam, i).len() == crate::schema::header_from(fs, i).len(),
    decreases fs.len() - i,
{
    if 0 <= i < fs.len() {
        lemma_row_len(fs, chunks, fam, i + 1);
    }
}

} // verus!
