//! Declarative record schemas: an ordered list of named fields, each with a
//! fixed byte width and a formatter. Padding fields consume bytes but appear
//! neither in the header nor in rendered rows.
use crate::flags::FlagGroup;
use vstd::prelude::*;

verus! {

/// The semantic formatter of a field: how its raw bytes become a display
/// string.
#[derive(Clone, Copy)]
pub enum Formatter {
    /// A native (little-endian) unsigned integer, rendered in decimal.
    UintLe,
    /// A two-byte port in network order, rendered in decimal.
    PortBe,
    /// A six-byte hardware address.
    MacAddr,
    /// A four-byte address in dotted-quad form.
    V4Addr,
    /// A sixteen-byte address in canonical form.
    V6Addr,
    /// Sixteen bytes of address storage read under the record's family tag.
    FamilyAddr,
    /// A one-byte address-family tag.
    Family,
    /// A one-byte truth value.
    Boolean,
    /// A one-byte transport-protocol number.
    Proto,
    /// A one-byte drop/forward reason code.
    Reason,
    /// A one-byte traffic-direction code.
    Direction,
    /// A bit-flag set rendered against its group's definition table.
    Flags(FlagGroup),
}

/// The ghost form of a field: its name as characters, width, formatter and
/// padding mark.
pub ghost struct FieldSpecV {
    pub name: Seq<char>,
    pub width: nat,
    pub fmt: Formatter,
    pub padding: bool,
}

/// One field of a record: name, byte width, formatter, and whether the field
/// is padding (consumes bytes, appears nowhere in the output).
pub struct FieldSpec {
    pub name: &'static str,
    pub width: usize,
    pub fmt: Formatter,
    pub padding: bool,
}

impl View for FieldSpec {
    type V = FieldSpecV;

    open spec fn view(&self) -> FieldSpecV {
        FieldSpecV { name: self.name@, width: self.width as nat, fmt: self.fmt, padding: self.padding }
    }
}

/// Whether a field's width suits its formatter, so that rendering is total.
pub open spec fn field_wf(f: FieldSpecV) -> bool {
    match f.fmt {
        Formatter::UintLe => 1 <= f.width <= 8,
        Formatter::PortBe => f.width == 2,
        Formatter::MacAddr => f.width == 6,
        Formatter::V4Addr => f.width == 4,
        Formatter::V6Addr => f.width == 16,
        Formatter::FamilyAddr => f.width == 16,
        Formatter::Family => f.width == 1,
        Formatter::Boolean => f.width == 1,
        Formatter::Proto => f.width == 1,
        Formatter::Reason => f.width == 1,
        Formatter::Direction => f.width == 1,
        Formatter::Flags(_) => 1 <= f.width <= 8,
    }
}

/// The total declared byte width of the fields at `i..`.
pub open spec fn width_from(fs: Seq<FieldSpecV>, i: int) -> nat
    decreases fs.len() - i,
{
    if i < 0 || i >= fs.len() {
        0
    } else {
        fs[i].width + width_from(fs, i + 1)
    }
}

/// The total declared byte width of a schema.
pub open spec fn spec_width(fs: Seq<FieldSpecV>) -> nat {
    width_from(fs, 0)
}

/// A well-formed schema: every field suits its formatter and the total width
/// is representable.
pub open spec fn schema_wf(fs: Seq<FieldSpecV>) -> bool {
    (forall|i: int| 0 <= i < fs.len() ==> field_wf(#[trigger] fs[i])) && spec_width(fs)
        <= usize::MAX
}

/// The names of the non-padding fields at `i..`, in declaration order.
pub open spec fn header_from(fs: Seq<FieldSpecV>, i: int) -> Seq<Seq<char>>
    decreases fs.len() - i,
{
    if i < 0 || i >= fs.len() {
        Seq::<Seq<char>>::empty()
    } else if fs[i].padding {
        header_from(fs, i + 1)
    } else {
        seq![fs[i].name] + header_from(fs, i + 1)
    }
}

/// The header names of a schema: its non-padding field names in order.
pub open spec fn header_names(fs: Seq<FieldSpecV>) -> Seq<Seq<char>> {
    header_from(fs, 0)
}

/// An ordered list of fields describing one record type.
pub struct RecordSchema {
    pub fields: Vec<FieldSpec>,
}

impl View for RecordSchema {
    type V = Seq<FieldSpecV>;

    open spec fn view(&self) -> Seq<FieldSpecV> {
        Seq::new(self.fields@.len(), |i: int| self.fields@[i]@)
    }
}

impl RecordSchema {
    /// Wraps an ordered field list.
    pub fn new(fields: Vec<FieldSpec>) -> (r: Self)
        ensures
            r.fields@ == fields@,
            r@.len() == fields@.len(),
            forall|i: int| 0 <= i < fields@.len() ==> r@[i] == #[trigger] fields@[i]@,
    {
        RecordSchema { fields }
    }

    /// The total declared byte width of the record.
    pub fn width(&self) -> (r: usize)
        requires
            spec_width(self@) <= usize::MAX,
        ensures
            r == spec_width(self@),
    {
        let mut total: usize = 0;
        let mut i: usize = 0;
        while i < self.fields.len()
            invariant
                i <= self.fields@.len(),
                spec_width(self@) <= usize::MAX,
                total + width_from(self@, i as int) == spec_width(self@),
            decreases self.fields@.len() - i,
        {
            total = total + self.fields[i].width;
            i = i + 1;
        }
        total
    }

    /// The header of the record: its non-padding field names in order.
    pub fn header(&self) -> (r: Vec<&'static str>)
        ensures
            r.deep_view() == header_names(self@),
    {
        let mut r: Vec<&'static str> = Vec::new();
        let mut i: usize = 0;
        while i < self.fields.len()
            invariant
                i <= self.fields@.len(),
                header_names(self@) == r.deep_view() + header_from(self@, i as int),
            decreases self.fields@.len() - i,
        {
            if !self.fields[i].padding {
                r.push(self.fields[i].name);
            }
            proof {
                assert(header_names(self@) =~= r.deep_view() + header_from(self@, i + 1));
            }
            i = i + 1;
        }
        proof {
            assert(r.deep_view() =~= header_names(self@));
        }
        r
    }
}

/// No formatter asks for more than sixteen bytes, so a schema of
/// well-formed fields is at most sixteen bytes per field wide.
pub proof fn lemma_wf_width_bound(fs: Seq<FieldSpecV>)
    requires
        forall|i: int| 0 <= i < fs.len() ==> field_wf(#[trigger] fs[i]),
    ensures
        spec_width(fs) <= 16 * fs.len(),
{
    lemma_wf_width_bound_from(fs, 0);
}

/// The suffix form of the width bound.
proof fn lemma_wf_width_bound_from(fs: Seq<FieldSpecV>, i: int)
    requires
        forall|j: int| 0 <= j < fs.len() ==> field_wf(#[trigger] fs[j]),
        0 <= i <= fs.len(),
    ensures
        width_from(fs, i) <= 16 * (fs.len() - i),
    decreases fs.len() - i,
{
    if i < fs.len() {
        lemma_wf_width_bound_from(fs, i + 1);
    }
}

} // verus!
