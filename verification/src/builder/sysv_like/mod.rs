//! The layout of records by the rules of the System V ABIs, which GCC on
//! Windows follows but for its storage units.

use crate::builder::common::{BitFieldState, Member};
use crate::layout::{FieldLayout, RecordKind, TypeLayout};
use crate::util::{
    align_to, checked_round_up_to, lemma_multiple_of_smaller_power, lemma_round_up_to, max,
    max_u64, valid_alignment, BITS_PER_BYTE,
};
use vstd::prelude::*;

pub mod mingw;
pub mod sysv;

verus! {

/// The layout of a record while its fields are being placed.
#[derive(Clone, Copy, Debug, PartialEq, Eq)]
pub struct RecordLayoutBuilder {
    pub kind: RecordKind,
    /// Whether a bit-field shares a storage unit only with bit-fields whose
    /// types have the size and the alignment of its own.
    pub strict_units: bool,
    /// In a struct, the state of the allocation. In a union, the size in
    /// bits of the largest field so far, with no unit.
    pub bits: BitFieldState,
    /// The alignment of the record in bits.
    pub alignment_bits: u64,
    /// The alignment in bits that packing cannot take from the record.
    pub required_alignment_bits: u64,
    /// Whether the record has fields.
    pub non_empty: bool,
}

impl RecordLayoutBuilder {
    /// The builder of a record without fields that asks for the alignment
    /// `request`.
    pub open spec fn start(kind: RecordKind, strict_units: bool, request: u64) -> Self {
        RecordLayoutBuilder {
            kind,
            strict_units,
            bits: BitFieldState::start(),
            alignment_bits: request,
            required_alignment_bits: request,
            non_empty: false,
        }
    }

    /// The alignments are valid, the required one is not above the other,
    /// and the state of the allocation is well-formed.
    pub open spec fn wf(self) -> bool {
        &&& self.bits.wf()
        &&& valid_alignment(self.alignment_bits)
        &&& valid_alignment(self.required_alignment_bits)
        &&& self.required_alignment_bits <= self.alignment_bits
    }

    /// Where the field `m` goes, and the allocation after it. In a union
    /// every field starts at 0.
    pub open spec fn place(self, m: Member) -> Option<(u64, BitFieldState)> {
        match self.kind {
            RecordKind::Struct => match m.bit_width {
                None => self.bits.place_ordinary(m.size_bits, m.alignment_bits),
                Some(width) => self.bits.place_bit_field(
                    self.strict_units,
                    m.size_bits,
                    m.type_alignment_bits,
                    m.alignment_bits,
                    width,
                ),
            },
            RecordKind::Union => Some(
                (
                    0,
                    BitFieldState {
                        offset_bits: max_u64(self.bits.offset_bits, m.field_size_bits()),
                        unit: None,
                    },
                ),
            ),
        }
    }

    /// Adds the field `m` to the record: gives the layout of the field and
    /// the builder after it, or `None` if the field does not end within 64
    /// bits. The alignments of the record rise to those of the field.
    pub open spec fn step(self, m: Member) -> Option<(FieldLayout, Self)> {
        match self.place(m) {
            Some((offset, bits)) => Some(
                (
                    FieldLayout { offset_bits: offset, size_bits: m.field_size_bits() },
                    RecordLayoutBuilder {
                        kind: self.kind,
                        strict_units: self.strict_units,
                        bits,
                        alignment_bits: max_u64(self.alignment_bits, m.alignment_bits),
                        required_alignment_bits: max_u64(
                            self.required_alignment_bits,
                            m.required_alignment_bits,
                        ),
                        non_empty: true,
                    },
                ),
            ),
            None => None,
        }
    }

    /// The size in bits that the fields of the record ask for: the end of
    /// the fields, but a byte at least if there are fields.
    pub open spec fn content_bits(self) -> u64 {
        if self.non_empty && self.bits.offset_bits < BITS_PER_BYTE {
            BITS_PER_BYTE
        } else {
            self.bits.offset_bits
        }
    }

    /// The layout of the record: its size is the end of its fields, but a
    /// byte at least if it has fields, rounded up to its alignment. `None`
    /// if that does not fit in 64 bits.
    pub open spec fn finish(self) -> Option<TypeLayout> {
        match checked_round_up_to(self.content_bits(), self.alignment_bits) {
            Some(size) => Some(
                TypeLayout {
                    size_bits: size,
                    field_alignment_bits: self.alignment_bits,
                    required_alignment_bits: self.required_alignment_bits,
                },
            ),
            None => None,
        }
    }

    /// The builder of a record without fields that asks for the alignment
    /// `request`.
    pub fn new(kind: RecordKind, strict_units: bool, request: u64) -> (r: Self)
        ensures
            r == Self::start(kind, strict_units, request),
    {
        RecordLayoutBuilder {
            kind,
            strict_units,
            bits: BitFieldState::new(),
            alignment_bits: request,
            required_alignment_bits: request,
            non_empty: false,
        }
    }

    /// Adds the field `m` to the record and returns the layout of the
    /// field.
    pub fn layout_field(&mut self, m: &Member) -> (r: Option<FieldLayout>)
        requires
            old(self).wf(),
            m.wf(),
        ensures
            match old(self).step(*m) {
                Some((layout, next)) => r == Some(layout) && *final(self) == next,
                None => r is None && *final(self) == *old(self),
            },
    {
        let offset = match self.kind {
            RecordKind::Struct => {
                let placed = match m.bit_width {
                    None => self.bits.ordinary(m.size_bits, m.alignment_bits),
                    Some(width) => self.bits.bit_field(
                        self.strict_units,
                        m.size_bits,
                        m.type_alignment_bits,
                        m.alignment_bits,
                        width,
                    ),
                };
                match placed {
                    Some(offset) => offset,
                    None => {
                        return None;
                    },
                }
            },
            RecordKind::Union => {
                self.bits.offset_bits = max(self.bits.offset_bits, m.size());
                self.bits.unit = None;
                0
            },
        };
        self.alignment_bits = max(self.alignment_bits, m.alignment_bits);
        self.required_alignment_bits = max(self.required_alignment_bits, m.required_alignment_bits);
        self.non_empty = true;
        Some(FieldLayout { offset_bits: offset, size_bits: m.size() })
    }

    /// The layout of the record.
    pub fn finish_layout(&self) -> (r: Option<TypeLayout>)
        requires
            self.wf(),
        ensures
            r == self.finish(),
    {
        let content = if self.non_empty && self.bits.offset_bits < BITS_PER_BYTE {
            BITS_PER_BYTE
        } else {
            self.bits.offset_bits
        };
        match align_to(content, self.alignment_bits) {
            Some(size) => Some(
                TypeLayout {
                    size_bits: size,
                    field_alignment_bits: self.alignment_bits,
                    required_alignment_bits: self.required_alignment_bits,
                },
            ),
            None => None,
        }
    }
}

/// Adding a well-formed field keeps the builder well-formed and its kind,
/// and does not lower its alignments.
pub proof fn lemma_step_wf(b: RecordLayoutBuilder, m: Member)
    requires
        b.wf(),
        m.wf(),
    ensures
        b.step(m) matches Some((layout, next)) ==> {
            &&& next.wf()
            &&& next.non_empty
            &&& next.kind == b.kind
            &&& next.strict_units == b.strict_units
            &&& next.alignment_bits >= b.alignment_bits
            &&& next.alignment_bits >= m.alignment_bits
            &&& next.bits.offset_bits >= b.bits.offset_bits
            &&& layout.size_bits == m.field_size_bits()
        },
{
    crate::builder::common::lemma_place_ordinary(b.bits, m.size_bits, m.alignment_bits);
    if let Some(width) = m.bit_width {
        crate::builder::common::lemma_place_bit_field(
            b.bits,
            b.strict_units,
            m.size_bits,
            m.type_alignment_bits,
            m.alignment_bits,
            width,
        );
    }
}

/// In a struct, a field is placed at or after the end of the fields before
/// it, and the end of the fields moves to its end. A field that is no
/// bit-field is placed at a multiple of its alignment.
pub proof fn lemma_step_struct(b: RecordLayoutBuilder, m: Member)
    requires
        b.wf(),
        m.wf(),
        b.kind == RecordKind::Struct,
    ensures
        b.step(m) matches Some((layout, next)) ==> {
            &&& layout.offset_bits >= b.bits.offset_bits
            &&& next.bits.offset_bits == layout.offset_bits + layout.size_bits
            &&& m.bit_width is None ==> layout.offset_bits % m.alignment_bits == 0
        },
{
    crate::builder::common::lemma_place_ordinary(b.bits, m.size_bits, m.alignment_bits);
    if let Some(width) = m.bit_width {
        crate::builder::common::lemma_place_bit_field(
            b.bits,
            b.strict_units,
            m.size_bits,
            m.type_alignment_bits,
            m.alignment_bits,
            width,
        );
    }
}

/// In a union, every field is placed at 0, and the size so far is not
/// below the size of the field.
pub proof fn lemma_step_union(b: RecordLayoutBuilder, m: Member)
    requires
        b.kind == RecordKind::Union,
    ensures
        b.step(m) matches Some((layout, next)) && layout.offset_bits == 0
            && next.bits.offset_bits >= m.field_size_bits() && next.bits.offset_bits
            >= b.bits.offset_bits,
{
}

/// The layout of a record is a whole number of bytes in size and a multiple
/// of its alignment, with valid alignments; the size is not below the end
/// of the fields, and not below a byte if the record has fields.
pub proof fn lemma_finish_valid(b: RecordLayoutBuilder)
    requires
        b.wf(),
    ensures
        b.finish() matches Some(layout) ==> {
            &&& layout.size_bits % BITS_PER_BYTE == 0
            &&& layout.size_bits % layout.field_alignment_bits == 0
            &&& layout.size_bits >= b.bits.offset_bits
            &&& b.non_empty ==> layout.size_bits >= BITS_PER_BYTE
            &&& layout.field_alignment_bits == b.alignment_bits
            &&& layout.required_alignment_bits == b.required_alignment_bits
            &&& valid_alignment(layout.field_alignment_bits)
            &&& valid_alignment(layout.required_alignment_bits)
            &&& layout.required_alignment_bits <= layout.field_alignment_bits
        },
{
    reveal_with_fuel(crate::util::is_power_of_two, 4);
    lemma_round_up_to(b.content_bits() as int, b.alignment_bits as int);
    if let Some(layout) = b.finish() {
        lemma_multiple_of_smaller_power(layout.size_bits as int, 8, b.alignment_bits as int);
    }
}

} // verus!
