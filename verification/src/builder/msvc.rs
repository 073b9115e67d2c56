//! The layout of records by the rules of the Microsoft compiler.

use crate::builder::common::{Member, Placement, Rules};
use crate::builder::tree::{laid_out, layout_type};
use crate::builder::{error, type_violations};
use crate::layout::{FieldLayout, RecordKind, Type, TypeLayout};
use crate::result::{Error, ErrorKind};
use crate::target::{pointer_width, pointer_width_of, Target};
use crate::util::{
    align_to, checked_round_up_to, lemma_multiple_of_smaller_power, lemma_round_up_to, max,
    max_u64, valid_alignment, BITS_PER_BYTE,
};
use vstd::prelude::*;

verus! {

/// The rules of the Microsoft compiler on each target. An alignment request
/// without a value asks for two pointers.
pub open spec fn rules_of(target: Target) -> Rules {
    Rules {
        default_alignment_bits: (2 * pointer_width_of(target)) as u64,
        placement: Placement::Msvc,
    }
}

/// The rules are well-formed.
pub proof fn lemma_rules_wf(target: Target)
    ensures
        rules_of(target).wf(),
{
    reveal_with_fuel(crate::util::is_power_of_two, 9);
    crate::target::lemma_pointer_width(target);
}

/// The rules of the Microsoft compiler on `target`.
pub fn rules(target: Target) -> (r: Rules)
    ensures
        r == rules_of(target),
{
    proof {
        crate::target::lemma_pointer_width(target);
    }
    Rules { default_alignment_bits: 2 * pointer_width(target), placement: Placement::Msvc }
}

/// The storage unit that bit-fields are being allocated in.
#[derive(Clone, Copy, Debug, PartialEq, Eq)]
pub struct OngoingBitField {
    /// The size in bits of the type that opened the unit.
    pub type_size_bits: u64,
    /// The number of bits at the end of the unit that no bit-field
    /// occupies.
    pub unused_bits: u64,
}

/// The layout of a record while its fields are being placed.
#[derive(Clone, Copy, Debug, PartialEq, Eq)]
pub struct RecordLayoutBuilder {
    pub kind: RecordKind,
    /// The size in bits of the storage that the fields so far take.
    pub size_bits: u64,
    /// The storage unit of the last field, if that was a bit-field with a
    /// width other than 0. It ends where the storage ends.
    pub ongoing: Option<OngoingBitField>,
    /// The alignment of the record in bits.
    pub alignment_bits: u64,
    /// The alignment in bits that packing cannot take from the record.
    pub required_alignment_bits: u64,
    /// Whether the record has fields.
    pub non_empty: bool,
}

/// The size in bits of the storage unit that a bit-field of the width
/// `width` opens if its type has the size `type_size`: that of the type,
/// or the width where that is larger.
pub open spec fn unit_size_of(type_size: u64, width: u64) -> u64 {
    max_u64(type_size, width)
}

impl RecordLayoutBuilder {
    /// The builder of a record without fields that asks for the alignment
    /// `request`.
    pub open spec fn start(kind: RecordKind, request: u64) -> Self {
        RecordLayoutBuilder {
            kind,
            size_bits: 0,
            ongoing: None,
            alignment_bits: request,
            required_alignment_bits: request,
            non_empty: false,
        }
    }

    /// The alignments are valid, the required one is not above the other,
    /// and the unused bits of the unit lie within the storage.
    pub open spec fn wf(self) -> bool {
        &&& self.ongoing matches Some(o) ==> o.unused_bits <= self.size_bits
        &&& valid_alignment(self.alignment_bits)
        &&& valid_alignment(self.required_alignment_bits)
        &&& self.required_alignment_bits <= self.alignment_bits
    }

    /// The offset in bits at which the fields so far end: the end of the
    /// storage, less the unused bits of the unit.
    pub open spec fn occupied_bits(self) -> u64 {
        match self.ongoing {
            Some(o) => (self.size_bits - o.unused_bits) as u64,
            None => self.size_bits,
        }
    }

    /// Whether the bit-field `m` of the width `width` goes into the current
    /// storage unit: there is one, its type has the size of the type of
    /// `m`, and its unused bits suffice.
    pub open spec fn shares(self, m: Member, width: u64) -> bool {
        &&& width != 0
        &&& self.ongoing matches Some(o)
        &&& o.type_size_bits == m.size_bits
        &&& width <= o.unused_bits
    }

    /// Adds to a struct the field `m`, which is no bit-field: at the first
    /// multiple of its alignment at or after the end of the storage.
    pub open spec fn step_ordinary(self, m: Member) -> Option<(FieldLayout, Self)> {
        match checked_round_up_to(self.size_bits, m.alignment_bits) {
            Some(offset) => if offset + m.size_bits <= u64::MAX {
                Some(
                    (
                        FieldLayout { offset_bits: offset, size_bits: m.size_bits },
                        RecordLayoutBuilder {
                            kind: self.kind,
                            size_bits: (offset + m.size_bits) as u64,
                            ongoing: None,
                            alignment_bits: max_u64(self.alignment_bits, m.alignment_bits),
                            required_alignment_bits: max_u64(
                                self.required_alignment_bits,
                                m.required_alignment_bits,
                            ),
                            non_empty: true,
                        },
                    ),
                )
            } else {
                None
            },
            None => None,
        }
    }

    /// Adds to a struct the bit-field `m` of the width `width`. A bit-field
    /// that shares the unit takes the first of its unused bits and leaves
    /// the alignment of the record as it is. A width of 0 closes the unit
    /// and moves the end of the storage to a multiple of the alignment.
    /// Any other bit-field opens a unit at the first multiple of its
    /// alignment at or after the end of the storage; the whole unit becomes
    /// storage. No bit-field raises the required alignment of the record.
    pub open spec fn step_bit_field(self, m: Member, width: u64) -> Option<(FieldLayout, Self)> {
        let required = self.required_alignment_bits;
        if self.shares(m, width) {
            let o = self.ongoing->Some_0;
            Some(
                (
                    FieldLayout {
                        offset_bits: (self.size_bits - o.unused_bits) as u64,
                        size_bits: width,
                    },
                    RecordLayoutBuilder {
                        kind: self.kind,
                        size_bits: self.size_bits,
                        ongoing: Some(
                            OngoingBitField {
                                type_size_bits: o.type_size_bits,
                                unused_bits: (o.unused_bits - width) as u64,
                            },
                        ),
                        alignment_bits: self.alignment_bits,
                        required_alignment_bits: required,
                        non_empty: true,
                    },
                ),
            )
        } else {
            let alignment = max_u64(self.alignment_bits, m.alignment_bits);
            match checked_round_up_to(self.size_bits, m.alignment_bits) {
                Some(offset) => if width == 0 {
                    Some(
                        (
                            FieldLayout { offset_bits: offset, size_bits: 0 },
                            RecordLayoutBuilder {
                                kind: self.kind,
                                size_bits: offset,
                                ongoing: None,
                                alignment_bits: alignment,
                                required_alignment_bits: required,
                                non_empty: true,
                            },
                        ),
                    )
                } else if offset + unit_size_of(m.size_bits, width) <= u64::MAX {
                    Some(
                        (
                            FieldLayout { offset_bits: offset, size_bits: width },
                            RecordLayoutBuilder {
                                kind: self.kind,
                                size_bits: (offset + unit_size_of(m.size_bits, width)) as u64,
                                ongoing: Some(
                                    OngoingBitField {
                                        type_size_bits: m.size_bits,
                                        unused_bits: (unit_size_of(m.size_bits, width)
                                            - width) as u64,
                                    },
                                ),
                                alignment_bits: alignment,
                                required_alignment_bits: required,
                                non_empty: true,
                            },
                        ),
                    )
                } else {
                    None
                },
                None => None,
            }
        }
    }

    /// The size in bits of the storage that the field `m` takes in a
    /// union: the size of its type, for a bit-field the size of its unit,
    /// and nothing for a width of 0.
    pub open spec fn union_storage_of(m: Member) -> u64 {
        match m.bit_width {
            None => m.size_bits,
            Some(width) => if width == 0 {
                0
            } else {
                unit_size_of(m.size_bits, width)
            },
        }
    }

    /// Adds to a union the field `m`: at 0. No bit-field raises the
    /// required alignment of the record.
    pub open spec fn step_union(self, m: Member) -> (FieldLayout, Self) {
        (
            FieldLayout { offset_bits: 0, size_bits: m.field_size_bits() },
            RecordLayoutBuilder {
                kind: self.kind,
                size_bits: max_u64(self.size_bits, Self::union_storage_of(m)),
                ongoing: None,
                alignment_bits: max_u64(self.alignment_bits, m.alignment_bits),
                required_alignment_bits: if m.bit_width is None {
                    max_u64(self.required_alignment_bits, m.required_alignment_bits)
                } else {
                    self.required_alignment_bits
                },
                non_empty: true,
            },
        )
    }

    /// Adds the field `m` to the record: gives the layout of the field and
    /// the builder after it, or `None` if the field does not end within 64
    /// bits.
    pub open spec fn step(self, m: Member) -> Option<(FieldLayout, Self)> {
        match self.kind {
            RecordKind::Struct => match m.bit_width {
                None => self.step_ordinary(m),
                Some(width) => self.step_bit_field(m, width),
            },
            RecordKind::Union => Some(self.step_union(m)),
        }
    }

    /// The size in bits that the fields of the record ask for: that of the
    /// storage, but a byte at least if there are fields.
    pub open spec fn content_bits(self) -> u64 {
        if self.non_empty && self.size_bits < BITS_PER_BYTE {
            BITS_PER_BYTE
        } else {
            self.size_bits
        }
    }

    /// The layout of the record: its size is that of its storage, but a
    /// byte at least if it has fields, rounded up to its alignment. `None`
    /// if that does not fit in 64 bits.
    pub open spec fn finish(self) -> Option<TypeLayout> {
        match checked_round_up_to(self.content_bits(), self.alignment_bits) {
            Some(size) => Some(
                TypeLayout {
                    size_bits: size,
                    field_alignment_bits: self.alignment_bits,
                    required_alignment_bits: self.required_alignment_bits,
                },
            ),
            None => None,
        }
    }

    /// The builder of a record without fields that asks for the alignment
    /// `request`.
    pub fn new(kind: RecordKind, request: u64) -> (r: Self)
        ensures
            r == Self::start(kind, request),
    {
        RecordLayoutBuilder {
            kind,
            size_bits: 0,
            ongoing: None,
            alignment_bits: request,
            required_alignment_bits: request,
            non_empty: false,
        }
    }

    /// Adds the field `m` to the record and returns the layout of the
    /// field.
    pub fn layout_field(&mut self, m: &Member) -> (r: Option<FieldLayout>)
        requires
            old(self).wf(),
            m.wf(),
        ensures
            match old(self).step(*m) {
                Some((layout, next)) => r == Some(layout) && *final(self) == next,
                None => r is None && *final(self) == *old(self),
            },
    {
        match self.kind {
            RecordKind::Struct => match m.bit_width {
                None => self.layout_regular_field(m),
                Some(width) => self.layout_bit_field(m, width),
            },
            RecordKind::Union => {
                let storage = match m.bit_width {
                    None => m.size_bits,
                    Some(width) => if width == 0 {
                        0
                    } else {
                        max(m.size_bits, width)
                    },
                };
                self.size_bits = max(self.size_bits, storage);
                self.ongoing = None;
                self.alignment_bits = max(self.alignment_bits, m.alignment_bits);
                if m.bit_width.is_none() {
                    self.required_alignment_bits = max(
                        self.required_alignment_bits,
                        m.required_alignment_bits,
                    );
                }
                self.non_empty = true;
                Some(FieldLayout { offset_bits: 0, size_bits: m.size() })
            },
        }
    }

    /// Adds to a struct the field `m`, which is no bit-field.
    fn layout_regular_field(&mut self, m: &Member) -> (r: Option<FieldLayout>)
        requires
            old(self).wf(),
            m.wf(),
        ensures
            match old(self).step_ordinary(*m) {
                Some((layout, next)) => r == Some(layout) && *final(self) == next,
                None => r is None && *final(self) == *old(self),
            },
    {
        let offset = match align_to(self.size_bits, m.alignment_bits) {
            Some(offset) => offset,
            None => {
                return None;
            },
        };
        let end = match offset.checked_add(m.size_bits) {
            Some(end) => end,
            None => {
                return None;
            },
        };
        self.size_bits = end;
        self.ongoing = None;
        self.alignment_bits = max(self.alignment_bits, m.alignment_bits);
        self.required_alignment_bits = max(self.required_alignment_bits, m.required_alignment_bits);
        self.non_empty = true;
        Some(FieldLayout { offset_bits: offset, size_bits: m.size_bits })
    }

    /// Adds to a struct the bit-field `m` of the width `width`.
    fn layout_bit_field(&mut self, m: &Member, width: u64) -> (r: Option<FieldLayout>)
        requires
            old(self).wf(),
            m.wf(),
        ensures
            match old(self).step_bit_field(*m, width) {
                Some((layout, next)) => r == Some(layout) && *final(self) == next,
                None => r is None && *final(self) == *old(self),
            },
    {
        if width != 0 {
            if let Some(o) = self.ongoing {
                if o.type_size_bits == m.size_bits && width <= o.unused_bits {
                    let offset = self.size_bits - o.unused_bits;
                    self.ongoing = Some(
                        OngoingBitField {
                            type_size_bits: o.type_size_bits,
                            unused_bits: o.unused_bits - width,
                        },
                    );
                    self.non_empty = true;
                    return Some(FieldLayout { offset_bits: offset, size_bits: width });
                }
            }
        }
        let offset = match align_to(self.size_bits, m.alignment_bits) {
            Some(offset) => offset,
            None => {
                return None;
            },
        };
        if width == 0 {
            self.size_bits = offset;
            self.ongoing = None;
        } else {
            let unit = max(m.size_bits, width);
            let end = match offset.checked_add(unit) {
                Some(end) => end,
                None => {
                    return None;
                },
            };
            self.size_bits = end;
            self.ongoing = Some(
                OngoingBitField { type_size_bits: m.size_bits, unused_bits: unit - width },
            );
        }
        self.alignment_bits = max(self.alignment_bits, m.alignment_bits);
        self.non_empty = true;
        Some(FieldLayout { offset_bits: offset, size_bits: width })
    }

    /// The layout of the record.
    pub fn finish_layout(&self) -> (r: Option<TypeLayout>)
        requires
            self.wf(),
        ensures
            r == self.finish(),
    {
        let content = if self.non_empty && self.size_bits < BITS_PER_BYTE {
            BITS_PER_BYTE
        } else {
            self.size_bits
        };
        match align_to(content, self.alignment_bits) {
            Some(size) => Some(
                TypeLayout {
                    size_bits: size,
                    field_alignment_bits: self.alignment_bits,
                    required_alignment_bits: self.required_alignment_bits,
                },
            ),
            None => None,
        }
    }
}

/// Adding a well-formed field keeps the builder well-formed and its kind,
/// and lowers neither its alignment nor the size of its storage.
pub proof fn lemma_step_wf(b: RecordLayoutBuilder, m: Member)
    requires
        b.wf(),
        m.wf(),
    ensures
        b.step(m) matches Some((layout, next)) ==> {
            &&& next.wf()
            &&& next.non_empty
            &&& next.kind == b.kind
            &&& next.alignment_bits >= b.alignment_bits
            &&& next.size_bits >= b.size_bits
            &&& layout.size_bits == m.field_size_bits()
        },
{
    lemma_round_up_to(b.size_bits as int, m.alignment_bits as int);
}

/// In a struct, a field is placed at or after the end of the fields before
/// it, and the fields then end where it ends, within the storage. A field
/// that is no bit-field is placed at a multiple of its alignment, and the
/// storage ends where it ends.
pub proof fn lemma_step_struct(b: RecordLayoutBuilder, m: Member)
    requires
        b.wf(),
        m.wf(),
        b.kind == RecordKind::Struct,
    ensures
        b.step(m) matches Some((layout, next)) ==> {
            &&& layout.offset_bits >= b.occupied_bits()
            &&& next.occupied_bits() == layout.offset_bits + layout.size_bits
            &&& next.occupied_bits() <= next.size_bits
            &&& m.bit_width is None ==> {
                &&& layout.offset_bits >= b.size_bits
                &&& layout.offset_bits % m.alignment_bits == 0
                &&& next.size_bits == layout.offset_bits + layout.size_bits
            }
        },
{
    lemma_round_up_to(b.size_bits as int, m.alignment_bits as int);
}

/// In a union, every field is placed at 0; the storage is not smaller than
/// the field, and the alignment of the record is not below that of the
/// field.
pub proof fn lemma_step_union(b: RecordLayoutBuilder, m: Member)
    requires
        b.kind == RecordKind::Union,
    ensures
        b.step(m) matches Some((layout, next)) && layout.offset_bits == 0 && next.size_bits
            >= m.field_size_bits() && next.size_bits >= b.size_bits && next.alignment_bits
            >= m.alignment_bits && next.occupied_bits() == next.size_bits,
{
}

/// The layout of a record is a whole number of bytes in size and a multiple
/// of its alignment, with valid alignments; the size is not below that of
/// the storage, and not below a byte if the record has fields.
pub proof fn lemma_finish_valid(b: RecordLayoutBuilder)
    requires
        b.wf(),
    ensures
        b.finish() matches Some(layout) ==> {
            &&& layout.size_bits % BITS_PER_BYTE == 0
            &&& layout.size_bits % layout.field_alignment_bits == 0
            &&& layout.size_bits >= b.size_bits
            &&& b.non_empty ==> layout.size_bits >= BITS_PER_BYTE
            &&& layout.field_alignment_bits == b.alignment_bits
            &&& layout.required_alignment_bits == b.required_alignment_bits
            &&& valid_alignment(layout.field_alignment_bits)
            &&& valid_alignment(layout.required_alignment_bits)
            &&& layout.required_alignment_bits <= layout.field_alignment_bits
        },
{
    reveal_with_fuel(crate::util::is_power_of_two, 4);
    lemma_round_up_to(b.content_bits() as int, b.alignment_bits as int);
    if let Some(layout) = b.finish() {
        lemma_multiple_of_smaller_power(layout.size_bits as int, 8, b.alignment_bits as int);
    }
}

/// Lays out the type `ty` and all types below it by the rules of the
/// Microsoft compiler on `target`. Fails with `SizeOverflow` if a size or
/// an offset does not fit in 64 bits.
pub fn compute_layout(target: Target, ty: &Type<(), ()>) -> (r: Result<
    Type<TypeLayout, FieldLayout>,
    Error,
>)
    requires
        type_violations(ty@).len() == 0,
    ensures
        match laid_out(rules_of(target), target, ty@) {
            Some(t) => r matches Ok(out) && out@ == t,
            None => r matches Err(e) && e == error(ErrorKind::SizeOverflow),
        },
{
    proof {
        lemma_rules_wf(target);
    }
    let rules = rules(target);
    layout_type(target, &rules, ty)
}

} // verus!
