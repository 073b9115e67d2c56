//! What the layout rules of all targets share: the meaning of the
//! annotations, the alignment of a field, and the allocation of bit-fields
//! to storage units.

use crate::layout::{Annotation, TypeLayout};
use crate::util::{
    align_to, checked_round_up_to, is_power_of_two_u64, lemma_round_up_to, max, max_u64, min,
    min_u64, valid_alignment, BITS_PER_BYTE,
};
use vstd::prelude::*;

verus! {

/// How the fields of a record are placed.
#[derive(Clone, Copy, Debug, PartialEq, Eq)]
pub enum Placement {
    /// The rules of the System V ABIs. With `strict_units`, a bit-field
    /// shares the storage unit of the bit-field before it only if its type
    /// has the size and the alignment of the unit.
    SysvLike { strict_units: bool },
    /// The rules of the Microsoft compiler.
    Msvc,
}

/// The layout rules of a target.
#[derive(Clone, Copy, Debug, PartialEq, Eq)]
pub struct Rules {
    /// The alignment in bits that an alignment request without a value asks
    /// for.
    pub default_alignment_bits: u64,
    pub placement: Placement,
}

impl Rules {
    /// The default alignment is a valid alignment.
    pub open spec fn wf(self) -> bool {
        valid_alignment(self.default_alignment_bits)
    }
}

/// The limit in bits that the `PragmaPack` annotations in `a` put on the
/// alignment of fields: the smallest value among them that is a valid
/// alignment.
pub open spec fn pack_limit_of(a: Seq<Annotation>) -> Option<u64>
    decreases a.len(),
{
    if a.len() == 0 {
        None
    } else {
        let rest = pack_limit_of(a.drop_last());
        match a.last() {
            Annotation::PragmaPack(n) => if valid_alignment(n) {
                match rest {
                    Some(m) => Some(min_u64(m, n)),
                    None => Some(n),
                }
            } else {
                rest
            },
            _ => rest,
        }
    }
}

/// Whether the annotations `a` hold `AttrPacked`.
pub open spec fn is_packed_of(a: Seq<Annotation>) -> bool {
    a.contains(Annotation::AttrPacked)
}

/// The alignment in bits that the `Aligned` annotations in `a` ask for: the
/// largest of a byte, of `default` for each request without a value, and of
/// each value that is a valid alignment.
pub open spec fn alignment_request_of(a: Seq<Annotation>, default: u64) -> u64
    decreases a.len(),
{
    if a.len() == 0 {
        BITS_PER_BYTE
    } else {
        let rest = alignment_request_of(a.drop_last(), default);
        match a.last() {
            Annotation::Aligned(None) => max_u64(rest, default),
            Annotation::Aligned(Some(n)) => if valid_alignment(n) {
                max_u64(rest, n)
            } else {
                rest
            },
            _ => rest,
        }
    }
}

/// The alignment in bits of a field in its record. It is the alignment
/// `natural` of its type, brought down to the pack limit `pack` if there is
/// one, brought down to a byte if the field is packed, and then raised to
/// the alignment `required` that packing cannot take from the field.
pub open spec fn effective_alignment(natural: u64, pack: Option<u64>, packed: bool, required: u64)
    -> u64 {
    let capped = match pack {
        Some(limit) => min_u64(natural, limit),
        None => natural,
    };
    let reduced = if packed {
        BITS_PER_BYTE
    } else {
        capped
    };
    max_u64(reduced, required)
}

/// What the annotations of a record fix for all of its fields.
#[derive(Clone, Copy, Debug, PartialEq, Eq)]
pub struct Scope {
    /// The limit in bits on the alignment of the fields, if there is one.
    pub pack_limit_bits: Option<u64>,
    /// Whether the record is packed.
    pub packed: bool,
    /// The alignment in bits that the record asks for.
    pub alignment_request_bits: u64,
}

/// The scope that the annotations `a` of a record open.
pub open spec fn scope_of(a: Seq<Annotation>, default: u64) -> Scope {
    Scope {
        pack_limit_bits: pack_limit_of(a),
        packed: is_packed_of(a),
        alignment_request_bits: alignment_request_of(a, default),
    }
}

/// What the placement of a field depends on.
#[derive(Clone, Copy, Debug, PartialEq, Eq)]
pub struct Member {
    /// The size in bits of the type of the field.
    pub size_bits: u64,
    /// The alignment in bits of the type of the field.
    pub type_alignment_bits: u64,
    /// The alignment in bits of the field in its record.
    pub alignment_bits: u64,
    /// The alignment in bits that packing cannot take from the field.
    pub required_alignment_bits: u64,
    /// The width in bits, if the field is a bit-field.
    pub bit_width: Option<u64>,
}

impl Member {
    /// The size of the field in bits: the width of a bit-field, the size of
    /// the type otherwise.
    pub open spec fn field_size_bits(self) -> u64 {
        match self.bit_width {
            Some(w) => w,
            None => self.size_bits,
        }
    }

    /// The alignments are valid, and the alignment of the field is not
    /// below the required one.
    pub open spec fn wf(self) -> bool {
        &&& valid_alignment(self.type_alignment_bits)
        &&& valid_alignment(self.alignment_bits)
        &&& valid_alignment(self.required_alignment_bits)
        &&& self.required_alignment_bits <= self.alignment_bits
    }

    /// The size of the field in bits.
    pub fn size(&self) -> (r: u64)
        ensures
            r == self.field_size_bits(),
    {
        match self.bit_width {
            Some(w) => w,
            None => self.size_bits,
        }
    }
}

/// The member that a field with the annotations `a` and the width
/// `bit_width` is, in the scope `scope`, if its type has the layout
/// `layout`.
pub open spec fn member_of(
    scope: Scope,
    a: Seq<Annotation>,
    bit_width: Option<u64>,
    layout: TypeLayout,
    default: u64,
) -> Member {
    let required = max_u64(layout.required_alignment_bits, alignment_request_of(a, default));
    Member {
        size_bits: layout.size_bits,
        type_alignment_bits: layout.field_alignment_bits,
        alignment_bits: effective_alignment(
            layout.field_alignment_bits,
            scope.pack_limit_bits,
            scope.packed || is_packed_of(a),
            required,
        ),
        required_alignment_bits: required,
        bit_width,
    }
}

/// A pack limit, where there is one, is a valid alignment.
pub proof fn lemma_pack_limit_valid(a: Seq<Annotation>)
    ensures
        pack_limit_of(a) matches Some(n) ==> valid_alignment(n),
    decreases a.len(),
{
    if a.len() != 0 {
        lemma_pack_limit_valid(a.drop_last());
    }
}

/// The alignment that annotations ask for is a valid alignment.
pub proof fn lemma_alignment_request_valid(a: Seq<Annotation>, default: u64)
    requires
        valid_alignment(default),
    ensures
        valid_alignment(alignment_request_of(a, default)),
    decreases a.len(),
{
    reveal_with_fuel(crate::util::is_power_of_two, 4);
    if a.len() != 0 {
        lemma_alignment_request_valid(a.drop_last(), default);
    }
}

/// The alignment of a field is a valid alignment that is not below the
/// required one.
pub proof fn lemma_effective_alignment_valid(
    natural: u64,
    pack: Option<u64>,
    packed: bool,
    required: u64,
)
    requires
        valid_alignment(natural),
        valid_alignment(required),
        pack matches Some(n) ==> valid_alignment(n),
    ensures
        valid_alignment(effective_alignment(natural, pack, packed, required)),
        required <= effective_alignment(natural, pack, packed, required),
{
    reveal_with_fuel(crate::util::is_power_of_two, 4);
}

/// A pack limit never raises the alignment of a field. With the limit
/// the alignment is not above what it is without. It is above the limit
/// only where the required alignment is, or where the limit is less than
/// the byte that a packed field keeps: so with a limit of a byte or more
/// that the required alignment is within, the alignment is within the
/// limit.
pub proof fn lemma_pack_limit_reduces(natural: u64, limit: u64, packed: bool, required: u64)
    ensures
        effective_alignment(natural, Some(limit), packed, required) <= effective_alignment(
            natural,
            None,
            packed,
            required,
        ),
        effective_alignment(natural, Some(limit), packed, required) <= max_u64(
            max_u64(limit, required),
            BITS_PER_BYTE,
        ),
        required <= limit && BITS_PER_BYTE <= limit ==> effective_alignment(
            natural,
            Some(limit),
            packed,
            required,
        ) <= limit,
{
}

/// A member is well-formed if its type has valid alignments.
pub proof fn lemma_member_wf(
    scope: Scope,
    a: Seq<Annotation>,
    bit_width: Option<u64>,
    layout: TypeLayout,
    default: u64,
)
    requires
        valid_alignment(default),
        valid_alignment(layout.field_alignment_bits),
        valid_alignment(layout.required_alignment_bits),
        scope.pack_limit_bits matches Some(n) ==> valid_alignment(n),
    ensures
        member_of(scope, a, bit_width, layout, default).wf(),
{
    lemma_alignment_request_valid(a, default);
    let required = max_u64(layout.required_alignment_bits, alignment_request_of(a, default));
    lemma_effective_alignment_valid(
        layout.field_alignment_bits,
        scope.pack_limit_bits,
        scope.packed || is_packed_of(a),
        required,
    );
}

/// The limit in bits that the `PragmaPack` annotations in `a` put on the
/// alignment of fields.
pub fn pack_limit(a: &Vec<Annotation>) -> (r: Option<u64>)
    ensures
        r == pack_limit_of(a@),
{
    let mut limit: Option<u64> = None;
    let mut i: usize = 0;
    while i < a.len()
        invariant
            i <= a.len(),
            limit == pack_limit_of(a@.take(i as int)),
        decreases a.len() - i,
    {
        proof {
            assert(a@.take(i + 1).drop_last() =~= a@.take(i as int));
            assert(a@.take(i + 1).last() == a@[i as int]);
        }
        match a[i] {
            Annotation::PragmaPack(n) => {
                if n >= BITS_PER_BYTE && is_power_of_two_u64(n) {
                    limit = match limit {
                        Some(m) => Some(min(m, n)),
                        None => Some(n),
                    };
                }
            },
            _ => {},
        }
        i += 1;
    }
    assert(a@.take(a.len() as int) =~= a@);
    limit
}

/// Whether the annotations `a` hold `AttrPacked`.
pub fn is_packed(a: &Vec<Annotation>) -> (r: bool)
    ensures
        r == is_packed_of(a@),
{
    let mut i: usize = 0;
    while i < a.len()
        invariant
            i <= a.len(),
            forall|j: int| 0 <= j < i ==> a@[j] != Annotation::AttrPacked,
        decreases a.len() - i,
    {
        match a[i] {
            Annotation::AttrPacked => {
                assert(a@[i as int] == Annotation::AttrPacked);
                return true;
            },
            _ => {},
        }
        i += 1;
    }
    false
}

/// The alignment in bits that the `Aligned` annotations in `a` ask for,
/// where a request without a value asks for `default`.
pub fn alignment_request(a: &Vec<Annotation>, default: u64) -> (r: u64)
    ensures
        r == alignment_request_of(a@, default),
{
    let mut request: u64 = BITS_PER_BYTE;
    let mut i: usize = 0;
    while i < a.len()
        invariant
            i <= a.len(),
            request == alignment_request_of(a@.take(i as int), default),
        decreases a.len() - i,
    {
        proof {
            assert(a@.take(i + 1).drop_last() =~= a@.take(i as int));
            assert(a@.take(i + 1).last() == a@[i as int]);
        }
        match a[i] {
            Annotation::Aligned(None) => {
                request = max(request, default);
            },
            Annotation::Aligned(Some(n)) => {
                if n >= BITS_PER_BYTE && is_power_of_two_u64(n) {
                    request = max(request, n);
                }
            },
            _ => {},
        }
        i += 1;
    }
    assert(a@.take(a.len() as int) =~= a@);
    request
}

/// The scope that the annotations `a` of a record open.
pub fn scope(a: &Vec<Annotation>, default: u64) -> (r: Scope)
    ensures
        r == scope_of(a@, default),
{
    Scope {
        pack_limit_bits: pack_limit(a),
        packed: is_packed(a),
        alignment_request_bits: alignment_request(a, default),
    }
}

/// The member that a field with the annotations `a` and the width
/// `bit_width` is, in the scope `scope`, if its type has the layout
/// `layout`.
pub fn member(
    scope: &Scope,
    a: &Vec<Annotation>,
    bit_width: Option<u64>,
    layout: &TypeLayout,
    default: u64,
) -> (r: Member)
    ensures
        r == member_of(*scope, a@, bit_width, *layout, default),
{
    let required = max(layout.required_alignment_bits, alignment_request(a, default));
    let capped = match scope.pack_limit_bits {
        Some(limit) => min(layout.field_alignment_bits, limit),
        None => layout.field_alignment_bits,
    };
    let reduced = if scope.packed || is_packed(a) {
        BITS_PER_BYTE
    } else {
        capped
    };
    Member {
        size_bits: layout.size_bits,
        type_alignment_bits: layout.field_alignment_bits,
        alignment_bits: max(reduced, required),
        required_alignment_bits: required,
        bit_width,
    }
}

/// The storage unit that bit-fields are being allocated in.
#[derive(Clone, Copy, Debug, PartialEq, Eq)]
pub struct StorageUnit {
    /// The offset of the unit in bits.
    pub start_bits: u64,
    /// The size in bits of the type that opened the unit.
    pub size_bits: u64,
    /// The alignment in bits of the type that opened the unit.
    pub alignment_bits: u64,
}

/// The state of the allocation of the fields of a struct: where the next
/// field can start, and the storage unit that the next bit-field can share.
#[derive(Clone, Copy, Debug, PartialEq, Eq)]
pub struct BitFieldState {
    /// The offset in bits of the first bit that no field occupies.
    pub offset_bits: u64,
    /// The storage unit of the last field, if that was a bit-field with a
    /// width other than 0.
    pub unit: Option<StorageUnit>,
}

impl BitFieldState {
    /// The state before the first field.
    pub open spec fn start() -> BitFieldState {
        BitFieldState { offset_bits: 0, unit: None }
    }

    /// The unit, if there is one, starts at or before the first free bit.
    pub open spec fn wf(self) -> bool {
        self.unit matches Some(u) ==> u.start_bits <= self.offset_bits
    }

    /// Whether a bit-field of the width `width`, whose type has the size
    /// `type_size` and the alignment `type_alignment`, goes into the
    /// current storage unit. It does if there is a unit, the type is no
    /// larger than the unit, and the bits that are left in the unit
    /// suffice; with `strict`, the type moreover has to have the size and
    /// the alignment of the unit.
    pub open spec fn shares(self, strict: bool, type_size: u64, type_alignment: u64, width: u64)
        -> bool {
        &&& self.unit matches Some(u)
        &&& type_size <= u.size_bits
        &&& strict ==> type_size == u.size_bits && type_alignment == u.alignment_bits
        &&& (self.offset_bits - u.start_bits) + width <= u.size_bits
    }

    /// Places a field that is no bit-field, of the size `size` and the
    /// alignment `alignment`: at the first multiple of the alignment at or
    /// after the first free bit. Gives the offset of the field and the next
    /// state, or `None` if the field does not end within 64 bits.
    pub open spec fn place_ordinary(self, size: u64, alignment: u64) -> Option<
        (u64, BitFieldState),
    > {
        match checked_round_up_to(self.offset_bits, alignment) {
            Some(offset) => if offset + size <= u64::MAX {
                Some((offset, BitFieldState { offset_bits: (offset + size) as u64, unit: None }))
            } else {
                None
            },
            None => None,
        }
    }

    /// Places a bit-field of the width `width` and the alignment
    /// `alignment`, whose type has the size `type_size` and the alignment
    /// `type_alignment`. A width of 0 moves the first free bit to a
    /// multiple of the alignment and closes the unit. A bit-field that
    /// shares the unit starts at the first free bit. Any other opens a unit
    /// at the first multiple of the alignment at or after the first free
    /// bit, and starts there. Gives the offset of the field and the next
    /// state, or `None` if the field does not end within 64 bits.
    pub open spec fn place_bit_field(
        self,
        strict: bool,
        type_size: u64,
        type_alignment: u64,
        alignment: u64,
        width: u64,
    ) -> Option<(u64, BitFieldState)> {
        if width != 0 && self.shares(strict, type_size, type_alignment, width) {
            if self.offset_bits + width <= u64::MAX {
                Some(
                    (
                        self.offset_bits,
                        BitFieldState {
                            offset_bits: (self.offset_bits + width) as u64,
                            unit: self.unit,
                        },
                    ),
                )
            } else {
                None
            }
        } else {
            match checked_round_up_to(self.offset_bits, alignment) {
                Some(offset) => if width == 0 {
                    Some((offset, BitFieldState { offset_bits: offset, unit: None }))
                } else if offset + width <= u64::MAX {
                    Some(
                        (
                            offset,
                            BitFieldState {
                                offset_bits: (offset + width) as u64,
                                unit: Some(
                                    StorageUnit {
                                        start_bits: offset,
                                        size_bits: type_size,
                                        alignment_bits: type_alignment,
                                    },
                                ),
                            },
                        ),
                    )
                } else {
                    None
                },
                None => None,
            }
        }
    }

    /// The state before the first field.
    pub fn new() -> (r: BitFieldState)
        ensures
            r == BitFieldState::start(),
    {
        BitFieldState { offset_bits: 0, unit: None }
    }

    /// Places a field that is no bit-field and returns its offset in bits.
    pub fn ordinary(&mut self, size: u64, alignment: u64) -> (r: Option<u64>)
        requires
            valid_alignment(alignment),
        ensures
            match old(self).place_ordinary(size, alignment) {
                Some((offset, next)) => r == Some(offset) && *final(self) == next,
                None => r is None && *final(self) == *old(self),
            },
    {
        let offset = match align_to(self.offset_bits, alignment) {
            Some(offset) => offset,
            None => {
                return None;
            },
        };
        let end = match offset.checked_add(size) {
            Some(end) => end,
            None => {
                return None;
            },
        };
        self.offset_bits = end;
        self.unit = None;
        Some(offset)
    }

    /// Places a bit-field and returns its offset in bits.
    pub fn bit_field(
        &mut self,
        strict: bool,
        type_size: u64,
        type_alignment: u64,
        alignment: u64,
        width: u64,
    ) -> (r: Option<u64>)
        requires
            valid_alignment(alignment),
            old(self).wf(),
        ensures
            match old(self).place_bit_field(strict, type_size, type_alignment, alignment, width) {
                Some((offset, next)) => r == Some(offset) && *final(self) == next,
                None => r is None && *final(self) == *old(self),
            },
    {
        if width != 0 {
            if let Some(u) = self.unit {
                if type_size <= u.size_bits && (!strict || (type_size == u.size_bits
                    && type_alignment == u.alignment_bits)) {
                    let used = self.offset_bits - u.start_bits;
                    if used <= u.size_bits && width <= u.size_bits - used {
                        let offset = self.offset_bits;
                        return match offset.checked_add(width) {
                            Some(end) => {
                                self.offset_bits = end;
                                Some(offset)
                            },
                            None => None,
                        };
                    }
                }
            }
        }
        let offset = match align_to(self.offset_bits, alignment) {
            Some(offset) => offset,
            None => {
                return None;
            },
        };
        if width == 0 {
            self.offset_bits = offset;
            self.unit = None;
            return Some(offset);
        }
        let end = match offset.checked_add(width) {
            Some(end) => end,
            None => {
                return None;
            },
        };
        self.offset_bits = end;
        self.unit = Some(
            StorageUnit { start_bits: offset, size_bits: type_size, alignment_bits: type_alignment },
        );
        Some(offset)
    }
}

/// Placing a field keeps the state well-formed, puts the field at or after
/// the first free bit, at a multiple of its alignment unless it shares a
/// unit, and moves the first free bit to the end of the field.
pub proof fn lemma_place_ordinary(state: BitFieldState, size: u64, alignment: u64)
    requires
        valid_alignment(alignment),
    ensures
        state.place_ordinary(size, alignment) matches Some((offset, next)) ==> {
            &&& next.wf()
            &&& state.offset_bits <= offset
            &&& offset % alignment == 0
            &&& next.offset_bits == offset + size
        },
{
    lemma_round_up_to(state.offset_bits as int, alignment as int);
}

/// A bit-field is placed at or after the first free bit, and the first free
/// bit moves to its end; the state stays well-formed.
pub proof fn lemma_place_bit_field(
    state: BitFieldState,
    strict: bool,
    type_size: u64,
    type_alignment: u64,
    alignment: u64,
    width: u64,
)
    requires
        valid_alignment(alignment),
        state.wf(),
    ensures
        state.place_bit_field(strict, type_size, type_alignment, alignment, width) matches Some(
            (offset, next),
        ) ==> {
            &&& next.wf()
            &&& state.offset_bits <= offset
            &&& next.offset_bits == offset + width
            &&& width == 0 ==> offset % alignment == 0 && next.unit is None
        },
{
    lemma_round_up_to(state.offset_bits as int, alignment as int);
}

} // verus!
