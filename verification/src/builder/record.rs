//! The layout of a record from its members, by the rules in force.

use crate::builder::common::{Member, Placement};
use crate::builder::{msvc, sysv_like};
use crate::layout::{FieldLayout, RecordKind, TypeLayout};
use crate::util::{valid_alignment, BITS_PER_BYTE};
use vstd::prelude::*;

verus! {

/// The layout of a record while its fields are being placed, by one of the
/// two sets of rules.
#[derive(Clone, Copy, Debug, PartialEq, Eq)]
pub enum RecordBuilder {
    SysvLike(sysv_like::RecordLayoutBuilder),
    Msvc(msvc::RecordLayoutBuilder),
}

impl RecordBuilder {
    /// The builder of a record without fields that asks for the alignment
    /// `request`.
    pub open spec fn start(placement: Placement, kind: RecordKind, request: u64) -> Self {
        match placement {
            Placement::SysvLike { strict_units } => RecordBuilder::SysvLike(
                sysv_like::RecordLayoutBuilder::start(kind, strict_units, request),
            ),
            Placement::Msvc => RecordBuilder::Msvc(msvc::RecordLayoutBuilder::start(kind, request)),
        }
    }

    /// The builder is well-formed.
    pub open spec fn wf(self) -> bool {
        match self {
            RecordBuilder::SysvLike(b) => b.wf(),
            RecordBuilder::Msvc(b) => b.wf(),
        }
    }

    /// Whether the record is a struct or a union.
    pub open spec fn kind(self) -> RecordKind {
        match self {
            RecordBuilder::SysvLike(b) => b.kind,
            RecordBuilder::Msvc(b) => b.kind,
        }
    }

    /// The offset in bits at which the fields so far end.
    pub open spec fn end_bits(self) -> u64 {
        match self {
            RecordBuilder::SysvLike(b) => b.bits.offset_bits,
            RecordBuilder::Msvc(b) => b.occupied_bits(),
        }
    }

    /// Whether the record has fields so far.
    pub open spec fn non_empty(self) -> bool {
        match self {
            RecordBuilder::SysvLike(b) => b.non_empty,
            RecordBuilder::Msvc(b) => b.non_empty,
        }
    }

    /// The alignment in bits of the record so far.
    pub open spec fn alignment_bits(self) -> u64 {
        match self {
            RecordBuilder::SysvLike(b) => b.alignment_bits,
            RecordBuilder::Msvc(b) => b.alignment_bits,
        }
    }

    /// Adds the field `m` to the record: gives the layout of the field and
    /// the builder after it, or `None` if the field does not end within 64
    /// bits.
    #[verifier::opaque]
    pub open spec fn step(self, m: Member) -> Option<(FieldLayout, Self)> {
        match self {
            RecordBuilder::SysvLike(b) => match b.step(m) {
                Some((layout, next)) => Some((layout, RecordBuilder::SysvLike(next))),
                None => None,
            },
            RecordBuilder::Msvc(b) => match b.step(m) {
                Some((layout, next)) => Some((layout, RecordBuilder::Msvc(next))),
                None => None,
            },
        }
    }

    /// The layout of the record, or `None` if its size does not fit in 64
    /// bits.
    pub open spec fn finish(self) -> Option<TypeLayout> {
        match self {
            RecordBuilder::SysvLike(b) => b.finish(),
            RecordBuilder::Msvc(b) => b.finish(),
        }
    }

    /// The builder of a record without fields that asks for the alignment
    /// `request`.
    pub fn new(placement: Placement, kind: RecordKind, request: u64) -> (r: Self)
        ensures
            r == Self::start(placement, kind, request),
    {
        match placement {
            Placement::SysvLike { strict_units } => RecordBuilder::SysvLike(
                sysv_like::RecordLayoutBuilder::new(kind, strict_units, request),
            ),
            Placement::Msvc => RecordBuilder::Msvc(msvc::RecordLayoutBuilder::new(kind, request)),
        }
    }

    /// Adds the field `m` to the record, and returns the layout of the
    /// field and the builder after it.
    pub fn layout_field(self, m: &Member) -> (r: Option<(FieldLayout, Self)>)
        requires
            self.wf(),
            m.wf(),
        ensures
            r == self.step(*m),
    {
        proof {
            reveal(RecordBuilder::step);
        }
        match self {
            RecordBuilder::SysvLike(b) => {
                let mut next = b;
                match next.layout_field(m) {
                    Some(layout) => Some((layout, RecordBuilder::SysvLike(next))),
                    None => None,
                }
            },
            RecordBuilder::Msvc(b) => {
                let mut next = b;
                match next.layout_field(m) {
                    Some(layout) => Some((layout, RecordBuilder::Msvc(next))),
                    None => None,
                }
            },
        }
    }

    /// The layout of the record.
    pub fn finish_layout(&self) -> (r: Option<TypeLayout>)
        requires
            self.wf(),
        ensures
            r == self.finish(),
    {
        match self {
            RecordBuilder::SysvLike(b) => b.finish_layout(),
            RecordBuilder::Msvc(b) => b.finish_layout(),
        }
    }
}

/// The builder after the first `n` of the members of a record, or `None`
/// if one of them does not end within 64 bits.
pub open spec fn placed(
    placement: Placement,
    kind: RecordKind,
    request: u64,
    members: Seq<Member>,
    n: nat,
) -> Option<RecordBuilder>
    decreases n,
{
    if n == 0 {
        Some(RecordBuilder::start(placement, kind, request))
    } else {
        match placed(placement, kind, request, members, (n - 1) as nat) {
            Some(b) => match b.step(members[n - 1]) {
                Some((_, next)) => Some(next),
                None => None,
            },
            None => None,
        }
    }
}

/// The layout of the member `i` of a record, or `None` if it or a member
/// before it does not end within 64 bits.
pub open spec fn field_layout_of(
    placement: Placement,
    kind: RecordKind,
    request: u64,
    members: Seq<Member>,
    i: int,
) -> Option<FieldLayout> {
    match placed(placement, kind, request, members, i as nat) {
        Some(b) => match b.step(members[i]) {
            Some((layout, _)) => Some(layout),
            None => None,
        },
        None => None,
    }
}

/// The layout of a record with the members `members` that asks for the
/// alignment `request`, or `None` if its size does not fit in 64 bits.
pub open spec fn record_layout_of(
    placement: Placement,
    kind: RecordKind,
    request: u64,
    members: Seq<Member>,
) -> Option<TypeLayout> {
    match placed(placement, kind, request, members, members.len()) {
        Some(b) => b.finish(),
        None => None,
    }
}

/// If the first `n` members can be placed, so can the first `i` of them
/// for every `i` up to `n`.
pub proof fn lemma_placed_prefix(
    placement: Placement,
    kind: RecordKind,
    request: u64,
    members: Seq<Member>,
    i: nat,
    n: nat,
)
    requires
        i <= n,
        placed(placement, kind, request, members, n) is Some,
    ensures
        placed(placement, kind, request, members, i) is Some,
    decreases n,
{
    if i < n {
        lemma_placed_prefix(placement, kind, request, members, i, (n - 1) as nat);
    }
}

/// Whether the first `n` of `members` are well-formed.
pub open spec fn members_wf(members: Seq<Member>, n: int) -> bool {
    forall|j: int| 0 <= j < n ==> (#[trigger] members[j]).wf()
}

/// Adding a well-formed field keeps the builder well-formed and its kind,
/// and lowers neither its alignment nor the end of its fields.
pub proof fn lemma_step(b: RecordBuilder, m: Member)
    requires
        b.wf(),
        m.wf(),
    ensures
        b.step(m) matches Some((layout, next)) ==> {
            &&& next.wf()
            &&& next.non_empty()
            &&& next.kind() == b.kind()
            &&& next.alignment_bits() >= b.alignment_bits()
            &&& next.end_bits() >= b.end_bits()
            &&& layout.size_bits == m.field_size_bits()
            &&& layout.offset_bits + layout.size_bits <= next.end_bits()
            &&& b.kind() == RecordKind::Union ==> {
                &&& layout.offset_bits == 0
                &&& next.end_bits() >= m.field_size_bits()
                &&& next.alignment_bits() >= m.alignment_bits
            }
            &&& b.kind() == RecordKind::Struct ==> {
                &&& layout.offset_bits >= b.end_bits()
                &&& next.end_bits() == layout.offset_bits + layout.size_bits
                &&& m.bit_width is None ==> layout.offset_bits % m.alignment_bits == 0
            }
        },
{
    reveal(RecordBuilder::step);
    match b {
        RecordBuilder::SysvLike(s) => {
            sysv_like::lemma_step_wf(s, m);
            if s.kind == RecordKind::Struct {
                sysv_like::lemma_step_struct(s, m);
            } else {
                sysv_like::lemma_step_union(s, m);
            }
        },
        RecordBuilder::Msvc(s) => {
            msvc::lemma_step_wf(s, m);
            if s.kind == RecordKind::Struct {
                msvc::lemma_step_struct(s, m);
            } else {
                msvc::lemma_step_union(s, m);
            }
        },
    }
}

/// If the first `n` members can be placed, so can the first `i` of them
/// for every `i` up to `n`; the builders are well-formed, and from `i` to
/// `n` neither the alignment nor the end of the fields goes down.
pub proof fn lemma_placed_monotonic(
    placement: Placement,
    kind: RecordKind,
    request: u64,
    members: Seq<Member>,
    i: nat,
    n: nat,
)
    requires
        valid_alignment(request),
        i <= n <= members.len(),
        members_wf(members, n as int),
        placed(placement, kind, request, members, n) is Some,
    ensures
        placed(placement, kind, request, members, i) matches Some(bi) && placed(
            placement,
            kind,
            request,
            members,
            n,
        ) matches Some(bn) && {
            &&& bi.wf()
            &&& bn.wf()
            &&& bi.kind() == kind
            &&& bn.kind() == kind
            &&& request <= bi.alignment_bits() <= bn.alignment_bits()
            &&& bi.end_bits() <= bn.end_bits()
            &&& n > 0 ==> bn.non_empty()
        },
    decreases n,
{
    if n == 0 {
    } else {
        let prev = (n - 1) as nat;
        lemma_placed_monotonic(placement, kind, request, members, if i < n {
            i
        } else {
            prev
        }, prev);
        let b = placed(placement, kind, request, members, prev)->Some_0;
        assert(members[n - 1].wf());
        lemma_step(b, members[n - 1]);
    }
}

/// If a record can be laid out, each of its members has a layout.
pub proof fn lemma_fields_have_layouts(
    placement: Placement,
    kind: RecordKind,
    request: u64,
    members: Seq<Member>,
    i: int,
)
    requires
        valid_alignment(request),
        members_wf(members, members.len() as int),
        placed(placement, kind, request, members, members.len()) is Some,
        0 <= i < members.len(),
    ensures
        field_layout_of(placement, kind, request, members, i) is Some,
{
    lemma_placed_monotonic(placement, kind, request, members, (i + 1) as nat, members.len());
}

/// The layout of a record is a whole number of bytes in size and a
/// multiple of its alignment, and its alignments are valid alignments. A
/// record with fields is a byte in size at least.
pub proof fn lemma_record_layout_valid(
    placement: Placement,
    kind: RecordKind,
    request: u64,
    members: Seq<Member>,
)
    requires
        valid_alignment(request),
        members_wf(members, members.len() as int),
    ensures
        record_layout_of(placement, kind, request, members) matches Some(layout) ==> {
            &&& layout.size_bits % BITS_PER_BYTE == 0
            &&& layout.size_bits % layout.field_alignment_bits == 0
            &&& valid_alignment(layout.field_alignment_bits)
            &&& valid_alignment(layout.required_alignment_bits)
            &&& layout.required_alignment_bits <= layout.field_alignment_bits
            &&& request <= layout.field_alignment_bits
            &&& members.len() > 0 ==> layout.size_bits >= BITS_PER_BYTE
        },
{
    if record_layout_of(placement, kind, request, members) is Some {
        lemma_placed_monotonic(placement, kind, request, members, 0, members.len());
        match placed(placement, kind, request, members, members.len())->Some_0 {
            RecordBuilder::SysvLike(b) => sysv_like::lemma_finish_valid(b),
            RecordBuilder::Msvc(b) => msvc::lemma_finish_valid(b),
        }
    }
}

/// In a struct, a field starts no earlier than any field before it ends.
pub proof fn lemma_struct_offsets_monotonic(
    placement: Placement,
    request: u64,
    members: Seq<Member>,
    i: int,
    j: int,
)
    requires
        valid_alignment(request),
        members_wf(members, members.len() as int),
        0 <= i < j < members.len(),
        field_layout_of(placement, RecordKind::Struct, request, members, j) is Some,
    ensures
        field_layout_of(placement, RecordKind::Struct, request, members, i) matches Some(first)
            && field_layout_of(placement, RecordKind::Struct, request, members, j) matches Some(
            second,
        ) && {
            &&& first.offset_bits + first.size_bits <= second.offset_bits
            &&& first.size_bits == members[i].field_size_bits()
        },
{
    let kind = RecordKind::Struct;
    lemma_placed_monotonic(placement, kind, request, members, (i + 1) as nat, j as nat);
    lemma_placed_monotonic(placement, kind, request, members, i as nat, (i + 1) as nat);
    let bi = placed(placement, kind, request, members, i as nat)->Some_0;
    let bj = placed(placement, kind, request, members, j as nat)->Some_0;
    assert(members[i].wf());
    assert(members[j].wf());
    lemma_step(bi, members[i]);
    lemma_step(bj, members[j]);
}

/// In a union every field starts at 0, and the union is not smaller than
/// any of its fields and not less aligned than any of them is in it.
pub proof fn lemma_union_layout(placement: Placement, request: u64, members: Seq<Member>, i: int)
    requires
        valid_alignment(request),
        members_wf(members, members.len() as int),
        0 <= i < members.len(),
        record_layout_of(placement, RecordKind::Union, request, members) is Some,
    ensures
        record_layout_of(placement, RecordKind::Union, request, members) matches Some(layout)
            && field_layout_of(placement, RecordKind::Union, request, members, i) matches Some(
            field,
        ) && {
            &&& field.offset_bits == 0
            &&& field.size_bits == members[i].field_size_bits()
            &&& layout.size_bits >= members[i].field_size_bits()
            &&& layout.field_alignment_bits >= members[i].alignment_bits
        },
{
    let kind = RecordKind::Union;
    let n = members.len();
    lemma_placed_monotonic(placement, kind, request, members, (i + 1) as nat, n);
    lemma_placed_monotonic(placement, kind, request, members, i as nat, (i + 1) as nat);
    let bi = placed(placement, kind, request, members, i as nat)->Some_0;
    assert(members[i].wf());
    lemma_step(bi, members[i]);
    match placed(placement, kind, request, members, n)->Some_0 {
        RecordBuilder::SysvLike(b) => sysv_like::lemma_finish_valid(b),
        RecordBuilder::Msvc(b) => msvc::lemma_finish_valid(b),
    }
}

/// Every field of a record ends within the record, and the size of the
/// record is a multiple of its alignment.
pub proof fn lemma_field_within_record(
    placement: Placement,
    kind: RecordKind,
    request: u64,
    members: Seq<Member>,
    i: int,
)
    requires
        valid_alignment(request),
        members_wf(members, members.len() as int),
        0 <= i < members.len(),
        record_layout_of(placement, kind, request, members) is Some,
    ensures
        record_layout_of(placement, kind, request, members) matches Some(layout)
            && field_layout_of(placement, kind, request, members, i) matches Some(field) && {
            &&& field.offset_bits + field.size_bits <= layout.size_bits
            &&& layout.size_bits % layout.field_alignment_bits == 0
            &&& kind == RecordKind::Struct && members[i].bit_width is None ==> field.offset_bits
                % members[i].alignment_bits == 0
        },
{
    let n = members.len();
    lemma_placed_monotonic(placement, kind, request, members, (i + 1) as nat, n);
    lemma_placed_monotonic(placement, kind, request, members, i as nat, (i + 1) as nat);
    let bi = placed(placement, kind, request, members, i as nat)->Some_0;
    assert(members[i].wf());
    lemma_step(bi, members[i]);
    match placed(placement, kind, request, members, n)->Some_0 {
        RecordBuilder::SysvLike(b) => sysv_like::lemma_finish_valid(b),
        RecordBuilder::Msvc(b) => msvc::lemma_finish_valid(b),
    }
}

} // verus!
