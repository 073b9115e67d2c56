//! The layout of a type: of its own node and of all the types below it.

use crate::builder::common::{
    alignment_request, alignment_request_of, lemma_alignment_request_valid, lemma_member_wf,
    lemma_pack_limit_valid, member, member_of, scope, scope_of, Member, Rules, Scope,
};
use crate::builder::record::{
    field_layout_of, lemma_fields_have_layouts, lemma_record_layout_valid, members_wf, placed,
    record_layout_of, RecordBuilder,
};
use crate::builder::{error, lemma_no_violations_below, type_violations};
use crate::layout::{
    copy_annotations, copy_name, lemma_field_decreases, lemma_view_of_record, Array, ArrayView,
    FieldLayout,
    Record, RecordField, RecordFieldView, RecordView, Type, TypeLayout, TypeVariant,
    TypeVariantView, TypeView,
};
use crate::result::{err, Error, ErrorKind};
use crate::target::{builtin_layout, builtin_layout_of, lemma_builtin_layout_valid, Target};
use crate::util::{max, max_u64};
use vstd::prelude::*;

verus! {

/// The layout of an array of `n` elements of the layout `element`: it is
/// aligned as its elements are, and `n` times their size. `None` if that
/// does not fit in 64 bits.
pub open spec fn array_layout_of(element: TypeLayout, n: u64) -> Option<TypeLayout> {
    if element.size_bits * n <= u64::MAX {
        Some(
            TypeLayout {
                size_bits: (element.size_bits * n) as u64,
                field_alignment_bits: element.field_alignment_bits,
                required_alignment_bits: element.required_alignment_bits,
            },
        )
    } else {
        None
    }
}

/// The layout of a typedef of a type of the layout `inner` that asks for
/// the alignment `request`: that of the type, with the alignment raised
/// to the request.
pub open spec fn typedef_layout_of(inner: TypeLayout, request: u64) -> TypeLayout {
    TypeLayout {
        size_bits: inner.size_bits,
        field_alignment_bits: max_u64(inner.field_alignment_bits, request),
        required_alignment_bits: inner.required_alignment_bits,
    }
}

/// The members that the fields `fields` are in the scope `scope`, if
/// their types are laid out as `types`.
pub open spec fn members_of(
    rules: Rules,
    scope: Scope,
    fields: Seq<RecordFieldView<(), ()>>,
    types: Seq<Option<TypeView<TypeLayout, FieldLayout>>>,
) -> Seq<Member> {
    Seq::new(
        fields.len(),
        |i: int|
            member_of(
                scope,
                fields[i].annotations,
                fields[i].bit_width,
                types[i]->Some_0.layout,
                rules.default_alignment_bits,
            ),
    )
}

/// The fields of a laid out record: field `i` with the layout that the
/// member `i` gets and with its type laid out as `types[i]`.
pub open spec fn fields_of(
    rules: Rules,
    kind: crate::layout::RecordKind,
    request: u64,
    fields: Seq<RecordFieldView<(), ()>>,
    members: Seq<Member>,
    types: Seq<Option<TypeView<TypeLayout, FieldLayout>>>,
) -> Seq<RecordFieldView<TypeLayout, FieldLayout>> {
    Seq::new(
        fields.len(),
        |i: int|
            RecordFieldView {
                layout: field_layout_of(rules.placement, kind, request, members, i)->Some_0,
                name: fields[i].name,
                annotations: fields[i].annotations,
                named: fields[i].named,
                bit_width: fields[i].bit_width,
                ty: types[i]->Some_0,
            },
    )
}

/// The record `r` with the annotations `a`, laid out, if the types of its
/// fields are laid out as `types`: each field is the member that it is in
/// the scope of `a`, and the members are placed one after the other.
/// `None` if one of `types` is, or if a size or an offset in the record
/// does not fit in 64 bits.
#[verifier::opaque]
pub open spec fn record_laid_out(
    rules: Rules,
    a: Seq<crate::layout::Annotation>,
    r: RecordView<(), ()>,
    types: Seq<Option<TypeView<TypeLayout, FieldLayout>>>,
) -> Option<TypeView<TypeLayout, FieldLayout>> {
    let scope = scope_of(a, rules.default_alignment_bits);
    let members = members_of(rules, scope, r.fields, types);
    if forall|i: int| 0 <= i < r.fields.len() ==> (#[trigger] types[i]) is Some {
        match record_layout_of(rules.placement, r.kind, scope.alignment_request_bits, members) {
            Some(layout) => Some(
                TypeView {
                    layout,
                    annotations: a,
                    variant: TypeVariantView::Record(
                        RecordView {
                            kind: r.kind,
                            fields: fields_of(
                                rules,
                                r.kind,
                                scope.alignment_request_bits,
                                r.fields,
                                members,
                                types,
                            ),
                        },
                    ),
                },
            ),
            None => None,
        }
    } else {
        None
    }
}

/// A record cannot be laid out if the type of one of its fields cannot,
/// or if one of its fields cannot be placed.
pub proof fn lemma_record_fails(
    rules: Rules,
    a: Seq<crate::layout::Annotation>,
    r: RecordView<(), ()>,
    types: Seq<Option<TypeView<TypeLayout, FieldLayout>>>,
    i: int,
)
    requires
        0 <= i < r.fields.len(),
        types[i] is None || placed(
            rules.placement,
            r.kind,
            scope_of(a, rules.default_alignment_bits).alignment_request_bits,
            members_of(rules, scope_of(a, rules.default_alignment_bits), r.fields, types),
            (i + 1) as nat,
        ) is None,
    ensures
        record_laid_out(rules, a, r, types) is None,
{
    reveal(record_laid_out);
    let scope = scope_of(a, rules.default_alignment_bits);
    let members = members_of(rules, scope, r.fields, types);
    if types[i] is Some && placed(
        rules.placement,
        r.kind,
        scope.alignment_request_bits,
        members,
        members.len(),
    ) is Some {
        crate::builder::record::lemma_placed_prefix(
            rules.placement,
            r.kind,
            scope.alignment_request_bits,
            members,
            (i + 1) as nat,
            members.len(),
        );
    }
}

/// A record whose fields have all been placed is laid out as its last
/// builder finishes.
pub proof fn lemma_record_finishes(
    rules: Rules,
    a: Seq<crate::layout::Annotation>,
    r: RecordView<(), ()>,
    types: Seq<Option<TypeView<TypeLayout, FieldLayout>>>,
    builder: RecordBuilder,
)
    requires
        forall|i: int| 0 <= i < r.fields.len() ==> (#[trigger] types[i]) is Some,
        placed(
            rules.placement,
            r.kind,
            scope_of(a, rules.default_alignment_bits).alignment_request_bits,
            members_of(rules, scope_of(a, rules.default_alignment_bits), r.fields, types),
            r.fields.len(),
        ) == Some(builder),
    ensures
        record_laid_out(rules, a, r, types) == match builder.finish() {
            Some(layout) => Some(
                TypeView {
                    layout,
                    annotations: a,
                    variant: TypeVariantView::Record(
                        RecordView {
                            kind: r.kind,
                            fields: fields_of(
                                rules,
                                r.kind,
                                scope_of(a, rules.default_alignment_bits).alignment_request_bits,
                                r.fields,
                                members_of(
                                    rules,
                                    scope_of(a, rules.default_alignment_bits),
                                    r.fields,
                                    types,
                                ),
                                types,
                            ),
                        },
                    ),
                },
            ),
            None => None,
        },
{
    reveal(record_laid_out);
}

/// The type `ty` with its layout and the layouts of all types and fields
/// below it, by the rules `rules` on the target `target`. `None` if a size
/// or an offset in it does not fit in 64 bits.
///
/// A builtin type has the layout that the target gives it, an opaque type
/// the layout that it holds. An array is laid out from its elements, a
/// typedef from its type and its own alignment request, a record from its
/// members in its scope.
pub open spec fn laid_out(rules: Rules, target: Target, ty: TypeView<(), ()>) -> Option<
    TypeView<TypeLayout, FieldLayout>,
>
    decreases ty,
{
    match ty.variant {
        TypeVariantView::Builtin(b) => Some(
            TypeView {
                layout: builtin_layout_of(target, b),
                annotations: ty.annotations,
                variant: TypeVariantView::Builtin(b),
            },
        ),
        TypeVariantView::Opaque(layout) => Some(
            TypeView { layout, annotations: ty.annotations, variant: TypeVariantView::Opaque(layout) },
        ),
        TypeVariantView::Array(a) => match laid_out(rules, target, *a.element_type) {
            Some(element) => match array_layout_of(element.layout, a.num_elements) {
                Some(layout) => Some(
                    TypeView {
                        layout,
                        annotations: ty.annotations,
                        variant: TypeVariantView::Array(
                            ArrayView {
                                element_type: Box::new(element),
                                num_elements: a.num_elements,
                            },
                        ),
                    },
                ),
                None => None,
            },
            None => None,
        },
        TypeVariantView::Typedef(t) => match laid_out(rules, target, *t) {
            Some(inner) => Some(
                TypeView {
                    layout: typedef_layout_of(
                        inner.layout,
                        alignment_request_of(ty.annotations, rules.default_alignment_bits),
                    ),
                    annotations: ty.annotations,
                    variant: TypeVariantView::Typedef(Box::new(inner)),
                },
            ),
            None => None,
        },
        TypeVariantView::Record(r) => record_laid_out(
            rules,
            ty.annotations,
            r,
            fields_laid_out(rules, target, r.fields),
        ),
    }
}

/// The types of the fields `fields`, each laid out.
pub open spec fn fields_laid_out(
    rules: Rules,
    target: Target,
    fields: Seq<RecordFieldView<(), ()>>,
) -> Seq<Option<TypeView<TypeLayout, FieldLayout>>>
    decreases fields,
{
    Seq::new(
        fields.len(),
        |i: int|
            if 0 <= i < fields.len() {
                laid_out(rules, target, fields[i].ty)
            } else {
                None
            },
    )
}

/// Whether the layout of `ty` and of every type below it is valid.
pub open spec fn layouts_valid(ty: TypeView<TypeLayout, FieldLayout>) -> bool
    decreases ty,
{
    &&& ty.layout.valid()
    &&& match ty.variant {
        TypeVariantView::Builtin(_) => true,
        TypeVariantView::Opaque(_) => true,
        TypeVariantView::Array(a) => layouts_valid(*a.element_type),
        TypeVariantView::Typedef(t) => layouts_valid(*t),
        TypeVariantView::Record(r) => forall|i: int|
            0 <= i < r.fields.len() ==> layouts_valid((#[trigger] r.fields[i]).ty),
    }
}

/// The size of an array is a whole number of bytes if that of its elements
/// is.
proof fn lemma_array_size_whole_bytes(size: int, n: int)
    requires
        size % 8 == 0,
        0 <= size,
        0 <= n,
    ensures
        (size * n) % 8 == 0,
{
    let k = size / 8;
    assert(size * n == (k * n) * 8) by (nonlinear_arith)
        requires
            size == 8 * k,
    ;
    vstd::arithmetic::div_mod::lemma_mod_multiples_basic(k * n, 8);
}

/// The members of a record are well-formed if nothing is wrong with the
/// record and the types of its fields are laid out with valid layouts.
proof fn lemma_members_wf(
    rules: Rules,
    target: Target,
    ty: TypeView<(), ()>,
    n: int,
)
    requires
        rules.wf(),
        ty.variant is Record,
        0 <= n <= ty.variant->Record_0.fields.len(),
        forall|i: int|
            0 <= i < n ==> ((#[trigger] fields_laid_out(
                rules,
                target,
                ty.variant->Record_0.fields,
            )[i]) matches Some(t) && t.layout.valid()),
    ensures
        members_wf(
            members_of(
                rules,
                scope_of(ty.annotations, rules.default_alignment_bits),
                ty.variant->Record_0.fields,
                fields_laid_out(rules, target, ty.variant->Record_0.fields),
            ),
            n,
        ),
        crate::util::valid_alignment(
            alignment_request_of(ty.annotations, rules.default_alignment_bits),
        ),
{
    let r = ty.variant->Record_0;
    let types = fields_laid_out(rules, target, r.fields);
    let scope = scope_of(ty.annotations, rules.default_alignment_bits);
    let members = members_of(rules, scope, r.fields, types);
    lemma_pack_limit_valid(ty.annotations);
    lemma_alignment_request_valid(ty.annotations, rules.default_alignment_bits);
    assert forall|j: int| 0 <= j < n implies (#[trigger] members[j]).wf() by {
        assert(types[j] is Some);
        lemma_member_wf(
            scope,
            r.fields[j].annotations,
            r.fields[j].bit_width,
            types[j]->Some_0.layout,
            rules.default_alignment_bits,
        );
    }
}

/// Where nothing is wrong with a type, its layout and the layout of every
/// type below it is valid: every size is a whole number of bytes, and
/// every alignment is a power of two and a whole number of bytes. The
/// laid out type keeps the annotations.
pub proof fn lemma_laid_out_valid(rules: Rules, target: Target, ty: TypeView<(), ()>)
    requires
        rules.wf(),
        type_violations(ty).len() == 0,
    ensures
        laid_out(rules, target, ty) matches Some(t) ==> layouts_valid(t) && t.annotations
            == ty.annotations,
    decreases ty,
{
    lemma_no_violations_below(ty);
    match ty.variant {
        TypeVariantView::Builtin(b) => {
            lemma_builtin_layout_valid(target, b);
        },
        TypeVariantView::Opaque(_) => {},
        TypeVariantView::Array(a) => {
            lemma_laid_out_valid(rules, target, *a.element_type);
            if let Some(element) = laid_out(rules, target, *a.element_type) {
                lemma_array_size_whole_bytes(element.layout.size_bits as int, a.num_elements as int);
            }
        },
        TypeVariantView::Typedef(t) => {
            lemma_laid_out_valid(rules, target, *t);
            lemma_alignment_request_valid(ty.annotations, rules.default_alignment_bits);
        },
        TypeVariantView::Record(r) => {
            let types = fields_laid_out(rules, target, r.fields);
            let scope = scope_of(ty.annotations, rules.default_alignment_bits);
            let members = members_of(rules, scope, r.fields, types);
            reveal(record_laid_out);
            if let Some(t) = laid_out(rules, target, ty) {
                assert forall|i: int| 0 <= i < r.fields.len() implies ((#[trigger] types[i])
                    matches Some(t) && layouts_valid(t)) by {
                    lemma_laid_out_valid(rules, target, r.fields[i].ty);
                }
                lemma_members_wf(rules, target, ty, r.fields.len() as int);
                lemma_record_layout_valid(
                    rules.placement,
                    r.kind,
                    scope.alignment_request_bits,
                    members,
                );
                let out = t.variant->Record_0;
                assert forall|i: int| 0 <= i < out.fields.len() implies layouts_valid(
                    (#[trigger] out.fields[i]).ty,
                ) by {
                    assert(types[i] is Some);
                }
            }
        },
    }
}

/// What holds of a record that has been laid out: the types of its fields
/// have been laid out with valid layouts, its members are well-formed,
/// and its fields and its layout are those of the placement of its
/// members.
proof fn lemma_record_parts(rules: Rules, target: Target, ty: TypeView<(), ()>)
    requires
        rules.wf(),
        type_violations(ty).len() == 0,
        ty.variant is Record,
        laid_out(rules, target, ty) is Some,
    ensures
        ({
            let r = ty.variant->Record_0;
            let types = fields_laid_out(rules, target, r.fields);
            let scope = scope_of(ty.annotations, rules.default_alignment_bits);
            let request = scope.alignment_request_bits;
            let members = members_of(rules, scope, r.fields, types);
            let out = laid_out(rules, target, ty)->Some_0;
            &&& crate::util::valid_alignment(request)
            &&& members.len() == r.fields.len()
            &&& members_wf(members, members.len() as int)
            &&& record_layout_of(rules.placement, r.kind, request, members) == Some(out.layout)
            &&& out.variant is Record
            &&& out.variant->Record_0.kind == r.kind
            &&& out.variant->Record_0.fields == fields_of(
                rules,
                r.kind,
                request,
                r.fields,
                members,
                types,
            )
            &&& forall|i: int|
                0 <= i < r.fields.len() ==> (#[trigger] types[i]) is Some && members[i]
                    == member_of(
                    scope,
                    r.fields[i].annotations,
                    r.fields[i].bit_width,
                    types[i]->Some_0.layout,
                    rules.default_alignment_bits,
                )
        }),
{
    reveal(record_laid_out);
    let r = ty.variant->Record_0;
    let types = fields_laid_out(rules, target, r.fields);
    lemma_no_violations_below(ty);
    assert forall|i: int| 0 <= i < r.fields.len() implies ((#[trigger] types[i]) matches Some(t)
        && t.layout.valid()) by {
        lemma_laid_out_valid(rules, target, r.fields[i].ty);
    }
    lemma_members_wf(rules, target, ty, r.fields.len() as int);
}

/// In a struct that has been laid out, the fields lie one after the
/// other in the order in which they are given: a field starts no earlier
/// than any field before it ends. A field that is no bit-field has the
/// size of its type.
pub proof fn lemma_struct_fields_in_order(
    rules: Rules,
    target: Target,
    ty: TypeView<(), ()>,
    i: int,
    j: int,
)
    requires
        rules.wf(),
        type_violations(ty).len() == 0,
        ty.variant matches TypeVariantView::Record(r) && r.kind == crate::layout::RecordKind::Struct
            && 0 <= i < j < r.fields.len(),
        laid_out(rules, target, ty) is Some,
    ensures
        ({
            let fields = laid_out(rules, target, ty)->Some_0.variant->Record_0.fields;
            &&& fields.len() == ty.variant->Record_0.fields.len()
            &&& fields[i].layout.offset_bits + fields[i].layout.size_bits
                <= fields[j].layout.offset_bits
            &&& fields[i].bit_width is None ==> fields[i].layout.size_bits
                == fields[i].ty.layout.size_bits
            &&& fields[i].bit_width matches Some(width) ==> fields[i].layout.size_bits == width
        }),
{
    lemma_record_parts(rules, target, ty);
    let r = ty.variant->Record_0;
    let types = fields_laid_out(rules, target, r.fields);
    let scope = scope_of(ty.annotations, rules.default_alignment_bits);
    let members = members_of(rules, scope, r.fields, types);
    assert(types[i] is Some);
    assert(types[j] is Some);
    lemma_fields_have_layouts(rules.placement, r.kind, scope.alignment_request_bits, members, j);
    crate::builder::record::lemma_struct_offsets_monotonic(
        rules.placement,
        scope.alignment_request_bits,
        members,
        i,
        j,
    );
}

/// In a union that has been laid out, every field starts at 0, and the
/// union is not smaller than any of its fields and not less aligned than
/// any of them is in it. A field that is neither packed nor under a pack
/// limit is aligned in the union as its type is, or more.
pub proof fn lemma_union_fields(rules: Rules, target: Target, ty: TypeView<(), ()>, i: int)
    requires
        rules.wf(),
        type_violations(ty).len() == 0,
        ty.variant matches TypeVariantView::Record(r) && r.kind == crate::layout::RecordKind::Union
            && 0 <= i < r.fields.len(),
        laid_out(rules, target, ty) is Some,
    ensures
        ({
            let r = ty.variant->Record_0;
            let out = laid_out(rules, target, ty)->Some_0;
            let fields = out.variant->Record_0.fields;
            let scope = scope_of(ty.annotations, rules.default_alignment_bits);
            let m = member_of(
                scope,
                r.fields[i].annotations,
                r.fields[i].bit_width,
                fields[i].ty.layout,
                rules.default_alignment_bits,
            );
            &&& fields.len() == r.fields.len()
            &&& fields[i].layout.offset_bits == 0
            &&& fields[i].layout.size_bits == m.field_size_bits()
            &&& out.layout.size_bits >= fields[i].layout.size_bits
            &&& out.layout.field_alignment_bits >= m.alignment_bits
            &&& scope.pack_limit_bits is None && !scope.packed && !crate::builder::common::is_packed_of(
                r.fields[i].annotations,
            ) ==> out.layout.field_alignment_bits >= fields[i].ty.layout.field_alignment_bits
        }),
{
    lemma_record_parts(rules, target, ty);
    let r = ty.variant->Record_0;
    let types = fields_laid_out(rules, target, r.fields);
    let scope = scope_of(ty.annotations, rules.default_alignment_bits);
    let members = members_of(rules, scope, r.fields, types);
    assert(types[i] is Some);
    crate::builder::record::lemma_union_layout(
        rules.placement,
        scope.alignment_request_bits,
        members,
        i,
    );
}

/// In a record that has been laid out, every field ends within the
/// record, a field of a struct that is no bit-field starts at a multiple
/// of its alignment in the struct, and the size of the record is a
/// multiple of its alignment and a byte at least.
pub proof fn lemma_fields_within_record(rules: Rules, target: Target, ty: TypeView<(), ()>, i: int)
    requires
        rules.wf(),
        type_violations(ty).len() == 0,
        ty.variant matches TypeVariantView::Record(r) && 0 <= i < r.fields.len(),
        laid_out(rules, target, ty) is Some,
    ensures
        ({
            let r = ty.variant->Record_0;
            let out = laid_out(rules, target, ty)->Some_0;
            let fields = out.variant->Record_0.fields;
            let m = member_of(
                scope_of(ty.annotations, rules.default_alignment_bits),
                r.fields[i].annotations,
                r.fields[i].bit_width,
                fields[i].ty.layout,
                rules.default_alignment_bits,
            );
            &&& fields.len() == r.fields.len()
            &&& fields[i].layout.offset_bits + fields[i].layout.size_bits <= out.layout.size_bits
            &&& out.layout.size_bits % out.layout.field_alignment_bits == 0
            &&& out.layout.size_bits >= crate::util::BITS_PER_BYTE
            &&& r.kind == crate::layout::RecordKind::Struct && r.fields[i].bit_width is None
                ==> fields[i].layout.offset_bits % m.alignment_bits == 0
        }),
{
    lemma_record_parts(rules, target, ty);
    let r = ty.variant->Record_0;
    let types = fields_laid_out(rules, target, r.fields);
    let scope = scope_of(ty.annotations, rules.default_alignment_bits);
    let members = members_of(rules, scope, r.fields, types);
    assert(types[i] is Some);
    crate::builder::record::lemma_field_within_record(
        rules.placement,
        r.kind,
        scope.alignment_request_bits,
        members,
        i,
    );
    lemma_record_layout_valid(rules.placement, r.kind, scope.alignment_request_bits, members);
}

/// The type `ty` without its layouts and without the layouts of the types
/// and fields below it.
pub open spec fn without_layouts(ty: TypeView<TypeLayout, FieldLayout>) -> TypeView<(), ()>
    decreases ty,
{
    TypeView {
        layout: (),
        annotations: ty.annotations,
        variant: match ty.variant {
            TypeVariantView::Builtin(b) => TypeVariantView::Builtin(b),
            TypeVariantView::Opaque(layout) => TypeVariantView::Opaque(layout),
            TypeVariantView::Array(a) => TypeVariantView::Array(
                ArrayView {
                    element_type: Box::new(without_layouts(*a.element_type)),
                    num_elements: a.num_elements,
                },
            ),
            TypeVariantView::Typedef(t) => TypeVariantView::Typedef(Box::new(without_layouts(*t))),
            TypeVariantView::Record(r) => TypeVariantView::Record(
                RecordView {
                    kind: r.kind,
                    fields: Seq::new(
                        r.fields.len(),
                        |i: int|
                            if 0 <= i < r.fields.len() {
                                RecordFieldView {
                                    layout: (),
                                    name: r.fields[i].name,
                                    annotations: r.fields[i].annotations,
                                    named: r.fields[i].named,
                                    bit_width: r.fields[i].bit_width,
                                    ty: without_layouts(r.fields[i].ty),
                                }
                            } else {
                                arbitrary()
                            },
                    ),
                },
            ),
        },
    }
}

/// Laying out a type adds layouts and changes nothing else: the type that
/// has been laid out is, without its layouts, the type that was given.
pub proof fn lemma_laid_out_keeps_type(rules: Rules, target: Target, ty: TypeView<(), ()>)
    ensures
        laid_out(rules, target, ty) matches Some(t) ==> without_layouts(t) == ty,
    decreases ty,
{
    if let Some(t) = laid_out(rules, target, ty) {
        let back = without_layouts(t);
        match ty.variant {
            TypeVariantView::Builtin(_) => {},
            TypeVariantView::Opaque(_) => {},
            TypeVariantView::Array(a) => {
                lemma_laid_out_keeps_type(rules, target, *a.element_type);
            },
            TypeVariantView::Typedef(d) => {
                lemma_laid_out_keeps_type(rules, target, *d);
            },
            TypeVariantView::Record(r) => {
                reveal(record_laid_out);
                let types = fields_laid_out(rules, target, r.fields);
                let out = t.variant->Record_0;
                let fields = back.variant->Record_0.fields;
                assert forall|i: int| 0 <= i < r.fields.len() implies fields[i] == r.fields[i] by {
                    assert(out.fields[i].ty == types[i]->Some_0);
                    lemma_laid_out_keeps_type(rules, target, r.fields[i].ty);
                    assert(fields[i].name == r.fields[i].name);
                    assert(fields[i].annotations == r.fields[i].annotations);
                    assert(fields[i].named == r.fields[i].named);
                    assert(fields[i].bit_width == r.fields[i].bit_width);
                    assert(fields[i].ty == r.fields[i].ty);
                    assert(fields[i].layout == r.fields[i].layout);
                }
                assert(fields =~= r.fields);
            },
        }
        assert(back.annotations == ty.annotations);
        assert(back.variant == ty.variant);
        assert(back.layout == ty.layout);
    }
}

/// Lays out the type `ty` and all types below it by the rules `rules` on
/// the target `target`. Fails with `SizeOverflow` if a size or an offset
/// does not fit in 64 bits.
pub fn layout_type(target: Target, rules: &Rules, ty: &Type<(), ()>) -> (r: Result<
    Type<TypeLayout, FieldLayout>,
    Error,
>)
    requires
        rules.wf(),
        type_violations(ty@).len() == 0,
    ensures
        match laid_out(*rules, target, ty@) {
            Some(t) => r matches Ok(out) && out@ == t,
            None => r matches Err(e) && e == error(ErrorKind::SizeOverflow),
        },
    decreases ty, 1nat,
{
    proof {
        lemma_no_violations_below(ty@);
    }
    match &ty.variant {
        TypeVariant::Builtin(bi) => Ok(
            Type {
                layout: builtin_layout(target, *bi),
                annotations: copy_annotations(&ty.annotations),
                variant: TypeVariant::Builtin(*bi),
            },
        ),
        TypeVariant::Opaque(layout) => Ok(
            Type {
                layout: *layout,
                annotations: copy_annotations(&ty.annotations),
                variant: TypeVariant::Opaque(*layout),
            },
        ),
        TypeVariant::Array(at) => {
            let element = match layout_type(target, rules, &at.element_type) {
                Ok(element) => element,
                Err(e) => {
                    return Err(e);
                },
            };
            let size = match element.layout.size_bits.checked_mul(at.num_elements) {
                Some(size) => size,
                None => {
                    return Err(err(ErrorKind::SizeOverflow));
                },
            };
            let layout = TypeLayout {
                size_bits: size,
                field_alignment_bits: element.layout.field_alignment_bits,
                required_alignment_bits: element.layout.required_alignment_bits,
            };
            Ok(
                Type {
                    layout,
                    annotations: copy_annotations(&ty.annotations),
                    variant: TypeVariant::Array(
                        Array { element_type: Box::new(element), num_elements: at.num_elements },
                    ),
                },
            )
        },
        TypeVariant::Typedef(dst) => {
            let inner = match layout_type(target, rules, dst) {
                Ok(inner) => inner,
                Err(e) => {
                    return Err(e);
                },
            };
            let request = alignment_request(&ty.annotations, rules.default_alignment_bits);
            let layout = TypeLayout {
                size_bits: inner.layout.size_bits,
                field_alignment_bits: max(inner.layout.field_alignment_bits, request),
                required_alignment_bits: inner.layout.required_alignment_bits,
            };
            Ok(
                Type {
                    layout,
                    annotations: copy_annotations(&ty.annotations),
                    variant: TypeVariant::Typedef(Box::new(inner)),
                },
            )
        },
        TypeVariant::Record(rt) => layout_record(target, rules, rt, ty),
    }
}

/// Lays out the type of the field `field` and adds the field to the
/// record that `builder` builds, in the scope `scope`. Returns the field
/// with its layout and the builder after it.
pub fn layout_record_field(
    target: Target,
    rules: &Rules,
    scope: &Scope,
    field: &RecordField<(), ()>,
    builder: RecordBuilder,
) -> (r: Result<(RecordField<TypeLayout, FieldLayout>, RecordBuilder), Error>)
    requires
        rules.wf(),
        builder.wf(),
        scope.pack_limit_bits matches Some(n) ==> crate::util::valid_alignment(n),
        type_violations(field@.ty).len() == 0,
    ensures
        match laid_out(*rules, target, field@.ty) {
            Some(t) => {
                let m = member_of(
                    *scope,
                    field@.annotations,
                    field@.bit_width,
                    t.layout,
                    rules.default_alignment_bits,
                );
                &&& m.wf()
                &&& match builder.step(m) {
                    Some((layout, next)) => r matches Ok((out, b)) && b == next && next.wf()
                        && out@ == (RecordFieldView {
                        layout,
                        name: field@.name,
                        annotations: field@.annotations,
                        named: field@.named,
                        bit_width: field@.bit_width,
                        ty: t,
                    }),
                    None => r matches Err(e) && e == error(ErrorKind::SizeOverflow),
                }
            },
            None => r matches Err(e) && e == error(ErrorKind::SizeOverflow),
        },
    decreases field, 0nat,
{
    let t = match layout_type(target, rules, &field.ty) {
        Ok(t) => t,
        Err(e) => {
            return Err(e);
        },
    };
    proof {
        lemma_laid_out_valid(*rules, target, field.ty@);
        lemma_member_wf(
            *scope,
            field.annotations@,
            field.bit_width,
            t.layout,
            rules.default_alignment_bits,
        );
    }
    let m = member(scope, &field.annotations, field.bit_width, &t.layout, rules.default_alignment_bits);
    match builder.layout_field(&m) {
        Some((layout, next)) => {
            proof {
                crate::builder::record::lemma_step(builder, m);
            }
            let out = RecordField {
                layout,
                name: copy_name(&field.name),
                annotations: copy_annotations(&field.annotations),
                named: field.named,
                bit_width: field.bit_width,
                ty: t,
            };
            Ok((out, next))
        },
        None => Err(err(ErrorKind::SizeOverflow)),
    }
}

/// Lays out the record type `ty`: the type of each field, then the field
/// in the record, in the order of the fields.
pub fn layout_record(target: Target, rules: &Rules, rt: &Record<(), ()>, ty: &Type<(), ()>) -> (r:
    Result<Type<TypeLayout, FieldLayout>, Error>)
    requires
        rules.wf(),
        ty.variant == TypeVariant::Record(*rt),
        type_violations(ty@).len() == 0,
    ensures
        match laid_out(*rules, target, ty@) {
            Some(t) => r matches Ok(out) && out@ == t,
            None => r matches Err(e) && e == error(ErrorKind::SizeOverflow),
        },
    decreases ty, 0nat,
{
    let scope = scope(&ty.annotations, rules.default_alignment_bits);
    let ghost a = ty.annotations@;
    let ghost placement = rules.placement;
    let ghost request = scope.alignment_request_bits;
    let ghost input = rt@.fields;
    let ghost types = fields_laid_out(*rules, target, input);
    let ghost members = members_of(*rules, scope, input, types);
    let ghost expected = fields_of(*rules, rt.kind, request, input, members, types);
    proof {
        lemma_view_of_record(*ty);
        lemma_no_violations_below(ty@);
        lemma_alignment_request_valid(a, rules.default_alignment_bits);
        lemma_pack_limit_valid(a);
        assert(laid_out(*rules, target, ty@) == record_laid_out(*rules, a, rt@, types));
    }
    let mut builder = RecordBuilder::new(rules.placement, rt.kind, scope.alignment_request_bits);
    let mut fields: Vec<RecordField<TypeLayout, FieldLayout>> = Vec::new();
    let mut i: usize = 0;
    while i < rt.fields.len()
        invariant
            i <= rt.fields.len(),
            rules.wf(),
            ty.variant == TypeVariant::Record(*rt),
            input == rt@.fields,
            input.len() == rt.fields.len(),
            types == fields_laid_out(*rules, target, input),
            members == members_of(*rules, scope, input, types),
            expected == fields_of(*rules, rt.kind, request, input, members, types),
            scope == scope_of(a, rules.default_alignment_bits),
            laid_out(*rules, target, ty@) == record_laid_out(*rules, a, rt@, types),
            placement == rules.placement,
            request == scope.alignment_request_bits,
            scope.pack_limit_bits matches Some(n) ==> crate::util::valid_alignment(n),
            forall|j: int|
                0 <= j < input.len() ==> type_violations((#[trigger] input[j]).ty).len() == 0,
            forall|j: int| 0 <= j < i ==> (#[trigger] types[j]) is Some,
            placed(placement, rt.kind, request, members, i as nat) == Some(builder),
            builder.wf(),
            fields.len() == i,
            forall|j: int| 0 <= j < i ==> (#[trigger] fields[j])@ == expected[j],
        ensures
            i == rt.fields.len(),
        decreases rt.fields.len() - i,
    {
        let field = &rt.fields[i];
        proof {
            lemma_field_decreases(*ty, i as int);
            assert(input[i as int] == field@);
            assert(types[i as int] == laid_out(*rules, target, field@.ty));
            assert(members[i as int] == member_of(
                scope,
                field@.annotations,
                field@.bit_width,
                types[i as int]->Some_0.layout,
                rules.default_alignment_bits,
            ));
        }
        match layout_record_field(target, rules, &scope, field, builder) {
            Ok((out, next)) => {
                assert(out@ == expected[i as int]);
                builder = next;
                fields.push(out);
            },
            Err(e) => {
                proof {
                    lemma_record_fails(*rules, a, rt@, types, i as int);
                }
                return Err(e);
            },
        }
        i += 1;
    }
    proof {
        lemma_record_finishes(*rules, a, rt@, types, builder);
    }
    match builder.finish_layout() {
        Some(layout) => {
            let out = Type {
                layout,
                annotations: copy_annotations(&ty.annotations),
                variant: TypeVariant::Record(Record { kind: rt.kind, fields }),
            };
            proof {
                lemma_view_of_record(out);
                assert(out@.variant->Record_0.fields =~= expected);
            }
            Ok(out)
        },
        None => Err(err(ErrorKind::SizeOverflow)),
    }
}

} // verus!
