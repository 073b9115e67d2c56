//! The computation of layouts: validation of the type, and the choice of the
//! rules by the target.

use crate::builder::common::Rules;
use crate::builder::tree::{
    laid_out, layouts_valid, lemma_laid_out_keeps_type, lemma_laid_out_valid, without_layouts,
};
use crate::layout::{
    Annotation, Array, BuiltinType, FieldLayout, Record, RecordField, RecordFieldView, Type,
    TypeLayout, TypeVariant, TypeVariantView, TypeView,
};
use crate::result::{err, Error, ErrorKind};
use crate::target::{family, family_of, Family, Target};
use crate::util::{is_power_of_two, is_power_of_two_u64, BITS_PER_BYTE};
use vstd::prelude::*;

pub mod common;
pub mod msvc;
pub mod record;
pub mod sysv_like;
pub mod tree;

verus! {

/// The error of a kind.
pub open spec fn error(kind: ErrorKind) -> Error {
    Error { kind }
}

/// What is wrong with `a` as an alignment in bits: it is no whole number
/// of bytes, it is no power of two, or both, in this order.
#[verifier::opaque]
pub open spec fn alignment_violations(a: u64) -> Seq<Error> {
    (if a % BITS_PER_BYTE != 0 {
        seq![error(ErrorKind::SubByteAlignment)]
    } else {
        Seq::empty()
    }) + (if !is_power_of_two(a as int) {
        seq![error(ErrorKind::PowerOfTwoAlignment)]
    } else {
        Seq::empty()
    })
}

/// What is wrong with the alignments that the annotations `a` ask for, in
/// the order of the annotations.
pub open spec fn aligned_violations(a: Seq<Annotation>) -> Seq<Error>
    decreases a.len(),
{
    if a.len() == 0 {
        Seq::empty()
    } else {
        aligned_violations(a.drop_last()) + (match a.last() {
            Annotation::Aligned(Some(n)) => alignment_violations(n),
            _ => Seq::empty(),
        })
    }
}

/// The number of `PragmaPack` annotations in `a`.
pub open spec fn num_pragma_pack(a: Seq<Annotation>) -> nat
    decreases a.len(),
{
    if a.len() == 0 {
        0
    } else {
        num_pragma_pack(a.drop_last()) + (if a.last() is PragmaPack {
            1nat
        } else {
            0nat
        })
    }
}

/// What is wrong with the annotations `a` of a type or of a field: each
/// alignment that is asked for and is not valid, then more than one
/// `PragmaPack`.
pub open spec fn annotation_violations(a: Seq<Annotation>) -> Seq<Error> {
    aligned_violations(a) + (if num_pragma_pack(a) > 1 {
        seq![error(ErrorKind::MultiplePragmaPackedAnnotations)]
    } else {
        Seq::empty()
    })
}

/// One error of the kind `kind` for each annotation in `a` that packs: every
/// `PragmaPack`, and every `AttrPacked` too if `attr` is set.
pub open spec fn packing_violations(a: Seq<Annotation>, attr: bool, kind: ErrorKind) -> Seq<Error>
    decreases a.len(),
{
    if a.len() == 0 {
        Seq::empty()
    } else {
        packing_violations(a.drop_last(), attr, kind) + (if a.last() is PragmaPack || (attr
            && a.last() is AttrPacked) {
            seq![error(kind)]
        } else {
            Seq::empty()
        })
    }
}

/// One error of the kind `kind` if there are annotations.
pub open spec fn annotated_violations(a: Seq<Annotation>, kind: ErrorKind) -> Seq<Error> {
    if a.len() != 0 {
        seq![error(kind)]
    } else {
        Seq::empty()
    }
}

/// What is wrong with the name and the width of a field: a bit-field of
/// width 0 has a name, or a field that is no bit-field has none.
pub open spec fn field_shape_violations(bit_width: Option<u64>, named: bool) -> Seq<Error> {
    if bit_width == Some(0u64) && named {
        seq![error(ErrorKind::NamedZeroSizeBitField)]
    } else if bit_width is None && !named {
        seq![error(ErrorKind::UnnamedRegularField)]
    } else {
        Seq::empty()
    }
}

/// What is wrong with a field, leaving its type aside: its name and width,
/// then each `PragmaPack` among its annotations, then its annotations.
pub open spec fn field_own_violations(f: RecordFieldView<(), ()>) -> Seq<Error> {
    field_shape_violations(f.bit_width, f.named) + packing_violations(
        f.annotations,
        false,
        ErrorKind::PragmaPackedField,
    ) + annotation_violations(f.annotations)
}

/// What is wrong with an opaque type: it has annotations, its size is no
/// whole number of bytes, its alignments are not valid.
pub open spec fn opaque_violations(a: Seq<Annotation>, layout: TypeLayout) -> Seq<Error> {
    annotated_violations(a, ErrorKind::AnnotatedOpaqueType) + (if layout.size_bits % BITS_PER_BYTE
        != 0 {
        seq![error(ErrorKind::SubByteSize)]
    } else {
        Seq::empty()
    }) + alignment_violations(layout.field_alignment_bits) + alignment_violations(
        layout.required_alignment_bits,
    )
}

/// The sequences of `parts`, one after the other.
pub open spec fn concat(parts: Seq<Seq<Error>>) -> Seq<Error>
    decreases parts.len(),
{
    if parts.len() == 0 {
        Seq::empty()
    } else {
        concat(parts.drop_last()) + parts.last()
    }
}

/// Everything that is wrong with the type `ty`, in the order in which a
/// walk from the root meets it: the annotations of a type come before what
/// its kind forbids, and this before the fields or the type below.
pub open spec fn type_violations(ty: TypeView<(), ()>) -> Seq<Error>
    decreases ty,
{
    annotation_violations(ty.annotations) + (match ty.variant {
        TypeVariantView::Builtin(_) => annotated_violations(
            ty.annotations,
            ErrorKind::AnnotatedBuiltinType,
        ),
        TypeVariantView::Array(a) => annotated_violations(ty.annotations, ErrorKind::AnnotatedArray)
            + type_violations(*a.element_type),
        TypeVariantView::Record(r) => concat(fields_violations(r.fields)),
        TypeVariantView::Opaque(layout) => opaque_violations(ty.annotations, layout),
        TypeVariantView::Typedef(t) => packing_violations(
            ty.annotations,
            true,
            ErrorKind::PackedTypedef,
        ) + type_violations(*t),
    })
}

/// What is wrong with each field of a record.
pub open spec fn fields_violations(fields: Seq<RecordFieldView<(), ()>>) -> Seq<Seq<Error>>
    decreases fields,
{
    Seq::new(
        fields.len(),
        |i: int|
            if 0 <= i < fields.len() {
                field_violations(fields[i])
            } else {
                Seq::empty()
            },
    )
}

/// Everything that is wrong with the field `f`: what
/// `field_own_violations` lists, then what is wrong with its type.
pub open spec fn field_violations(f: RecordFieldView<(), ()>) -> Seq<Error>
    decreases f,
{
    field_own_violations(f) + type_violations(f.ty)
}

/// Where nothing is wrong in a sequence of parts, nothing is wrong in any
/// of them.
pub proof fn lemma_concat_empty(parts: Seq<Seq<Error>>, i: int)
    requires
        concat(parts).len() == 0,
        0 <= i < parts.len(),
    ensures
        parts[i].len() == 0,
    decreases parts.len(),
{
    if i < parts.len() - 1 {
        lemma_concat_empty(parts.drop_last(), i);
    }
}

/// Where nothing is wrong with a type, nothing is wrong with the types
/// below it, and the layout of an opaque type is valid.
pub proof fn lemma_no_violations_below(ty: TypeView<(), ()>)
    requires
        type_violations(ty).len() == 0,
    ensures
        ty.variant matches TypeVariantView::Array(a) ==> type_violations(*a.element_type).len()
            == 0,
        ty.variant matches TypeVariantView::Typedef(t) ==> type_violations(*t).len() == 0,
        ty.variant matches TypeVariantView::Opaque(layout) ==> layout.valid(),
        ty.variant matches TypeVariantView::Record(r) ==> forall|i: int|
            0 <= i < r.fields.len() ==> type_violations((#[trigger] r.fields[i]).ty).len() == 0,
{
    reveal(alignment_violations);
    match ty.variant {
        TypeVariantView::Record(r) => {
            assert forall|i: int| 0 <= i < r.fields.len() implies type_violations(
                (#[trigger] r.fields[i]).ty,
            ).len() == 0 by {
                lemma_concat_empty(fields_violations(r.fields), i);
            }
        },
        _ => {},
    }
}

/// A walk over a type that collects what is wrong with it.
pub struct PreValidator(pub Vec<Error>);

impl PreValidator {
    /// Adds what is wrong with `a` as an alignment in bits.
    pub fn validate_alignment(&mut self, a: u64)
        ensures
            final(self).0@ == old(self).0@ + alignment_violations(a),
    {
        proof {
            reveal(alignment_violations);
        }
        if a % BITS_PER_BYTE != 0 {
            self.0.push(err(ErrorKind::SubByteAlignment));
        }
        if !is_power_of_two_u64(a) {
            self.0.push(err(ErrorKind::PowerOfTwoAlignment));
        }
        assert(self.0@ =~= old(self).0@ + alignment_violations(a));
    }

    /// Adds what is wrong with the annotations `a` of a type or of a field.
    pub fn visit_annotations(&mut self, a: &[Annotation])
        ensures
            final(self).0@ == old(self).0@ + annotation_violations(a@),
    {
        let mut num_pragma_packed: usize = 0;
        let mut i: usize = 0;
        while i < a.len()
            invariant
                i <= a.len(),
                num_pragma_packed == num_pragma_pack(a@.take(i as int)),
                num_pragma_packed <= i,
                self.0@ == old(self).0@ + aligned_violations(a@.take(i as int)),
            decreases a.len() - i,
        {
            proof {
                assert(a@.take(i + 1).drop_last() =~= a@.take(i as int));
                assert(a@.take(i + 1).last() == a@[i as int]);
            }
            match a[i] {
                Annotation::PragmaPack(_) => {
                    num_pragma_packed += 1;
                },
                Annotation::AttrPacked => {},
                Annotation::Aligned(None) => {},
                Annotation::Aligned(Some(n)) => {
                    self.validate_alignment(n);
                },
            }
            assert(self.0@ =~= old(self).0@ + aligned_violations(a@.take(i + 1)));
            i += 1;
        }
        assert(a@.take(a.len() as int) =~= a@);
        if num_pragma_packed > 1 {
            self.0.push(err(ErrorKind::MultiplePragmaPackedAnnotations));
        }
        assert(self.0@ =~= old(self).0@ + annotation_violations(a@));
    }

    /// Adds one error of the kind `kind` for each annotation in `a` that
    /// packs: every `PragmaPack`, and every `AttrPacked` too if `attr` is
    /// set.
    fn visit_packing(&mut self, a: &Vec<Annotation>, attr: bool, kind: ErrorKind)
        ensures
            final(self).0@ == old(self).0@ + packing_violations(a@, attr, kind),
    {
        let mut i: usize = 0;
        while i < a.len()
            invariant
                i <= a.len(),
                self.0@ == old(self).0@ + packing_violations(a@.take(i as int), attr, kind),
            decreases a.len() - i,
        {
            proof {
                assert(a@.take(i + 1).drop_last() =~= a@.take(i as int));
                assert(a@.take(i + 1).last() == a@[i as int]);
            }
            match a[i] {
                Annotation::PragmaPack(_) => {
                    self.0.push(err(kind));
                },
                Annotation::AttrPacked => {
                    if attr {
                        self.0.push(err(kind));
                    }
                },
                Annotation::Aligned(_) => {},
            }
            assert(self.0@ =~= old(self).0@ + packing_violations(a@.take(i + 1), attr, kind));
            i += 1;
        }
        assert(a@.take(a.len() as int) =~= a@);
    }

    /// Adds everything that is wrong with the type `ty`.
    pub fn visit_type(&mut self, ty: &Type<(), ()>)
        ensures
            final(self).0@ == old(self).0@ + type_violations(ty@),
        decreases ty, 1nat,
    {
        self.visit_annotations(ty.annotations.as_slice());
        match &ty.variant {
            TypeVariant::Builtin(bi) => self.visit_builtin_type(*bi, ty),
            TypeVariant::Array(at) => self.visit_array(at, ty),
            TypeVariant::Record(rt) => self.visit_record(rt, ty),
            TypeVariant::Opaque(layout) => self.visit_opaque_type(*layout, ty),
            TypeVariant::Typedef(dst) => self.visit_typedef(dst, ty),
        }
        assert(self.0@ =~= old(self).0@ + type_violations(ty@)) by {
            if ty.variant is Record {
                crate::layout::lemma_view_of_record(*ty);
            }
        }
    }

    /// Adds what is wrong with the builtin type `ty`: it has annotations.
    pub fn visit_builtin_type(&mut self, bi: BuiltinType, ty: &Type<(), ()>)
        ensures
            final(self).0@ == old(self).0@ + annotated_violations(
                ty@.annotations,
                ErrorKind::AnnotatedBuiltinType,
            ),
    {
        if ty.annotations.len() != 0 {
            self.0.push(err(ErrorKind::AnnotatedBuiltinType));
        }
        assert(self.0@ =~= old(self).0@ + annotated_violations(
            ty@.annotations,
            ErrorKind::AnnotatedBuiltinType,
        ));
    }

    /// Adds what is wrong with the fields of the record type `ty`, field by
    /// field.
    pub fn visit_record(&mut self, rt: &Record<(), ()>, ty: &Type<(), ()>)
        requires
            ty.variant == TypeVariant::Record(*rt),
        ensures
            final(self).0@ == old(self).0@ + concat(fields_violations(rt@.fields)),
        decreases ty, 0nat,
    {
        let ghost parts = fields_violations(rt@.fields);
        let mut i: usize = 0;
        while i < rt.fields.len()
            invariant
                i <= rt.fields.len(),
                ty.variant == TypeVariant::Record(*rt),
                parts == fields_violations(rt@.fields),
                parts.len() == rt.fields.len(),
                self.0@ == old(self).0@ + concat(parts.take(i as int)),
            decreases rt.fields.len() - i,
        {
            proof {
                assert(parts.take(i + 1).drop_last() =~= parts.take(i as int));
                assert(parts.take(i + 1).last() == field_violations(rt.fields[i as int]@));
                crate::layout::lemma_field_decreases(*ty, i as int);
            }
            self.visit_record_field(&rt.fields[i], rt, ty);
            assert(self.0@ =~= old(self).0@ + concat(parts.take(i + 1)));
            i += 1;
        }
        assert(parts.take(rt.fields.len() as int) =~= parts);
    }

    /// Adds everything that is wrong with the field `field` and its type.
    pub fn visit_record_field(
        &mut self,
        field: &RecordField<(), ()>,
        rt: &Record<(), ()>,
        ty: &Type<(), ()>,
    )
        ensures
            final(self).0@ == old(self).0@ + field_violations(field@),
        decreases field, 2nat,
    {
        match (field.bit_width, field.named) {
            (Some(0), true) => self.0.push(err(ErrorKind::NamedZeroSizeBitField)),
            (None, false) => self.0.push(err(ErrorKind::UnnamedRegularField)),
            _ => {},
        }
        assert(self.0@ =~= old(self).0@ + field_shape_violations(field.bit_width, field.named));
        self.visit_packing(&field.annotations, false, ErrorKind::PragmaPackedField);
        self.visit_annotations(field.annotations.as_slice());
        self.visit_type(&field.ty);
        assert(self.0@ =~= old(self).0@ + field_violations(field@));
    }

    /// Adds what is wrong with the typedef `ty` of the type `dst`: each of
    /// its annotations that packs, then everything that is wrong with `dst`.
    pub fn visit_typedef(&mut self, dst: &Type<(), ()>, ty: &Type<(), ()>)
        requires
            ty.variant == TypeVariant::Typedef(Box::new(*dst)),
        ensures
            final(self).0@ == old(self).0@ + packing_violations(
                ty@.annotations,
                true,
                ErrorKind::PackedTypedef,
            ) + type_violations(dst@),
        decreases ty, 0nat,
    {
        self.visit_packing(&ty.annotations, true, ErrorKind::PackedTypedef);
        self.visit_type(dst);
    }

    /// Adds what is wrong with the array type `ty`: it has annotations; then
    /// everything that is wrong with the type of its elements.
    pub fn visit_array(&mut self, at: &Array<(), ()>, ty: &Type<(), ()>)
        requires
            ty.variant == TypeVariant::Array(*at),
        ensures
            final(self).0@ == old(self).0@ + annotated_violations(
                ty@.annotations,
                ErrorKind::AnnotatedArray,
            ) + type_violations(*at@.element_type),
        decreases ty, 0nat,
    {
        if ty.annotations.len() != 0 {
            self.0.push(err(ErrorKind::AnnotatedArray));
        }
        assert(self.0@ =~= old(self).0@ + annotated_violations(
            ty@.annotations,
            ErrorKind::AnnotatedArray,
        ));
        self.visit_type(&at.element_type);
    }

    /// Adds what is wrong with the opaque type `ty` of the layout `layout`.
    pub fn visit_opaque_type(&mut self, layout: TypeLayout, ty: &Type<(), ()>)
        ensures
            final(self).0@ == old(self).0@ + opaque_violations(ty@.annotations, layout),
    {
        if ty.annotations.len() != 0 {
            self.0.push(err(ErrorKind::AnnotatedOpaqueType));
        }
        if layout.size_bits % BITS_PER_BYTE != 0 {
            self.0.push(err(ErrorKind::SubByteSize));
        }
        assert(self.0@ =~= old(self).0@ + annotated_violations(
            ty@.annotations,
            ErrorKind::AnnotatedOpaqueType,
        ) + (if layout.size_bits % BITS_PER_BYTE != 0 {
            seq![error(ErrorKind::SubByteSize)]
        } else {
            Seq::empty()
        }));
        self.validate_alignment(layout.field_alignment_bits);
        self.validate_alignment(layout.required_alignment_bits);
        assert(self.0@ =~= old(self).0@ + opaque_violations(ty@.annotations, layout));
    }
}

/// Checks the type `ty` and returns the first thing that is wrong with it.
pub fn pre_validate(ty: &Type<(), ()>) -> (r: Result<(), Error>)
    ensures
        r is Ok <==> type_violations(ty@).len() == 0,
        r matches Err(e) ==> e == type_violations(ty@)[0],
{
    let mut pv = PreValidator(Vec::new());
    pv.visit_type(ty);
    assert(pv.0@ =~= type_violations(ty@));
    if pv.0.len() > 0 {
        Err(pv.0[0])
    } else {
        Ok(())
    }
}

/// The layout rules of each target: those of its family.
pub open spec fn rules_of(target: Target) -> Rules {
    match family_of(target) {
        Family::SysV => sysv_like::sysv::rules_of(target),
        Family::MinGW => sysv_like::mingw::rules_of(target),
        Family::Msvc => msvc::rules_of(target),
    }
}

/// What the computation of the layout of `ty` on `target` gives. If
/// something is wrong with the type, it is the first such thing. If not,
/// it is the type laid out by the rules of the target, or `SizeOverflow`
/// if a size or an offset in it does not fit in 64 bits.
pub open spec fn layout_of(target: Target, ty: TypeView<(), ()>) -> Result<
    TypeView<TypeLayout, FieldLayout>,
    Error,
> {
    if type_violations(ty).len() > 0 {
        Err(type_violations(ty)[0])
    } else {
        match laid_out(rules_of(target), target, ty) {
            Some(t) => Ok(t),
            None => Err(error(ErrorKind::SizeOverflow)),
        }
    }
}

/// Whether `r` is what the computation of the layout of `ty` on `target`
/// gives.
pub open spec fn is_layout_of(
    target: Target,
    ty: TypeView<(), ()>,
    r: Result<Type<TypeLayout, FieldLayout>, Error>,
) -> bool {
    match layout_of(target, ty) {
        Ok(t) => r matches Ok(out) && out@ == t,
        Err(e) => r matches Err(x) && x == e,
    }
}

/// Computes the layout of the type `ty` and of all types below it on the
/// target `target`.
///
/// The type is checked first. If something is wrong with it, the first
/// such thing is the error and nothing is laid out. Else the type is laid
/// out by the rules of the family of the target; the result is `ty` with
/// layouts added, and every layout in it is valid.
pub fn compute_layout(target: Target, ty: &Type<(), ()>) -> (r: Result<
    Type<TypeLayout, FieldLayout>,
    Error,
>)
    ensures
        is_layout_of(target, ty@, r),
        r matches Ok(out) ==> layouts_valid(out@) && without_layouts(out@) == ty@,
{
    match pre_validate(ty) {
        Ok(()) => {},
        Err(e) => {
            return Err(e);
        },
    }
    proof {
        sysv_like::sysv::lemma_rules_wf(target);
        sysv_like::mingw::lemma_rules_wf(target);
        msvc::lemma_rules_wf(target);
        lemma_laid_out_valid(rules_of(target), target, ty@);
        lemma_laid_out_keeps_type(rules_of(target), target, ty@);
    }
    match family(target) {
        Family::Msvc => msvc::compute_layout(target, ty),
        Family::MinGW => sysv_like::mingw::compute_layout(target, ty),
        Family::SysV => sysv_like::sysv::compute_layout(target, ty),
    }
}

/// Computing the layout of one type on one target twice gives the same
/// both times: the same error, or types with the same view.
pub proof fn lemma_compute_layout_deterministic(
    target: Target,
    ty: TypeView<(), ()>,
    first: Result<Type<TypeLayout, FieldLayout>, Error>,
    second: Result<Type<TypeLayout, FieldLayout>, Error>,
)
    requires
        is_layout_of(target, ty, first),
        is_layout_of(target, ty, second),
    ensures
        match (first, second) {
            (Ok(a), Ok(b)) => a@ == b@,
            (Err(a), Err(b)) => a == b,
            _ => false,
        },
{
}

/// Whether the field `f` is a field of the record `ty` or of a record
/// below it.
pub open spec fn occurs_in(f: RecordFieldView<(), ()>, ty: TypeView<(), ()>) -> bool
    decreases ty,
{
    match ty.variant {
        TypeVariantView::Builtin(_) => false,
        TypeVariantView::Opaque(_) => false,
        TypeVariantView::Array(a) => occurs_in(f, *a.element_type),
        TypeVariantView::Typedef(t) => occurs_in(f, *t),
        TypeVariantView::Record(r) => exists|i: int|
            0 <= i < r.fields.len() && (r.fields[i] == f || occurs_in(
                f,
                (#[trigger] r.fields[i]).ty,
            )),
    }
}

/// All of a part is in the whole.
pub proof fn lemma_concat_contains(parts: Seq<Seq<Error>>, i: int, e: Error)
    requires
        0 <= i < parts.len(),
        parts[i].contains(e),
    ensures
        concat(parts).contains(e),
    decreases parts.len(),
{
    let k = choose|k: int| 0 <= k < parts[i].len() && parts[i][k] == e;
    if i < parts.len() - 1 {
        lemma_concat_contains(parts.drop_last(), i, e);
        let k2 = choose|k2: int|
            0 <= k2 < concat(parts.drop_last()).len() && concat(parts.drop_last())[k2] == e;
        assert(concat(parts)[k2] == e);
    } else {
        assert(concat(parts)[concat(parts.drop_last()).len() + k] == e);
    }
}

/// What is wrong with a field that occurs in a type is wrong with the
/// type.
pub proof fn lemma_field_violations_reported(
    f: RecordFieldView<(), ()>,
    ty: TypeView<(), ()>,
    e: Error,
)
    requires
        occurs_in(f, ty),
        field_own_violations(f).contains(e),
    ensures
        type_violations(ty).contains(e),
    decreases ty,
{
    let own = annotation_violations(ty.annotations);
    match ty.variant {
        TypeVariantView::Builtin(_) => {},
        TypeVariantView::Opaque(_) => {},
        TypeVariantView::Array(a) => {
            lemma_field_violations_reported(f, *a.element_type, e);
            let below = type_violations(*a.element_type);
            let k = choose|k: int| 0 <= k < below.len() && below[k] == e;
            let before = own + annotated_violations(ty.annotations, ErrorKind::AnnotatedArray);
            assert(type_violations(ty) =~= before + below);
            assert(type_violations(ty)[before.len() + k] == e);
        },
        TypeVariantView::Typedef(t) => {
            lemma_field_violations_reported(f, *t, e);
            let below = type_violations(*t);
            let k = choose|k: int| 0 <= k < below.len() && below[k] == e;
            let before = own + packing_violations(
                ty.annotations,
                true,
                ErrorKind::PackedTypedef,
            );
            assert(type_violations(ty) =~= before + below);
            assert(type_violations(ty)[before.len() + k] == e);
        },
        TypeVariantView::Record(r) => {
            let i = choose|i: int|
                0 <= i < r.fields.len() && (r.fields[i] == f || occurs_in(
                    f,
                    (#[trigger] r.fields[i]).ty,
                ));
            let parts = fields_violations(r.fields);
            let below = type_violations(r.fields[i].ty);
            let mine = field_own_violations(r.fields[i]);
            if r.fields[i] == f {
                let k = choose|k: int| 0 <= k < mine.len() && mine[k] == e;
                assert(parts[i][k] == e);
            } else {
                lemma_field_violations_reported(f, r.fields[i].ty, e);
                let k = choose|k: int| 0 <= k < below.len() && below[k] == e;
                assert(parts[i][mine.len() + k] == e);
            }
            lemma_concat_contains(parts, i, e);
            let all = concat(parts);
            let k = choose|k: int| 0 <= k < all.len() && all[k] == e;
            assert(type_violations(ty)[own.len() + k] == e);
        },
    }
}

/// A type in which a bit-field of width 0 has a name is rejected on every
/// target, and `NamedZeroSizeBitField` is among what is wrong with it.
pub proof fn lemma_named_zero_width_bit_field_rejected(
    target: Target,
    ty: TypeView<(), ()>,
    f: RecordFieldView<(), ()>,
)
    requires
        occurs_in(f, ty),
        f.bit_width == Some(0u64),
        f.named,
    ensures
        type_violations(ty).contains(error(ErrorKind::NamedZeroSizeBitField)),
        layout_of(target, ty) is Err,
{
    let e = error(ErrorKind::NamedZeroSizeBitField);
    assert(field_own_violations(f)[0] == e);
    lemma_field_violations_reported(f, ty, e);
}

/// A type in which a field that is no bit-field has no name is rejected on
/// every target, and `UnnamedRegularField` is among what is wrong with it.
pub proof fn lemma_unnamed_regular_field_rejected(
    target: Target,
    ty: TypeView<(), ()>,
    f: RecordFieldView<(), ()>,
)
    requires
        occurs_in(f, ty),
        f.bit_width is None,
        !f.named,
    ensures
        type_violations(ty).contains(error(ErrorKind::UnnamedRegularField)),
        layout_of(target, ty) is Err,
{
    let e = error(ErrorKind::UnnamedRegularField);
    assert(field_own_violations(f)[0] == e);
    lemma_field_violations_reported(f, ty, e);
}

/// A type with which something is wrong is rejected on every target with
/// one of the things that are wrong with it. So a type with which only
/// things of one kind are wrong is rejected with that kind.
pub proof fn lemma_rejected_with_a_violation(target: Target, ty: TypeView<(), ()>)
    requires
        type_violations(ty).len() > 0,
    ensures
        layout_of(target, ty) matches Err(e) && type_violations(ty).contains(e),
        forall|kind: ErrorKind|
            (forall|k: int|
                0 <= k < type_violations(ty).len() ==> (#[trigger] type_violations(ty)[k]).kind
                    == kind) ==> layout_of(target, ty) == Err::<
                TypeView<TypeLayout, FieldLayout>,
                Error,
            >(error(kind)),
{
    assert(type_violations(ty)[0] == type_violations(ty)[0]);
}

} // verus!
