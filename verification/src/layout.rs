//! The type tree, before and after layout, and its mathematical view.

use crate::util::{valid_alignment, BITS_PER_BYTE};
use vstd::prelude::*;

verus! {

/// An annotation of a type or of a field.
#[derive(Clone, Copy, Debug, PartialEq, Eq, Hash)]
pub enum Annotation {
    /// `#pragma pack(n)` in scope, with the limit in bits.
    PragmaPack(u64),
    /// `__attribute__((packed))`.
    AttrPacked,
    /// An alignment request in bits. `None` asks for the default alignment of
    /// the target.
    Aligned(Option<u64>),
}

/// A scalar type whose size and alignment the target defines.
#[derive(Clone, Copy, Debug, PartialEq, Eq, Hash)]
pub enum BuiltinType {
    Unit,
    Bool,
    U8,
    U16,
    U32,
    U64,
    U128,
    I8,
    I16,
    I32,
    I64,
    I128,
    Char,
    SignedChar,
    UnsignedChar,
    Short,
    UnsignedShort,
    Int,
    UnsignedInt,
    Long,
    UnsignedLong,
    LongLong,
    UnsignedLongLong,
    F32,
    F64,
    Float,
    Double,
    Pointer,
}

/// Whether a record is a struct or a union.
#[derive(Clone, Copy, Debug, PartialEq, Eq, Hash)]
pub enum RecordKind {
    Struct,
    Union,
}

/// The layout of a type.
#[derive(Clone, Copy, Debug, PartialEq, Eq, Hash)]
pub struct TypeLayout {
    /// The size of the type in bits.
    pub size_bits: u64,
    /// The alignment of the type, in bits, when it is the type of a field.
    pub field_alignment_bits: u64,
    /// The alignment in bits that packing cannot take from the type.
    pub required_alignment_bits: u64,
}

impl TypeLayout {
    /// The size is a whole number of bytes, and both alignments are powers
    /// of two and whole numbers of bytes.
    pub open spec fn valid(self) -> bool {
        &&& self.size_bits % BITS_PER_BYTE == 0
        &&& valid_alignment(self.field_alignment_bits)
        &&& valid_alignment(self.required_alignment_bits)
    }
}

/// The layout of a field within its record.
#[derive(Clone, Copy, Debug, PartialEq, Eq, Hash)]
pub struct FieldLayout {
    /// The offset of the field from the start of the record, in bits.
    pub offset_bits: u64,
    /// The size of the field in bits: the width of a bit-field, the size of
    /// the type otherwise.
    pub size_bits: u64,
}

/// A type. `L` is what each type carries and `F` what each field carries:
/// `()` before the layout has been computed, `TypeLayout` and `FieldLayout`
/// after.
#[derive(Debug, PartialEq, Eq)]
pub struct Type<L, F> {
    pub layout: L,
    pub annotations: Vec<Annotation>,
    pub variant: TypeVariant<L, F>,
}

/// The kinds of types.
#[derive(Debug, PartialEq, Eq)]
pub enum TypeVariant<L, F> {
    Builtin(BuiltinType),
    Array(Array<L, F>),
    Record(Record<L, F>),
    /// A type of which only the layout is known.
    Opaque(TypeLayout),
    Typedef(Box<Type<L, F>>),
}

/// An array type.
#[derive(Debug, PartialEq, Eq)]
pub struct Array<L, F> {
    pub element_type: Box<Type<L, F>>,
    pub num_elements: u64,
}

/// A struct or a union.
#[derive(Debug, PartialEq, Eq)]
pub struct Record<L, F> {
    pub kind: RecordKind,
    pub fields: Vec<RecordField<L, F>>,
}

/// A field of a record.
#[derive(Debug, PartialEq, Eq)]
pub struct RecordField<L, F> {
    pub layout: F,
    /// The name of the field, where it is known. The layout does not
    /// depend on it.
    pub name: Option<String>,
    pub annotations: Vec<Annotation>,
    /// Whether the field has a name. Only bit-fields can be unnamed.
    pub named: bool,
    /// The width in bits, if this is a bit-field.
    pub bit_width: Option<u64>,
    pub ty: Type<L, F>,
}

/// The view of a `Type`.
pub struct TypeView<L, F> {
    pub layout: L,
    pub annotations: Seq<Annotation>,
    pub variant: TypeVariantView<L, F>,
}

/// The view of a `TypeVariant`.
pub enum TypeVariantView<L, F> {
    Builtin(BuiltinType),
    Array(ArrayView<L, F>),
    Record(RecordView<L, F>),
    Opaque(TypeLayout),
    Typedef(Box<TypeView<L, F>>),
}

/// The view of an `Array`.
pub struct ArrayView<L, F> {
    pub element_type: Box<TypeView<L, F>>,
    pub num_elements: u64,
}

/// The view of a `Record`.
pub struct RecordView<L, F> {
    pub kind: RecordKind,
    pub fields: Seq<RecordFieldView<L, F>>,
}

/// The view of a `RecordField`.
pub struct RecordFieldView<L, F> {
    pub layout: F,
    pub name: Option<Seq<char>>,
    pub annotations: Seq<Annotation>,
    pub named: bool,
    pub bit_width: Option<u64>,
    pub ty: TypeView<L, F>,
}

/// The text of a name that may be there.
pub open spec fn name_view(name: Option<String>) -> Option<Seq<char>> {
    match name {
        Some(s) => Some(s@),
        None => None,
    }
}

/// The view of a type: the same tree with each `Vec` taken as a `Seq` and
/// each name as its text.
pub open spec fn type_view<L, F>(ty: Type<L, F>) -> TypeView<L, F>
    decreases ty,
{
    TypeView {
        layout: ty.layout,
        annotations: ty.annotations@,
        variant: match ty.variant {
            TypeVariant::Builtin(b) => TypeVariantView::Builtin(b),
            TypeVariant::Array(a) => TypeVariantView::Array(
                ArrayView {
                    element_type: Box::new(type_view(*a.element_type)),
                    num_elements: a.num_elements,
                },
            ),
            TypeVariant::Record(r) => TypeVariantView::Record(
                RecordView {
                    kind: r.kind,
                    fields: Seq::new(
                        r.fields.len() as nat,
                        |i: int|
                            if 0 <= i < r.fields.len() {
                                RecordFieldView {
                                    layout: r.fields[i].layout,
                                    name: name_view(r.fields[i].name),
                                    annotations: r.fields[i].annotations@,
                                    named: r.fields[i].named,
                                    bit_width: r.fields[i].bit_width,
                                    ty: type_view(r.fields[i].ty),
                                }
                            } else {
                                arbitrary()
                            },
                    ),
                },
            ),
            TypeVariant::Opaque(l) => TypeVariantView::Opaque(l),
            TypeVariant::Typedef(t) => TypeVariantView::Typedef(Box::new(type_view(*t))),
        },
    }
}

impl<L, F> View for Type<L, F> {
    type V = TypeView<L, F>;

    open spec fn view(&self) -> TypeView<L, F> {
        type_view(*self)
    }
}

impl<L, F> View for RecordField<L, F> {
    type V = RecordFieldView<L, F>;

    open spec fn view(&self) -> RecordFieldView<L, F> {
        RecordFieldView {
            layout: self.layout,
            name: name_view(self.name),
            annotations: self.annotations@,
            named: self.named,
            bit_width: self.bit_width,
            ty: self.ty@,
        }
    }
}

impl<L, F> View for Record<L, F> {
    type V = RecordView<L, F>;

    open spec fn view(&self) -> RecordView<L, F> {
        RecordView {
            kind: self.kind,
            fields: Seq::new(self.fields.len() as nat, |i: int| self.fields[i]@),
        }
    }
}

impl<L, F> View for Array<L, F> {
    type V = ArrayView<L, F>;

    open spec fn view(&self) -> ArrayView<L, F> {
        ArrayView { element_type: Box::new(self.element_type@), num_elements: self.num_elements }
    }
}

/// The view of a record type is the view of its record.
pub proof fn lemma_view_of_record<L, F>(ty: Type<L, F>)
    requires
        ty.variant is Record,
    ensures
        ty@.variant == TypeVariantView::Record(ty.variant->Record_0@),
        ty@.annotations == ty.annotations@,
        ty@.layout == ty.layout,
{
    let r = ty.variant->Record_0;
    assert(ty@.variant->Record_0.fields =~= r@.fields);
}

/// A field of a record type is smaller than the type.
pub proof fn lemma_field_decreases<L, F>(ty: Type<L, F>, i: int)
    requires
        ty.variant is Record,
        0 <= i < ty.variant->Record_0.fields.len(),
    ensures
        decreases_to!(ty => ty.variant->Record_0.fields[i]),
{
    vstd::std_specs::vec::axiom_vec_index_decreases(ty.variant->Record_0.fields, i);
    assert(decreases_to!(ty.variant => ty.variant->Record_0));
}

/// A copy of the annotations `a`.
pub fn copy_annotations(a: &Vec<Annotation>) -> (r: Vec<Annotation>)
    ensures
        r@ == a@,
{
    let mut r: Vec<Annotation> = Vec::new();
    let mut i: usize = 0;
    while i < a.len()
        invariant
            i <= a.len(),
            r@ == a@.take(i as int),
        decreases a.len() - i,
    {
        r.push(a[i]);
        assert(r@ =~= a@.take(i + 1));
        i += 1;
    }
    assert(a@.take(a.len() as int) =~= a@);
    r
}

impl Type<(), ()> {
    /// The builtin type `ty`, without annotations.
    pub fn builtin(ty: BuiltinType) -> (r: Self)
        ensures
            r@ == (TypeView::<(), ()> {
                layout: (),
                annotations: Seq::empty(),
                variant: TypeVariantView::Builtin(ty),
            }),
    {
        Type { layout: (), annotations: Vec::new(), variant: TypeVariant::Builtin(ty) }
    }

    /// The opaque type of the layout `layout`, without annotations.
    pub fn opaque(layout: TypeLayout) -> (r: Self)
        ensures
            r@ == (TypeView::<(), ()> {
                layout: (),
                annotations: Seq::empty(),
                variant: TypeVariantView::Opaque(layout),
            }),
    {
        Type { layout: (), annotations: Vec::new(), variant: TypeVariant::Opaque(layout) }
    }

    /// The type of arrays of `num_elements` elements of the type
    /// `element_type`, without annotations.
    pub fn array(element_type: Self, num_elements: u64) -> (r: Self)
        ensures
            r@ == (TypeView::<(), ()> {
                layout: (),
                annotations: Seq::empty(),
                variant: TypeVariantView::Array(
                    ArrayView { element_type: Box::new(element_type@), num_elements },
                ),
            }),
    {
        Type {
            layout: (),
            annotations: Vec::new(),
            variant: TypeVariant::Array(Array { element_type: Box::new(element_type), num_elements }),
        }
    }

    /// The typedef of the type `ty` with the annotations `annotations`.
    pub fn typedef(annotations: Vec<Annotation>, ty: Self) -> (r: Self)
        ensures
            r@ == (TypeView::<(), ()> {
                layout: (),
                annotations: annotations@,
                variant: TypeVariantView::Typedef(Box::new(ty@)),
            }),
    {
        Type { layout: (), annotations, variant: TypeVariant::Typedef(Box::new(ty)) }
    }

    /// The record type of the kind `kind` with the annotations
    /// `annotations` and the fields `fields`.
    pub fn record(kind: RecordKind, annotations: Vec<Annotation>, fields: Vec<RecordField<(), ()>>)
        -> (r: Self)
        ensures
            r@ == (TypeView::<(), ()> {
                layout: (),
                annotations: annotations@,
                variant: TypeVariantView::Record((Record::<(), ()> { kind, fields })@),
            }),
    {
        let r = Type {
            layout: (),
            annotations,
            variant: TypeVariant::Record(Record { kind, fields }),
        };
        proof {
            lemma_view_of_record(r);
        }
        r
    }
}

impl RecordField<(), ()> {
    /// A field of the type `ty` that has a name and is no bit-field, with
    /// the annotations `annotations`. The name is not given.
    pub fn new(annotations: Vec<Annotation>, ty: Type<(), ()>) -> (r: Self)
        ensures
            r@ == (RecordFieldView::<(), ()> {
                layout: (),
                name: None,
                annotations: annotations@,
                named: true,
                bit_width: None,
                ty: ty@,
            }),
    {
        RecordField { layout: (), name: None, annotations, named: true, bit_width: None, ty }
    }

    /// A bit-field of the type `ty` and the width `width`, with the
    /// annotations `annotations`. The name is not given.
    pub fn bit_field(annotations: Vec<Annotation>, ty: Type<(), ()>, width: u64, named: bool) -> (r:
        Self)
        ensures
            r@ == (RecordFieldView::<(), ()> {
                layout: (),
                name: None,
                annotations: annotations@,
                named,
                bit_width: Some(width),
                ty: ty@,
            }),
    {
        RecordField { layout: (), name: None, annotations, named, bit_width: Some(width), ty }
    }

    /// The field with the name `name`.
    pub fn with_name(self, name: String) -> (r: Self)
        ensures
            r@ == (RecordFieldView::<(), ()> {
                layout: (),
                name: Some(name@),
                annotations: self@.annotations,
                named: true,
                bit_width: self@.bit_width,
                ty: self@.ty,
            }),
    {
        RecordField {
            layout: (),
            name: Some(name),
            annotations: self.annotations,
            named: true,
            bit_width: self.bit_width,
            ty: self.ty,
        }
    }
}

/// A copy of the name `name`.
pub fn copy_name(name: &Option<String>) -> (r: Option<String>)
    ensures
        name_view(r) == name_view(*name),
{
    match name {
        Some(s) => Some(s.clone()),
        None => None,
    }
}

} // verus!
