use repr_c::builder::compute_layout;
use repr_c::layout::{
    Annotation, BuiltinType, FieldLayout, RecordField, RecordKind, Type, TypeLayout, TypeVariant,
};
use repr_c::result::{Error, ErrorKind};
use repr_c::target::Target;

const LINUX: Target = Target::X86_64UnknownLinuxGnu;
const MSVC: Target = Target::X86_64PcWindowsMsvc;
const MINGW: Target = Target::X86_64PcWindowsGnu;

fn scalar(bi: BuiltinType) -> Type<(), ()> {
    Type::builtin(bi)
}

fn plain(bi: BuiltinType) -> RecordField<(), ()> {
    RecordField::new(vec![], scalar(bi))
}

fn bits(bi: BuiltinType, width: u64) -> RecordField<(), ()> {
    RecordField::bit_field(vec![], scalar(bi), width, width != 0)
}

fn of_struct(fields: Vec<RecordField<(), ()>>) -> Type<(), ()> {
    Type::record(RecordKind::Struct, vec![], fields)
}

fn of_union(fields: Vec<RecordField<(), ()>>) -> Type<(), ()> {
    Type::record(RecordKind::Union, vec![], fields)
}

fn field_layouts(ty: &Type<TypeLayout, FieldLayout>) -> Vec<(u64, u64)> {
    match &ty.variant {
        TypeVariant::Record(r) => {
            r.fields.iter().map(|f| (f.layout.offset_bits, f.layout.size_bits)).collect()
        }
        _ => panic!("not a record"),
    }
}

fn layout(size_bits: u64, field_alignment_bits: u64, required_alignment_bits: u64) -> TypeLayout {
    TypeLayout { size_bits, field_alignment_bits, required_alignment_bits }
}

#[test]
fn builtin_type_gets_target_layout() {
    let out = compute_layout(LINUX, &scalar(BuiltinType::Long)).unwrap();
    assert_eq!(out.layout, layout(64, 64, 8));
    assert_eq!(out.variant, TypeVariant::Builtin(BuiltinType::Long));
    let out = compute_layout(MSVC, &scalar(BuiltinType::Long)).unwrap();
    assert_eq!(out.layout, layout(32, 32, 8));
}

#[test]
fn opaque_type_keeps_its_layout() {
    let l = layout(24, 16, 8);
    let out = compute_layout(LINUX, &Type::opaque(l)).unwrap();
    assert_eq!(out.layout, l);
    let ty = of_struct(vec![RecordField::new(vec![], Type::opaque(l)), plain(BuiltinType::Int)]);
    let out = compute_layout(LINUX, &ty).unwrap();
    assert_eq!(field_layouts(&out), vec![(0, 24), (32, 32)]);
    assert_eq!(out.layout, layout(64, 32, 8));
}

#[test]
fn array_layout() {
    let out = compute_layout(LINUX, &Type::array(scalar(BuiltinType::Int), 10)).unwrap();
    assert_eq!(out.layout, layout(320, 32, 8));
    match &out.variant {
        TypeVariant::Array(a) => {
            assert_eq!(a.num_elements, 10);
            assert_eq!(a.element_type.layout, layout(32, 32, 8));
        }
        _ => panic!("not an array"),
    }
    let out = compute_layout(LINUX, &Type::array(scalar(BuiltinType::Double), 0)).unwrap();
    assert_eq!(out.layout, layout(0, 64, 8));
}

#[test]
fn array_in_struct() {
    let ty = of_struct(vec![
        plain(BuiltinType::Char),
        RecordField::new(vec![], Type::array(scalar(BuiltinType::Int), 3)),
    ]);
    let out = compute_layout(LINUX, &ty).unwrap();
    assert_eq!(field_layouts(&out), vec![(0, 8), (32, 96)]);
    assert_eq!(out.layout, layout(128, 32, 8));
}

#[test]
fn typedef_inherits_layout() {
    let out = compute_layout(LINUX, &Type::typedef(vec![], scalar(BuiltinType::Short))).unwrap();
    assert_eq!(out.layout, layout(16, 16, 8));
}

#[test]
fn aligned_typedef_raises_alignment() {
    let t = || Type::typedef(vec![Annotation::Aligned(Some(64))], scalar(BuiltinType::Int));
    let out = compute_layout(LINUX, &t()).unwrap();
    assert_eq!(out.layout, layout(32, 64, 8));
    let ty = of_struct(vec![plain(BuiltinType::Char), RecordField::new(vec![], t())]);
    let out = compute_layout(LINUX, &ty).unwrap();
    assert_eq!(field_layouts(&out), vec![(0, 8), (64, 32)]);
    assert_eq!(out.layout, layout(128, 64, 8));
    // Packing takes from the field what the typedef added.
    let ty = Type::record(
        RecordKind::Struct,
        vec![Annotation::PragmaPack(16)],
        vec![plain(BuiltinType::Char), RecordField::new(vec![], t())],
    );
    let out = compute_layout(LINUX, &ty).unwrap();
    assert_eq!(field_layouts(&out), vec![(0, 8), (16, 32)]);
    assert_eq!(out.layout, layout(48, 16, 8));
}

#[test]
fn aligned_typedef_never_lowers_alignment() {
    let t = Type::typedef(vec![Annotation::Aligned(Some(8))], scalar(BuiltinType::Int));
    let out = compute_layout(LINUX, &t).unwrap();
    assert_eq!(out.layout, layout(32, 32, 8));
}

#[test]
fn empty_struct() {
    let out = compute_layout(LINUX, &of_struct(vec![])).unwrap();
    assert_eq!(out.layout, layout(0, 8, 8));
    let out = compute_layout(MSVC, &of_struct(vec![])).unwrap();
    assert_eq!(out.layout, layout(0, 8, 8));
}

#[test]
fn record_with_fields_is_a_byte_at_least() {
    for target in [LINUX, MSVC, MINGW] {
        let ty = of_struct(vec![bits(BuiltinType::Int, 0)]);
        let out = compute_layout(target, &ty).unwrap();
        assert_eq!(field_layouts(&out), vec![(0, 0)]);
        assert_eq!(out.layout, layout(32, 32, 8));
        let ty = of_struct(vec![RecordField::new(
            vec![],
            Type::array(scalar(BuiltinType::Char), 0),
        )]);
        assert_eq!(compute_layout(target, &ty).unwrap().layout, layout(8, 8, 8));
        let ty = of_union(vec![plain(BuiltinType::Unit)]);
        assert_eq!(compute_layout(target, &ty).unwrap().layout, layout(8, 8, 8));
        let ty = of_union(vec![
            RecordField::new(vec![], Type::array(scalar(BuiltinType::LongLong), 0)),
            bits(BuiltinType::Short, 0),
        ]);
        assert_eq!(compute_layout(target, &ty).unwrap().layout, layout(64, 64, 8));
        assert_eq!(compute_layout(target, &of_union(vec![])).unwrap().layout, layout(0, 8, 8));
    }
}

#[test]
fn names_of_fields_are_kept() {
    let ty = of_struct(vec![
        plain(BuiltinType::Char).with_name("c".to_string()),
        RecordField::bit_field(vec![], scalar(BuiltinType::Int), 3, false)
            .with_name("flags".to_string()),
        bits(BuiltinType::Int, 0),
    ]);
    let out = compute_layout(LINUX, &ty).unwrap();
    match &out.variant {
        TypeVariant::Record(r) => {
            assert_eq!(r.fields[0].name, Some("c".to_string()));
            assert_eq!(r.fields[1].name, Some("flags".to_string()));
            assert!(r.fields[1].named);
            assert_eq!(r.fields[1].bit_width, Some(3));
            assert_eq!(r.fields[2].name, None);
        }
        _ => panic!("not a record"),
    }
    assert_eq!(field_layouts(&out), vec![(0, 8), (32, 3), (64, 0)]);
}

#[test]
fn nested_struct() {
    let inner = of_struct(vec![plain(BuiltinType::Char), plain(BuiltinType::Int)]);
    let ty = of_struct(vec![
        plain(BuiltinType::Char),
        RecordField::new(vec![], inner),
        plain(BuiltinType::Short),
    ]);
    for target in [LINUX, MSVC, MINGW] {
        let out = compute_layout(target, &ty).unwrap();
        assert_eq!(field_layouts(&out), vec![(0, 8), (32, 64), (96, 16)]);
        assert_eq!(out.layout, layout(128, 32, 8));
    }
}

#[test]
fn union_layout() {
    let ty = of_union(vec![
        plain(BuiltinType::Char),
        plain(BuiltinType::Int),
        plain(BuiltinType::Double),
    ]);
    for target in [LINUX, MSVC, MINGW] {
        let out = compute_layout(target, &ty).unwrap();
        assert_eq!(field_layouts(&out), vec![(0, 8), (0, 32), (0, 64)]);
        assert_eq!(out.layout, layout(64, 64, 8));
    }
}

#[test]
fn union_size_is_rounded_to_alignment() {
    let ty = of_union(vec![
        RecordField::new(vec![], Type::array(scalar(BuiltinType::Char), 5)),
        plain(BuiltinType::Int),
    ]);
    let out = compute_layout(LINUX, &ty).unwrap();
    assert_eq!(field_layouts(&out), vec![(0, 40), (0, 32)]);
    assert_eq!(out.layout, layout(64, 32, 8));
}

#[test]
fn union_with_bit_field() {
    let ty = of_union(vec![bits(BuiltinType::Int, 3), plain(BuiltinType::Char)]);
    let out = compute_layout(LINUX, &ty).unwrap();
    assert_eq!(field_layouts(&out), vec![(0, 3), (0, 8)]);
    assert_eq!(out.layout, layout(32, 32, 8));
    let out = compute_layout(MSVC, &ty).unwrap();
    assert_eq!(field_layouts(&out), vec![(0, 3), (0, 8)]);
    assert_eq!(out.layout, layout(32, 32, 8));
}

#[test]
fn attr_packed_struct() {
    let ty = Type::record(
        RecordKind::Struct,
        vec![Annotation::AttrPacked],
        vec![plain(BuiltinType::Char), plain(BuiltinType::Int), plain(BuiltinType::Short)],
    );
    let out = compute_layout(LINUX, &ty).unwrap();
    assert_eq!(field_layouts(&out), vec![(0, 8), (8, 32), (40, 16)]);
    assert_eq!(out.layout, layout(56, 8, 8));
}

#[test]
fn attr_packed_field() {
    let ty = of_struct(vec![
        plain(BuiltinType::Char),
        RecordField::new(vec![Annotation::AttrPacked], scalar(BuiltinType::Int)),
        plain(BuiltinType::Short),
    ]);
    let out = compute_layout(LINUX, &ty).unwrap();
    assert_eq!(field_layouts(&out), vec![(0, 8), (8, 32), (48, 16)]);
    assert_eq!(out.layout, layout(64, 16, 8));
}

#[test]
fn pragma_pack_2() {
    let ty = Type::record(
        RecordKind::Struct,
        vec![Annotation::PragmaPack(16)],
        vec![plain(BuiltinType::Char), plain(BuiltinType::Int), plain(BuiltinType::LongLong)],
    );
    for target in [LINUX, MSVC, MINGW] {
        let out = compute_layout(target, &ty).unwrap();
        assert_eq!(field_layouts(&out), vec![(0, 8), (16, 32), (48, 64)]);
        assert_eq!(out.layout, layout(112, 16, 8));
    }
}

#[test]
fn pragma_pack_above_natural_alignment_changes_nothing() {
    let fields = || vec![plain(BuiltinType::Char), plain(BuiltinType::Int)];
    let packed = Type::record(RecordKind::Struct, vec![Annotation::PragmaPack(128)], fields());
    let out = compute_layout(LINUX, &packed).unwrap();
    assert_eq!(field_layouts(&out), vec![(0, 8), (32, 32)]);
    assert_eq!(out.layout, layout(64, 32, 8));
}

#[test]
fn pragma_pack_that_is_no_alignment_is_ignored() {
    for n in [0, 1, 4, 24, 100] {
        let ty = Type::record(
            RecordKind::Struct,
            vec![Annotation::PragmaPack(n)],
            vec![plain(BuiltinType::Char), plain(BuiltinType::Int)],
        );
        let out = compute_layout(LINUX, &ty).unwrap();
        assert_eq!(field_layouts(&out), vec![(0, 8), (32, 32)]);
        assert_eq!(out.layout, layout(64, 32, 8));
    }
}

#[test]
fn aligned_field() {
    let inner = || {
        of_struct(vec![
            plain(BuiltinType::Char),
            RecordField::new(vec![Annotation::Aligned(Some(128))], scalar(BuiltinType::Int)),
        ])
    };
    let out = compute_layout(LINUX, &inner()).unwrap();
    assert_eq!(field_layouts(&out), vec![(0, 8), (128, 32)]);
    assert_eq!(out.layout, layout(256, 128, 128));
    // Packing does not take the required alignment from the inner struct.
    let outer = Type::record(
        RecordKind::Struct,
        vec![Annotation::AttrPacked, Annotation::PragmaPack(8)],
        vec![plain(BuiltinType::Char), RecordField::new(vec![], inner())],
    );
    let out = compute_layout(LINUX, &outer).unwrap();
    assert_eq!(field_layouts(&out), vec![(0, 8), (128, 256)]);
    assert_eq!(out.layout, layout(384, 128, 128));
}

#[test]
fn aligned_record() {
    let ty = Type::record(
        RecordKind::Struct,
        vec![Annotation::Aligned(Some(64)), Annotation::Aligned(Some(16))],
        vec![plain(BuiltinType::Char)],
    );
    let out = compute_layout(LINUX, &ty).unwrap();
    assert_eq!(out.layout, layout(64, 64, 64));
}

#[test]
fn default_alignment_by_rules() {
    let ty = Type::record(
        RecordKind::Struct,
        vec![Annotation::Aligned(None)],
        vec![plain(BuiltinType::Char)],
    );
    let expect = |target: Target, bits: u64| {
        let out = compute_layout(target, &ty).unwrap();
        assert_eq!(out.layout, layout(bits, bits, bits));
    };
    expect(Target::X86_64UnknownLinuxGnu, 128);
    expect(Target::I686UnknownLinuxGnu, 128);
    expect(Target::X86_64PcWindowsGnu, 128);
    expect(Target::I686PcWindowsGnu, 64);
    expect(Target::X86_64PcWindowsMsvc, 128);
    expect(Target::I686PcWindowsMsvc, 64);
    expect(Target::AvrUnknownUnknown, 8);
    expect(Target::Msp430NoneElf, 16);
}

#[test]
fn target_scalars_shape_the_record() {
    let ty = of_struct(vec![plain(BuiltinType::Char), plain(BuiltinType::LongLong)]);
    let out = compute_layout(Target::I686UnknownLinuxGnu, &ty).unwrap();
    assert_eq!(field_layouts(&out), vec![(0, 8), (32, 64)]);
    assert_eq!(out.layout, layout(96, 32, 8));
    let out = compute_layout(Target::I686PcWindowsMsvc, &ty).unwrap();
    assert_eq!(field_layouts(&out), vec![(0, 8), (64, 64)]);
    assert_eq!(out.layout, layout(128, 64, 8));
    let ty = of_struct(vec![plain(BuiltinType::Char), plain(BuiltinType::Int)]);
    let out = compute_layout(Target::AvrUnknownUnknown, &ty).unwrap();
    assert_eq!(field_layouts(&out), vec![(0, 8), (8, 16)]);
    assert_eq!(out.layout, layout(24, 8, 8));
    let out = compute_layout(Target::Msp430NoneElf, &ty).unwrap();
    assert_eq!(field_layouts(&out), vec![(0, 8), (16, 16)]);
    assert_eq!(out.layout, layout(32, 16, 8));
}

#[test]
fn bit_field_that_does_not_fit_opens_a_unit() {
    let ty = of_struct(vec![bits(BuiltinType::Int, 3), bits(BuiltinType::Int, 30)]);
    for target in [LINUX, MSVC, MINGW] {
        let out = compute_layout(target, &ty).unwrap();
        assert_eq!(field_layouts(&out), vec![(0, 3), (32, 30)]);
        assert_eq!(out.layout, layout(64, 32, 8));
    }
}

#[test]
fn bit_field_after_regular_field_opens_a_unit() {
    let ty = of_struct(vec![plain(BuiltinType::Char), bits(BuiltinType::Int, 3)]);
    for target in [LINUX, MSVC, MINGW] {
        let out = compute_layout(target, &ty).unwrap();
        assert_eq!(field_layouts(&out), vec![(0, 8), (32, 3)]);
        assert_eq!(out.layout, layout(64, 32, 8));
    }
}

#[test]
fn regular_field_after_bit_field() {
    let ty = of_struct(vec![bits(BuiltinType::Int, 3), plain(BuiltinType::Char)]);
    let out = compute_layout(LINUX, &ty).unwrap();
    assert_eq!(field_layouts(&out), vec![(0, 3), (8, 8)]);
    assert_eq!(out.layout, layout(32, 32, 8));
    // The Microsoft compiler gives the whole unit to the bit-field.
    let out = compute_layout(MSVC, &ty).unwrap();
    assert_eq!(field_layouts(&out), vec![(0, 3), (32, 8)]);
    assert_eq!(out.layout, layout(64, 32, 8));
}

#[test]
fn smaller_type_shares_the_unit_but_for_strict_units() {
    let ty = of_struct(vec![bits(BuiltinType::Int, 3), bits(BuiltinType::Char, 2)]);
    let out = compute_layout(LINUX, &ty).unwrap();
    assert_eq!(field_layouts(&out), vec![(0, 3), (3, 2)]);
    assert_eq!(out.layout, layout(32, 32, 8));
    let out = compute_layout(MINGW, &ty).unwrap();
    assert_eq!(field_layouts(&out), vec![(0, 3), (8, 2)]);
    assert_eq!(out.layout, layout(32, 32, 8));
    let out = compute_layout(MSVC, &ty).unwrap();
    assert_eq!(field_layouts(&out), vec![(0, 3), (32, 2)]);
    assert_eq!(out.layout, layout(64, 32, 8));
}

#[test]
fn strict_units_compare_alignment_too() {
    let aligned_int = Type::typedef(vec![Annotation::Aligned(Some(64))], scalar(BuiltinType::Int));
    let ty = of_struct(vec![
        bits(BuiltinType::Int, 3),
        RecordField::bit_field(vec![], aligned_int, 3, true),
    ]);
    let out = compute_layout(LINUX, &ty).unwrap();
    assert_eq!(field_layouts(&out), vec![(0, 3), (3, 3)]);
    let out = compute_layout(MINGW, &ty).unwrap();
    assert_eq!(field_layouts(&out), vec![(0, 3), (64, 3)]);
    assert_eq!(out.layout, layout(128, 64, 8));
}

#[test]
fn larger_type_opens_a_unit() {
    let ty = of_struct(vec![bits(BuiltinType::Char, 2), bits(BuiltinType::Int, 3)]);
    for target in [LINUX, MSVC, MINGW] {
        let out = compute_layout(target, &ty).unwrap();
        assert_eq!(field_layouts(&out), vec![(0, 2), (32, 3)]);
        assert_eq!(out.layout, layout(64, 32, 8));
    }
}

#[test]
fn zero_width_bit_field_sysv() {
    let ty = of_struct(vec![
        bits(BuiltinType::Int, 3),
        bits(BuiltinType::Int, 0),
        bits(BuiltinType::Int, 3),
    ]);
    let out = compute_layout(LINUX, &ty).unwrap();
    assert_eq!(field_layouts(&out), vec![(0, 3), (32, 0), (32, 3)]);
    assert_eq!(out.layout, layout(64, 32, 8));
}

#[test]
fn bit_field_wider_than_its_type() {
    let ty = of_struct(vec![bits(BuiltinType::Int, 40), bits(BuiltinType::Int, 3)]);
    let out = compute_layout(LINUX, &ty).unwrap();
    assert_eq!(field_layouts(&out), vec![(0, 40), (64, 3)]);
    assert_eq!(out.layout, layout(96, 32, 8));
    let out = compute_layout(MSVC, &ty).unwrap();
    assert_eq!(field_layouts(&out), vec![(0, 40), (64, 3)]);
    assert_eq!(out.layout, layout(96, 32, 8));
}

#[test]
fn packed_bit_fields() {
    let ty = Type::record(
        RecordKind::Struct,
        vec![Annotation::AttrPacked],
        vec![plain(BuiltinType::Char), bits(BuiltinType::Int, 3), bits(BuiltinType::Int, 30)],
    );
    let out = compute_layout(LINUX, &ty).unwrap();
    assert_eq!(field_layouts(&out), vec![(0, 8), (8, 3), (16, 30)]);
    assert_eq!(out.layout, layout(48, 8, 8));
}

#[test]
fn msvc_bit_fields_do_not_raise_required_alignment() {
    let field = |width| {
        RecordField::bit_field(
            vec![Annotation::Aligned(Some(64))],
            scalar(BuiltinType::Int),
            width,
            true,
        )
    };
    let out = compute_layout(MSVC, &of_struct(vec![field(3)])).unwrap();
    assert_eq!(out.layout, layout(64, 64, 8));
    let out = compute_layout(LINUX, &of_struct(vec![field(3)])).unwrap();
    assert_eq!(out.layout, layout(64, 64, 64));
}

#[test]
fn array_size_overflow() {
    let fits = Type::array(scalar(BuiltinType::Int), 1 << 58);
    let out = compute_layout(LINUX, &fits).unwrap();
    assert_eq!(out.layout, layout(1 << 63, 32, 8));
    let ty = Type::array(scalar(BuiltinType::Int), 1 << 59);
    assert_eq!(compute_layout(LINUX, &ty), Err(Error { kind: ErrorKind::SizeOverflow }));
    let ty = Type::array(scalar(BuiltinType::Char), u64::MAX);
    assert_eq!(compute_layout(LINUX, &ty), Err(Error { kind: ErrorKind::SizeOverflow }));
}

#[test]
fn record_size_overflow() {
    let big = || RecordField::new(vec![], Type::array(scalar(BuiltinType::Int), 1 << 58));
    for target in [LINUX, MSVC, MINGW] {
        let ty = of_struct(vec![big(), big()]);
        assert_eq!(compute_layout(target, &ty), Err(Error { kind: ErrorKind::SizeOverflow }));
        let ty = of_union(vec![big(), big()]);
        assert_eq!(compute_layout(target, &ty).unwrap().layout, layout(1 << 63, 32, 8));
    }
    // The end of the fields fits, the size rounded to the alignment does not.
    let ty = of_struct(vec![
        RecordField::new(vec![], Type::array(scalar(BuiltinType::Char), (1 << 61) - 1)),
        RecordField::new(vec![Annotation::AttrPacked], scalar(BuiltinType::Int)),
        plain(BuiltinType::LongLong),
    ]);
    assert_eq!(compute_layout(LINUX, &ty), Err(Error { kind: ErrorKind::SizeOverflow }));
    // An overflow below an array without elements is an overflow.
    let ty = Type::array(Type::array(scalar(BuiltinType::Int), 1 << 59), 0);
    assert_eq!(compute_layout(LINUX, &ty), Err(Error { kind: ErrorKind::SizeOverflow }));
}

#[test]
fn output_keeps_shape_and_annotations() {
    let ty = Type::record(
        RecordKind::Union,
        vec![Annotation::PragmaPack(16), Annotation::Aligned(None)],
        vec![
            RecordField::new(vec![Annotation::AttrPacked], scalar(BuiltinType::Int)),
            RecordField::bit_field(vec![Annotation::Aligned(Some(16))], scalar(BuiltinType::Short), 3, false),
        ],
    );
    let out = compute_layout(LINUX, &ty).unwrap();
    assert_eq!(out.annotations, vec![Annotation::PragmaPack(16), Annotation::Aligned(None)]);
    match &out.variant {
        TypeVariant::Record(r) => {
            assert_eq!(r.kind, RecordKind::Union);
            assert_eq!(r.fields.len(), 2);
            assert_eq!(r.fields[0].annotations, vec![Annotation::AttrPacked]);
            assert!(r.fields[0].named);
            assert_eq!(r.fields[0].bit_width, None);
            assert_eq!(r.fields[0].ty.layout, layout(32, 32, 8));
            assert_eq!(r.fields[1].annotations, vec![Annotation::Aligned(Some(16))]);
            assert!(!r.fields[1].named);
            assert_eq!(r.fields[1].bit_width, Some(3));
            assert_eq!(r.fields[1].ty.variant, TypeVariant::Builtin(BuiltinType::Short));
        }
        _ => panic!("not a record"),
    }
}
