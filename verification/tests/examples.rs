use repr_c::builder::compute_layout;
use repr_c::layout::{
    Annotation, BuiltinType, FieldLayout, RecordField, RecordKind, Type, TypeLayout, TypeVariant,
};
use repr_c::target::Target;

fn named_field(bi: BuiltinType) -> RecordField<(), ()> {
    RecordField::new(vec![], Type::builtin(bi))
}

fn bit_field_of(bi: BuiltinType, width: u64, named: bool) -> RecordField<(), ()> {
    RecordField::bit_field(vec![], Type::builtin(bi), width, named)
}

fn offsets_of(ty: &Type<TypeLayout, FieldLayout>) -> Vec<u64> {
    match &ty.variant {
        TypeVariant::Record(r) => r.fields.iter().map(|f| f.layout.offset_bits).collect(),
        _ => panic!("not a record"),
    }
}

#[test]
fn single_int_field_sysv() {
    let ty = Type::record(RecordKind::Struct, vec![], vec![named_field(BuiltinType::Int)]);
    let out = compute_layout(Target::X86_64UnknownLinuxGnu, &ty).unwrap();
    assert_eq!(out.layout.size_bits, 4 * 8);
    assert_eq!(out.layout.field_alignment_bits, 4 * 8);
    assert_eq!(offsets_of(&out), vec![0]);
}

#[test]
fn char_then_int_sysv() {
    let ty = Type::record(
        RecordKind::Struct,
        vec![],
        vec![named_field(BuiltinType::Char), named_field(BuiltinType::Int)],
    );
    let out = compute_layout(Target::X86_64UnknownLinuxGnu, &ty).unwrap();
    assert_eq!(offsets_of(&out), vec![0, 4 * 8]);
    assert_eq!(out.layout.size_bits, 8 * 8);
    assert_eq!(out.layout.field_alignment_bits, 4 * 8);
}

#[test]
fn char_then_int_pragma_pack_1() {
    let ty = Type::record(
        RecordKind::Struct,
        vec![Annotation::PragmaPack(8)],
        vec![named_field(BuiltinType::Char), named_field(BuiltinType::Int)],
    );
    let out = compute_layout(Target::X86_64UnknownLinuxGnu, &ty).unwrap();
    assert_eq!(offsets_of(&out), vec![0, 8]);
    assert_eq!(out.layout.size_bits, 5 * 8);
    assert_eq!(out.layout.field_alignment_bits, 8);
}

#[test]
fn two_bit_fields_sysv() {
    let ty = Type::record(
        RecordKind::Struct,
        vec![],
        vec![
            bit_field_of(BuiltinType::UnsignedInt, 3, true),
            bit_field_of(BuiltinType::UnsignedInt, 3, true),
        ],
    );
    let out = compute_layout(Target::X86_64UnknownLinuxGnu, &ty).unwrap();
    assert_eq!(offsets_of(&out), vec![0, 3]);
    assert_eq!(out.layout.size_bits, 4 * 8);
    assert_eq!(out.layout.field_alignment_bits, 4 * 8);
}

#[test]
fn two_bit_fields_msvc() {
    let ty = Type::record(
        RecordKind::Struct,
        vec![],
        vec![
            bit_field_of(BuiltinType::UnsignedInt, 3, true),
            bit_field_of(BuiltinType::UnsignedInt, 3, true),
        ],
    );
    let out = compute_layout(Target::X86_64PcWindowsMsvc, &ty).unwrap();
    assert_eq!(offsets_of(&out), vec![0, 3]);
    assert_eq!(out.layout.size_bits, 4 * 8);
}

#[test]
fn two_bit_fields_then_int_msvc() {
    let ty = Type::record(
        RecordKind::Struct,
        vec![],
        vec![
            bit_field_of(BuiltinType::UnsignedInt, 3, true),
            bit_field_of(BuiltinType::UnsignedInt, 3, true),
            named_field(BuiltinType::Int),
        ],
    );
    let out = compute_layout(Target::X86_64PcWindowsMsvc, &ty).unwrap();
    assert_eq!(offsets_of(&out), vec![0, 3, 4 * 8]);
    assert_eq!(out.layout.size_bits, 8 * 8);
}

#[test]
fn zero_width_bit_field_msvc() {
    let ty = Type::record(
        RecordKind::Struct,
        vec![],
        vec![
            bit_field_of(BuiltinType::Int, 3, true),
            bit_field_of(BuiltinType::Int, 0, false),
            bit_field_of(BuiltinType::Int, 3, true),
        ],
    );
    let out = compute_layout(Target::X86_64PcWindowsMsvc, &ty).unwrap();
    assert_eq!(offsets_of(&out), vec![0, 32, 32]);
    assert_eq!(out.layout.size_bits, 8 * 8);
    assert_eq!(out.layout.field_alignment_bits, 4 * 8);
}

#[test]
fn zero_width_bit_field_aligns_to_its_type_msvc() {
    // The field after the zero-width `long long` bit-field starts at a
    // multiple of 8 bytes although its own type asks for 1.
    let ty = Type::record(
        RecordKind::Struct,
        vec![],
        vec![
            bit_field_of(BuiltinType::Char, 3, true),
            bit_field_of(BuiltinType::LongLong, 0, false),
            bit_field_of(BuiltinType::Char, 3, true),
        ],
    );
    let out = compute_layout(Target::X86_64PcWindowsMsvc, &ty).unwrap();
    assert_eq!(offsets_of(&out), vec![0, 64, 64]);
}
