use repr_c::builder::common::{Member, Placement, Rules};
use repr_c::builder::msvc;
use repr_c::builder::sysv_like::{self, mingw, sysv};
use repr_c::builder::tree::layout_type;
use repr_c::layout::{BuiltinType, FieldLayout, RecordField, RecordKind, Type, TypeLayout, TypeVariant};
use repr_c::target::Target;

fn bits_of(bi: BuiltinType, width: u64) -> RecordField<(), ()> {
    RecordField::bit_field(vec![], Type::builtin(bi), width, true)
}

fn mixed() -> Type<(), ()> {
    Type::record(
        RecordKind::Struct,
        vec![],
        vec![
            bits_of(BuiltinType::Int, 3),
            bits_of(BuiltinType::Char, 2),
            RecordField::new(vec![], Type::builtin(BuiltinType::Char)),
        ],
    )
}

fn placements(ty: &Type<TypeLayout, FieldLayout>) -> Vec<u64> {
    match &ty.variant {
        TypeVariant::Record(r) => r.fields.iter().map(|f| f.layout.offset_bits).collect(),
        _ => panic!("not a record"),
    }
}

#[test]
fn rules_of_families() {
    assert_eq!(
        sysv::rules(Target::X86_64UnknownLinuxGnu),
        Rules { default_alignment_bits: 128, placement: Placement::SysvLike { strict_units: false } }
    );
    assert_eq!(sysv::rules(Target::AvrUnknownUnknown).default_alignment_bits, 8);
    assert_eq!(sysv::rules(Target::Msp430NoneElf).default_alignment_bits, 16);
    assert_eq!(
        mingw::rules(Target::I686PcWindowsGnu),
        Rules { default_alignment_bits: 64, placement: Placement::SysvLike { strict_units: true } }
    );
    assert_eq!(mingw::rules(Target::X86_64PcWindowsGnu).default_alignment_bits, 128);
    assert_eq!(
        msvc::rules(Target::X86_64PcWindowsMsvc),
        Rules { default_alignment_bits: 128, placement: Placement::Msvc }
    );
    assert_eq!(msvc::rules(Target::I686PcWindowsMsvc).default_alignment_bits, 64);
}

#[test]
fn each_set_of_rules_on_one_target() {
    // The rules, not the target, decide where the bit-fields go.
    let target = Target::X86_64UnknownLinuxGnu;
    let ty = mixed();
    let out = sysv::compute_layout(target, &ty).unwrap();
    assert_eq!(placements(&out), vec![0, 3, 8]);
    assert_eq!(out.layout.size_bits, 32);
    let out = mingw::compute_layout(target, &ty).unwrap();
    assert_eq!(placements(&out), vec![0, 8, 16]);
    assert_eq!(out.layout.size_bits, 32);
    let out = msvc::compute_layout(target, &ty).unwrap();
    assert_eq!(placements(&out), vec![0, 32, 40]);
    assert_eq!(out.layout.size_bits, 64);
}

#[test]
fn layout_by_given_rules() {
    let rules = Rules { default_alignment_bits: 256, placement: Placement::Msvc };
    let ty = Type::record(
        RecordKind::Union,
        vec![repr_c::layout::Annotation::Aligned(None)],
        vec![RecordField::new(vec![], Type::builtin(BuiltinType::Short))],
    );
    let out = layout_type(Target::I686PcWindowsMsvc, &rules, &ty).unwrap();
    assert_eq!(
        out.layout,
        TypeLayout { size_bits: 256, field_alignment_bits: 256, required_alignment_bits: 256 }
    );
}

fn regular(size: u64, align: u64) -> Member {
    Member {
        size_bits: size,
        type_alignment_bits: align,
        alignment_bits: align,
        required_alignment_bits: 8,
        bit_width: None,
    }
}

fn narrow(size: u64, align: u64, width: u64) -> Member {
    Member { bit_width: Some(width), ..regular(size, align) }
}

#[test]
fn sysv_like_builder() {
    let mut b = sysv_like::RecordLayoutBuilder::new(RecordKind::Struct, false, 8);
    assert_eq!(b.layout_field(&narrow(32, 32, 7)), Some(FieldLayout { offset_bits: 0, size_bits: 7 }));
    assert_eq!(b.layout_field(&narrow(16, 16, 9)), Some(FieldLayout { offset_bits: 7, size_bits: 9 }));
    assert_eq!(b.layout_field(&narrow(16, 16, 9)), Some(FieldLayout { offset_bits: 16, size_bits: 9 }));
    assert_eq!(b.layout_field(&regular(8, 8)), Some(FieldLayout { offset_bits: 32, size_bits: 8 }));
    assert_eq!(
        b.finish_layout(),
        Some(TypeLayout { size_bits: 64, field_alignment_bits: 32, required_alignment_bits: 8 })
    );
    // A field that does not fit leaves the builder as it was.
    let before = b;
    assert_eq!(b.layout_field(&regular(u64::MAX, 8)), None);
    assert_eq!(b, before);
}

#[test]
fn msvc_builder() {
    let mut b = msvc::RecordLayoutBuilder::new(RecordKind::Struct, 8);
    assert_eq!(b.layout_field(&narrow(32, 32, 7)), Some(FieldLayout { offset_bits: 0, size_bits: 7 }));
    assert_eq!(b.size_bits, 32);
    assert_eq!(b.layout_field(&narrow(32, 32, 25)), Some(FieldLayout { offset_bits: 7, size_bits: 25 }));
    assert_eq!(b.layout_field(&narrow(32, 32, 1)), Some(FieldLayout { offset_bits: 32, size_bits: 1 }));
    assert_eq!(b.layout_field(&narrow(16, 16, 1)), Some(FieldLayout { offset_bits: 64, size_bits: 1 }));
    assert_eq!(b.layout_field(&narrow(16, 16, 0)), Some(FieldLayout { offset_bits: 80, size_bits: 0 }));
    assert_eq!(b.layout_field(&regular(8, 8)), Some(FieldLayout { offset_bits: 80, size_bits: 8 }));
    assert_eq!(
        b.finish_layout(),
        Some(TypeLayout { size_bits: 96, field_alignment_bits: 32, required_alignment_bits: 8 })
    );
    let before = b;
    assert_eq!(b.layout_field(&regular(u64::MAX, 8)), None);
    assert_eq!(b, before);
    assert_eq!(b.layout_field(&narrow(u64::MAX, 8, 1)), None);
    assert_eq!(b, before);
}
