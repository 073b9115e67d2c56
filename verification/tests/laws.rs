use repr_c::builder::compute_layout;
use repr_c::layout::{
    Annotation, BuiltinType, FieldLayout, RecordField, RecordKind, Type, TypeLayout, TypeVariant,
};
use repr_c::target::targets;

fn sc(bi: BuiltinType) -> Type<(), ()> {
    Type::builtin(bi)
}

fn fl(a: Vec<Annotation>, ty: Type<(), ()>) -> RecordField<(), ()> {
    RecordField::new(a, ty)
}

fn bf(ty: Type<(), ()>, width: u64) -> RecordField<(), ()> {
    RecordField::bit_field(vec![], ty, width, width != 0)
}

fn members() -> Vec<RecordField<(), ()>> {
    vec![
        fl(vec![], sc(BuiltinType::Char)),
        bf(sc(BuiltinType::Int), 3),
        bf(sc(BuiltinType::Short), 9),
        fl(vec![], sc(BuiltinType::LongLong)),
        fl(vec![Annotation::AttrPacked], sc(BuiltinType::Double)),
        bf(sc(BuiltinType::Char), 7),
        bf(sc(BuiltinType::LongLong), 0),
        bf(sc(BuiltinType::Char), 2),
        fl(vec![Annotation::Aligned(Some(128))], sc(BuiltinType::Short)),
        fl(vec![], Type::array(sc(BuiltinType::Pointer), 3)),
        fl(
            vec![],
            Type::typedef(vec![Annotation::Aligned(None)], Type::array(sc(BuiltinType::Char), 5)),
        ),
        fl(
            vec![],
            Type::opaque(TypeLayout {
                size_bits: 72,
                field_alignment_bits: 16,
                required_alignment_bits: 16,
            }),
        ),
        fl(vec![], sc(BuiltinType::Unit)),
        bf(sc(BuiltinType::U128), 100),
    ]
}

fn samples() -> Vec<Type<(), ()>> {
    let mut v = vec![];
    let scopes = [
        vec![],
        vec![Annotation::AttrPacked],
        vec![Annotation::PragmaPack(8)],
        vec![Annotation::PragmaPack(16), Annotation::Aligned(Some(64))],
        vec![Annotation::PragmaPack(32), Annotation::AttrPacked],
        vec![Annotation::Aligned(None)],
        vec![Annotation::PragmaPack(12)],
    ];
    for kind in [RecordKind::Struct, RecordKind::Union] {
        for a in &scopes {
            let inner = Type::record(kind, a.clone(), members());
            let mut fields = members();
            fields.push(fl(vec![], inner));
            fields.push(fl(vec![], Type::array(Type::record(kind, a.clone(), members()), 2)));
            v.push(Type::record(kind, a.clone(), fields));
            v.push(Type::record(kind, a.clone(), members()));
            v.push(Type::record(kind, a.clone(), vec![]));
        }
    }
    v
}

fn check_layouts(ty: &Type<TypeLayout, FieldLayout>) {
    let l = ty.layout;
    assert_eq!(l.size_bits % 8, 0);
    assert!(l.field_alignment_bits >= 8 && l.field_alignment_bits.is_power_of_two());
    assert!(l.required_alignment_bits >= 8 && l.required_alignment_bits.is_power_of_two());
    match &ty.variant {
        TypeVariant::Record(r) => {
            assert_eq!(l.size_bits % l.field_alignment_bits, 0);
            if !r.fields.is_empty() {
                assert!(l.size_bits >= 8);
            }
            for f in &r.fields {
                check_layouts(&f.ty);
            }
        }
        TypeVariant::Array(a) => check_layouts(&a.element_type),
        TypeVariant::Typedef(t) => check_layouts(t),
        _ => {}
    }
}

#[test]
fn layouts_are_deterministic() {
    for target in targets() {
        for ty in samples() {
            assert_eq!(compute_layout(target, &ty), compute_layout(target, &ty));
        }
    }
}

#[test]
fn layouts_are_valid() {
    for target in targets() {
        for ty in samples() {
            check_layouts(&compute_layout(target, &ty).unwrap());
        }
    }
}

#[test]
fn fields_of_structs_lie_in_order() {
    for target in targets() {
        for ty in samples() {
            let out = compute_layout(target, &ty).unwrap();
            if let TypeVariant::Record(r) = &out.variant {
                if r.kind != RecordKind::Struct {
                    continue;
                }
                for pair in r.fields.windows(2) {
                    assert!(
                        pair[1].layout.offset_bits
                            >= pair[0].layout.offset_bits + pair[0].layout.size_bits
                    );
                }
                for f in &r.fields {
                    match f.bit_width {
                        None => assert_eq!(f.layout.size_bits, f.ty.layout.size_bits),
                        Some(width) => assert_eq!(f.layout.size_bits, width),
                    }
                    assert!(f.layout.offset_bits + f.layout.size_bits <= out.layout.size_bits);
                }
            }
        }
    }
}

#[test]
fn unions_hold_their_fields() {
    for target in targets() {
        for ty in samples() {
            let out = compute_layout(target, &ty).unwrap();
            if let TypeVariant::Record(r) = &out.variant {
                if r.kind != RecordKind::Union {
                    continue;
                }
                let packing = !out.annotations.iter().all(|a| matches!(a, Annotation::Aligned(_)));
                for f in &r.fields {
                    assert_eq!(f.layout.offset_bits, 0);
                    assert!(out.layout.size_bits >= f.layout.size_bits);
                    if f.bit_width.is_none() {
                        assert!(out.layout.size_bits >= f.ty.layout.size_bits);
                    }
                    if !packing && !f.annotations.contains(&Annotation::AttrPacked) {
                        assert!(
                            out.layout.field_alignment_bits >= f.ty.layout.field_alignment_bits
                        );
                    }
                }
            }
        }
    }
}

#[test]
fn pack_limit_bounds_alignment_of_record() {
    // Without a required alignment above it, a pack limit bounds the
    // alignment of every field, and so that of the record.
    let fields = || {
        vec![
            fl(vec![], sc(BuiltinType::Char)),
            fl(vec![], sc(BuiltinType::LongLong)),
            bf(sc(BuiltinType::Int), 5),
            fl(vec![], sc(BuiltinType::U128)),
        ]
    };
    for target in targets() {
        let free = compute_layout(target, &Type::record(RecordKind::Struct, vec![], fields()))
            .unwrap();
        for limit in [8u64, 16, 32, 64, 128, 256] {
            let ty = Type::record(RecordKind::Struct, vec![Annotation::PragmaPack(limit)], fields());
            let out = compute_layout(target, &ty).unwrap();
            assert!(out.layout.field_alignment_bits <= limit);
            assert!(out.layout.field_alignment_bits <= free.layout.field_alignment_bits);
            assert!(out.layout.size_bits <= free.layout.size_bits);
            if let TypeVariant::Record(r) = &out.variant {
                for f in r.fields.iter().filter(|f| f.bit_width.is_none()) {
                    assert_eq!(f.layout.offset_bits % limit.min(f.ty.layout.field_alignment_bits), 0);
                }
            }
        }
    }
}
