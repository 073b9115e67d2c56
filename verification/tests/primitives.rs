use repr_c::builder::common::{
    alignment_request, is_packed, member, pack_limit, scope, BitFieldState, Member, Placement,
    Scope, StorageUnit,
};
use repr_c::builder::record::RecordBuilder;
use repr_c::layout::{copy_annotations, Annotation, FieldLayout, RecordKind, TypeLayout};
use repr_c::util::{align_to, is_power_of_two_u64, max, min, BITS_PER_BYTE};

#[test]
fn bits_per_byte() {
    assert_eq!(BITS_PER_BYTE, 8);
}

#[test]
fn align_to_rounds_up() {
    assert_eq!(align_to(0, 8), Some(0));
    assert_eq!(align_to(1, 8), Some(8));
    assert_eq!(align_to(8, 8), Some(8));
    assert_eq!(align_to(9, 8), Some(16));
    assert_eq!(align_to(6, 32), Some(32));
    assert_eq!(align_to(33, 32), Some(64));
    assert_eq!(align_to(12345, 1), Some(12345));
    assert_eq!(align_to(100, 64), Some(128));
}

#[test]
fn align_to_result_is_least_multiple() {
    for m in [1u64, 2, 4, 8, 16, 64, 1024] {
        for n in 0u64..300 {
            let r = align_to(n, m).unwrap();
            assert_eq!(r % m, 0);
            assert!(r >= n);
            assert!(r < n + m);
        }
    }
}

#[test]
fn align_to_overflow() {
    assert_eq!(align_to(u64::MAX, 1), Some(u64::MAX));
    assert_eq!(align_to(u64::MAX, 2), None);
    assert_eq!(align_to(u64::MAX - 7, 8), Some(u64::MAX - 7));
    assert_eq!(align_to(u64::MAX - 6, 8), None);
    assert_eq!(align_to(1, 1 << 63), Some(1 << 63));
    assert_eq!(align_to((1 << 63) + 1, 1 << 63), None);
}

#[test]
fn power_of_two() {
    assert!(!is_power_of_two_u64(0));
    assert!(is_power_of_two_u64(1));
    assert!(is_power_of_two_u64(2));
    assert!(!is_power_of_two_u64(3));
    assert!(!is_power_of_two_u64(6));
    assert!(is_power_of_two_u64(1 << 63));
    assert!(!is_power_of_two_u64(u64::MAX));
    for n in 0u64..5000 {
        assert_eq!(is_power_of_two_u64(n), n.is_power_of_two());
    }
}

#[test]
fn max_and_min() {
    assert_eq!(max(3, 7), 7);
    assert_eq!(max(7, 3), 7);
    assert_eq!(min(3, 7), 3);
    assert_eq!(min(7, 3), 3);
    assert_eq!(max(5, 5), 5);
    assert_eq!(min(5, 5), 5);
}

#[test]
fn copy_of_annotations() {
    let a = vec![Annotation::PragmaPack(8), Annotation::AttrPacked, Annotation::Aligned(None)];
    assert_eq!(copy_annotations(&a), a);
    assert_eq!(copy_annotations(&vec![]), vec![]);
}

#[test]
fn pack_limit_is_smallest_valid() {
    assert_eq!(pack_limit(&vec![]), None);
    assert_eq!(pack_limit(&vec![Annotation::AttrPacked, Annotation::Aligned(Some(8))]), None);
    assert_eq!(pack_limit(&vec![Annotation::PragmaPack(16)]), Some(16));
    assert_eq!(
        pack_limit(&vec![Annotation::PragmaPack(32), Annotation::PragmaPack(8), Annotation::PragmaPack(16)]),
        Some(8)
    );
    assert_eq!(pack_limit(&vec![Annotation::PragmaPack(0)]), None);
    assert_eq!(pack_limit(&vec![Annotation::PragmaPack(4)]), None);
    assert_eq!(pack_limit(&vec![Annotation::PragmaPack(24), Annotation::PragmaPack(64)]), Some(64));
}

#[test]
fn packed_annotation() {
    assert!(!is_packed(&vec![]));
    assert!(!is_packed(&vec![Annotation::PragmaPack(8), Annotation::Aligned(None)]));
    assert!(is_packed(&vec![Annotation::PragmaPack(8), Annotation::AttrPacked]));
}

#[test]
fn alignment_request_is_largest() {
    assert_eq!(alignment_request(&vec![], 128), 8);
    assert_eq!(alignment_request(&vec![Annotation::AttrPacked], 128), 8);
    assert_eq!(alignment_request(&vec![Annotation::Aligned(None)], 128), 128);
    assert_eq!(alignment_request(&vec![Annotation::Aligned(Some(32))], 128), 32);
    assert_eq!(
        alignment_request(&vec![Annotation::Aligned(Some(32)), Annotation::Aligned(Some(16))], 128),
        32
    );
    assert_eq!(
        alignment_request(&vec![Annotation::Aligned(Some(256)), Annotation::Aligned(None)], 128),
        256
    );
    assert_eq!(alignment_request(&vec![Annotation::Aligned(Some(24))], 128), 8);
    assert_eq!(alignment_request(&vec![Annotation::Aligned(Some(4))], 128), 8);
}

#[test]
fn scope_of_record() {
    let a = vec![Annotation::Aligned(Some(64)), Annotation::PragmaPack(16), Annotation::AttrPacked];
    assert_eq!(
        scope(&a, 128),
        Scope { pack_limit_bits: Some(16), packed: true, alignment_request_bits: 64 }
    );
    assert_eq!(
        scope(&vec![], 128),
        Scope { pack_limit_bits: None, packed: false, alignment_request_bits: 8 }
    );
}

fn in_scope(pack: Option<u64>, packed: bool) -> Scope {
    Scope { pack_limit_bits: pack, packed, alignment_request_bits: 8 }
}

fn ty(size: u64, align: u64, required: u64) -> TypeLayout {
    TypeLayout { size_bits: size, field_alignment_bits: align, required_alignment_bits: required }
}

#[test]
fn member_alignment() {
    let m = member(&in_scope(None, false), &vec![], None, &ty(32, 32, 8), 128);
    assert_eq!(
        m,
        Member {
            size_bits: 32,
            type_alignment_bits: 32,
            alignment_bits: 32,
            required_alignment_bits: 8,
            bit_width: None,
        }
    );
    assert_eq!(m.size(), 32);
    // The pack limit brings the alignment down.
    let m = member(&in_scope(Some(16), false), &vec![], Some(5), &ty(32, 32, 8), 128);
    assert_eq!(m.alignment_bits, 16);
    assert_eq!(m.type_alignment_bits, 32);
    assert_eq!(m.size(), 5);
    // A pack limit above the alignment changes nothing.
    let m = member(&in_scope(Some(64), false), &vec![], None, &ty(32, 32, 8), 128);
    assert_eq!(m.alignment_bits, 32);
    // A packed record and a packed field bring it down to a byte.
    let m = member(&in_scope(Some(16), true), &vec![], None, &ty(32, 32, 8), 128);
    assert_eq!(m.alignment_bits, 8);
    let m = member(&in_scope(None, false), &vec![Annotation::AttrPacked], None, &ty(32, 32, 8), 128);
    assert_eq!(m.alignment_bits, 8);
    // The required alignment is a floor.
    let m = member(&in_scope(Some(8), true), &vec![], None, &ty(32, 64, 32), 128);
    assert_eq!(m.alignment_bits, 32);
    assert_eq!(m.required_alignment_bits, 32);
    // The request of the field raises the required alignment.
    let a = vec![Annotation::Aligned(Some(64))];
    let m = member(&in_scope(Some(8), false), &a, None, &ty(32, 32, 8), 128);
    assert_eq!(m.alignment_bits, 64);
    assert_eq!(m.required_alignment_bits, 64);
    let a = vec![Annotation::Aligned(None)];
    let m = member(&in_scope(None, false), &a, None, &ty(32, 32, 8), 128);
    assert_eq!(m.alignment_bits, 128);
}

#[test]
fn pack_limit_never_raises_alignment() {
    let aligns = [8u64, 16, 32, 64, 128, 256];
    for &natural in &aligns {
        for &required in &aligns {
            for &limit in &aligns {
                for packed in [false, true] {
                    let t = ty(natural, natural, required);
                    let with = member(&in_scope(Some(limit), packed), &vec![], None, &t, 128);
                    let without = member(&in_scope(None, packed), &vec![], None, &t, 128);
                    assert!(with.alignment_bits <= without.alignment_bits);
                    assert!(with.alignment_bits <= max(limit, required));
                    if required <= limit {
                        assert!(with.alignment_bits <= limit);
                    }
                }
            }
        }
    }
}

#[test]
fn bit_field_state_regular_fields() {
    let mut s = BitFieldState::new();
    assert_eq!(s, BitFieldState { offset_bits: 0, unit: None });
    assert_eq!(s.ordinary(8, 8), Some(0));
    assert_eq!(s.ordinary(32, 32), Some(32));
    assert_eq!(s, BitFieldState { offset_bits: 64, unit: None });
    assert_eq!(s.ordinary(16, 16), Some(64));
    assert_eq!(s.offset_bits, 80);
}

#[test]
fn bit_field_state_units() {
    let mut s = BitFieldState::new();
    assert_eq!(s.bit_field(false, 32, 32, 32, 3), Some(0));
    let unit = StorageUnit { start_bits: 0, size_bits: 32, alignment_bits: 32 };
    assert_eq!(s, BitFieldState { offset_bits: 3, unit: Some(unit) });
    assert_eq!(s.bit_field(false, 32, 32, 32, 29), Some(3));
    assert_eq!(s, BitFieldState { offset_bits: 32, unit: Some(unit) });
    // The unit is full.
    assert_eq!(s.bit_field(false, 32, 32, 32, 1), Some(32));
    assert_eq!(s.unit, Some(StorageUnit { start_bits: 32, size_bits: 32, alignment_bits: 32 }));
    // A regular field closes the unit.
    assert_eq!(s.ordinary(8, 8), Some(40));
    assert_eq!(s, BitFieldState { offset_bits: 48, unit: None });
    assert_eq!(s.bit_field(false, 8, 8, 8, 1), Some(48));
    // A width of 0 closes the unit and aligns.
    assert_eq!(s.bit_field(false, 32, 32, 32, 0), Some(64));
    assert_eq!(s, BitFieldState { offset_bits: 64, unit: None });
    assert_eq!(s.bit_field(false, 32, 32, 32, 0), Some(64));
}

#[test]
fn bit_field_state_strict_units() {
    let mut s = BitFieldState::new();
    assert_eq!(s.bit_field(true, 32, 32, 32, 3), Some(0));
    assert_eq!(s.bit_field(true, 32, 32, 32, 3), Some(3));
    // Another size.
    assert_eq!(s.bit_field(true, 16, 16, 16, 3), Some(16));
    // Another alignment.
    assert_eq!(s.bit_field(true, 16, 8, 8, 3), Some(24));
    assert_eq!(s.bit_field(true, 16, 8, 8, 3), Some(27));
}

#[test]
fn bit_field_state_overflow_leaves_state() {
    let mut s = BitFieldState { offset_bits: u64::MAX - 2, unit: None };
    assert_eq!(s.ordinary(8, 8), None);
    assert_eq!(s, BitFieldState { offset_bits: u64::MAX - 2, unit: None });
    assert_eq!(s.bit_field(false, 8, 8, 8, 1), None);
    assert_eq!(s, BitFieldState { offset_bits: u64::MAX - 2, unit: None });
    let mut s = BitFieldState { offset_bits: u64::MAX - 7, unit: None };
    assert_eq!(s.ordinary(8, 8), None);
    assert_eq!(s.ordinary(7, 8), Some(u64::MAX - 7));
    assert_eq!(s.offset_bits, u64::MAX);
}

#[test]
fn record_builders_step_by_step() {
    let m = |size, align, width| Member {
        size_bits: size,
        type_alignment_bits: align,
        alignment_bits: align,
        required_alignment_bits: 8,
        bit_width: width,
    };
    for placement in [Placement::SysvLike { strict_units: false }, Placement::Msvc] {
        let b = RecordBuilder::new(placement, RecordKind::Struct, 8);
        let (f, b) = b.layout_field(&m(8, 8, None)).unwrap();
        assert_eq!(f, FieldLayout { offset_bits: 0, size_bits: 8 });
        let (f, b) = b.layout_field(&m(64, 64, None)).unwrap();
        assert_eq!(f, FieldLayout { offset_bits: 64, size_bits: 64 });
        assert_eq!(
            b.finish_layout(),
            Some(TypeLayout { size_bits: 128, field_alignment_bits: 64, required_alignment_bits: 8 })
        );
        let b = RecordBuilder::new(placement, RecordKind::Union, 16);
        let (f, b) = b.layout_field(&m(8, 8, None)).unwrap();
        assert_eq!(f, FieldLayout { offset_bits: 0, size_bits: 8 });
        let (f, b) = b.layout_field(&m(32, 32, Some(7))).unwrap();
        assert_eq!(f, FieldLayout { offset_bits: 0, size_bits: 7 });
        assert_eq!(
            b.finish_layout(),
            Some(TypeLayout { size_bits: 32, field_alignment_bits: 32, required_alignment_bits: 16 })
        );
    }
}
