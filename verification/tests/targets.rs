use repr_c::layout::{BuiltinType, TypeLayout};
use repr_c::target::{
    builtin_layout, builtin_size, family, from_name, max_scalar_alignment, name, pointer_width,
    rust_name, system_compiler, target_at, targets, Compiler, Family, Target, NUM_TARGETS,
};
use std::collections::HashSet;

#[test]
fn all_targets_are_listed_once() {
    let all = targets();
    assert_eq!(all.len(), 123);
    assert_eq!(all.len(), NUM_TARGETS);
    let set: HashSet<Target> = all.iter().copied().collect();
    assert_eq!(set.len(), all.len());
    for (i, t) in all.iter().enumerate() {
        assert_eq!(target_at(i), *t);
    }
    assert_eq!(all[0], Target::Aarch64AppleMacosx);
    assert_eq!(all[all.len() - 1], Target::X86_64UnknownWindows);
}

#[test]
fn names_are_a_bijection() {
    let all = targets();
    let names: HashSet<&str> = all.iter().map(|t| name(*t)).collect();
    assert_eq!(names.len(), all.len());
    for t in all {
        assert_eq!(from_name(name(t)), Some(t));
    }
}

#[test]
fn names_of_some_targets() {
    assert_eq!(name(Target::X86_64UnknownLinuxGnu), "x86_64-unknown-linux-gnu");
    assert_eq!(name(Target::Aarch64PcWindowsMsvc), "aarch64-pc-windows-msvc");
    assert_eq!(name(Target::Riscv32), "riscv32");
    assert_eq!(name(Target::AvrUnknownUnknown), "avr-unknown-unknown");
    assert_eq!(name(Target::Armv7NoneLinuxAndroid), "armv7-none-linux-android");
    assert_eq!(from_name("i686-pc-windows-gnu"), Some(Target::I686PcWindowsGnu));
}

#[test]
fn unknown_names() {
    assert_eq!(from_name(""), None);
    assert_eq!(from_name("x86_64-unknown-linux"), None);
    assert_eq!(from_name("X86_64-unknown-linux-gnu"), None);
    assert_eq!(from_name("x86_64-unknown-linux-gnu "), None);
}

#[test]
fn families() {
    let msvc: Vec<Target> =
        targets().into_iter().filter(|t| family(*t) == Family::Msvc).collect();
    assert_eq!(
        msvc,
        vec![
            Target::Aarch64PcWindowsMsvc,
            Target::I586PcWindowsMsvc,
            Target::I686PcWindowsMsvc,
            Target::I686UnknownWindows,
            Target::Thumbv7aPcWindowsMsvc,
            Target::X86_64PcWindowsMsvc,
            Target::X86_64UnknownWindows,
        ]
    );
    let mingw: Vec<Target> =
        targets().into_iter().filter(|t| family(*t) == Family::MinGW).collect();
    assert_eq!(mingw, vec![Target::I686PcWindowsGnu, Target::X86_64PcWindowsGnu]);
    assert_eq!(family(Target::X86_64UnknownLinuxGnu), Family::SysV);
    assert_eq!(family(Target::Aarch64AppleMacosx), Family::SysV);
    assert_eq!(family(Target::AvrUnknownUnknown), Family::SysV);
}

#[test]
fn pointer_widths() {
    assert_eq!(pointer_width(Target::X86_64UnknownLinuxGnu), 64);
    assert_eq!(pointer_width(Target::X86_64UnknownLinuxGnux32), 32);
    assert_eq!(pointer_width(Target::I686UnknownLinuxGnu), 32);
    assert_eq!(pointer_width(Target::Aarch64PcWindowsMsvc), 64);
    assert_eq!(pointer_width(Target::Arm64AppleIos), 64);
    assert_eq!(pointer_width(Target::Thumbv7aPcWindowsMsvc), 32);
    assert_eq!(pointer_width(Target::Wasm32Wasi), 32);
    assert_eq!(pointer_width(Target::AvrUnknownUnknown), 16);
    assert_eq!(pointer_width(Target::Msp430NoneElf), 16);
    assert_eq!(pointer_width(Target::S390xUnknownLinuxGnu), 64);
    for t in targets() {
        let w = pointer_width(t);
        assert!(w == 16 || w == 32 || w == 64);
        assert_eq!(builtin_size(t, BuiltinType::Pointer), w);
    }
}

#[test]
fn system_compilers() {
    assert_eq!(system_compiler(Target::X86_64UnknownLinuxGnu), Compiler::Gcc);
    assert_eq!(system_compiler(Target::X86_64PcWindowsGnu), Compiler::Gcc);
    assert_eq!(system_compiler(Target::X86_64AppleMacosx), Compiler::Clang);
    assert_eq!(system_compiler(Target::Aarch64LinuxAndroid), Compiler::Clang);
    assert_eq!(system_compiler(Target::X86_64UnknownFreebsd), Compiler::Clang);
    assert_eq!(system_compiler(Target::Wasm32UnknownUnknown), Compiler::Clang);
    assert_eq!(system_compiler(Target::X86_64PcWindowsMsvc), Compiler::Msvc);
    assert_eq!(system_compiler(Target::I686UnknownWindows), Compiler::Msvc);
    for t in targets() {
        assert_eq!(system_compiler(t) == Compiler::Msvc, family(t) == Family::Msvc);
    }
}

fn scalar_layout(size: u64, align: u64) -> TypeLayout {
    TypeLayout { size_bits: size, field_alignment_bits: align, required_alignment_bits: 8 }
}

#[test]
fn builtin_layouts_x86_64_linux() {
    let t = Target::X86_64UnknownLinuxGnu;
    assert_eq!(builtin_layout(t, BuiltinType::Unit), scalar_layout(0, 8));
    assert_eq!(builtin_layout(t, BuiltinType::Bool), scalar_layout(8, 8));
    assert_eq!(builtin_layout(t, BuiltinType::Char), scalar_layout(8, 8));
    assert_eq!(builtin_layout(t, BuiltinType::Short), scalar_layout(16, 16));
    assert_eq!(builtin_layout(t, BuiltinType::Int), scalar_layout(32, 32));
    assert_eq!(builtin_layout(t, BuiltinType::UnsignedInt), scalar_layout(32, 32));
    assert_eq!(builtin_layout(t, BuiltinType::Long), scalar_layout(64, 64));
    assert_eq!(builtin_layout(t, BuiltinType::LongLong), scalar_layout(64, 64));
    assert_eq!(builtin_layout(t, BuiltinType::Float), scalar_layout(32, 32));
    assert_eq!(builtin_layout(t, BuiltinType::Double), scalar_layout(64, 64));
    assert_eq!(builtin_layout(t, BuiltinType::Pointer), scalar_layout(64, 64));
    assert_eq!(builtin_layout(t, BuiltinType::U128), scalar_layout(128, 128));
    assert_eq!(builtin_layout(t, BuiltinType::I16), scalar_layout(16, 16));
    assert_eq!(builtin_layout(t, BuiltinType::F32), scalar_layout(32, 32));
}

#[test]
fn builtin_layouts_by_target() {
    assert_eq!(builtin_layout(Target::X86_64PcWindowsMsvc, BuiltinType::Long), scalar_layout(32, 32));
    assert_eq!(builtin_layout(Target::X86_64PcWindowsGnu, BuiltinType::Long), scalar_layout(32, 32));
    assert_eq!(builtin_layout(Target::X86_64PcWindowsMsvc, BuiltinType::Pointer), scalar_layout(64, 64));
    assert_eq!(builtin_layout(Target::I686UnknownLinuxGnu, BuiltinType::Long), scalar_layout(32, 32));
    assert_eq!(builtin_layout(Target::I686UnknownLinuxGnu, BuiltinType::LongLong), scalar_layout(64, 32));
    assert_eq!(builtin_layout(Target::I686UnknownLinuxGnu, BuiltinType::Double), scalar_layout(64, 32));
    assert_eq!(builtin_layout(Target::I686UnknownLinuxGnu, BuiltinType::U128), scalar_layout(128, 32));
    assert_eq!(builtin_layout(Target::I686PcWindowsMsvc, BuiltinType::LongLong), scalar_layout(64, 64));
    assert_eq!(builtin_layout(Target::I686PcWindowsGnu, BuiltinType::U128), scalar_layout(128, 64));
    assert_eq!(builtin_layout(Target::ArmUnknownLinuxGnueabi, BuiltinType::LongLong), scalar_layout(64, 64));
    assert_eq!(builtin_layout(Target::AvrUnknownUnknown, BuiltinType::Int), scalar_layout(16, 8));
    assert_eq!(builtin_layout(Target::AvrUnknownUnknown, BuiltinType::Long), scalar_layout(32, 8));
    assert_eq!(builtin_layout(Target::AvrUnknownUnknown, BuiltinType::Pointer), scalar_layout(16, 8));
    assert_eq!(builtin_layout(Target::Msp430NoneElf, BuiltinType::Int), scalar_layout(16, 16));
    assert_eq!(builtin_layout(Target::Msp430NoneElf, BuiltinType::Long), scalar_layout(32, 16));
    assert_eq!(max_scalar_alignment(Target::X86_64UnknownLinuxGnu), 128);
    assert_eq!(max_scalar_alignment(Target::ArmUnknownLinuxGnueabi), 64);
    assert_eq!(max_scalar_alignment(Target::I386AppleIos), 32);
}

#[test]
fn builtin_layouts_are_valid_everywhere() {
    let all = [
        BuiltinType::Unit, BuiltinType::Bool, BuiltinType::U8, BuiltinType::U16, BuiltinType::U32,
        BuiltinType::U64, BuiltinType::U128, BuiltinType::I8, BuiltinType::I16, BuiltinType::I32,
        BuiltinType::I64, BuiltinType::I128, BuiltinType::Char, BuiltinType::SignedChar,
        BuiltinType::UnsignedChar, BuiltinType::Short, BuiltinType::UnsignedShort,
        BuiltinType::Int, BuiltinType::UnsignedInt, BuiltinType::Long, BuiltinType::UnsignedLong,
        BuiltinType::LongLong, BuiltinType::UnsignedLongLong, BuiltinType::F32, BuiltinType::F64,
        BuiltinType::Float, BuiltinType::Double, BuiltinType::Pointer,
    ];
    for t in targets() {
        for b in all {
            let l = builtin_layout(t, b);
            assert_eq!(l.size_bits, builtin_size(t, b));
            assert_eq!(l.size_bits % 8, 0);
            assert!(l.field_alignment_bits >= 8 && l.field_alignment_bits.is_power_of_two());
            assert!(l.field_alignment_bits <= max_scalar_alignment(t));
            assert_eq!(l.required_alignment_bits, 8);
        }
    }
}

#[test]
fn rust_names() {
    assert_eq!(rust_name(Target::X86_64UnknownLinuxGnu), "x86_64-unknown-linux-gnu");
    assert_eq!(rust_name(Target::Aarch64AppleMacosx), "aarch64-apple-darwin");
    assert_eq!(rust_name(Target::I686UnknownLinuxGnu), "i686-wrs-vxworks");
    assert_eq!(rust_name(Target::Riscv32), "riscv32i-unknown-none-elf");
    assert_eq!(rust_name(Target::X86_64UnknownWindows), "x86_64-unknown-uefi");
    assert_eq!(rust_name(Target::AvrUnknownUnknown), "avr-unknown-gnu-atmega328");
    for t in targets() {
        assert!(!rust_name(t).is_empty());
    }
}
