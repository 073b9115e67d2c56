//! The targets, and what each of them fixes: the family of its layout rules,
//! the width of its pointers, its system compiler and its scalar types.

use crate::layout::{BuiltinType, TypeLayout};
use crate::util::{is_power_of_two, valid_alignment, BITS_PER_BYTE};
use vstd::prelude::*;

verus! {

/// A target: an architecture, a vendor, an operating system and an
/// environment.
#[allow(non_camel_case_types)]
#[derive(Clone, Copy, Debug, PartialEq, Eq, Hash)]
pub enum Target {
    Aarch64AppleMacosx,
    Aarch64Fuchsia,
    Aarch64LinuxAndroid,
    Aarch64PcWindowsMsvc,
    Aarch64UnknownFreebsd,
    Aarch64UnknownHermit,
    Aarch64UnknownLinuxGnu,
    Aarch64UnknownLinuxMusl,
    Aarch64UnknownNetbsd,
    Aarch64UnknownNone,
    Aarch64UnknownOpenbsd,
    Aarch64UnknownRedox,
    Arm64AppleIos,
    Arm64AppleIosMacabi,
    Arm64AppleTvos,
    ArmLinuxAndroideabi,
    ArmUnknownLinuxGnueabi,
    ArmUnknownLinuxGnueabihf,
    Armebv7rUnknownNoneEabi,
    Armebv7rUnknownNoneEabihf,
    Armv4tUnknownLinuxGnueabi,
    Armv5teUnknownLinuxGnueabi,
    Armv5teUnknownLinuxUclibcgnueabi,
    Armv6UnknownFreebsdGnueabihf,
    Armv6UnknownNetbsdelfEabihf,
    Armv7AppleIos,
    Armv7NoneLinuxAndroid,
    Armv7UnknownFreebsdGnueabihf,
    Armv7UnknownLinuxGnueabi,
    Armv7UnknownLinuxGnueabihf,
    Armv7UnknownNetbsdelfEabihf,
    Armv7aNoneEabi,
    Armv7aNoneEabihf,
    Armv7rUnknownNoneEabi,
    Armv7rUnknownNoneEabihf,
    Armv7sAppleIos,
    AvrUnknownUnknown,
    HexagonUnknownLinuxMusl,
    I386AppleIos,
    I586PcWindowsMsvc,
    I586UnknownLinuxGnu,
    I586UnknownLinuxMusl,
    I686AppleMacosx,
    I686LinuxAndroid,
    I686PcWindowsGnu,
    I686PcWindowsMsvc,
    I686UnknownFreebsd,
    I686UnknownHaiku,
    I686UnknownLinuxGnu,
    I686UnknownLinuxMusl,
    I686UnknownNetbsdelf,
    I686UnknownOpenbsd,
    I686UnknownWindows,
    Mips64UnknownLinuxGnuabi64,
    Mips64UnknownLinuxMusl,
    Mips64elUnknownLinuxGnuabi64,
    Mips64elUnknownLinuxMusl,
    MipsUnknownLinuxGnu,
    MipsUnknownLinuxMusl,
    MipsUnknownLinuxUclibc,
    MipselSonyPsp,
    MipselUnknownLinuxGnu,
    MipselUnknownLinuxMusl,
    MipselUnknownLinuxUclibc,
    MipselUnknownNone,
    Mipsisa32r6UnknownLinuxGnu,
    Mipsisa32r6elUnknownLinuxGnu,
    Mipsisa64r6UnknownLinuxGnuabi64,
    Mipsisa64r6elUnknownLinuxGnuabi64,
    Msp430NoneElf,
    Powerpc64UnknownFreebsd,
    Powerpc64UnknownLinuxGnu,
    Powerpc64UnknownLinuxMusl,
    Powerpc64leUnknownLinuxGnu,
    Powerpc64leUnknownLinuxMusl,
    PowerpcUnknownLinuxGnu,
    PowerpcUnknownLinuxGnuspe,
    PowerpcUnknownLinuxMusl,
    PowerpcUnknownNetbsd,
    Riscv32,
    Riscv32UnknownLinuxGnu,
    Riscv64,
    Riscv64UnknownLinuxGnu,
    S390xUnknownLinuxGnu,
    Sparc64UnknownLinuxGnu,
    Sparc64UnknownNetbsd,
    Sparc64UnknownOpenbsd,
    SparcUnknownLinuxGnu,
    Sparcv9SunSolaris,
    Thumbv4tNoneEabi,
    Thumbv6mNoneEabi,
    Thumbv7aPcWindowsMsvc,
    Thumbv7emNoneEabi,
    Thumbv7emNoneEabihf,
    Thumbv7mNoneEabi,
    Thumbv8mBaseNoneEabi,
    Thumbv8mMainNoneEabihf,
    Wasm32UnknownEmscripten,
    Wasm32UnknownUnknown,
    Wasm32Wasi,
    X86_64AppleIos,
    X86_64AppleIosMacabi,
    X86_64AppleMacosx,
    X86_64AppleTvos,
    X86_64Elf,
    X86_64Fuchsia,
    X86_64LinuxAndroid,
    X86_64PcSolaris,
    X86_64PcWindowsGnu,
    X86_64PcWindowsMsvc,
    X86_64RumprunNetbsd,
    X86_64UnknownDragonfly,
    X86_64UnknownFreebsd,
    X86_64UnknownHaiku,
    X86_64UnknownHermit,
    X86_64UnknownL4reUclibc,
    X86_64UnknownLinuxGnu,
    X86_64UnknownLinuxGnux32,
    X86_64UnknownLinuxMusl,
    X86_64UnknownNetbsd,
    X86_64UnknownOpenbsd,
    X86_64UnknownRedox,
    X86_64UnknownWindows,
}

/// A family of targets that share their layout rules.
#[derive(Clone, Copy, Debug, PartialEq, Eq, Hash)]
pub enum Family {
    /// The rules of the System V ABIs.
    SysV,
    /// The rules of GCC on Windows.
    MinGW,
    /// The rules of the Microsoft compiler.
    Msvc,
}

/// A compiler.
#[derive(Clone, Copy, Debug, PartialEq, Eq, Hash)]
pub enum Compiler {
    Gcc,
    Clang,
    Msvc,
}

/// The number of targets.
pub const NUM_TARGETS: usize = 123;

/// The family of each target.
pub open spec fn family_of(target: Target) -> Family {
    match target {
        Target::Aarch64PcWindowsMsvc
        | Target::I586PcWindowsMsvc
        | Target::I686PcWindowsMsvc
        | Target::I686UnknownWindows
        | Target::Thumbv7aPcWindowsMsvc
        | Target::X86_64UnknownWindows
        | Target::X86_64PcWindowsMsvc => Family::Msvc,
        Target::I686PcWindowsGnu
        | Target::X86_64PcWindowsGnu => Family::MinGW,
        _ => Family::SysV,
    }
}

/// The width in bits of a pointer on each target.
pub open spec fn pointer_width_of(target: Target) -> u64 {
    match target {
        Target::AvrUnknownUnknown
        | Target::Msp430NoneElf => 16,
        Target::Aarch64AppleMacosx
        | Target::Aarch64Fuchsia
        | Target::Aarch64LinuxAndroid
        | Target::Aarch64PcWindowsMsvc
        | Target::Aarch64UnknownFreebsd
        | Target::Aarch64UnknownHermit
        | Target::Aarch64UnknownLinuxGnu
        | Target::Aarch64UnknownLinuxMusl
        | Target::Aarch64UnknownNetbsd
        | Target::Aarch64UnknownNone
        | Target::Aarch64UnknownOpenbsd
        | Target::Aarch64UnknownRedox
        | Target::Arm64AppleIos
        | Target::Arm64AppleIosMacabi
        | Target::Arm64AppleTvos
        | Target::Mips64UnknownLinuxGnuabi64
        | Target::Mips64UnknownLinuxMusl
        | Target::Mips64elUnknownLinuxGnuabi64
        | Target::Mips64elUnknownLinuxMusl
        | Target::Mipsisa64r6UnknownLinuxGnuabi64
        | Target::Mipsisa64r6elUnknownLinuxGnuabi64
        | Target::Powerpc64UnknownFreebsd
        | Target::Powerpc64UnknownLinuxGnu
        | Target::Powerpc64UnknownLinuxMusl
        | Target::Powerpc64leUnknownLinuxGnu
        | Target::Powerpc64leUnknownLinuxMusl
        | Target::Riscv64
        | Target::Riscv64UnknownLinuxGnu
        | Target::S390xUnknownLinuxGnu
        | Target::Sparc64UnknownLinuxGnu
        | Target::Sparc64UnknownNetbsd
        | Target::Sparc64UnknownOpenbsd
        | Target::Sparcv9SunSolaris
        | Target::X86_64AppleIos
        | Target::X86_64AppleIosMacabi
        | Target::X86_64AppleMacosx
        | Target::X86_64AppleTvos
        | Target::X86_64Elf
        | Target::X86_64Fuchsia
        | Target::X86_64LinuxAndroid
        | Target::X86_64PcSolaris
        | Target::X86_64PcWindowsGnu
        | Target::X86_64PcWindowsMsvc
        | Target::X86_64RumprunNetbsd
        | Target::X86_64UnknownDragonfly
        | Target::X86_64UnknownFreebsd
        | Target::X86_64UnknownHaiku
        | Target::X86_64UnknownHermit
        | Target::X86_64UnknownL4reUclibc
        | Target::X86_64UnknownLinuxGnu
        | Target::X86_64UnknownLinuxMusl
        | Target::X86_64UnknownNetbsd
        | Target::X86_64UnknownOpenbsd
        | Target::X86_64UnknownRedox
        | Target::X86_64UnknownWindows => 64,
        _ => 32,
    }
}

/// The compiler whose layouts are authoritative for each target.
pub open spec fn system_compiler_of(target: Target) -> Compiler {
    match target {
        Target::Aarch64PcWindowsMsvc
        | Target::I586PcWindowsMsvc
        | Target::I686PcWindowsMsvc
        | Target::I686UnknownWindows
        | Target::Thumbv7aPcWindowsMsvc
        | Target::X86_64UnknownWindows
        | Target::X86_64PcWindowsMsvc => Compiler::Msvc,
        Target::Aarch64AppleMacosx
        | Target::Aarch64Fuchsia
        | Target::Aarch64LinuxAndroid
        | Target::Aarch64UnknownFreebsd
        | Target::Aarch64UnknownOpenbsd
        | Target::Arm64AppleIos
        | Target::Arm64AppleIosMacabi
        | Target::Arm64AppleTvos
        | Target::ArmLinuxAndroideabi
        | Target::Armv6UnknownFreebsdGnueabihf
        | Target::Armv7AppleIos
        | Target::Armv7NoneLinuxAndroid
        | Target::Armv7UnknownFreebsdGnueabihf
        | Target::Armv7sAppleIos
        | Target::HexagonUnknownLinuxMusl
        | Target::I386AppleIos
        | Target::I686AppleMacosx
        | Target::I686LinuxAndroid
        | Target::I686UnknownFreebsd
        | Target::I686UnknownOpenbsd
        | Target::Powerpc64UnknownFreebsd
        | Target::Sparc64UnknownOpenbsd
        | Target::Wasm32UnknownEmscripten
        | Target::Wasm32UnknownUnknown
        | Target::Wasm32Wasi
        | Target::X86_64AppleIos
        | Target::X86_64AppleIosMacabi
        | Target::X86_64AppleMacosx
        | Target::X86_64AppleTvos
        | Target::X86_64Fuchsia
        | Target::X86_64LinuxAndroid
        | Target::X86_64UnknownFreebsd
        | Target::X86_64UnknownOpenbsd => Compiler::Clang,
        _ => Compiler::Gcc,
    }
}

/// The largest alignment in bits that a scalar type has on each target.
pub open spec fn max_scalar_alignment_of(target: Target) -> u64 {
    match target {
        Target::AvrUnknownUnknown => 8,
        Target::Msp430NoneElf => 16,
        Target::I386AppleIos
        | Target::I586UnknownLinuxGnu
        | Target::I586UnknownLinuxMusl
        | Target::I686AppleMacosx
        | Target::I686LinuxAndroid
        | Target::I686UnknownFreebsd
        | Target::I686UnknownHaiku
        | Target::I686UnknownLinuxGnu
        | Target::I686UnknownLinuxMusl
        | Target::I686UnknownNetbsdelf
        | Target::I686UnknownOpenbsd => 32,
        _ => if pointer_width_of(target) == 64 {
            128
        } else {
            64
        },
    }
}

/// The size in bits of each scalar type on each target.
pub open spec fn builtin_size_of(target: Target, ty: BuiltinType) -> u64 {
    match ty {
        BuiltinType::Unit => 0,
        BuiltinType::Bool
        | BuiltinType::U8
        | BuiltinType::I8
        | BuiltinType::Char
        | BuiltinType::SignedChar
        | BuiltinType::UnsignedChar => 8,
        BuiltinType::U16 | BuiltinType::I16 | BuiltinType::Short | BuiltinType::UnsignedShort => 16,
        BuiltinType::U32 | BuiltinType::I32 | BuiltinType::F32 | BuiltinType::Float => 32,
        BuiltinType::U64
        | BuiltinType::I64
        | BuiltinType::F64
        | BuiltinType::Double
        | BuiltinType::LongLong
        | BuiltinType::UnsignedLongLong => 64,
        BuiltinType::U128 | BuiltinType::I128 => 128,
        BuiltinType::Int | BuiltinType::UnsignedInt => if pointer_width_of(target) == 16 {
            16
        } else {
            32
        },
        BuiltinType::Long | BuiltinType::UnsignedLong => if family_of(target) == Family::SysV
            && pointer_width_of(target) == 64 {
            64
        } else {
            32
        },
        BuiltinType::Pointer => pointer_width_of(target),
    }
}

/// The layout of each scalar type on each target. A scalar is aligned to
/// its size, but to no less than a byte and to no more than the largest
/// scalar alignment of the target.
pub open spec fn builtin_layout_of(target: Target, ty: BuiltinType) -> TypeLayout {
    let size = builtin_size_of(target, ty);
    let natural = if size < BITS_PER_BYTE {
        BITS_PER_BYTE
    } else {
        size
    };
    let limit = max_scalar_alignment_of(target);
    TypeLayout {
        size_bits: size,
        field_alignment_bits: if natural <= limit {
            natural
        } else {
            limit
        },
        required_alignment_bits: BITS_PER_BYTE,
    }
}

/// The family of `target`.
pub fn family(target: Target) -> (r: Family)
    ensures
        r == family_of(target),
{
    match target {
        Target::Aarch64PcWindowsMsvc
        | Target::I586PcWindowsMsvc
        | Target::I686PcWindowsMsvc
        | Target::I686UnknownWindows
        | Target::Thumbv7aPcWindowsMsvc
        | Target::X86_64UnknownWindows
        | Target::X86_64PcWindowsMsvc => Family::Msvc,
        Target::I686PcWindowsGnu
        | Target::X86_64PcWindowsGnu => Family::MinGW,
        _ => Family::SysV,
    }
}

/// The width in bits of a pointer on `target`.
pub fn pointer_width(target: Target) -> (r: u64)
    ensures
        r == pointer_width_of(target),
{
    match target {
        Target::AvrUnknownUnknown
        | Target::Msp430NoneElf => 16,
        Target::Aarch64AppleMacosx
        | Target::Aarch64Fuchsia
        | Target::Aarch64LinuxAndroid
        | Target::Aarch64PcWindowsMsvc
        | Target::Aarch64UnknownFreebsd
        | Target::Aarch64UnknownHermit
        | Target::Aarch64UnknownLinuxGnu
        | Target::Aarch64UnknownLinuxMusl
        | Target::Aarch64UnknownNetbsd
        | Target::Aarch64UnknownNone
        | Target::Aarch64UnknownOpenbsd
        | Target::Aarch64UnknownRedox
        | Target::Arm64AppleIos
        | Target::Arm64AppleIosMacabi
        | Target::Arm64AppleTvos
        | Target::Mips64UnknownLinuxGnuabi64
        | Target::Mips64UnknownLinuxMusl
        | Target::Mips64elUnknownLinuxGnuabi64
        | Target::Mips64elUnknownLinuxMusl
        | Target::Mipsisa64r6UnknownLinuxGnuabi64
        | Target::Mipsisa64r6elUnknownLinuxGnuabi64
        | Target::Powerpc64UnknownFreebsd
        | Target::Powerpc64UnknownLinuxGnu
        | Target::Powerpc64UnknownLinuxMusl
        | Target::Powerpc64leUnknownLinuxGnu
        | Target::Powerpc64leUnknownLinuxMusl
        | Target::Riscv64
        | Target::Riscv64UnknownLinuxGnu
        | Target::S390xUnknownLinuxGnu
        | Target::Sparc64UnknownLinuxGnu
        | Target::Sparc64UnknownNetbsd
        | Target::Sparc64UnknownOpenbsd
        | Target::Sparcv9SunSolaris
        | Target::X86_64AppleIos
        | Target::X86_64AppleIosMacabi
        | Target::X86_64AppleMacosx
        | Target::X86_64AppleTvos
        | Target::X86_64Elf
        | Target::X86_64Fuchsia
        | Target::X86_64LinuxAndroid
        | Target::X86_64PcSolaris
        | Target::X86_64PcWindowsGnu
        | Target::X86_64PcWindowsMsvc
        | Target::X86_64RumprunNetbsd
        | Target::X86_64UnknownDragonfly
        | Target::X86_64UnknownFreebsd
        | Target::X86_64UnknownHaiku
        | Target::X86_64UnknownHermit
        | Target::X86_64UnknownL4reUclibc
        | Target::X86_64UnknownLinuxGnu
        | Target::X86_64UnknownLinuxMusl
        | Target::X86_64UnknownNetbsd
        | Target::X86_64UnknownOpenbsd
        | Target::X86_64UnknownRedox
        | Target::X86_64UnknownWindows => 64,
        _ => 32,
    }
}

/// The compiler whose layouts are authoritative for `target`.
pub fn system_compiler(target: Target) -> (r: Compiler)
    ensures
        r == system_compiler_of(target),
{
    match target {
        Target::Aarch64PcWindowsMsvc
        | Target::I586PcWindowsMsvc
        | Target::I686PcWindowsMsvc
        | Target::I686UnknownWindows
        | Target::Thumbv7aPcWindowsMsvc
        | Target::X86_64UnknownWindows
        | Target::X86_64PcWindowsMsvc => Compiler::Msvc,
        Target::Aarch64AppleMacosx
        | Target::Aarch64Fuchsia
        | Target::Aarch64LinuxAndroid
        | Target::Aarch64UnknownFreebsd
        | Target::Aarch64UnknownOpenbsd
        | Target::Arm64AppleIos
        | Target::Arm64AppleIosMacabi
        | Target::Arm64AppleTvos
        | Target::ArmLinuxAndroideabi
        | Target::Armv6UnknownFreebsdGnueabihf
        | Target::Armv7AppleIos
        | Target::Armv7NoneLinuxAndroid
        | Target::Armv7UnknownFreebsdGnueabihf
        | Target::Armv7sAppleIos
        | Target::HexagonUnknownLinuxMusl
        | Target::I386AppleIos
        | Target::I686AppleMacosx
        | Target::I686LinuxAndroid
        | Target::I686UnknownFreebsd
        | Target::I686UnknownOpenbsd
        | Target::Powerpc64UnknownFreebsd
        | Target::Sparc64UnknownOpenbsd
        | Target::Wasm32UnknownEmscripten
        | Target::Wasm32UnknownUnknown
        | Target::Wasm32Wasi
        | Target::X86_64AppleIos
        | Target::X86_64AppleIosMacabi
        | Target::X86_64AppleMacosx
        | Target::X86_64AppleTvos
        | Target::X86_64Fuchsia
        | Target::X86_64LinuxAndroid
        | Target::X86_64UnknownFreebsd
        | Target::X86_64UnknownOpenbsd => Compiler::Clang,
        _ => Compiler::Gcc,
    }
}

/// The largest alignment in bits that a scalar type has on `target`.
pub fn max_scalar_alignment(target: Target) -> (r: u64)
    ensures
        r == max_scalar_alignment_of(target),
{
    match target {
        Target::AvrUnknownUnknown => 8,
        Target::Msp430NoneElf => 16,
        Target::I386AppleIos
        | Target::I586UnknownLinuxGnu
        | Target::I586UnknownLinuxMusl
        | Target::I686AppleMacosx
        | Target::I686LinuxAndroid
        | Target::I686UnknownFreebsd
        | Target::I686UnknownHaiku
        | Target::I686UnknownLinuxGnu
        | Target::I686UnknownLinuxMusl
        | Target::I686UnknownNetbsdelf
        | Target::I686UnknownOpenbsd => 32,
        _ => if pointer_width(target) == 64 {
            128
        } else {
            64
        },
    }
}

/// The size in bits of the scalar type `ty` on `target`.
pub fn builtin_size(target: Target, ty: BuiltinType) -> (r: u64)
    ensures
        r == builtin_size_of(target, ty),
{
    match ty {
        BuiltinType::Unit => 0,
        BuiltinType::Bool
        | BuiltinType::U8
        | BuiltinType::I8
        | BuiltinType::Char
        | BuiltinType::SignedChar
        | BuiltinType::UnsignedChar => 8,
        BuiltinType::U16 | BuiltinType::I16 | BuiltinType::Short | BuiltinType::UnsignedShort => 16,
        BuiltinType::U32 | BuiltinType::I32 | BuiltinType::F32 | BuiltinType::Float => 32,
        BuiltinType::U64
        | BuiltinType::I64
        | BuiltinType::F64
        | BuiltinType::Double
        | BuiltinType::LongLong
        | BuiltinType::UnsignedLongLong => 64,
        BuiltinType::U128 | BuiltinType::I128 => 128,
        BuiltinType::Int | BuiltinType::UnsignedInt => if pointer_width(target) == 16 {
            16
        } else {
            32
        },
        BuiltinType::Long | BuiltinType::UnsignedLong => {
            let sysv = match family(target) {
                Family::SysV => true,
                _ => false,
            };
            if sysv && pointer_width(target) == 64 {
                64
            } else {
                32
            }
        },
        BuiltinType::Pointer => pointer_width(target),
    }
}

/// The layout of the scalar type `ty` on `target`.
pub fn builtin_layout(target: Target, ty: BuiltinType) -> (r: TypeLayout)
    ensures
        r == builtin_layout_of(target, ty),
{
    let size = builtin_size(target, ty);
    let natural = if size < BITS_PER_BYTE {
        BITS_PER_BYTE
    } else {
        size
    };
    let limit = max_scalar_alignment(target);
    TypeLayout {
        size_bits: size,
        field_alignment_bits: if natural <= limit {
            natural
        } else {
            limit
        },
        required_alignment_bits: BITS_PER_BYTE,
    }
}

/// Every target has pointers of 16, 32 or 64 bits, and a pointer is as wide
/// as that.
pub proof fn lemma_pointer_width(target: Target)
    ensures
        pointer_width_of(target) == 16 || pointer_width_of(target) == 32 || pointer_width_of(
            target,
        ) == 64,
        builtin_size_of(target, BuiltinType::Pointer) == pointer_width_of(target),
{
}

/// The Microsoft compiler is the system compiler of exactly the targets of
/// its family.
pub proof fn lemma_system_compiler_of_family(target: Target)
    ensures
        system_compiler_of(target) == Compiler::Msvc <==> family_of(target) == Family::Msvc,
{
}

/// The layout of a scalar type is a whole number of bytes in size, with
/// valid alignments.
pub proof fn lemma_builtin_layout_valid(target: Target, ty: BuiltinType)
    ensures
        builtin_layout_of(target, ty).size_bits % BITS_PER_BYTE == 0,
        valid_alignment(builtin_layout_of(target, ty).field_alignment_bits),
        valid_alignment(builtin_layout_of(target, ty).required_alignment_bits),
        builtin_layout_of(target, ty).required_alignment_bits <= builtin_layout_of(
            target,
            ty,
        ).field_alignment_bits,
{
    reveal_with_fuel(is_power_of_two, 9);
    lemma_pointer_width(target);
}

/// The name of each target.
pub open spec fn name_of(target: Target) -> Seq<char> {
    match target {
        Target::Aarch64AppleMacosx => "aarch64-apple-macosx"@,
        Target::Aarch64Fuchsia => "aarch64-fuchsia"@,
        Target::Aarch64LinuxAndroid => "aarch64-linux-android"@,
        Target::Aarch64PcWindowsMsvc => "aarch64-pc-windows-msvc"@,
        Target::Aarch64UnknownFreebsd => "aarch64-unknown-freebsd"@,
        Target::Aarch64UnknownHermit => "aarch64-unknown-hermit"@,
        Target::Aarch64UnknownLinuxGnu => "aarch64-unknown-linux-gnu"@,
        Target::Aarch64UnknownLinuxMusl => "aarch64-unknown-linux-musl"@,
        Target::Aarch64UnknownNetbsd => "aarch64-unknown-netbsd"@,
        Target::Aarch64UnknownNone => "aarch64-unknown-none"@,
        Target::Aarch64UnknownOpenbsd => "aarch64-unknown-openbsd"@,
        Target::Aarch64UnknownRedox => "aarch64-unknown-redox"@,
        Target::Arm64AppleIos => "arm64-apple-ios"@,
        Target::Arm64AppleIosMacabi => "arm64-apple-ios-macabi"@,
        Target::Arm64AppleTvos => "arm64-apple-tvos"@,
        Target::ArmLinuxAndroideabi => "arm-linux-androideabi"@,
        Target::ArmUnknownLinuxGnueabi => "arm-unknown-linux-gnueabi"@,
        Target::ArmUnknownLinuxGnueabihf => "arm-unknown-linux-gnueabihf"@,
        Target::Armebv7rUnknownNoneEabi => "armebv7r-unknown-none-eabi"@,
        Target::Armebv7rUnknownNoneEabihf => "armebv7r-unknown-none-eabihf"@,
        Target::Armv4tUnknownLinuxGnueabi => "armv4t-unknown-linux-gnueabi"@,
        Target::Armv5teUnknownLinuxGnueabi => "armv5te-unknown-linux-gnueabi"@,
        Target::Armv5teUnknownLinuxUclibcgnueabi => "armv5te-unknown-linux-uclibcgnueabi"@,
        Target::Armv6UnknownFreebsdGnueabihf => "armv6-unknown-freebsd-gnueabihf"@,
        Target::Armv6UnknownNetbsdelfEabihf => "armv6-unknown-netbsdelf-eabihf"@,
        Target::Armv7AppleIos => "armv7-apple-ios"@,
        Target::Armv7NoneLinuxAndroid => "armv7-none-linux-android"@,
        Target::Armv7UnknownFreebsdGnueabihf => "armv7-unknown-freebsd-gnueabihf"@,
        Target::Armv7UnknownLinuxGnueabi => "armv7-unknown-linux-gnueabi"@,
        Target::Armv7UnknownLinuxGnueabihf => "armv7-unknown-linux-gnueabihf"@,
        Target::Armv7UnknownNetbsdelfEabihf => "armv7-unknown-netbsdelf-eabihf"@,
        Target::Armv7aNoneEabi => "armv7a-none-eabi"@,
        Target::Armv7aNoneEabihf => "armv7a-none-eabihf"@,
        Target::Armv7rUnknownNoneEabi => "armv7r-unknown-none-eabi"@,
        Target::Armv7rUnknownNoneEabihf => "armv7r-unknown-none-eabihf"@,
        Target::Armv7sAppleIos => "armv7s-apple-ios"@,
        Target::AvrUnknownUnknown => "avr-unknown-unknown"@,
        Target::HexagonUnknownLinuxMusl => "hexagon-unknown-linux-musl"@,
        Target::I386AppleIos => "i386-apple-ios"@,
        Target::I586PcWindowsMsvc => "i586-pc-windows-msvc"@,
        Target::I586UnknownLinuxGnu => "i586-unknown-linux-gnu"@,
        Target::I586UnknownLinuxMusl => "i586-unknown-linux-musl"@,
        Target::I686AppleMacosx => "i686-apple-macosx"@,
        Target::I686LinuxAndroid => "i686-linux-android"@,
        Target::I686PcWindowsGnu => "i686-pc-windows-gnu"@,
        Target::I686PcWindowsMsvc => "i686-pc-windows-msvc"@,
        Target::I686UnknownFreebsd => "i686-unknown-freebsd"@,
        Target::I686UnknownHaiku => "i686-unknown-haiku"@,
        Target::I686UnknownLinuxGnu => "i686-unknown-linux-gnu"@,
        Target::I686UnknownLinuxMusl => "i686-unknown-linux-musl"@,
        Target::I686UnknownNetbsdelf => "i686-unknown-netbsdelf"@,
        Target::I686UnknownOpenbsd => "i686-unknown-openbsd"@,
        Target::I686UnknownWindows => "i686-unknown-windows"@,
        Target::Mips64UnknownLinuxGnuabi64 => "mips64-unknown-linux-gnuabi64"@,
        Target::Mips64UnknownLinuxMusl => "mips64-unknown-linux-musl"@,
        Target::Mips64elUnknownLinuxGnuabi64 => "mips64el-unknown-linux-gnuabi64"@,
        Target::Mips64elUnknownLinuxMusl => "mips64el-unknown-linux-musl"@,
        Target::MipsUnknownLinuxGnu => "mips-unknown-linux-gnu"@,
        Target::MipsUnknownLinuxMusl => "mips-unknown-linux-musl"@,
        Target::MipsUnknownLinuxUclibc => "mips-unknown-linux-uclibc"@,
        Target::MipselSonyPsp => "mipsel-sony-psp"@,
        Target::MipselUnknownLinuxGnu => "mipsel-unknown-linux-gnu"@,
        Target::MipselUnknownLinuxMusl => "mipsel-unknown-linux-musl"@,
        Target::MipselUnknownLinuxUclibc => "mipsel-unknown-linux-uclibc"@,
        Target::MipselUnknownNone => "mipsel-unknown-none"@,
        Target::Mipsisa32r6UnknownLinuxGnu => "mipsisa32r6-unknown-linux-gnu"@,
        Target::Mipsisa32r6elUnknownLinuxGnu => "mipsisa32r6el-unknown-linux-gnu"@,
        Target::Mipsisa64r6UnknownLinuxGnuabi64 => "mipsisa64r6-unknown-linux-gnuabi64"@,
        Target::Mipsisa64r6elUnknownLinuxGnuabi64 => "mipsisa64r6el-unknown-linux-gnuabi64"@,
        Target::Msp430NoneElf => "msp430-none-elf"@,
        Target::Powerpc64UnknownFreebsd => "powerpc64-unknown-freebsd"@,
        Target::Powerpc64UnknownLinuxGnu => "powerpc64-unknown-linux-gnu"@,
        Target::Powerpc64UnknownLinuxMusl => "powerpc64-unknown-linux-musl"@,
        Target::Powerpc64leUnknownLinuxGnu => "powerpc64le-unknown-linux-gnu"@,
        Target::Powerpc64leUnknownLinuxMusl => "powerpc64le-unknown-linux-musl"@,
        Target::PowerpcUnknownLinuxGnu => "powerpc-unknown-linux-gnu"@,
        Target::PowerpcUnknownLinuxGnuspe => "powerpc-unknown-linux-gnuspe"@,
        Target::PowerpcUnknownLinuxMusl => "powerpc-unknown-linux-musl"@,
        Target::PowerpcUnknownNetbsd => "powerpc-unknown-netbsd"@,
        Target::Riscv32 => "riscv32"@,
        Target::Riscv32UnknownLinuxGnu => "riscv32-unknown-linux-gnu"@,
        Target::Riscv64 => "riscv64"@,
        Target::Riscv64UnknownLinuxGnu => "riscv64-unknown-linux-gnu"@,
        Target::S390xUnknownLinuxGnu => "s390x-unknown-linux-gnu"@,
        Target::Sparc64UnknownLinuxGnu => "sparc64-unknown-linux-gnu"@,
        Target::Sparc64UnknownNetbsd => "sparc64-unknown-netbsd"@,
        Target::Sparc64UnknownOpenbsd => "sparc64-unknown-openbsd"@,
        Target::SparcUnknownLinuxGnu => "sparc-unknown-linux-gnu"@,
        Target::Sparcv9SunSolaris => "sparcv9-sun-solaris"@,
        Target::Thumbv4tNoneEabi => "thumbv4t-none-eabi"@,
        Target::Thumbv6mNoneEabi => "thumbv6m-none-eabi"@,
        Target::Thumbv7aPcWindowsMsvc => "thumbv7a-pc-windows-msvc"@,
        Target::Thumbv7emNoneEabi => "thumbv7em-none-eabi"@,
        Target::Thumbv7emNoneEabihf => "thumbv7em-none-eabihf"@,
        Target::Thumbv7mNoneEabi => "thumbv7m-none-eabi"@,
        Target::Thumbv8mBaseNoneEabi => "thumbv8m-base-none-eabi"@,
        Target::Thumbv8mMainNoneEabihf => "thumbv8m-main-none-eabihf"@,
        Target::Wasm32UnknownEmscripten => "wasm32-unknown-emscripten"@,
        Target::Wasm32UnknownUnknown => "wasm32-unknown-unknown"@,
        Target::Wasm32Wasi => "wasm32-wasi"@,
        Target::X86_64AppleIos => "x86_64-apple-ios"@,
        Target::X86_64AppleIosMacabi => "x86_64-apple-ios-macabi"@,
        Target::X86_64AppleMacosx => "x86_64-apple-macosx"@,
        Target::X86_64AppleTvos => "x86_64-apple-tvos"@,
        Target::X86_64Elf => "x86_64-elf"@,
        Target::X86_64Fuchsia => "x86_64-fuchsia"@,
        Target::X86_64LinuxAndroid => "x86_64-linux-android"@,
        Target::X86_64PcSolaris => "x86_64-pc-solaris"@,
        Target::X86_64PcWindowsGnu => "x86_64-pc-windows-gnu"@,
        Target::X86_64PcWindowsMsvc => "x86_64-pc-windows-msvc"@,
        Target::X86_64RumprunNetbsd => "x86_64-rumprun-netbsd"@,
        Target::X86_64UnknownDragonfly => "x86_64-unknown-dragonfly"@,
        Target::X86_64UnknownFreebsd => "x86_64-unknown-freebsd"@,
        Target::X86_64UnknownHaiku => "x86_64-unknown-haiku"@,
        Target::X86_64UnknownHermit => "x86_64-unknown-hermit"@,
        Target::X86_64UnknownL4reUclibc => "x86_64-unknown-l4re-uclibc"@,
        Target::X86_64UnknownLinuxGnu => "x86_64-unknown-linux-gnu"@,
        Target::X86_64UnknownLinuxGnux32 => "x86_64-unknown-linux-gnux32"@,
        Target::X86_64UnknownLinuxMusl => "x86_64-unknown-linux-musl"@,
        Target::X86_64UnknownNetbsd => "x86_64-unknown-netbsd"@,
        Target::X86_64UnknownOpenbsd => "x86_64-unknown-openbsd"@,
        Target::X86_64UnknownRedox => "x86_64-unknown-redox"@,
        Target::X86_64UnknownWindows => "x86_64-unknown-windows"@,
    }
}

/// The place of each target in the list of all targets.
pub open spec fn index_of(target: Target) -> int {
    match target {
        Target::Aarch64AppleMacosx => 0,
        Target::Aarch64Fuchsia => 1,
        Target::Aarch64LinuxAndroid => 2,
        Target::Aarch64PcWindowsMsvc => 3,
        Target::Aarch64UnknownFreebsd => 4,
        Target::Aarch64UnknownHermit => 5,
        Target::Aarch64UnknownLinuxGnu => 6,
        Target::Aarch64UnknownLinuxMusl => 7,
        Target::Aarch64UnknownNetbsd => 8,
        Target::Aarch64UnknownNone => 9,
        Target::Aarch64UnknownOpenbsd => 10,
        Target::Aarch64UnknownRedox => 11,
        Target::Arm64AppleIos => 12,
        Target::Arm64AppleIosMacabi => 13,
        Target::Arm64AppleTvos => 14,
        Target::ArmLinuxAndroideabi => 15,
        Target::ArmUnknownLinuxGnueabi => 16,
        Target::ArmUnknownLinuxGnueabihf => 17,
        Target::Armebv7rUnknownNoneEabi => 18,
        Target::Armebv7rUnknownNoneEabihf => 19,
        Target::Armv4tUnknownLinuxGnueabi => 20,
        Target::Armv5teUnknownLinuxGnueabi => 21,
        Target::Armv5teUnknownLinuxUclibcgnueabi => 22,
        Target::Armv6UnknownFreebsdGnueabihf => 23,
        Target::Armv6UnknownNetbsdelfEabihf => 24,
        Target::Armv7AppleIos => 25,
        Target::Armv7NoneLinuxAndroid => 26,
        Target::Armv7UnknownFreebsdGnueabihf => 27,
        Target::Armv7UnknownLinuxGnueabi => 28,
        Target::Armv7UnknownLinuxGnueabihf => 29,
        Target::Armv7UnknownNetbsdelfEabihf => 30,
        Target::Armv7aNoneEabi => 31,
        Target::Armv7aNoneEabihf => 32,
        Target::Armv7rUnknownNoneEabi => 33,
        Target::Armv7rUnknownNoneEabihf => 34,
        Target::Armv7sAppleIos => 35,
        Target::AvrUnknownUnknown => 36,
        Target::HexagonUnknownLinuxMusl => 37,
        Target::I386AppleIos => 38,
        Target::I586PcWindowsMsvc => 39,
        Target::I586UnknownLinuxGnu => 40,
        Target::I586UnknownLinuxMusl => 41,
        Target::I686AppleMacosx => 42,
        Target::I686LinuxAndroid => 43,
        Target::I686PcWindowsGnu => 44,
        Target::I686PcWindowsMsvc => 45,
        Target::I686UnknownFreebsd => 46,
        Target::I686UnknownHaiku => 47,
        Target::I686UnknownLinuxGnu => 48,
        Target::I686UnknownLinuxMusl => 49,
        Target::I686UnknownNetbsdelf => 50,
        Target::I686UnknownOpenbsd => 51,
        Target::I686UnknownWindows => 52,
        Target::Mips64UnknownLinuxGnuabi64 => 53,
        Target::Mips64UnknownLinuxMusl => 54,
        Target::Mips64elUnknownLinuxGnuabi64 => 55,
        Target::Mips64elUnknownLinuxMusl => 56,
        Target::MipsUnknownLinuxGnu => 57,
        Target::MipsUnknownLinuxMusl => 58,
        Target::MipsUnknownLinuxUclibc => 59,
        Target::MipselSonyPsp => 60,
        Target::MipselUnknownLinuxGnu => 61,
        Target::MipselUnknownLinuxMusl => 62,
        Target::MipselUnknownLinuxUclibc => 63,
        Target::MipselUnknownNone => 64,
        Target::Mipsisa32r6UnknownLinuxGnu => 65,
        Target::Mipsisa32r6elUnknownLinuxGnu => 66,
        Target::Mipsisa64r6UnknownLinuxGnuabi64 => 67,
        Target::Mipsisa64r6elUnknownLinuxGnuabi64 => 68,
        Target::Msp430NoneElf => 69,
        Target::Powerpc64UnknownFreebsd => 70,
        Target::Powerpc64UnknownLinuxGnu => 71,
        Target::Powerpc64UnknownLinuxMusl => 72,
        Target::Powerpc64leUnknownLinuxGnu => 73,
        Target::Powerpc64leUnknownLinuxMusl => 74,
        Target::PowerpcUnknownLinuxGnu => 75,
        Target::PowerpcUnknownLinuxGnuspe => 76,
        Target::PowerpcUnknownLinuxMusl => 77,
        Target::PowerpcUnknownNetbsd => 78,
        Target::Riscv32 => 79,
        Target::Riscv32UnknownLinuxGnu => 80,
        Target::Riscv64 => 81,
        Target::Riscv64UnknownLinuxGnu => 82,
        Target::S390xUnknownLinuxGnu => 83,
        Target::Sparc64UnknownLinuxGnu => 84,
        Target::Sparc64UnknownNetbsd => 85,
        Target::Sparc64UnknownOpenbsd => 86,
        Target::SparcUnknownLinuxGnu => 87,
        Target::Sparcv9SunSolaris => 88,
        Target::Thumbv4tNoneEabi => 89,
        Target::Thumbv6mNoneEabi => 90,
        Target::Thumbv7aPcWindowsMsvc => 91,
        Target::Thumbv7emNoneEabi => 92,
        Target::Thumbv7emNoneEabihf => 93,
        Target::Thumbv7mNoneEabi => 94,
        Target::Thumbv8mBaseNoneEabi => 95,
        Target::Thumbv8mMainNoneEabihf => 96,
        Target::Wasm32UnknownEmscripten => 97,
        Target::Wasm32UnknownUnknown => 98,
        Target::Wasm32Wasi => 99,
        Target::X86_64AppleIos => 100,
        Target::X86_64AppleIosMacabi => 101,
        Target::X86_64AppleMacosx => 102,
        Target::X86_64AppleTvos => 103,
        Target::X86_64Elf => 104,
        Target::X86_64Fuchsia => 105,
        Target::X86_64LinuxAndroid => 106,
        Target::X86_64PcSolaris => 107,
        Target::X86_64PcWindowsGnu => 108,
        Target::X86_64PcWindowsMsvc => 109,
        Target::X86_64RumprunNetbsd => 110,
        Target::X86_64UnknownDragonfly => 111,
        Target::X86_64UnknownFreebsd => 112,
        Target::X86_64UnknownHaiku => 113,
        Target::X86_64UnknownHermit => 114,
        Target::X86_64UnknownL4reUclibc => 115,
        Target::X86_64UnknownLinuxGnu => 116,
        Target::X86_64UnknownLinuxGnux32 => 117,
        Target::X86_64UnknownLinuxMusl => 118,
        Target::X86_64UnknownNetbsd => 119,
        Target::X86_64UnknownOpenbsd => 120,
        Target::X86_64UnknownRedox => 121,
        Target::X86_64UnknownWindows => 122,
    }
}

/// The target at each place of the list of all targets.
pub open spec fn target_at_index(i: int) -> Target {
    if i == 0 {
        Target::Aarch64AppleMacosx
    }     else if i == 1 {
        Target::Aarch64Fuchsia
    }     else if i == 2 {
        Target::Aarch64LinuxAndroid
    }     else if i == 3 {
        Target::Aarch64PcWindowsMsvc
    }     else if i == 4 {
        Target::Aarch64UnknownFreebsd
    }     else if i == 5 {
        Target::Aarch64UnknownHermit
    }     else if i == 6 {
        Target::Aarch64UnknownLinuxGnu
    }     else if i == 7 {
        Target::Aarch64UnknownLinuxMusl
    }     else if i == 8 {
        Target::Aarch64UnknownNetbsd
    }     else if i == 9 {
        Target::Aarch64UnknownNone
    }     else if i == 10 {
        Target::Aarch64UnknownOpenbsd
    }     else if i == 11 {
        Target::Aarch64UnknownRedox
    }     else if i == 12 {
        Target::Arm64AppleIos
    }     else if i == 13 {
        Target::Arm64AppleIosMacabi
    }     else if i == 14 {
        Target::Arm64AppleTvos
    }     else if i == 15 {
        Target::ArmLinuxAndroideabi
    }     else if i == 16 {
        Target::ArmUnknownLinuxGnueabi
    }     else if i == 17 {
        Target::ArmUnknownLinuxGnueabihf
    }     else if i == 18 {
        Target::Armebv7rUnknownNoneEabi
    }     else if i == 19 {
        Target::Armebv7rUnknownNoneEabihf
    }     else if i == 20 {
        Target::Armv4tUnknownLinuxGnueabi
    }     else if i == 21 {
        Target::Armv5teUnknownLinuxGnueabi
    }     else if i == 22 {
        Target::Armv5teUnknownLinuxUclibcgnueabi
    }     else if i == 23 {
        Target::Armv6UnknownFreebsdGnueabihf
    }     else if i == 24 {
        Target::Armv6UnknownNetbsdelfEabihf
    }     else if i == 25 {
        Target::Armv7AppleIos
    }     else if i == 26 {
        Target::Armv7NoneLinuxAndroid
    }     else if i == 27 {
        Target::Armv7UnknownFreebsdGnueabihf
    }     else if i == 28 {
        Target::Armv7UnknownLinuxGnueabi
    }     else if i == 29 {
        Target::Armv7UnknownLinuxGnueabihf
    }     else if i == 30 {
        Target::Armv7UnknownNetbsdelfEabihf
    }     else if i == 31 {
        Target::Armv7aNoneEabi
    }     else if i == 32 {
        Target::Armv7aNoneEabihf
    }     else if i == 33 {
        Target::Armv7rUnknownNoneEabi
    }     else if i == 34 {
        Target::Armv7rUnknownNoneEabihf
    }     else if i == 35 {
        Target::Armv7sAppleIos
    }     else if i == 36 {
        Target::AvrUnknownUnknown
    }     else if i == 37 {
        Target::HexagonUnknownLinuxMusl
    }     else if i == 38 {
        Target::I386AppleIos
    }     else if i == 39 {
        Target::I586PcWindowsMsvc
    }     else if i == 40 {
        Target::I586UnknownLinuxGnu
    }     else if i == 41 {
        Target::I586UnknownLinuxMusl
    }     else if i == 42 {
        Target::I686AppleMacosx
    }     else if i == 43 {
        Target::I686LinuxAndroid
    }     else if i == 44 {
        Target::I686PcWindowsGnu
    }     else if i == 45 {
        Target::I686PcWindowsMsvc
    }     else if i == 46 {
        Target::I686UnknownFreebsd
    }     else if i == 47 {
        Target::I686UnknownHaiku
    }     else if i == 48 {
        Target::I686UnknownLinuxGnu
    }     else if i == 49 {
        Target::I686UnknownLinuxMusl
    }     else if i == 50 {
        Target::I686UnknownNetbsdelf
    }     else if i == 51 {
        Target::I686UnknownOpenbsd
    }     else if i == 52 {
        Target::I686UnknownWindows
    }     else if i == 53 {
        Target::Mips64UnknownLinuxGnuabi64
    }     else if i == 54 {
        Target::Mips64UnknownLinuxMusl
    }     else if i == 55 {
        Target::Mips64elUnknownLinuxGnuabi64
    }     else if i == 56 {
        Target::Mips64elUnknownLinuxMusl
    }     else if i == 57 {
        Target::MipsUnknownLinuxGnu
    }     else if i == 58 {
        Target::MipsUnknownLinuxMusl
    }     else if i == 59 {
        Target::MipsUnknownLinuxUclibc
    }     else if i == 60 {
        Target::MipselSonyPsp
    }     else if i == 61 {
        Target::MipselUnknownLinuxGnu
    }     else if i == 62 {
        Target::MipselUnknownLinuxMusl
    }     else if i == 63 {
        Target::MipselUnknownLinuxUclibc
    }     else if i == 64 {
        Target::MipselUnknownNone
    }     else if i == 65 {
        Target::Mipsisa32r6UnknownLinuxGnu
    }     else if i == 66 {
        Target::Mipsisa32r6elUnknownLinuxGnu
    }     else if i == 67 {
        Target::Mipsisa64r6UnknownLinuxGnuabi64
    }     else if i == 68 {
        Target::Mipsisa64r6elUnknownLinuxGnuabi64
    }     else if i == 69 {
        Target::Msp430NoneElf
    }     else if i == 70 {
        Target::Powerpc64UnknownFreebsd
    }     else if i == 71 {
        Target::Powerpc64UnknownLinuxGnu
    }     else if i == 72 {
        Target::Powerpc64UnknownLinuxMusl
    }     else if i == 73 {
        Target::Powerpc64leUnknownLinuxGnu
    }     else if i == 74 {
        Target::Powerpc64leUnknownLinuxMusl
    }     else if i == 75 {
        Target::PowerpcUnknownLinuxGnu
    }     else if i == 76 {
        Target::PowerpcUnknownLinuxGnuspe
    }     else if i == 77 {
        Target::PowerpcUnknownLinuxMusl
    }     else if i == 78 {
        Target::PowerpcUnknownNetbsd
    }     else if i == 79 {
        Target::Riscv32
    }     else if i == 80 {
        Target::Riscv32UnknownLinuxGnu
    }     else if i == 81 {
        Target::Riscv64
    }     else if i == 82 {
        Target::Riscv64UnknownLinuxGnu
    }     else if i == 83 {
        Target::S390xUnknownLinuxGnu
    }     else if i == 84 {
        Target::Sparc64UnknownLinuxGnu
    }     else if i == 85 {
        Target::Sparc64UnknownNetbsd
    }     else if i == 86 {
        Target::Sparc64UnknownOpenbsd
    }     else if i == 87 {
        Target::SparcUnknownLinuxGnu
    }     else if i == 88 {
        Target::Sparcv9SunSolaris
    }     else if i == 89 {
        Target::Thumbv4tNoneEabi
    }     else if i == 90 {
        Target::Thumbv6mNoneEabi
    }     else if i == 91 {
        Target::Thumbv7aPcWindowsMsvc
    }     else if i == 92 {
        Target::Thumbv7emNoneEabi
    }     else if i == 93 {
        Target::Thumbv7emNoneEabihf
    }     else if i == 94 {
        Target::Thumbv7mNoneEabi
    }     else if i == 95 {
        Target::Thumbv8mBaseNoneEabi
    }     else if i == 96 {
        Target::Thumbv8mMainNoneEabihf
    }     else if i == 97 {
        Target::Wasm32UnknownEmscripten
    }     else if i == 98 {
        Target::Wasm32UnknownUnknown
    }     else if i == 99 {
        Target::Wasm32Wasi
    }     else if i == 100 {
        Target::X86_64AppleIos
    }     else if i == 101 {
        Target::X86_64AppleIosMacabi
    }     else if i == 102 {
        Target::X86_64AppleMacosx
    }     else if i == 103 {
        Target::X86_64AppleTvos
    }     else if i == 104 {
        Target::X86_64Elf
    }     else if i == 105 {
        Target::X86_64Fuchsia
    }     else if i == 106 {
        Target::X86_64LinuxAndroid
    }     else if i == 107 {
        Target::X86_64PcSolaris
    }     else if i == 108 {
        Target::X86_64PcWindowsGnu
    }     else if i == 109 {
        Target::X86_64PcWindowsMsvc
    }     else if i == 110 {
        Target::X86_64RumprunNetbsd
    }     else if i == 111 {
        Target::X86_64UnknownDragonfly
    }     else if i == 112 {
        Target::X86_64UnknownFreebsd
    }     else if i == 113 {
        Target::X86_64UnknownHaiku
    }     else if i == 114 {
        Target::X86_64UnknownHermit
    }     else if i == 115 {
        Target::X86_64UnknownL4reUclibc
    }     else if i == 116 {
        Target::X86_64UnknownLinuxGnu
    }     else if i == 117 {
        Target::X86_64UnknownLinuxGnux32
    }     else if i == 118 {
        Target::X86_64UnknownLinuxMusl
    }     else if i == 119 {
        Target::X86_64UnknownNetbsd
    }     else if i == 120 {
        Target::X86_64UnknownOpenbsd
    }     else if i == 121 {
        Target::X86_64UnknownRedox
    } else {
        Target::X86_64UnknownWindows
    }
}

/// All targets, in the order of their names.
pub open spec fn all_targets() -> Seq<Target> {
    Seq::new(NUM_TARGETS as nat, |i: int| target_at_index(i))
}

/// The name that the Rust compiler has for each target.
pub open spec fn rust_name_of(target: Target) -> Seq<char> {
    match target {
        Target::Aarch64AppleMacosx => "aarch64-apple-darwin"@,
        Target::Aarch64Fuchsia => "aarch64-fuchsia"@,
        Target::Aarch64LinuxAndroid => "aarch64-linux-android"@,
        Target::Aarch64PcWindowsMsvc => "aarch64-pc-windows-msvc"@,
        Target::Aarch64UnknownFreebsd => "aarch64-unknown-freebsd"@,
        Target::Aarch64UnknownHermit => "aarch64-unknown-hermit"@,
        Target::Aarch64UnknownLinuxGnu => "aarch64-unknown-linux-gnu"@,
        Target::Aarch64UnknownLinuxMusl => "aarch64-unknown-linux-musl"@,
        Target::Aarch64UnknownNetbsd => "aarch64-unknown-netbsd"@,
        Target::Aarch64UnknownNone => "aarch64-unknown-none"@,
        Target::Aarch64UnknownOpenbsd => "aarch64-unknown-openbsd"@,
        Target::Aarch64UnknownRedox => "aarch64-unknown-redox"@,
        Target::Arm64AppleIos => "aarch64-apple-ios"@,
        Target::Arm64AppleIosMacabi => "aarch64-apple-ios-macabi"@,
        Target::Arm64AppleTvos => "aarch64-apple-tvos"@,
        Target::ArmLinuxAndroideabi => "arm-linux-androideabi"@,
        Target::ArmUnknownLinuxGnueabi => "arm-unknown-linux-gnueabi"@,
        Target::ArmUnknownLinuxGnueabihf => "arm-unknown-linux-gnueabihf"@,
        Target::Armebv7rUnknownNoneEabi => "armebv7r-none-eabi"@,
        Target::Armebv7rUnknownNoneEabihf => "armebv7r-none-eabihf"@,
        Target::Armv4tUnknownLinuxGnueabi => "armv4t-unknown-linux-gnueabi"@,
        Target::Armv5teUnknownLinuxGnueabi => "armv5te-unknown-linux-gnueabi"@,
        Target::Armv5teUnknownLinuxUclibcgnueabi => "armv5te-unknown-linux-uclibceabi"@,
        Target::Armv6UnknownFreebsdGnueabihf => "armv6-unknown-freebsd"@,
        Target::Armv6UnknownNetbsdelfEabihf => "armv6-unknown-netbsd-eabihf"@,
        Target::Armv7AppleIos => "armv7-apple-ios"@,
        Target::Armv7NoneLinuxAndroid => "armv7-linux-androideabi"@,
        Target::Armv7UnknownFreebsdGnueabihf => "armv7-unknown-freebsd"@,
        Target::Armv7UnknownLinuxGnueabi => "armv7-unknown-linux-gnueabi"@,
        Target::Armv7UnknownLinuxGnueabihf => "armv7-unknown-linux-gnueabihf"@,
        Target::Armv7UnknownNetbsdelfEabihf => "armv7-unknown-netbsd-eabihf"@,
        Target::Armv7aNoneEabi => "armv7a-none-eabi"@,
        Target::Armv7aNoneEabihf => "armv7a-none-eabihf"@,
        Target::Armv7rUnknownNoneEabi => "armv7r-none-eabi"@,
        Target::Armv7rUnknownNoneEabihf => "armv7r-none-eabihf"@,
        Target::Armv7sAppleIos => "armv7s-apple-ios"@,
        Target::AvrUnknownUnknown => "avr-unknown-gnu-atmega328"@,
        Target::HexagonUnknownLinuxMusl => "hexagon-unknown-linux-musl"@,
        Target::I386AppleIos => "i386-apple-ios"@,
        Target::I586PcWindowsMsvc => "i586-pc-windows-msvc"@,
        Target::I586UnknownLinuxGnu => "i586-unknown-linux-gnu"@,
        Target::I586UnknownLinuxMusl => "i586-unknown-linux-musl"@,
        Target::I686AppleMacosx => "i686-apple-darwin"@,
        Target::I686LinuxAndroid => "i686-linux-android"@,
        Target::I686PcWindowsGnu => "i686-pc-windows-gnu"@,
        Target::I686PcWindowsMsvc => "i686-pc-windows-msvc"@,
        Target::I686UnknownFreebsd => "i686-unknown-freebsd"@,
        Target::I686UnknownHaiku => "i686-unknown-haiku"@,
        Target::I686UnknownLinuxGnu => "i686-wrs-vxworks"@,
        Target::I686UnknownLinuxMusl => "i686-unknown-linux-musl"@,
        Target::I686UnknownNetbsdelf => "i686-unknown-netbsd"@,
        Target::I686UnknownOpenbsd => "i686-unknown-openbsd"@,
        Target::I686UnknownWindows => "i686-unknown-uefi"@,
        Target::Mips64UnknownLinuxGnuabi64 => "mips64-unknown-linux-gnuabi64"@,
        Target::Mips64UnknownLinuxMusl => "mips64-unknown-linux-muslabi64"@,
        Target::Mips64elUnknownLinuxGnuabi64 => "mips64el-unknown-linux-gnuabi64"@,
        Target::Mips64elUnknownLinuxMusl => "mips64el-unknown-linux-muslabi64"@,
        Target::MipsUnknownLinuxGnu => "mips-unknown-linux-gnu"@,
        Target::MipsUnknownLinuxMusl => "mips-unknown-linux-musl"@,
        Target::MipsUnknownLinuxUclibc => "mips-unknown-linux-uclibc"@,
        Target::MipselSonyPsp => "mipsel-sony-psp"@,
        Target::MipselUnknownLinuxGnu => "mipsel-unknown-linux-gnu"@,
        Target::MipselUnknownLinuxMusl => "mipsel-unknown-linux-musl"@,
        Target::MipselUnknownLinuxUclibc => "mipsel-unknown-linux-uclibc"@,
        Target::MipselUnknownNone => "mipsel-unknown-none"@,
        Target::Mipsisa32r6UnknownLinuxGnu => "mipsisa32r6-unknown-linux-gnu"@,
        Target::Mipsisa32r6elUnknownLinuxGnu => "mipsisa32r6el-unknown-linux-gnu"@,
        Target::Mipsisa64r6UnknownLinuxGnuabi64 => "mipsisa64r6-unknown-linux-gnuabi64"@,
        Target::Mipsisa64r6elUnknownLinuxGnuabi64 => "mipsisa64r6el-unknown-linux-gnuabi64"@,
        Target::Msp430NoneElf => "msp430-none-elf"@,
        Target::Powerpc64UnknownFreebsd => "powerpc64-unknown-freebsd"@,
        Target::Powerpc64UnknownLinuxGnu => "powerpc64-unknown-linux-gnu"@,
        Target::Powerpc64UnknownLinuxMusl => "powerpc64-unknown-linux-musl"@,
        Target::Powerpc64leUnknownLinuxGnu => "powerpc64le-unknown-linux-gnu"@,
        Target::Powerpc64leUnknownLinuxMusl => "powerpc64le-unknown-linux-musl"@,
        Target::PowerpcUnknownLinuxGnu => "powerpc-unknown-linux-gnu"@,
        Target::PowerpcUnknownLinuxGnuspe => "powerpc-unknown-linux-gnuspe"@,
        Target::PowerpcUnknownLinuxMusl => "powerpc-unknown-linux-musl"@,
        Target::PowerpcUnknownNetbsd => "powerpc-unknown-netbsd"@,
        Target::Riscv32 => "riscv32i-unknown-none-elf"@,
        Target::Riscv32UnknownLinuxGnu => "riscv32gc-unknown-linux-gnu"@,
        Target::Riscv64 => "riscv64gc-unknown-none-elf"@,
        Target::Riscv64UnknownLinuxGnu => "riscv64gc-unknown-linux-gnu"@,
        Target::S390xUnknownLinuxGnu => "s390x-unknown-linux-gnu"@,
        Target::Sparc64UnknownLinuxGnu => "sparc64-unknown-linux-gnu"@,
        Target::Sparc64UnknownNetbsd => "sparc64-unknown-netbsd"@,
        Target::Sparc64UnknownOpenbsd => "sparc64-unknown-openbsd"@,
        Target::SparcUnknownLinuxGnu => "sparc-unknown-linux-gnu"@,
        Target::Sparcv9SunSolaris => "sparcv9-sun-solaris"@,
        Target::Thumbv4tNoneEabi => "thumbv4t-none-eabi"@,
        Target::Thumbv6mNoneEabi => "thumbv6m-none-eabi"@,
        Target::Thumbv7aPcWindowsMsvc => "thumbv7a-pc-windows-msvc"@,
        Target::Thumbv7emNoneEabi => "thumbv7em-none-eabi"@,
        Target::Thumbv7emNoneEabihf => "thumbv7em-none-eabihf"@,
        Target::Thumbv7mNoneEabi => "thumbv7m-none-eabi"@,
        Target::Thumbv8mBaseNoneEabi => "thumbv8m.base-none-eabi"@,
        Target::Thumbv8mMainNoneEabihf => "thumbv8m.main-none-eabihf"@,
        Target::Wasm32UnknownEmscripten => "wasm32-unknown-emscripten"@,
        Target::Wasm32UnknownUnknown => "wasm32-unknown-unknown"@,
        Target::Wasm32Wasi => "wasm32-wasi"@,
        Target::X86_64AppleIos => "x86_64-apple-ios"@,
        Target::X86_64AppleIosMacabi => "x86_64-apple-ios-macabi"@,
        Target::X86_64AppleMacosx => "x86_64-apple-darwin"@,
        Target::X86_64AppleTvos => "x86_64-apple-tvos"@,
        Target::X86_64Elf => "x86_64-linux-kernel"@,
        Target::X86_64Fuchsia => "x86_64-fuchsia"@,
        Target::X86_64LinuxAndroid => "x86_64-linux-android"@,
        Target::X86_64PcSolaris => "x86_64-pc-solaris"@,
        Target::X86_64PcWindowsGnu => "x86_64-pc-windows-gnu"@,
        Target::X86_64PcWindowsMsvc => "x86_64-pc-windows-msvc"@,
        Target::X86_64RumprunNetbsd => "x86_64-rumprun-netbsd"@,
        Target::X86_64UnknownDragonfly => "x86_64-unknown-dragonfly"@,
        Target::X86_64UnknownFreebsd => "x86_64-unknown-freebsd"@,
        Target::X86_64UnknownHaiku => "x86_64-unknown-haiku"@,
        Target::X86_64UnknownHermit => "x86_64-unknown-hermit"@,
        Target::X86_64UnknownL4reUclibc => "x86_64-unknown-l4re-uclibc"@,
        Target::X86_64UnknownLinuxGnu => "x86_64-unknown-linux-gnu"@,
        Target::X86_64UnknownLinuxGnux32 => "x86_64-unknown-linux-gnux32"@,
        Target::X86_64UnknownLinuxMusl => "x86_64-unknown-linux-musl"@,
        Target::X86_64UnknownNetbsd => "x86_64-unknown-netbsd"@,
        Target::X86_64UnknownOpenbsd => "x86_64-unknown-openbsd"@,
        Target::X86_64UnknownRedox => "x86_64-unknown-redox"@,
        Target::X86_64UnknownWindows => "x86_64-unknown-uefi"@,
    }
}

/// Every target has its place in the list of all targets, and no other
/// target has that place.
pub proof fn lemma_all_targets_complete(target: Target)
    ensures
        0 <= index_of(target) < NUM_TARGETS,
        all_targets().len() == NUM_TARGETS,
        all_targets()[index_of(target)] == target,
        forall|i: int| 0 <= i < NUM_TARGETS ==> index_of(#[trigger] all_targets()[i]) == i,
{
    assert forall|i: int| 0 <= i < NUM_TARGETS implies index_of(#[trigger] all_targets()[i])
        == i by {
        assert(index_of(target_at_index(i)) == i);
    }
}

/// The number of the character at the place `p` of `s`, or 0 if `s` is
/// shorter.
pub open spec fn char_code_at(s: Seq<char>, p: int) -> int {
    if 0 <= p < s.len() {
        s[p] as int
    } else {
        0
    }
}

/// A number that tells texts apart by their length and by their
/// characters at eight places.
pub open spec fn name_code(s: Seq<char>) -> int {
    let code = s.len() as int;
    let code = code * 128 + char_code_at(s, 1);
    let code = code * 128 + char_code_at(s, 4);
    let code = code * 128 + char_code_at(s, 6);
    let code = code * 128 + char_code_at(s, 12);
    let code = code * 128 + char_code_at(s, 16);
    let code = code * 128 + char_code_at(s, 20);
    let code = code * 128 + char_code_at(s, 30);
    let code = code * 128 + char_code_at(s, 32);
    code
}

/// The number that tells the name of each target apart from the names of
/// the others.
pub open spec fn name_code_of(target: Target) -> int {
    match target {
        Target::Aarch64AppleMacosx => 1496217237103575040,
        Target::Aarch64Fuchsia => 1135929270464413696,
        Target::Aarch64LinuxAndroid => 1568274836245512192,
        Target::Aarch64PcWindowsMsvc => 1712390020334927872,
        Target::Aarch64UnknownFreebsd => 1712390021909610496,
        Target::Aarch64UnknownHermit => 1640332427875991552,
        Target::Aarch64UnknownLinuxGnu => 1856505209998409728,
        Target::Aarch64UnknownLinuxMusl => 1928562804036337664,
        Target::Aarch64UnknownNetbsd => 1640332427888738304,
        Target::Aarch64UnknownNone => 1496217239810998272,
        Target::Aarch64UnknownOpenbsd => 1712390021928484864,
        Target::Aarch64UnknownRedox => 1568274833859280896,
        Target::Arm64AppleIos => 1145272264757870592,
        Target::Arm64AppleIosMacabi => 1649675423253561344,
        Target::Arm64AppleTvos => 1217329861748588544,
        Target::ArmLinuxAndroideabi => 1577864565135917056,
        Target::ArmUnknownLinuxGnueabi => 1866134422816636928,
        Target::ArmUnknownLinuxGnueabihf => 2010249610892492800,
        Target::Armebv7rUnknownNoneEabi => 1938106667643781120,
        Target::Armebv7rUnknownNoneEabihf => 2082221855719636992,
        Target::Armv4tUnknownLinuxGnueabi => 2082019204523573248,
        Target::Armv5teUnknownLinuxGnueabi => 2154083118613397504,
        Target::Armv5teUnknownLinuxUclibcgnueabi => 2586428682840980193,
        Target::Armv6UnknownFreebsdGnueabihf => 2298203254208148224,
        Target::Armv6UnknownNetbsdelfEabihf => 2226145660201680896,
        Target::Armv7AppleIos => 1145285458897403904,
        Target::Armv7NoneLinuxAndroid => 1793804252011593728,
        Target::Armv7UnknownFreebsdGnueabihf => 2298207652254659328,
        Target::Armv7UnknownLinuxGnueabi => 2009977276121858048,
        Target::Armv7UnknownLinuxGnueabihf => 2154092464197713920,
        Target::Armv7UnknownNetbsdelfEabihf => 2226150058248192000,
        Target::Armv7aNoneEabi => 1217341265155194880,
        Target::Armv7aNoneEabihf => 1361456453449154560,
        Target::Armv7rUnknownNoneEabi => 1793802022524895232,
        Target::Armv7rUnknownNoneEabihf => 1937917210600751104,
        Target::Armv7sAppleIos => 1217341250122809344,
        Target::AvrUnknownUnknown => 1436040660797882368,
        Target::HexagonUnknownLinuxMusl => 1930812198668337152,
        Target::I386AppleIos => 1037718554335510528,
        Target::I586PcWindowsMsvc => 1471189572021911552,
        Target::I586UnknownLinuxGnu => 1615305120356728832,
        Target::I586UnknownLinuxMusl => 1687362714394771456,
        Target::I686AppleMacosx => 1255580182803120128,
        Target::I686LinuxAndroid => 1327637539781083136,
        Target::I686PcWindowsGnu => 1399694927924822016,
        Target::I686PcWindowsMsvc => 1471752521975332864,
        Target::I686UnknownFreebsd => 1471752882198937600,
        Target::I686UnknownHaiku => 1327637694135664640,
        Target::I686UnknownLinuxGnu => 1615868070310150144,
        Target::I686UnknownLinuxMusl => 1687925664348192768,
        Target::I686UnknownNetbsdelf => 1615868070270271488,
        Target::I686UnknownOpenbsd => 1471752882217811968,
        Target::I686UnknownWindows => 1471752882196840448,
        Target::Mips64UnknownLinuxGnuabi64 => 2149019045073731584,
        Target::Mips64UnknownLinuxMusl => 1860788668922019840,
        Target::Mips64elUnknownLinuxGnuabi64 => 2293136154754374144,
        Target::Mips64elUnknownLinuxMusl => 2004905778602655744,
        Target::MipsUnknownLinuxGnu => 1644578517934637056,
        Target::MipsUnknownLinuxMusl => 1716636111972679680,
        Target::MipsUnknownLinuxUclibc => 1860751300048240640,
        Target::MipselSonyPsp => 1140419434628775936,
        Target::MipselUnknownLinuxGnu => 1788937783070113792,
        Target::MipselUnknownLinuxMusl => 1860995377108041728,
        Target::MipselUnknownLinuxUclibc => 2005110565183897600,
        Target::MipselUnknownNone => 1428649812892319744,
        Target::Mipsisa32r6UnknownLinuxGnu => 2149245131628937216,
        Target::Mipsisa32r6elUnknownLinuxGnu => 2293360317280533120,
        Target::Mipsisa64r6UnknownLinuxGnuabi64 => 2509533101818589494,
        Target::Mipsisa64r6elUnknownLinuxGnuabi64 => 2653648287470172898,
        Target::Msp430NoneElf => 1145829028884643840,
        Target::Powerpc64UnknownFreebsd => 1864432103649263616,
        Target::Powerpc64UnknownLinuxGnu => 2008547291725266944,
        Target::Powerpc64UnknownLinuxMusl => 2080604885763194880,
        Target::Powerpc64leUnknownLinuxGnu => 2152662482487541760,
        Target::Powerpc64leUnknownLinuxMusl => 2224720076525469696,
        Target::PowerpcUnknownLinuxGnu => 1864432104719122432,
        Target::PowerpcUnknownLinuxGnuspe => 2080604886832906240,
        Target::PowerpcUnknownLinuxMusl => 1936489698757050368,
        Target::PowerpcUnknownNetbsd => 1648259322609451008,
        Target::Riscv32 => 564033590849961984,
        Target::Riscv32UnknownLinuxGnu => 1861070313557458944,
        Target::Riscv64 => 564033659569438720,
        Target::Riscv64UnknownLinuxGnu => 1861070382276935680,
        Target::S390xUnknownLinuxGnu => 1686566925927825408,
        Target::Sparc64UnknownLinuxGnu => 1864927469067173888,
        Target::Sparc64UnknownNetbsd => 1648754686957502464,
        Target::Sparc64UnknownOpenbsd => 1720812280997249024,
        Target::SparcUnknownLinuxGnu => 1720814514109792256,
        Target::Sparcv9SunSolaris => 1432582077722656768,
        Target::Thumbv4tNoneEabi => 1356016310420504576,
        Target::Thumbv6mNoneEabi => 1356016379139981312,
        Target::Thumbv7aPcWindowsMsvc => 1788361982588174336,
        Target::Thumbv7emNoneEabi => 1428074009951469568,
        Target::Thumbv7emNoneEabihf => 1572189198028996608,
        Target::Thumbv7mNoneEabi => 1356016413499719680,
        Target::Thumbv8mBaseNoneEabi => 1716304418075852800,
        Target::Thumbv8mMainNoneEabihf => 1860419608567627776,
        Target::Wasm32UnknownEmscripten => 1856271875164487680,
        Target::Wasm32UnknownUnknown => 1640099093053030400,
        Target::Wasm32Wasi => 847465526459367424,
        Target::X86_64AppleIos => 1184685754777862144,
        Target::X86_64AppleIosMacabi => 1689088913139318784,
        Target::X86_64AppleMacosx => 1400858537124429824,
        Target::X86_64AppleTvos => 1256743349056962560,
        Target::X86_64Elf => 752340178470699008,
        Target::X86_64Fuchsia => 1040570582808133632,
        Target::X86_64LinuxAndroid => 1472916131168649216,
        Target::X86_64PcSolaris => 1256743365968396288,
        Target::X86_64PcWindowsGnu => 1544973742658895872,
        Target::X86_64PcWindowsMsvc => 1617031336696840192,
        Target::X86_64RumprunNetbsd => 1544973744508305408,
        Target::X86_64UnknownDragonfly => 1761146527186386944,
        Target::X86_64UnknownFreebsd => 1617031339110612992,
        Target::X86_64UnknownHaiku => 1472916150997221376,
        Target::X86_64UnknownHermit => 1544973745045438464,
        Target::X86_64UnknownL4reUclibc => 1905261715132334080,
        Target::X86_64UnknownLinuxGnu => 1761146527166447616,
        Target::X86_64UnknownLinuxGnux32 => 1977319309280231424,
        Target::X86_64UnknownLinuxMusl => 1833204121204375552,
        Target::X86_64UnknownNetbsd => 1544973745045176320,
        Target::X86_64UnknownOpenbsd => 1617031339106418688,
        Target::X86_64UnknownRedox => 1472916151005609984,
        Target::X86_64UnknownWindows => 1617031339091804160,
    }
}

/// The name of each target has the number that is given for the target.
proof fn lemma_name_code(target: Target)
    ensures
        name_code(name_of(target)) == name_code_of(target),
{
    match target {
        Target::Aarch64AppleMacosx => reveal_strlit("aarch64-apple-macosx"),
        Target::Aarch64Fuchsia => reveal_strlit("aarch64-fuchsia"),
        Target::Aarch64LinuxAndroid => reveal_strlit("aarch64-linux-android"),
        Target::Aarch64PcWindowsMsvc => reveal_strlit("aarch64-pc-windows-msvc"),
        Target::Aarch64UnknownFreebsd => reveal_strlit("aarch64-unknown-freebsd"),
        Target::Aarch64UnknownHermit => reveal_strlit("aarch64-unknown-hermit"),
        Target::Aarch64UnknownLinuxGnu => reveal_strlit("aarch64-unknown-linux-gnu"),
        Target::Aarch64UnknownLinuxMusl => reveal_strlit("aarch64-unknown-linux-musl"),
        Target::Aarch64UnknownNetbsd => reveal_strlit("aarch64-unknown-netbsd"),
        Target::Aarch64UnknownNone => reveal_strlit("aarch64-unknown-none"),
        Target::Aarch64UnknownOpenbsd => reveal_strlit("aarch64-unknown-openbsd"),
        Target::Aarch64UnknownRedox => reveal_strlit("aarch64-unknown-redox"),
        Target::Arm64AppleIos => reveal_strlit("arm64-apple-ios"),
        Target::Arm64AppleIosMacabi => reveal_strlit("arm64-apple-ios-macabi"),
        Target::Arm64AppleTvos => reveal_strlit("arm64-apple-tvos"),
        Target::ArmLinuxAndroideabi => reveal_strlit("arm-linux-androideabi"),
        Target::ArmUnknownLinuxGnueabi => reveal_strlit("arm-unknown-linux-gnueabi"),
        Target::ArmUnknownLinuxGnueabihf => reveal_strlit("arm-unknown-linux-gnueabihf"),
        Target::Armebv7rUnknownNoneEabi => reveal_strlit("armebv7r-unknown-none-eabi"),
        Target::Armebv7rUnknownNoneEabihf => reveal_strlit("armebv7r-unknown-none-eabihf"),
        Target::Armv4tUnknownLinuxGnueabi => reveal_strlit("armv4t-unknown-linux-gnueabi"),
        Target::Armv5teUnknownLinuxGnueabi => reveal_strlit("armv5te-unknown-linux-gnueabi"),
        Target::Armv5teUnknownLinuxUclibcgnueabi => reveal_strlit("armv5te-unknown-linux-uclibcgnueabi"),
        Target::Armv6UnknownFreebsdGnueabihf => reveal_strlit("armv6-unknown-freebsd-gnueabihf"),
        Target::Armv6UnknownNetbsdelfEabihf => reveal_strlit("armv6-unknown-netbsdelf-eabihf"),
        Target::Armv7AppleIos => reveal_strlit("armv7-apple-ios"),
        Target::Armv7NoneLinuxAndroid => reveal_strlit("armv7-none-linux-android"),
        Target::Armv7UnknownFreebsdGnueabihf => reveal_strlit("armv7-unknown-freebsd-gnueabihf"),
        Target::Armv7UnknownLinuxGnueabi => reveal_strlit("armv7-unknown-linux-gnueabi"),
        Target::Armv7UnknownLinuxGnueabihf => reveal_strlit("armv7-unknown-linux-gnueabihf"),
        Target::Armv7UnknownNetbsdelfEabihf => reveal_strlit("armv7-unknown-netbsdelf-eabihf"),
        Target::Armv7aNoneEabi => reveal_strlit("armv7a-none-eabi"),
        Target::Armv7aNoneEabihf => reveal_strlit("armv7a-none-eabihf"),
        Target::Armv7rUnknownNoneEabi => reveal_strlit("armv7r-unknown-none-eabi"),
        Target::Armv7rUnknownNoneEabihf => reveal_strlit("armv7r-unknown-none-eabihf"),
        Target::Armv7sAppleIos => reveal_strlit("armv7s-apple-ios"),
        Target::AvrUnknownUnknown => reveal_strlit("avr-unknown-unknown"),
        Target::HexagonUnknownLinuxMusl => reveal_strlit("hexagon-unknown-linux-musl"),
        Target::I386AppleIos => reveal_strlit("i386-apple-ios"),
        Target::I586PcWindowsMsvc => reveal_strlit("i586-pc-windows-msvc"),
        Target::I586UnknownLinuxGnu => reveal_strlit("i586-unknown-linux-gnu"),
        Target::I586UnknownLinuxMusl => reveal_strlit("i586-unknown-linux-musl"),
        Target::I686AppleMacosx => reveal_strlit("i686-apple-macosx"),
        Target::I686LinuxAndroid => reveal_strlit("i686-linux-android"),
        Target::I686PcWindowsGnu => reveal_strlit("i686-pc-windows-gnu"),
        Target::I686PcWindowsMsvc => reveal_strlit("i686-pc-windows-msvc"),
        Target::I686UnknownFreebsd => reveal_strlit("i686-unknown-freebsd"),
        Target::I686UnknownHaiku => reveal_strlit("i686-unknown-haiku"),
        Target::I686UnknownLinuxGnu => reveal_strlit("i686-unknown-linux-gnu"),
        Target::I686UnknownLinuxMusl => reveal_strlit("i686-unknown-linux-musl"),
        Target::I686UnknownNetbsdelf => reveal_strlit("i686-unknown-netbsdelf"),
        Target::I686UnknownOpenbsd => reveal_strlit("i686-unknown-openbsd"),
        Target::I686UnknownWindows => reveal_strlit("i686-unknown-windows"),
        Target::Mips64UnknownLinuxGnuabi64 => reveal_strlit("mips64-unknown-linux-gnuabi64"),
        Target::Mips64UnknownLinuxMusl => reveal_strlit("mips64-unknown-linux-musl"),
        Target::Mips64elUnknownLinuxGnuabi64 => reveal_strlit("mips64el-unknown-linux-gnuabi64"),
        Target::Mips64elUnknownLinuxMusl => reveal_strlit("mips64el-unknown-linux-musl"),
        Target::MipsUnknownLinuxGnu => reveal_strlit("mips-unknown-linux-gnu"),
        Target::MipsUnknownLinuxMusl => reveal_strlit("mips-unknown-linux-musl"),
        Target::MipsUnknownLinuxUclibc => reveal_strlit("mips-unknown-linux-uclibc"),
        Target::MipselSonyPsp => reveal_strlit("mipsel-sony-psp"),
        Target::MipselUnknownLinuxGnu => reveal_strlit("mipsel-unknown-linux-gnu"),
        Target::MipselUnknownLinuxMusl => reveal_strlit("mipsel-unknown-linux-musl"),
        Target::MipselUnknownLinuxUclibc => reveal_strlit("mipsel-unknown-linux-uclibc"),
        Target::MipselUnknownNone => reveal_strlit("mipsel-unknown-none"),
        Target::Mipsisa32r6UnknownLinuxGnu => reveal_strlit("mipsisa32r6-unknown-linux-gnu"),
        Target::Mipsisa32r6elUnknownLinuxGnu => reveal_strlit("mipsisa32r6el-unknown-linux-gnu"),
        Target::Mipsisa64r6UnknownLinuxGnuabi64 => reveal_strlit("mipsisa64r6-unknown-linux-gnuabi64"),
        Target::Mipsisa64r6elUnknownLinuxGnuabi64 => reveal_strlit("mipsisa64r6el-unknown-linux-gnuabi64"),
        Target::Msp430NoneElf => reveal_strlit("msp430-none-elf"),
        Target::Powerpc64UnknownFreebsd => reveal_strlit("powerpc64-unknown-freebsd"),
        Target::Powerpc64UnknownLinuxGnu => reveal_strlit("powerpc64-unknown-linux-gnu"),
        Target::Powerpc64UnknownLinuxMusl => reveal_strlit("powerpc64-unknown-linux-musl"),
        Target::Powerpc64leUnknownLinuxGnu => reveal_strlit("powerpc64le-unknown-linux-gnu"),
        Target::Powerpc64leUnknownLinuxMusl => reveal_strlit("powerpc64le-unknown-linux-musl"),
        Target::PowerpcUnknownLinuxGnu => reveal_strlit("powerpc-unknown-linux-gnu"),
        Target::PowerpcUnknownLinuxGnuspe => reveal_strlit("powerpc-unknown-linux-gnuspe"),
        Target::PowerpcUnknownLinuxMusl => reveal_strlit("powerpc-unknown-linux-musl"),
        Target::PowerpcUnknownNetbsd => reveal_strlit("powerpc-unknown-netbsd"),
        Target::Riscv32 => reveal_strlit("riscv32"),
        Target::Riscv32UnknownLinuxGnu => reveal_strlit("riscv32-unknown-linux-gnu"),
        Target::Riscv64 => reveal_strlit("riscv64"),
        Target::Riscv64UnknownLinuxGnu => reveal_strlit("riscv64-unknown-linux-gnu"),
        Target::S390xUnknownLinuxGnu => reveal_strlit("s390x-unknown-linux-gnu"),
        Target::Sparc64UnknownLinuxGnu => reveal_strlit("sparc64-unknown-linux-gnu"),
        Target::Sparc64UnknownNetbsd => reveal_strlit("sparc64-unknown-netbsd"),
        Target::Sparc64UnknownOpenbsd => reveal_strlit("sparc64-unknown-openbsd"),
        Target::SparcUnknownLinuxGnu => reveal_strlit("sparc-unknown-linux-gnu"),
        Target::Sparcv9SunSolaris => reveal_strlit("sparcv9-sun-solaris"),
        Target::Thumbv4tNoneEabi => reveal_strlit("thumbv4t-none-eabi"),
        Target::Thumbv6mNoneEabi => reveal_strlit("thumbv6m-none-eabi"),
        Target::Thumbv7aPcWindowsMsvc => reveal_strlit("thumbv7a-pc-windows-msvc"),
        Target::Thumbv7emNoneEabi => reveal_strlit("thumbv7em-none-eabi"),
        Target::Thumbv7emNoneEabihf => reveal_strlit("thumbv7em-none-eabihf"),
        Target::Thumbv7mNoneEabi => reveal_strlit("thumbv7m-none-eabi"),
        Target::Thumbv8mBaseNoneEabi => reveal_strlit("thumbv8m-base-none-eabi"),
        Target::Thumbv8mMainNoneEabihf => reveal_strlit("thumbv8m-main-none-eabihf"),
        Target::Wasm32UnknownEmscripten => reveal_strlit("wasm32-unknown-emscripten"),
        Target::Wasm32UnknownUnknown => reveal_strlit("wasm32-unknown-unknown"),
        Target::Wasm32Wasi => reveal_strlit("wasm32-wasi"),
        Target::X86_64AppleIos => reveal_strlit("x86_64-apple-ios"),
        Target::X86_64AppleIosMacabi => reveal_strlit("x86_64-apple-ios-macabi"),
        Target::X86_64AppleMacosx => reveal_strlit("x86_64-apple-macosx"),
        Target::X86_64AppleTvos => reveal_strlit("x86_64-apple-tvos"),
        Target::X86_64Elf => reveal_strlit("x86_64-elf"),
        Target::X86_64Fuchsia => reveal_strlit("x86_64-fuchsia"),
        Target::X86_64LinuxAndroid => reveal_strlit("x86_64-linux-android"),
        Target::X86_64PcSolaris => reveal_strlit("x86_64-pc-solaris"),
        Target::X86_64PcWindowsGnu => reveal_strlit("x86_64-pc-windows-gnu"),
        Target::X86_64PcWindowsMsvc => reveal_strlit("x86_64-pc-windows-msvc"),
        Target::X86_64RumprunNetbsd => reveal_strlit("x86_64-rumprun-netbsd"),
        Target::X86_64UnknownDragonfly => reveal_strlit("x86_64-unknown-dragonfly"),
        Target::X86_64UnknownFreebsd => reveal_strlit("x86_64-unknown-freebsd"),
        Target::X86_64UnknownHaiku => reveal_strlit("x86_64-unknown-haiku"),
        Target::X86_64UnknownHermit => reveal_strlit("x86_64-unknown-hermit"),
        Target::X86_64UnknownL4reUclibc => reveal_strlit("x86_64-unknown-l4re-uclibc"),
        Target::X86_64UnknownLinuxGnu => reveal_strlit("x86_64-unknown-linux-gnu"),
        Target::X86_64UnknownLinuxGnux32 => reveal_strlit("x86_64-unknown-linux-gnux32"),
        Target::X86_64UnknownLinuxMusl => reveal_strlit("x86_64-unknown-linux-musl"),
        Target::X86_64UnknownNetbsd => reveal_strlit("x86_64-unknown-netbsd"),
        Target::X86_64UnknownOpenbsd => reveal_strlit("x86_64-unknown-openbsd"),
        Target::X86_64UnknownRedox => reveal_strlit("x86_64-unknown-redox"),
        Target::X86_64UnknownWindows => reveal_strlit("x86_64-unknown-windows"),
    }
}

/// No two targets have the same name.
pub proof fn lemma_names_distinct(a: Target, b: Target)
    requires
        name_of(a) == name_of(b),
    ensures
        a == b,
{
    lemma_name_code(a);
    lemma_name_code(b);
}

/// The name of `target`.
pub fn name(target: Target) -> (r: &'static str)
    ensures
        r@ == name_of(target),
{
    match target {
        Target::Aarch64AppleMacosx => "aarch64-apple-macosx",
        Target::Aarch64Fuchsia => "aarch64-fuchsia",
        Target::Aarch64LinuxAndroid => "aarch64-linux-android",
        Target::Aarch64PcWindowsMsvc => "aarch64-pc-windows-msvc",
        Target::Aarch64UnknownFreebsd => "aarch64-unknown-freebsd",
        Target::Aarch64UnknownHermit => "aarch64-unknown-hermit",
        Target::Aarch64UnknownLinuxGnu => "aarch64-unknown-linux-gnu",
        Target::Aarch64UnknownLinuxMusl => "aarch64-unknown-linux-musl",
        Target::Aarch64UnknownNetbsd => "aarch64-unknown-netbsd",
        Target::Aarch64UnknownNone => "aarch64-unknown-none",
        Target::Aarch64UnknownOpenbsd => "aarch64-unknown-openbsd",
        Target::Aarch64UnknownRedox => "aarch64-unknown-redox",
        Target::Arm64AppleIos => "arm64-apple-ios",
        Target::Arm64AppleIosMacabi => "arm64-apple-ios-macabi",
        Target::Arm64AppleTvos => "arm64-apple-tvos",
        Target::ArmLinuxAndroideabi => "arm-linux-androideabi",
        Target::ArmUnknownLinuxGnueabi => "arm-unknown-linux-gnueabi",
        Target::ArmUnknownLinuxGnueabihf => "arm-unknown-linux-gnueabihf",
        Target::Armebv7rUnknownNoneEabi => "armebv7r-unknown-none-eabi",
        Target::Armebv7rUnknownNoneEabihf => "armebv7r-unknown-none-eabihf",
        Target::Armv4tUnknownLinuxGnueabi => "armv4t-unknown-linux-gnueabi",
        Target::Armv5teUnknownLinuxGnueabi => "armv5te-unknown-linux-gnueabi",
        Target::Armv5teUnknownLinuxUclibcgnueabi => "armv5te-unknown-linux-uclibcgnueabi",
        Target::Armv6UnknownFreebsdGnueabihf => "armv6-unknown-freebsd-gnueabihf",
        Target::Armv6UnknownNetbsdelfEabihf => "armv6-unknown-netbsdelf-eabihf",
        Target::Armv7AppleIos => "armv7-apple-ios",
        Target::Armv7NoneLinuxAndroid => "armv7-none-linux-android",
        Target::Armv7UnknownFreebsdGnueabihf => "armv7-unknown-freebsd-gnueabihf",
        Target::Armv7UnknownLinuxGnueabi => "armv7-unknown-linux-gnueabi",
        Target::Armv7UnknownLinuxGnueabihf => "armv7-unknown-linux-gnueabihf",
        Target::Armv7UnknownNetbsdelfEabihf => "armv7-unknown-netbsdelf-eabihf",
        Target::Armv7aNoneEabi => "armv7a-none-eabi",
        Target::Armv7aNoneEabihf => "armv7a-none-eabihf",
        Target::Armv7rUnknownNoneEabi => "armv7r-unknown-none-eabi",
        Target::Armv7rUnknownNoneEabihf => "armv7r-unknown-none-eabihf",
        Target::Armv7sAppleIos => "armv7s-apple-ios",
        Target::AvrUnknownUnknown => "avr-unknown-unknown",
        Target::HexagonUnknownLinuxMusl => "hexagon-unknown-linux-musl",
        Target::I386AppleIos => "i386-apple-ios",
        Target::I586PcWindowsMsvc => "i586-pc-windows-msvc",
        Target::I586UnknownLinuxGnu => "i586-unknown-linux-gnu",
        Target::I586UnknownLinuxMusl => "i586-unknown-linux-musl",
        Target::I686AppleMacosx => "i686-apple-macosx",
        Target::I686LinuxAndroid => "i686-linux-android",
        Target::I686PcWindowsGnu => "i686-pc-windows-gnu",
        Target::I686PcWindowsMsvc => "i686-pc-windows-msvc",
        Target::I686UnknownFreebsd => "i686-unknown-freebsd",
        Target::I686UnknownHaiku => "i686-unknown-haiku",
        Target::I686UnknownLinuxGnu => "i686-unknown-linux-gnu",
        Target::I686UnknownLinuxMusl => "i686-unknown-linux-musl",
        Target::I686UnknownNetbsdelf => "i686-unknown-netbsdelf",
        Target::I686UnknownOpenbsd => "i686-unknown-openbsd",
        Target::I686UnknownWindows => "i686-unknown-windows",
        Target::Mips64UnknownLinuxGnuabi64 => "mips64-unknown-linux-gnuabi64",
        Target::Mips64UnknownLinuxMusl => "mips64-unknown-linux-musl",
        Target::Mips64elUnknownLinuxGnuabi64 => "mips64el-unknown-linux-gnuabi64",
        Target::Mips64elUnknownLinuxMusl => "mips64el-unknown-linux-musl",
        Target::MipsUnknownLinuxGnu => "mips-unknown-linux-gnu",
        Target::MipsUnknownLinuxMusl => "mips-unknown-linux-musl",
        Target::MipsUnknownLinuxUclibc => "mips-unknown-linux-uclibc",
        Target::MipselSonyPsp => "mipsel-sony-psp",
        Target::MipselUnknownLinuxGnu => "mipsel-unknown-linux-gnu",
        Target::MipselUnknownLinuxMusl => "mipsel-unknown-linux-musl",
        Target::MipselUnknownLinuxUclibc => "mipsel-unknown-linux-uclibc",
        Target::MipselUnknownNone => "mipsel-unknown-none",
        Target::Mipsisa32r6UnknownLinuxGnu => "mipsisa32r6-unknown-linux-gnu",
        Target::Mipsisa32r6elUnknownLinuxGnu => "mipsisa32r6el-unknown-linux-gnu",
        Target::Mipsisa64r6UnknownLinuxGnuabi64 => "mipsisa64r6-unknown-linux-gnuabi64",
        Target::Mipsisa64r6elUnknownLinuxGnuabi64 => "mipsisa64r6el-unknown-linux-gnuabi64",
        Target::Msp430NoneElf => "msp430-none-elf",
        Target::Powerpc64UnknownFreebsd => "powerpc64-unknown-freebsd",
        Target::Powerpc64UnknownLinuxGnu => "powerpc64-unknown-linux-gnu",
        Target::Powerpc64UnknownLinuxMusl => "powerpc64-unknown-linux-musl",
        Target::Powerpc64leUnknownLinuxGnu => "powerpc64le-unknown-linux-gnu",
        Target::Powerpc64leUnknownLinuxMusl => "powerpc64le-unknown-linux-musl",
        Target::PowerpcUnknownLinuxGnu => "powerpc-unknown-linux-gnu",
        Target::PowerpcUnknownLinuxGnuspe => "powerpc-unknown-linux-gnuspe",
        Target::PowerpcUnknownLinuxMusl => "powerpc-unknown-linux-musl",
        Target::PowerpcUnknownNetbsd => "powerpc-unknown-netbsd",
        Target::Riscv32 => "riscv32",
        Target::Riscv32UnknownLinuxGnu => "riscv32-unknown-linux-gnu",
        Target::Riscv64 => "riscv64",
        Target::Riscv64UnknownLinuxGnu => "riscv64-unknown-linux-gnu",
        Target::S390xUnknownLinuxGnu => "s390x-unknown-linux-gnu",
        Target::Sparc64UnknownLinuxGnu => "sparc64-unknown-linux-gnu",
        Target::Sparc64UnknownNetbsd => "sparc64-unknown-netbsd",
        Target::Sparc64UnknownOpenbsd => "sparc64-unknown-openbsd",
        Target::SparcUnknownLinuxGnu => "sparc-unknown-linux-gnu",
        Target::Sparcv9SunSolaris => "sparcv9-sun-solaris",
        Target::Thumbv4tNoneEabi => "thumbv4t-none-eabi",
        Target::Thumbv6mNoneEabi => "thumbv6m-none-eabi",
        Target::Thumbv7aPcWindowsMsvc => "thumbv7a-pc-windows-msvc",
        Target::Thumbv7emNoneEabi => "thumbv7em-none-eabi",
        Target::Thumbv7emNoneEabihf => "thumbv7em-none-eabihf",
        Target::Thumbv7mNoneEabi => "thumbv7m-none-eabi",
        Target::Thumbv8mBaseNoneEabi => "thumbv8m-base-none-eabi",
        Target::Thumbv8mMainNoneEabihf => "thumbv8m-main-none-eabihf",
        Target::Wasm32UnknownEmscripten => "wasm32-unknown-emscripten",
        Target::Wasm32UnknownUnknown => "wasm32-unknown-unknown",
        Target::Wasm32Wasi => "wasm32-wasi",
        Target::X86_64AppleIos => "x86_64-apple-ios",
        Target::X86_64AppleIosMacabi => "x86_64-apple-ios-macabi",
        Target::X86_64AppleMacosx => "x86_64-apple-macosx",
        Target::X86_64AppleTvos => "x86_64-apple-tvos",
        Target::X86_64Elf => "x86_64-elf",
        Target::X86_64Fuchsia => "x86_64-fuchsia",
        Target::X86_64LinuxAndroid => "x86_64-linux-android",
        Target::X86_64PcSolaris => "x86_64-pc-solaris",
        Target::X86_64PcWindowsGnu => "x86_64-pc-windows-gnu",
        Target::X86_64PcWindowsMsvc => "x86_64-pc-windows-msvc",
        Target::X86_64RumprunNetbsd => "x86_64-rumprun-netbsd",
        Target::X86_64UnknownDragonfly => "x86_64-unknown-dragonfly",
        Target::X86_64UnknownFreebsd => "x86_64-unknown-freebsd",
        Target::X86_64UnknownHaiku => "x86_64-unknown-haiku",
        Target::X86_64UnknownHermit => "x86_64-unknown-hermit",
        Target::X86_64UnknownL4reUclibc => "x86_64-unknown-l4re-uclibc",
        Target::X86_64UnknownLinuxGnu => "x86_64-unknown-linux-gnu",
        Target::X86_64UnknownLinuxGnux32 => "x86_64-unknown-linux-gnux32",
        Target::X86_64UnknownLinuxMusl => "x86_64-unknown-linux-musl",
        Target::X86_64UnknownNetbsd => "x86_64-unknown-netbsd",
        Target::X86_64UnknownOpenbsd => "x86_64-unknown-openbsd",
        Target::X86_64UnknownRedox => "x86_64-unknown-redox",
        Target::X86_64UnknownWindows => "x86_64-unknown-windows",
    }
}

/// The target at the place `i` of the list of all targets.
pub fn target_at(i: usize) -> (r: Target)
    requires
        i < NUM_TARGETS,
    ensures
        r == all_targets()[i as int],
{
    match i {
        0 => Target::Aarch64AppleMacosx,
        1 => Target::Aarch64Fuchsia,
        2 => Target::Aarch64LinuxAndroid,
        3 => Target::Aarch64PcWindowsMsvc,
        4 => Target::Aarch64UnknownFreebsd,
        5 => Target::Aarch64UnknownHermit,
        6 => Target::Aarch64UnknownLinuxGnu,
        7 => Target::Aarch64UnknownLinuxMusl,
        8 => Target::Aarch64UnknownNetbsd,
        9 => Target::Aarch64UnknownNone,
        10 => Target::Aarch64UnknownOpenbsd,
        11 => Target::Aarch64UnknownRedox,
        12 => Target::Arm64AppleIos,
        13 => Target::Arm64AppleIosMacabi,
        14 => Target::Arm64AppleTvos,
        15 => Target::ArmLinuxAndroideabi,
        16 => Target::ArmUnknownLinuxGnueabi,
        17 => Target::ArmUnknownLinuxGnueabihf,
        18 => Target::Armebv7rUnknownNoneEabi,
        19 => Target::Armebv7rUnknownNoneEabihf,
        20 => Target::Armv4tUnknownLinuxGnueabi,
        21 => Target::Armv5teUnknownLinuxGnueabi,
        22 => Target::Armv5teUnknownLinuxUclibcgnueabi,
        23 => Target::Armv6UnknownFreebsdGnueabihf,
        24 => Target::Armv6UnknownNetbsdelfEabihf,
        25 => Target::Armv7AppleIos,
        26 => Target::Armv7NoneLinuxAndroid,
        27 => Target::Armv7UnknownFreebsdGnueabihf,
        28 => Target::Armv7UnknownLinuxGnueabi,
        29 => Target::Armv7UnknownLinuxGnueabihf,
        30 => Target::Armv7UnknownNetbsdelfEabihf,
        31 => Target::Armv7aNoneEabi,
        32 => Target::Armv7aNoneEabihf,
        33 => Target::Armv7rUnknownNoneEabi,
        34 => Target::Armv7rUnknownNoneEabihf,
        35 => Target::Armv7sAppleIos,
        36 => Target::AvrUnknownUnknown,
        37 => Target::HexagonUnknownLinuxMusl,
        38 => Target::I386AppleIos,
        39 => Target::I586PcWindowsMsvc,
        40 => Target::I586UnknownLinuxGnu,
        41 => Target::I586UnknownLinuxMusl,
        42 => Target::I686AppleMacosx,
        43 => Target::I686LinuxAndroid,
        44 => Target::I686PcWindowsGnu,
        45 => Target::I686PcWindowsMsvc,
        46 => Target::I686UnknownFreebsd,
        47 => Target::I686UnknownHaiku,
        48 => Target::I686UnknownLinuxGnu,
        49 => Target::I686UnknownLinuxMusl,
        50 => Target::I686UnknownNetbsdelf,
        51 => Target::I686UnknownOpenbsd,
        52 => Target::I686UnknownWindows,
        53 => Target::Mips64UnknownLinuxGnuabi64,
        54 => Target::Mips64UnknownLinuxMusl,
        55 => Target::Mips64elUnknownLinuxGnuabi64,
        56 => Target::Mips64elUnknownLinuxMusl,
        57 => Target::MipsUnknownLinuxGnu,
        58 => Target::MipsUnknownLinuxMusl,
        59 => Target::MipsUnknownLinuxUclibc,
        60 => Target::MipselSonyPsp,
        61 => Target::MipselUnknownLinuxGnu,
        62 => Target::MipselUnknownLinuxMusl,
        63 => Target::MipselUnknownLinuxUclibc,
        64 => Target::MipselUnknownNone,
        65 => Target::Mipsisa32r6UnknownLinuxGnu,
        66 => Target::Mipsisa32r6elUnknownLinuxGnu,
        67 => Target::Mipsisa64r6UnknownLinuxGnuabi64,
        68 => Target::Mipsisa64r6elUnknownLinuxGnuabi64,
        69 => Target::Msp430NoneElf,
        70 => Target::Powerpc64UnknownFreebsd,
        71 => Target::Powerpc64UnknownLinuxGnu,
        72 => Target::Powerpc64UnknownLinuxMusl,
        73 => Target::Powerpc64leUnknownLinuxGnu,
        74 => Target::Powerpc64leUnknownLinuxMusl,
        75 => Target::PowerpcUnknownLinuxGnu,
        76 => Target::PowerpcUnknownLinuxGnuspe,
        77 => Target::PowerpcUnknownLinuxMusl,
        78 => Target::PowerpcUnknownNetbsd,
        79 => Target::Riscv32,
        80 => Target::Riscv32UnknownLinuxGnu,
        81 => Target::Riscv64,
        82 => Target::Riscv64UnknownLinuxGnu,
        83 => Target::S390xUnknownLinuxGnu,
        84 => Target::Sparc64UnknownLinuxGnu,
        85 => Target::Sparc64UnknownNetbsd,
        86 => Target::Sparc64UnknownOpenbsd,
        87 => Target::SparcUnknownLinuxGnu,
        88 => Target::Sparcv9SunSolaris,
        89 => Target::Thumbv4tNoneEabi,
        90 => Target::Thumbv6mNoneEabi,
        91 => Target::Thumbv7aPcWindowsMsvc,
        92 => Target::Thumbv7emNoneEabi,
        93 => Target::Thumbv7emNoneEabihf,
        94 => Target::Thumbv7mNoneEabi,
        95 => Target::Thumbv8mBaseNoneEabi,
        96 => Target::Thumbv8mMainNoneEabihf,
        97 => Target::Wasm32UnknownEmscripten,
        98 => Target::Wasm32UnknownUnknown,
        99 => Target::Wasm32Wasi,
        100 => Target::X86_64AppleIos,
        101 => Target::X86_64AppleIosMacabi,
        102 => Target::X86_64AppleMacosx,
        103 => Target::X86_64AppleTvos,
        104 => Target::X86_64Elf,
        105 => Target::X86_64Fuchsia,
        106 => Target::X86_64LinuxAndroid,
        107 => Target::X86_64PcSolaris,
        108 => Target::X86_64PcWindowsGnu,
        109 => Target::X86_64PcWindowsMsvc,
        110 => Target::X86_64RumprunNetbsd,
        111 => Target::X86_64UnknownDragonfly,
        112 => Target::X86_64UnknownFreebsd,
        113 => Target::X86_64UnknownHaiku,
        114 => Target::X86_64UnknownHermit,
        115 => Target::X86_64UnknownL4reUclibc,
        116 => Target::X86_64UnknownLinuxGnu,
        117 => Target::X86_64UnknownLinuxGnux32,
        118 => Target::X86_64UnknownLinuxMusl,
        119 => Target::X86_64UnknownNetbsd,
        120 => Target::X86_64UnknownOpenbsd,
        121 => Target::X86_64UnknownRedox,
        _ => Target::X86_64UnknownWindows,
    }
}

/// All targets, in the order of their names.
pub fn targets() -> (r: Vec<Target>)
    ensures
        r@ == all_targets(),
{
    let mut r: Vec<Target> = Vec::new();
    let mut i: usize = 0;
    while i < NUM_TARGETS
        invariant
            i <= NUM_TARGETS,
            r.len() == i,
            forall|j: int| 0 <= j < i ==> r[j] == all_targets()[j],
        decreases NUM_TARGETS - i,
    {
        r.push(target_at(i));
        i += 1;
    }
    assert(r@ =~= all_targets());
    r
}

/// The target with the name `name`, if there is one.
pub fn from_name(name: &str) -> (r: Option<Target>)
    ensures
        forall|t: Target| r == Some(t) <==> #[trigger] name_of(t) == name@,
{
    let wanted = name.to_owned();
    let mut i: usize = 0;
    while i < NUM_TARGETS
        invariant
            i <= NUM_TARGETS,
            wanted@ == name@,
            forall|j: int| 0 <= j < i ==> name_of(#[trigger] all_targets()[j]) != name@,
        decreases NUM_TARGETS - i,
    {
        let target = target_at(i);
        let candidate = self::name(target).to_owned();
        if candidate == wanted {
            proof {
                assert forall|t: Target| Some(target) == Some(t) <==> #[trigger] name_of(t)
                    == name@ by {
                    if name_of(t) == name@ {
                        lemma_names_distinct(t, target);
                    }
                }
            }
            return Some(target);
        }
        i += 1;
    }
    proof {
        assert forall|t: Target| #[trigger] name_of(t) != name@ by {
            lemma_all_targets_complete(t);
        }
    }
    None
}

/// The name that the Rust compiler has for `target`.
pub fn rust_name(target: Target) -> (r: &'static str)
    ensures
        r@ == rust_name_of(target),
{
    match target {
        Target::Aarch64AppleMacosx => "aarch64-apple-darwin",
        Target::Aarch64Fuchsia => "aarch64-fuchsia",
        Target::Aarch64LinuxAndroid => "aarch64-linux-android",
        Target::Aarch64PcWindowsMsvc => "aarch64-pc-windows-msvc",
        Target::Aarch64UnknownFreebsd => "aarch64-unknown-freebsd",
        Target::Aarch64UnknownHermit => "aarch64-unknown-hermit",
        Target::Aarch64UnknownLinuxGnu => "aarch64-unknown-linux-gnu",
        Target::Aarch64UnknownLinuxMusl => "aarch64-unknown-linux-musl",
        Target::Aarch64UnknownNetbsd => "aarch64-unknown-netbsd",
        Target::Aarch64UnknownNone => "aarch64-unknown-none",
        Target::Aarch64UnknownOpenbsd => "aarch64-unknown-openbsd",
        Target::Aarch64UnknownRedox => "aarch64-unknown-redox",
        Target::Arm64AppleIos => "aarch64-apple-ios",
        Target::Arm64AppleIosMacabi => "aarch64-apple-ios-macabi",
        Target::Arm64AppleTvos => "aarch64-apple-tvos",
        Target::ArmLinuxAndroideabi => "arm-linux-androideabi",
        Target::ArmUnknownLinuxGnueabi => "arm-unknown-linux-gnueabi",
        Target::ArmUnknownLinuxGnueabihf => "arm-unknown-linux-gnueabihf",
        Target::Armebv7rUnknownNoneEabi => "armebv7r-none-eabi",
        Target::Armebv7rUnknownNoneEabihf => "armebv7r-none-eabihf",
        Target::Armv4tUnknownLinuxGnueabi => "armv4t-unknown-linux-gnueabi",
        Target::Armv5teUnknownLinuxGnueabi => "armv5te-unknown-linux-gnueabi",
        Target::Armv5teUnknownLinuxUclibcgnueabi => "armv5te-unknown-linux-uclibceabi",
        Target::Armv6UnknownFreebsdGnueabihf => "armv6-unknown-freebsd",
        Target::Armv6UnknownNetbsdelfEabihf => "armv6-unknown-netbsd-eabihf",
        Target::Armv7AppleIos => "armv7-apple-ios",
        Target::Armv7NoneLinuxAndroid => "armv7-linux-androideabi",
        Target::Armv7UnknownFreebsdGnueabihf => "armv7-unknown-freebsd",
        Target::Armv7UnknownLinuxGnueabi => "armv7-unknown-linux-gnueabi",
        Target::Armv7UnknownLinuxGnueabihf => "armv7-unknown-linux-gnueabihf",
        Target::Armv7UnknownNetbsdelfEabihf => "armv7-unknown-netbsd-eabihf",
        Target::Armv7aNoneEabi => "armv7a-none-eabi",
        Target::Armv7aNoneEabihf => "armv7a-none-eabihf",
        Target::Armv7rUnknownNoneEabi => "armv7r-none-eabi",
        Target::Armv7rUnknownNoneEabihf => "armv7r-none-eabihf",
        Target::Armv7sAppleIos => "armv7s-apple-ios",
        Target::AvrUnknownUnknown => "avr-unknown-gnu-atmega328",
        Target::HexagonUnknownLinuxMusl => "hexagon-unknown-linux-musl",
        Target::I386AppleIos => "i386-apple-ios",
        Target::I586PcWindowsMsvc => "i586-pc-windows-msvc",
        Target::I586UnknownLinuxGnu => "i586-unknown-linux-gnu",
        Target::I586UnknownLinuxMusl => "i586-unknown-linux-musl",
        Target::I686AppleMacosx => "i686-apple-darwin",
        Target::I686LinuxAndroid => "i686-linux-android",
        Target::I686PcWindowsGnu => "i686-pc-windows-gnu",
        Target::I686PcWindowsMsvc => "i686-pc-windows-msvc",
        Target::I686UnknownFreebsd => "i686-unknown-freebsd",
        Target::I686UnknownHaiku => "i686-unknown-haiku",
        Target::I686UnknownLinuxGnu => "i686-wrs-vxworks",
        Target::I686UnknownLinuxMusl => "i686-unknown-linux-musl",
        Target::I686UnknownNetbsdelf => "i686-unknown-netbsd",
        Target::I686UnknownOpenbsd => "i686-unknown-openbsd",
        Target::I686UnknownWindows => "i686-unknown-uefi",
        Target::Mips64UnknownLinuxGnuabi64 => "mips64-unknown-linux-gnuabi64",
        Target::Mips64UnknownLinuxMusl => "mips64-unknown-linux-muslabi64",
        Target::Mips64elUnknownLinuxGnuabi64 => "mips64el-unknown-linux-gnuabi64",
        Target::Mips64elUnknownLinuxMusl => "mips64el-unknown-linux-muslabi64",
        Target::MipsUnknownLinuxGnu => "mips-unknown-linux-gnu",
        Target::MipsUnknownLinuxMusl => "mips-unknown-linux-musl",
        Target::MipsUnknownLinuxUclibc => "mips-unknown-linux-uclibc",
        Target::MipselSonyPsp => "mipsel-sony-psp",
        Target::MipselUnknownLinuxGnu => "mipsel-unknown-linux-gnu",
        Target::MipselUnknownLinuxMusl => "mipsel-unknown-linux-musl",
        Target::MipselUnknownLinuxUclibc => "mipsel-unknown-linux-uclibc",
        Target::MipselUnknownNone => "mipsel-unknown-none",
        Target::Mipsisa32r6UnknownLinuxGnu => "mipsisa32r6-unknown-linux-gnu",
        Target::Mipsisa32r6elUnknownLinuxGnu => "mipsisa32r6el-unknown-linux-gnu",
        Target::Mipsisa64r6UnknownLinuxGnuabi64 => "mipsisa64r6-unknown-linux-gnuabi64",
        Target::Mipsisa64r6elUnknownLinuxGnuabi64 => "mipsisa64r6el-unknown-linux-gnuabi64",
        Target::Msp430NoneElf => "msp430-none-elf",
        Target::Powerpc64UnknownFreebsd => "powerpc64-unknown-freebsd",
        Target::Powerpc64UnknownLinuxGnu => "powerpc64-unknown-linux-gnu",
        Target::Powerpc64UnknownLinuxMusl => "powerpc64-unknown-linux-musl",
        Target::Powerpc64leUnknownLinuxGnu => "powerpc64le-unknown-linux-gnu",
        Target::Powerpc64leUnknownLinuxMusl => "powerpc64le-unknown-linux-musl",
        Target::PowerpcUnknownLinuxGnu => "powerpc-unknown-linux-gnu",
        Target::PowerpcUnknownLinuxGnuspe => "powerpc-unknown-linux-gnuspe",
        Target::PowerpcUnknownLinuxMusl => "powerpc-unknown-linux-musl",
        Target::PowerpcUnknownNetbsd => "powerpc-unknown-netbsd",
        Target::Riscv32 => "riscv32i-unknown-none-elf",
        Target::Riscv32UnknownLinuxGnu => "riscv32gc-unknown-linux-gnu",
        Target::Riscv64 => "riscv64gc-unknown-none-elf",
        Target::Riscv64UnknownLinuxGnu => "riscv64gc-unknown-linux-gnu",
        Target::S390xUnknownLinuxGnu => "s390x-unknown-linux-gnu",
        Target::Sparc64UnknownLinuxGnu => "sparc64-unknown-linux-gnu",
        Target::Sparc64UnknownNetbsd => "sparc64-unknown-netbsd",
        Target::Sparc64UnknownOpenbsd => "sparc64-unknown-openbsd",
        Target::SparcUnknownLinuxGnu => "sparc-unknown-linux-gnu",
        Target::Sparcv9SunSolaris => "sparcv9-sun-solaris",
        Target::Thumbv4tNoneEabi => "thumbv4t-none-eabi",
        Target::Thumbv6mNoneEabi => "thumbv6m-none-eabi",
        Target::Thumbv7aPcWindowsMsvc => "thumbv7a-pc-windows-msvc",
        Target::Thumbv7emNoneEabi => "thumbv7em-none-eabi",
        Target::Thumbv7emNoneEabihf => "thumbv7em-none-eabihf",
        Target::Thumbv7mNoneEabi => "thumbv7m-none-eabi",
        Target::Thumbv8mBaseNoneEabi => "thumbv8m.base-none-eabi",
        Target::Thumbv8mMainNoneEabihf => "thumbv8m.main-none-eabihf",
        Target::Wasm32UnknownEmscripten => "wasm32-unknown-emscripten",
        Target::Wasm32UnknownUnknown => "wasm32-unknown-unknown",
        Target::Wasm32Wasi => "wasm32-wasi",
        Target::X86_64AppleIos => "x86_64-apple-ios",
        Target::X86_64AppleIosMacabi => "x86_64-apple-ios-macabi",
        Target::X86_64AppleMacosx => "x86_64-apple-darwin",
        Target::X86_64AppleTvos => "x86_64-apple-tvos",
        Target::X86_64Elf => "x86_64-linux-kernel",
        Target::X86_64Fuchsia => "x86_64-fuchsia",
        Target::X86_64LinuxAndroid => "x86_64-linux-android",
        Target::X86_64PcSolaris => "x86_64-pc-solaris",
        Target::X86_64PcWindowsGnu => "x86_64-pc-windows-gnu",
        Target::X86_64PcWindowsMsvc => "x86_64-pc-windows-msvc",
        Target::X86_64RumprunNetbsd => "x86_64-rumprun-netbsd",
        Target::X86_64UnknownDragonfly => "x86_64-unknown-dragonfly",
        Target::X86_64UnknownFreebsd => "x86_64-unknown-freebsd",
        Target::X86_64UnknownHaiku => "x86_64-unknown-haiku",
        Target::X86_64UnknownHermit => "x86_64-unknown-hermit",
        Target::X86_64UnknownL4reUclibc => "x86_64-unknown-l4re-uclibc",
        Target::X86_64UnknownLinuxGnu => "x86_64-unknown-linux-gnu",
        Target::X86_64UnknownLinuxGnux32 => "x86_64-unknown-linux-gnux32",
        Target::X86_64UnknownLinuxMusl => "x86_64-unknown-linux-musl",
        Target::X86_64UnknownNetbsd => "x86_64-unknown-netbsd",
        Target::X86_64UnknownOpenbsd => "x86_64-unknown-openbsd",
        Target::X86_64UnknownRedox => "x86_64-unknown-redox",
        Target::X86_64UnknownWindows => "x86_64-unknown-uefi",
    }
}

} // verus!
