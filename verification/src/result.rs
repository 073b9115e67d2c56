//! The errors of a layout computation.

use vstd::prelude::*;

verus! {

/// What is wrong with a type, or with its layout.
#[derive(Clone, Copy, Debug, PartialEq, Eq, Hash)]
pub enum ErrorKind {
    /// Annotations of one type or field hold more than one `PragmaPack`.
    MultiplePragmaPackedAnnotations,
    /// A bit-field of width 0 has a name.
    NamedZeroSizeBitField,
    /// A field that is no bit-field has no name.
    UnnamedRegularField,
    /// A field holds a `PragmaPack` annotation.
    PragmaPackedField,
    /// A builtin type has annotations.
    AnnotatedBuiltinType,
    /// An array type has annotations.
    AnnotatedArray,
    /// An opaque type has annotations.
    AnnotatedOpaqueType,
    /// A typedef holds a `PragmaPack` or an `AttrPacked` annotation.
    PackedTypedef,
    /// The size of an opaque type is no whole number of bytes.
    SubByteSize,
    /// An alignment is no whole number of bytes.
    SubByteAlignment,
    /// An alignment is no power of two.
    PowerOfTwoAlignment,
    /// A size or an offset does not fit in 64 bits.
    SizeOverflow,
}

/// An error of a layout computation.
#[derive(Clone, Copy, Debug, PartialEq, Eq, Hash)]
pub struct Error {
    pub kind: ErrorKind,
}

impl Error {
    /// What is wrong.
    pub fn kind(&self) -> (r: ErrorKind)
        ensures
            r == self.kind,
    {
        self.kind
    }
}

/// The error of the kind `kind`.
pub fn err(kind: ErrorKind) -> (r: Error)
    ensures
        r == (Error { kind }),
{
    Error { kind }
}

} // verus!
