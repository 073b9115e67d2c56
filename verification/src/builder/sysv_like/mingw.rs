//! The rules of GCC on Windows: those of the System V ABIs, with another
//! default alignment and with strict storage units.

use crate::builder::common::{Placement, Rules};
use crate::builder::tree::{laid_out, layout_type};
use crate::builder::{error, type_violations};
use crate::layout::{FieldLayout, Type, TypeLayout};
use crate::result::{Error, ErrorKind};
use crate::target::{pointer_width, pointer_width_of, Target};
use vstd::prelude::*;

verus! {

/// The rules of GCC on Windows on each target. An alignment request without
/// a value asks for two pointers, and a bit-field shares a storage unit
/// only with bit-fields whose types have the size and the alignment of its
/// own.
pub open spec fn rules_of(target: Target) -> Rules {
    Rules {
        default_alignment_bits: (2 * pointer_width_of(target)) as u64,
        placement: Placement::SysvLike { strict_units: true },
    }
}

/// The rules are well-formed.
pub proof fn lemma_rules_wf(target: Target)
    ensures
        rules_of(target).wf(),
{
    reveal_with_fuel(crate::util::is_power_of_two, 9);
    crate::target::lemma_pointer_width(target);
}

/// The rules of GCC on Windows on `target`.
pub fn rules(target: Target) -> (r: Rules)
    ensures
        r == rules_of(target),
{
    proof {
        crate::target::lemma_pointer_width(target);
    }
    Rules {
        default_alignment_bits: 2 * pointer_width(target),
        placement: Placement::SysvLike { strict_units: true },
    }
}

/// Lays out the type `ty` and all types below it by the rules of
/// GCC on Windows on `target`. Fails with `SizeOverflow` if a size or an
/// offset does not fit in 64 bits.
pub fn compute_layout(target: Target, ty: &Type<(), ()>) -> (r: Result<
    Type<TypeLayout, FieldLayout>,
    Error,
>)
    requires
        type_violations(ty@).len() == 0,
    ensures
        match laid_out(rules_of(target), target, ty@) {
            Some(t) => r matches Ok(out) && out@ == t,
            None => r matches Err(e) && e == error(ErrorKind::SizeOverflow),
        },
{
    proof {
        lemma_rules_wf(target);
    }
    let rules = rules(target);
    layout_type(target, &rules, ty)
}

} // verus!
