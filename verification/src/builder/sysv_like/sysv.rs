//! The rules of the System V ABIs.

use crate::builder::common::{Placement, Rules};
use crate::builder::tree::{laid_out, layout_type};
use crate::builder::{error, type_violations};
use crate::layout::{FieldLayout, Type, TypeLayout};
use crate::result::{Error, ErrorKind};
use crate::target::Target;
use vstd::prelude::*;

verus! {

/// The rules of the System V ABIs on each target. An alignment request
/// without a value asks for 16 bytes, on targets with pointers of 16 bits
/// for as much as the largest scalar has.
pub open spec fn rules_of(target: Target) -> Rules {
    Rules {
        default_alignment_bits: match target {
            Target::AvrUnknownUnknown => 8,
            Target::Msp430NoneElf => 16,
            _ => 128,
        },
        placement: Placement::SysvLike { strict_units: false },
    }
}

/// The rules are well-formed.
pub proof fn lemma_rules_wf(target: Target)
    ensures
        rules_of(target).wf(),
{
    reveal_with_fuel(crate::util::is_power_of_two, 9);
}

/// The rules of the System V ABIs on `target`.
pub fn rules(target: Target) -> (r: Rules)
    ensures
        r == rules_of(target),
{
    Rules {
        default_alignment_bits: match target {
            Target::AvrUnknownUnknown => 8,
            Target::Msp430NoneElf => 16,
            _ => 128,
        },
        placement: Placement::SysvLike { strict_units: false },
    }
}

/// Lays out the type `ty` and all types below it by the rules of
/// the System V ABIs on `target`. Fails with `SizeOverflow` if a size or an
/// offset does not fit in 64 bits.
pub fn compute_layout(target: Target, ty: &Type<(), ()>) -> (r: Result<
    Type<TypeLayout, FieldLayout>,
    Error,
>)
    requires
        type_violations(ty@).len() == 0,
    ensures
        match laid_out(rules_of(target), target, ty@) {
            Some(t) => r matches Ok(out) && out@ == t,
            None => r matches Err(e) && e == error(ErrorKind::SizeOverflow),
        },
{
    proof {
        lemma_rules_wf(target);
    }
    let rules = rules(target);
    layout_type(target, &rules, ty)
}

} // verus!
