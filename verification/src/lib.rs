//! In-process bridge to the LLD linker drivers: the host-side half.
//!
//! The crate holds everything about an invocation that is a matter of values:
//! which driver is selected, how the argument list becomes null-terminated
//! buffers, how the native outcome record becomes an owned result, and in
//! which order the native entry point and the native release function have to
//! be called. The foreign calls themselves are made by the embedding program,
//! which follows the [`Invocation`](invocation::Invocation) it is handed.

use vstd::prelude::*;
use crate::flavor::LLDFlavor;
use crate::invocation::{Invocation, InvocationView, Phase};
use crate::marshal::{
    all_marshallable, argv_of, lemma_argv_is_well_formed, marshal, marshallable,
    marshallable_prefix, EncodingError,
};

pub mod flavor;
pub mod invocation;
pub mod marshal;
pub mod result;

verus! {

/// Begins an invocation of the linker for `target` with the arguments `args`.
///
/// Succeeds exactly when no argument holds a null byte, with an invocation
/// that waits for the native entry point to be called with `target` and the
/// argument table of `args`. Fails otherwise, naming the first argument that
/// holds a null byte; there is then no invocation, and so no call to make.
pub fn link(target: LLDFlavor, args: &[String]) -> (outcome: Result<Invocation, EncodingError>)
    ensures
        outcome is Ok <==> all_marshallable(args@),
        outcome matches Ok(inv) ==> inv@ == (InvocationView {
            flavor: target,
            argv: argv_of(args@),
            phase: Phase::Ready,
        }),
        outcome matches Err(e) ==> {
            &&& e.position() < args@.len()
            &&& !marshallable(args@[e.position() as int]@)
            &&& marshallable_prefix(args@, e.position() as int)
        },
{
    match marshal(args) {
        Ok(argv) => {
            proof {
                lemma_argv_is_well_formed(args@);
            }
            Ok(Invocation::new(target, argv))
        },
        Err(e) => Err(e),
    }
}

} // verus!
