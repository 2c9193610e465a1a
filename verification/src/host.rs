//! Queries about the host machine.

use vstd::prelude::*;

verus! {

/// Relies on `which::which`: resolves a binary name against the host's
/// executable search path. Whether the binary is present depends on the
/// machine, so nothing is promised of the result; absence is a normal
/// `false`, never a failure.
#[verifier::external_body]
pub(crate) fn binary_on_path(name: &str) -> bool {
    which::which(name).is_ok()
}

} // verus!
