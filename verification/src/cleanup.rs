//! The cleanup flow's decisions: find a module by name (ignoring ASCII
//! case), and decide which files still hold an import line worth removing.
//! Prompting the operator and touching files live in the embedding program.

use vstd::prelude::*;
use crate::registry::ModuleRegistry;
use crate::strutil::{eq_ignore_ascii_case_str, spec_to_lower};

verus! {

/// Letters lower-cased, for case-insensitive module lookup.
pub open spec fn spec_lowered(s: Seq<char>) -> Seq<char> {
    spec_to_lower(s)
}

/// Position of the first module whose name equals `name` ignoring ASCII
/// case, if any.
pub fn find_module_index(registry: &ModuleRegistry, name: &str) -> (r: Option<usize>)
    ensures
        match r {
            Some(i) => i < registry.modules@.len() && spec_lowered(
                registry.modules@[i as int].name@,
            ) == spec_lowered(name@) && forall|j: int|
                0 <= j < i ==> spec_lowered(#[trigger] registry.modules@[j].name@)
                    != spec_lowered(name@),
            None => forall|j: int|
                0 <= j < registry.modules@.len() ==> spec_lowered(
                    #[trigger] registry.modules@[j].name@,
                ) != spec_lowered(name@),
        },
{
    let n: usize = registry.modules.len();
    let mut i: usize = 0;
    while i < n
        invariant
            n == registry.modules@.len(),
            i <= n,
            forall|j: int|
                0 <= j < i ==> spec_lowered(#[trigger] registry.modules@[j].name@)
                    != spec_lowered(name@),
        decreases n - i,
    {
        if eq_ignore_ascii_case_str(registry.modules[i].name.as_str(), name) {
            return Some(i);
        }
        i = i + 1;
    }
    None
}

} // verus!
