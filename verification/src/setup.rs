//! The interactive setup flow's decisions: for every installed module the
//! operator is shown each config file that wants an import line and asked
//! whether to inject it. The prompting loop lives in the embedding program;
//! the interpretation of an answer and the running tally live here.

use vstd::prelude::*;
use crate::strutil::{spec_to_lower, spec_trim, to_ascii_lower, trim, str_eq};

verus! {

/// What one answer at the prompt means.
#[derive(PartialEq, Eq, Structural, Debug, Clone, Copy)]
pub enum SetupChoice {
    /// Inject the line (an empty answer or `y`).
    Inject,
    /// Skip this file (`n`).
    Skip,
    /// Stop the whole setup (`q`).
    Quit,
    /// Anything else: skip the file and say the answer was not understood.
    Invalid,
}

/// The operator's answer, blanks trimmed and letters lower-cased.
pub open spec fn spec_normalized_choice(input: Seq<char>) -> Seq<char> {
    spec_to_lower(spec_trim(input))
}

/// Interpret one answer at the injection prompt.
pub fn parse_setup_choice(input: &str) -> (r: SetupChoice)
    ensures
        (r is Quit) == (spec_normalized_choice(input@) == "q"@),
        (r is Skip) == (spec_normalized_choice(input@) == "n"@),
        (r is Inject) == (spec_normalized_choice(input@) == ""@ || spec_normalized_choice(input@)
            == "y"@),
{
    proof {
        reveal_strlit("q");
        reveal_strlit("n");
        reveal_strlit("y");
        reveal_strlit("");
        assert("q"@.len() == 1 && "n"@.len() == 1 && "y"@.len() == 1 && ""@.len() == 0);
        assert("q"@[0] == 'q' && "n"@[0] == 'n' && "y"@[0] == 'y');
        assert("q"@ != "n"@ && "q"@ != "y"@ && "q"@ != ""@);
        assert("n"@ != "y"@ && "n"@ != ""@);
    }
    let trimmed = trim(input);
    let t = to_ascii_lower(trimmed.as_str());
    if str_eq(t.as_str(), "q") {
        SetupChoice::Quit
    } else if str_eq(t.as_str(), "n") {
        SetupChoice::Skip
    } else if str_eq(t.as_str(), "") || str_eq(t.as_str(), "y") {
        SetupChoice::Inject
    } else {
        SetupChoice::Invalid
    }
}

} // verus!
