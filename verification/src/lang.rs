//! The closed set of languages a notebook can declare, resolved from the
//! kernel metadata's language string by case-sensitive exact match.

use vstd::prelude::*;
use crate::text::capitalize;
use crate::text::spec_capitalized;

verus! {

/// A language known to the highlighter, or `Unknown` as the total fallback
/// for an absent or unrecognized declaration.
#[derive(Clone, Copy, Debug, PartialEq, Eq, Structural)]
pub enum Language {
    Python,
    Julia,
    Unknown,
}

/// Resolution of a declared language string: case-sensitive exact match
/// against the canonical lowercase identifiers, everything else `Unknown`.
pub open spec fn spec_language_of(s: Seq<char>) -> Language {
    if s == "python"@ {
        Language::Python
    } else if s == "julia"@ {
        Language::Julia
    } else {
        Language::Unknown
    }
}

/// Canonical lowercase identifier of a language.
pub open spec fn spec_language_str(l: Language) -> Seq<char> {
    match l {
        Language::Python => "python"@,
        Language::Julia => "julia"@,
        Language::Unknown => "unknown"@,
    }
}

/// File-extension-like tag used to pick a highlighting grammar; empty for
/// `Unknown`, which the grammar lookup resolves to the plain-text grammar.
pub open spec fn spec_language_extension(l: Language) -> Seq<char> {
    match l {
        Language::Python => "py"@,
        Language::Julia => "jl"@,
        Language::Unknown => ""@,
    }
}

impl Language {
    /// Maps a declared language string to the known set; any string outside
    /// the set resolves to `Unknown`, never to an error.
    pub fn from_str(s: &str) -> (r: Language)
        ensures
            r == spec_language_of(s@),
    {
        let t = String::from_str(s);
        if t.eq(&String::from_str("python")) {
            Language::Python
        } else if t.eq(&String::from_str("julia")) {
            Language::Julia
        } else {
            Language::Unknown
        }
    }

    /// The canonical lowercase identifier.
    pub fn to_str(&self) -> (r: &str)
        ensures
            r@ == spec_language_str(*self),
    {
        match self {
            Language::Python => "python",
            Language::Julia => "julia",
            Language::Unknown => "unknown",
        }
    }

    /// The capitalized display label used in separator lines: `"Python"`,
    /// `"Julia"`, `"Unknown"`.
    pub fn display_label(&self) -> (r: String)
        ensures
            r@ == spec_capitalized(spec_language_str(*self)),
    {
        capitalize(self.to_str())
    }

    /// The grammar tag: a file extension for known languages, empty for
    /// `Unknown`.
    pub fn to_extension(&self) -> (r: &str)
        ensures
            r@ == spec_language_extension(*self),
    {
        match self {
            Language::Python => "py",
            Language::Julia => "jl",
            Language::Unknown => "",
        }
    }
}

} // verus!
