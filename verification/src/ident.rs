//! Identifier validation for names in the model.
//!
//! A name must be a plain ASCII identifier — a letter or underscore,
//! then letters, digits or underscores — so that it is legal in every
//! target language.

use vstd::prelude::*;
use vstd::string::StrSliceExecFns;

verus! {

/// Why a model entity could not be built.
#[derive(Copy, Clone, Debug, PartialEq, Eq, Structural)]
pub enum BuildError {
    /// The name is empty or is not an identifier in every target.
    InvalidIdentifier,
}

/// A character that may begin an identifier.
pub open spec fn is_ident_start(c: char) -> bool {
    ('a' <= c && c <= 'z') || ('A' <= c && c <= 'Z') || c == '_'
}

/// A character that may continue an identifier.
pub open spec fn is_ident_continue(c: char) -> bool {
    is_ident_start(c) || ('0' <= c && c <= '9')
}

/// A non-empty name made of an identifier-start character followed by
/// identifier-continue characters.
pub open spec fn is_identifier(s: Seq<char>) -> bool {
    &&& s.len() > 0
    &&& is_ident_start(s[0])
    &&& forall|i: int| 1 <= i < s.len() ==> is_ident_continue(#[trigger] s[i])
}

/// Decides `is_identifier` for a name.
pub fn check_identifier(s: &str) -> (r: bool)
    ensures
        r == is_identifier(s@),
{
    let n = s.unicode_len();
    if n == 0 {
        return false;
    }
    let first = s.get_char(0);
    if !(('a' <= first && first <= 'z') || ('A' <= first && first <= 'Z') || first == '_') {
        return false;
    }
    let mut i: usize = 1;
    while i < n
        invariant
            1 <= i <= n,
            n == s@.len(),
            is_ident_start(s@[0]),
            forall|j: int| 1 <= j < i ==> is_ident_continue(#[trigger] s@[j]),
        decreases n - i,
    {
        let c = s.get_char(i);
        if !(('a' <= c && c <= 'z') || ('A' <= c && c <= 'Z') || c == '_' || ('0' <= c && c
            <= '9')) {
            return false;
        }
        i += 1;
    }
    true
}

} // verus!
