//! The confirmation gate: what counts as the user's consent.

use crate::text::{lowercased, same_text, to_lowercase, trim, trimmed};
use vstd::prelude::*;

verus! {

/// The two words that give consent.
pub open spec fn consents(word: Seq<char>) -> bool {
    word == "y"@ || word == "yes"@
}

/// Whether `word`, already trimmed and in lower case, gives consent.
pub fn is_consent(word: &str) -> (r: bool)
    ensures
        r == consents(word@),
{
    same_text(word, "y") || same_text(word, "yes")
}

/// Whether the user's answer gives consent: trimmed and in lower case it
/// reads "y" or "yes". Anything else declines.
pub fn is_affirmative(answer: &str) -> (r: bool)
    ensures
        r == consents(lowercased(trimmed(answer@))),
{
    let word = to_lowercase(trim(answer));
    is_consent(word.as_str())
}

} // verus!
