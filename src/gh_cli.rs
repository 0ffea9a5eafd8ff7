use vstd::prelude::*;
use crate::text::str_eq;

verus! {

/// What `str::to_lowercase` gives for a text.
pub uninterp spec fn lower_of(s: Seq<char>) -> Seq<char>;

/// Relies on `str::to_lowercase`: the lower-case form of the text.
#[verifier::external_body]
fn lowercase(s: &str) -> (r: String)
    ensures
        r@ == lower_of(s@),
{
    s.to_lowercase()
}

/// The answer an override value gives, once lower-cased: "1" and "true"
/// say yes, "0" and "false" say no, anything else says nothing.
pub open spec fn override_of(lowered: Seq<char>) -> Option<bool> {
    if lowered == "1"@ || lowered == "true"@ {
        Some(true)
    } else if lowered == "0"@ || lowered == "false"@ {
        Some(false)
    } else {
        None
    }
}

/// Reads an already lower-cased override value.
pub fn override_from_lowercase(lowered: &str) -> (r: Option<bool>)
    ensures
        r == override_of(lowered@),
{
    if str_eq(lowered, "1") || str_eq(lowered, "true") {
        Some(true)
    } else if str_eq(lowered, "0") || str_eq(lowered, "false") {
        Some(false)
    } else {
        None
    }
}

/// Reads the value of the variable that overrides the GitHub CLI's
/// authentication check, in any letter case.
pub fn auth_override(value: &str) -> (r: Option<bool>)
    ensures
        r == override_of(lower_of(value@)),
{
    let lowered = lowercase(value);
    override_from_lowercase(lowered.as_str())
}

/// Whether `gh auth status` reports an authenticated user, from its exit
/// code: only a clean exit does.
pub fn cli_is_authenticated(exit_code: Option<i32>) -> (r: bool)
    ensures
        r == (exit_code == Some(0i32)),
{
    match exit_code {
        Some(c) => c == 0,
        None => false,
    }
}

} // verus!
