use vstd::prelude::*;

verus! {

/// The characters that `str::trim` leaves: the input without its leading and
/// trailing whitespace. Left abstract; the login contract speaks of its
/// inputs through this name.
pub uninterp spec fn trimmed_of(s: Seq<char>) -> Seq<char>;

/// Relies on `str::trim`: the result depends on the characters of `s` alone
/// (the same input always trims to the same output).
#[verifier::external_body]
pub(crate) fn trim_string(s: &str) -> (r: String)
    ensures
        r@ == trimmed_of(s@),
{
    s.trim().to_string()
}

} // verus!
