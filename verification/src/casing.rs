//! Lowercasing of type names, used by the receiver heuristic: a parameter
//! is the receiver of a method exactly when its name equals the lowercased
//! name of the wrapped type that owns the method.

use vstd::prelude::*;

verus! {

/// The lowercase form of a character sequence, as Unicode case mapping
/// defines it. The mapping depends on the characters alone.
pub uninterp spec fn lower_of(s: Seq<char>) -> Seq<char>;

/// Relies on str::to_lowercase: the result is the Unicode lowercase
/// mapping of the input and depends on the input characters alone.
#[verifier::external_body]
pub fn lowercase(s: &str) -> (r: String)
    ensures
        r@ == lower_of(s@),
{
    s.to_lowercase()
}

} // verus!
