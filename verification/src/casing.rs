//! Case-conversion calls into the `convert_case` crate.
//!
//! The renderings that `convert_case` produces depend on the input characters
//! alone, so each conversion is given a name that the generators' contracts
//! can speak of.

use vstd::prelude::*;
use convert_case::Case;
use convert_case::Casing;

verus! {

/// The snake_case rendering that `convert_case` gives to a character sequence.
pub uninterp spec fn snake_of(s: Seq<char>) -> Seq<char>;

/// The UpperCamelCase rendering that `convert_case` gives to a character
/// sequence.
pub uninterp spec fn upper_camel_of(s: Seq<char>) -> Seq<char>;

/// Relies on `convert_case`'s `Casing::to_case` with `Case::Snake`: the
/// result is a pure function of the input characters.
#[verifier::external_body]
pub(crate) fn to_snake(s: &str) -> (r: String)
    ensures
        r@ == snake_of(s@),
{
    s.to_case(Case::Snake)
}

/// Relies on `convert_case`'s `Casing::to_case` with `Case::UpperCamel`: the
/// result is a pure function of the input characters.
#[verifier::external_body]
pub(crate) fn to_upper_camel(s: &str) -> (r: String)
    ensures
        r@ == upper_camel_of(s@),
{
    s.to_case(Case::UpperCamel)
}

} // verus!
