//! Case conversion of identifiers.
use convert_case::{Case, Casing};
use vstd::prelude::*;

verus! {

/// The Pascal-case form of the characters `name`, as `convert_case` computes
/// it: the name is split into words and each word is capitalised.
pub uninterp spec fn pascal_case_of(name: Seq<char>) -> Seq<char>;

/// Converts `name` to Pascal case.
///
/// Trusted: calls `convert_case::Casing::to_case` with `Case::Pascal`. The
/// contract claims only that the result is a function of the characters of
/// `name`; it says nothing of what that function is.
#[verifier::external_body]
pub(crate) fn pascal_case(name: &str) -> (out: String)
    ensures
        out@ == pascal_case_of(name@),
{
    name.to_case(Case::Pascal)
}

} // verus!
