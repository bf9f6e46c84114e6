//! Finding a server by part of its name, for when an exact lookup by name or
//! id finds nothing.

use vstd::prelude::*;

verus! {

/// `needle` occurs in `hay` as a run of consecutive characters.
pub open spec fn has_infix(hay: Seq<char>, needle: Seq<char>) -> bool {
    exists|i: int|
        0 <= i && i + needle.len() <= hay.len() && #[trigger] hay.subrange(i, i + needle.len())
            == needle
}

/// Relies on `str::contains` with a string pattern: whether `needle` occurs
/// in `hay`.
#[verifier::external_body]
fn text_contains(hay: &str, needle: &str) -> (r: bool)
    ensures
        r == has_infix(hay@, needle@),
{
    hay.contains(needle)
}

/// Index of the first name that contains `identifier`, if any does.
pub fn first_name_match(names: &Vec<String>, identifier: &str) -> (r: Option<usize>)
    ensures
        match r {
            Some(i) => {
                &&& i < names.len()
                &&& has_infix(names[i as int]@, identifier@)
                &&& forall|j: int| 0 <= j < i ==> !has_infix(#[trigger] names[j]@, identifier@)
            },
            None => forall|j: int| 0 <= j < names.len() ==> !has_infix(#[trigger] names[j]@, identifier@),
        },
{
    let mut i: usize = 0;
    while i < names.len()
        invariant
            i <= names.len(),
            forall|j: int| 0 <= j < i ==> !has_infix(#[trigger] names[j]@, identifier@),
        decreases names.len() - i,
    {
        if text_contains(names[i].as_str(), identifier) {
            return Some(i);
        }
        i = i + 1;
    }
    None
}

} // verus!
