//! Anagram search: which of the candidate words are anagrams of a source word.
use vstd::prelude::*;

verus! {

/// The anagrams of `source` among `inputs`. This version finds none: it always
/// returns an empty vector.
pub fn anagram_for<'a>(source: &str, inputs: &[&'a str]) -> (r: Vec<&'a str>)
    ensures
        r@.len() == 0,
{
    Vec::new()
}

} // verus!
