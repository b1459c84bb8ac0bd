//! The keys of a cache experiment: names of randomly numbered cache objects.
use vstd::prelude::*;

use crate::decimal::{decimal, push_decimal};
use crate::random::random_byte;
use crate::text::strings_of;

verus! {

/// The name of the cache object numbered `n`.
pub open spec fn object_name(n: u8) -> Seq<char> {
    "Cache_object_"@ + decimal(n as nat)
}

/// `s` is the name of some cache object.
pub open spec fn is_object_name(s: Seq<char>) -> bool {
    exists|n: u8| s == object_name(n)
}

/// The name of the cache object numbered `n`.
pub fn cache_object_name(n: u8) -> (r: String)
    ensures
        r@ == object_name(n),
{
    let mut r = "Cache_object_".to_owned();
    push_decimal(&mut r, n as u64);
    r
}

/// `num_objects` names of cache objects, each numbered at random.
pub fn get_cache_objects(num_objects: usize) -> (r: Vec<String>)
    ensures
        r@.len() == num_objects,
        forall|i: int| 0 <= i < r@.len() ==> is_object_name(#[trigger] strings_of(r@)[i]),
{
    let mut cache_objects: Vec<String> = Vec::with_capacity(num_objects);
    let mut k: usize = 0;
    while k < num_objects
        invariant
            k <= num_objects,
            cache_objects@.len() == k,
            forall|i: int| 0 <= i < k ==> is_object_name(#[trigger] strings_of(cache_objects@)[i]),
        decreases num_objects - k,
    {
        let n = random_byte();
        let name = cache_object_name(n);
        let ghost before = cache_objects@;
        cache_objects.push(name);
        assert forall|i: int| 0 <= i < k + 1 implies is_object_name(#[trigger] strings_of(cache_objects@)[i]) by {
            if i < k {
                assert(strings_of(cache_objects@)[i] == strings_of(before)[i]);
            } else {
                assert(strings_of(cache_objects@)[i] == object_name(n));
            }
        }
        k += 1;
    }
    cache_objects
}

} // verus!
