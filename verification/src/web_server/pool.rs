//! Naming of the server's threads.
use vstd::prelude::*;

use crate::decimal::{decimal, push_decimal};

verus! {

/// The name of the thread numbered `id` in the given role, such as `worker_3`.
pub fn thread_name(role: &str, id: usize) -> (r: String)
    ensures
        r@ == role@ + seq!['_'] + decimal(id as nat),
{
    let mut r = role.to_owned();
    r.push('_');
    push_decimal(&mut r, id as u64);
    r
}

} // verus!
