//! A predicate used to filter numbers.
use vstd::prelude::*;

verus! {

/// Whether `num` leaves remainder 1 when divided by 2; negative numbers, whose
/// remainders are not positive, never do.
pub fn odd_predicate(num: i32) -> (b: bool)
    ensures
        b == (num > 0 && num % 2 == 1),
{
    (num % 2) == 1
}

} // verus!
