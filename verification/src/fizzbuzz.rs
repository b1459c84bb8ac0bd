//! FizzBuzz: multiples of 3 are "fizz", of 5 "buzz", of both "fizzbuzz".
use vstd::prelude::*;

use crate::decimal::{push_signed_decimal, signed_decimal};

verus! {

/// What is said for `num`.
pub open spec fn fizzbuzz_word(num: int) -> Seq<char> {
    if num % 15 == 0 {
        "fizzbuzz"@
    } else if num % 3 == 0 {
        "fizz"@
    } else if num % 5 == 0 {
        "buzz"@
    } else {
        signed_decimal(num)
    }
}

/// Law: a multiple of both 3 and 5 is "fizzbuzz", a multiple of 3 alone "fizz", a
/// multiple of 5 alone "buzz", and any other number is written out in decimal.
pub proof fn law_fizzbuzz_cases(num: int)
    ensures
        num % 3 == 0 && num % 5 == 0 ==> fizzbuzz_word(num) == "fizzbuzz"@,
        num % 3 == 0 && num % 5 != 0 ==> fizzbuzz_word(num) == "fizz"@,
        num % 5 == 0 && num % 3 != 0 ==> fizzbuzz_word(num) == "buzz"@,
        num % 3 != 0 && num % 5 != 0 ==> fizzbuzz_word(num) == signed_decimal(num),
{
    assert(num % 3 == 0 && num % 5 == 0 <==> num % 15 == 0) by (nonlinear_arith);
}

/// What is said for `num`: "fizzbuzz", "fizz", "buzz", or the number itself.
pub fn fizzbuzz(num: i32) -> (r: String)
    ensures
        r@ == fizzbuzz_word(num as int),
        num % 15 == 0 ==> r@ == "fizzbuzz"@,
        num % 3 == 0 && num % 5 != 0 ==> r@ == "fizz"@,
        num % 5 == 0 && num % 3 != 0 ==> r@ == "buzz"@,
        num % 3 != 0 && num % 5 != 0 ==> r@ == signed_decimal(num as int),
{
    if num % 15 == 0 {
        "fizzbuzz".to_owned()
    } else if num % 3 == 0 {
        "fizz".to_owned()
    } else if num % 5 == 0 {
        "buzz".to_owned()
    } else {
        let mut r = String::new();
        push_signed_decimal(&mut r, num as i64);
        r
    }
}

} // verus!
