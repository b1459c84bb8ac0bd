//! The factorials used for the terms of a Taylor series.
use vstd::prelude::*;

verus! {

/// `n!`.
pub open spec fn factorial(n: nat) -> nat
    decreases n,
{
    if n == 0 {
        1
    } else {
        n * factorial((n - 1) as nat)
    }
}

/// Factorials are positive.
pub proof fn lemma_factorial_positive(n: nat)
    ensures
        factorial(n) >= 1,
    decreases n,
{
    if n > 0 {
        lemma_factorial_positive((n - 1) as nat);
        let f = factorial((n - 1) as nat);
        assert(n * f >= 1) by (nonlinear_arith)
            requires
                n >= 1,
                f >= 1,
        ;
    }
}

/// Factorials grow with their argument.
pub proof fn lemma_factorial_monotone(a: nat, b: nat)
    requires
        a <= b,
    ensures
        1 <= factorial(a) <= factorial(b),
    decreases b,
{
    lemma_factorial_positive(a);
    if a < b {
        lemma_factorial_monotone(a, (b - 1) as nat);
        lemma_factorial_positive((b - 1) as nat);
        let f = factorial((b - 1) as nat);
        assert(f <= b * f) by (nonlinear_arith)
            requires
                b >= 1,
                f >= 1,
        ;
    }
}

/// `n!`, computed as the product of 1 to `n`.
pub fn factorial_iterative(n: u64) -> (r: u64)
    requires
        factorial(n as nat) <= u64::MAX,
    ensures
        r == factorial(n as nat),
{
    let mut product: u64 = 1;
    let mut k: u64 = 0;
    while k < n
        invariant
            k <= n,
            product == factorial(k as nat),
            factorial(n as nat) <= u64::MAX,
        decreases n - k,
    {
        k += 1;
        proof {
            lemma_factorial_monotone(k as nat, n as nat);
        }
        assert(factorial(k as nat) == k * factorial((k - 1) as nat));
        product = k * product;
    }
    product
}

} // verus!
