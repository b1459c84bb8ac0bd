//! Decimal notation of integers, as `{}` formatting writes it.
use vstd::prelude::*;

verus! {

/// The digit character for `d` (0 to 9).
pub open spec fn digit(d: nat) -> char
    recommends
        d < 10,
{
    (48 + d) as char
}

/// The decimal digits of `n`, most significant first, without leading zeros.
pub open spec fn decimal(n: nat) -> Seq<char>
    decreases n,
{
    if n < 10 {
        seq![digit(n)]
    } else {
        decimal(n / 10).push(digit(n % 10))
    }
}

/// The decimal notation of an integer: a minus sign before negative ones.
pub open spec fn signed_decimal(x: int) -> Seq<char> {
    if x < 0 {
        seq!['-'] + decimal((-x) as nat)
    } else {
        decimal(x as nat)
    }
}

/// The number that a string of decimal digits denotes.
pub open spec fn decimal_value(s: Seq<char>) -> int
    decreases s.len(),
{
    if s.len() == 0 {
        0
    } else {
        decimal_value(s.drop_last()) * 10 + (s.last() as int - 48)
    }
}

/// Law: the decimal notation of `n` denotes `n`, has at least one digit, and does
/// not start with a zero unless `n` is zero.
pub proof fn law_decimal_round_trip(n: nat)
    ensures
        decimal_value(decimal(n)) == n,
        decimal(n).len() >= 1,
        n > 0 ==> decimal(n)[0] != '0',
        forall|i: int| 0 <= i < decimal(n).len() ==> '0' <= #[trigger] decimal(n)[i] <= '9',
    decreases n,
{
    if n < 10 {
        assert(decimal(n) == seq![digit(n)]);
        assert(decimal(n).drop_last().len() == 0);
        assert(digit(n) as int == 48 + n);
        assert(decimal_value(decimal(n).drop_last()) == 0);
    } else {
        law_decimal_round_trip(n / 10);
        let d = decimal(n);
        assert(d.drop_last() == decimal(n / 10));
        assert(d.last() == digit(n % 10));
        assert((n / 10) * 10 + n % 10 == n);
        assert(digit(n % 10) as int == 48 + n % 10);
        assert(decimal_value(d) == decimal_value(decimal(n / 10)) * 10 + (n % 10));
        assert forall|i: int| 0 <= i < d.len() implies '0' <= #[trigger] d[i] <= '9' by {
            if i < d.len() - 1 {
                assert(d[i] == decimal(n / 10)[i]);
            }
        }
        assert(d[0] == decimal(n / 10)[0]);
    }
}

/// Law: different numbers are written differently.
pub proof fn law_decimal_injective(a: nat, b: nat)
    requires
        decimal(a) == decimal(b),
    ensures
        a == b,
{
    law_decimal_round_trip(a);
    law_decimal_round_trip(b);
}

/// The digits of `n` followed by `tail`.
fn prepend_digits(n: u64, tail: &mut Vec<char>)
    ensures
        final(tail)@ == decimal(n as nat) + old(tail)@,
{
    let mut m = n;
    loop
        invariant
            decimal(n as nat) + old(tail)@ == decimal(m as nat) + tail@,
        decreases m,
    {
        let d = (m % 10) as u8;
        let c = (48u8 + d) as char;
        let ghost before = tail@;
        tail.insert(0, c);
        if m < 10 {
            assert(decimal(m as nat) == seq![c]);
            assert(decimal(n as nat) + old(tail)@ == tail@);
            return ;
        }
        assert(decimal(m as nat) == decimal((m / 10) as nat).push(c));
        assert(decimal((m / 10) as nat).push(c) + before == decimal((m / 10) as nat) + tail@);
        m = m / 10;
    }
}

/// The decimal digits of `n`.
pub fn u64_digits(n: u64) -> (r: Vec<char>)
    ensures
        r@ == decimal(n as nat),
{
    let mut r: Vec<char> = Vec::new();
    prepend_digits(n, &mut r);
    assert(r@ == decimal(n as nat));
    r
}

/// The decimal notation of `x`, with a minus sign when negative.
pub fn i64_digits(x: i64) -> (r: Vec<char>)
    ensures
        r@ == signed_decimal(x as int),
{
    if x < 0 {
        let magnitude: u64 = (0i128 - (x as i128)) as u64;
        let mut r: Vec<char> = Vec::new();
        prepend_digits(magnitude, &mut r);
        r.insert(0, '-');
        assert(r@ == seq!['-'] + decimal((-x) as nat));
        r
    } else {
        u64_digits(x as u64)
    }
}

/// Appends the decimal digits of `n` to `s`.
pub fn push_decimal(s: &mut String, n: u64)
    ensures
        final(s)@ == old(s)@ + decimal(n as nat),
{
    let digits = u64_digits(n);
    crate::text::push_all(s, digits.as_slice());
}

/// Appends the decimal notation of `x` to `s`.
pub fn push_signed_decimal(s: &mut String, x: i64)
    ensures
        final(s)@ == old(s)@ + signed_decimal(x as int),
{
    let digits = i64_digits(x);
    crate::text::push_all(s, digits.as_slice());
}

} // verus!
