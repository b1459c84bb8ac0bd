//! Collatz trajectories: halve an even number, triple an odd one and add one, until
//! the number reaches one.
use vstd::prelude::*;
use vstd::arithmetic::power2::{lemma2_to64, lemma2_to64_rest, lemma_pow2_unfold, pow2};

verus! {

/// One Collatz step.
pub open spec fn collatz_next(i: int) -> int {
    if i % 2 == 1 {
        3 * i + 1
    } else {
        i / 2
    }
}

/// The number reached from `i` after `n` steps.
pub open spec fn collatz_iter(i: int, n: nat) -> int
    decreases n,
{
    if n == 0 {
        i
    } else {
        collatz_next(collatz_iter(i, (n - 1) as nat))
    }
}

/// A step from `x` stays within `i64`.
pub open spec fn step_fits(x: int) -> bool {
    x % 2 == 1 ==> 3 * x + 1 <= i64::MAX
}

/// Starting from `i`, the trajectory first reaches one after exactly `n` steps,
/// every step on the way staying within `i64`.
pub open spec fn reaches_one_in(i: int, n: nat) -> bool {
    &&& collatz_iter(i, n) == 1
    &&& forall|m: nat| m < n ==> collatz_iter(i, m) != 1 && step_fits(#[trigger] collatz_iter(i, m))
}

/// The trajectory from `i` reaches one within `limit` steps, staying within `i64`.
pub open spec fn reaches_one_within(i: int, limit: int) -> bool {
    exists|n: nat| n <= limit && reaches_one_in(i, n)
}

/// Law: the number of steps in which a trajectory first reaches one is unique.
pub proof fn law_steps_unique(i: int, a: nat, b: nat)
    requires
        reaches_one_in(i, a),
        reaches_one_in(i, b),
    ensures
        a == b,
{
    if a < b {
        assert(collatz_iter(i, a) != 1);
    } else if b < a {
        assert(collatz_iter(i, b) != 1);
    }
}

/// Taking one step first shifts the trajectory by one.
proof fn lemma_iter_shift(i: int, m: nat)
    ensures
        collatz_iter(collatz_next(i), m) == collatz_iter(i, m + 1),
    decreases m,
{
    if m > 0 {
        lemma_iter_shift(i, (m - 1) as nat);
        assert(collatz_iter(collatz_next(i), m) == collatz_next(
            collatz_iter(collatz_next(i), (m - 1) as nat),
        ));
        assert(collatz_iter(i, m + 1) == collatz_next(collatz_iter(i, m)));
    } else {
        assert(collatz_iter(i, 1) == collatz_next(collatz_iter(i, 0)));
    }
}

/// Law: from a number above one, the trajectory takes one step more than the
/// trajectory from the number its first step reaches, which stays within `i64`.
pub proof fn law_collatz_recurrence(i: int, n: nat)
    requires
        1 < i <= i64::MAX,
        reaches_one_in(i, n),
    ensures
        n >= 1,
        collatz_next(i) <= i64::MAX,
        reaches_one_in(collatz_next(i), (n - 1) as nat),
{
    assert(collatz_iter(i, 0) == i);
    assert(step_fits(collatz_iter(i, 0)));
    lemma_iter_shift(i, (n - 1) as nat);
    assert forall|m: nat| m < n - 1 implies collatz_iter(collatz_next(i), m) != 1 && step_fits(
        #[trigger] collatz_iter(collatz_next(i), m),
    ) by {
        lemma_iter_shift(i, m);
        assert(step_fits(collatz_iter(i, m + 1)));
    }
}

/// The number of steps the trajectory from `i` takes to reach one.
pub fn collatz(i: i64) -> (r: i32)
    requires
        i >= 1,
        reaches_one_within(i as int, i32::MAX as int),
    ensures
        r >= 0,
        reaches_one_in(i as int, r as nat),
{
    let ghost total: nat = choose|n: nat| n <= i32::MAX && reaches_one_in(i as int, n);
    let mut cur: i64 = i;
    let mut counter: i32 = 0;
    while cur != 1
        invariant
            cur >= 1,
            counter >= 0,
            cur == collatz_iter(i as int, counter as nat),
            counter <= total <= i32::MAX,
            reaches_one_in(i as int, total),
            forall|m: nat| m < counter ==> collatz_iter(i as int, m) != 1,
        decreases total - counter,
    {
        assert(counter < total);
        assert(step_fits(collatz_iter(i as int, counter as nat)));
        if cur % 2 == 1 {
            cur = 3 * cur + 1;
        } else {
            cur = cur / 2;
        }
        counter += 1;
    }
    counter
}

/// The numbers the trajectory from `i` passes through before reaching one, `i`
/// first.
pub fn collatz_path(i: i64) -> (r: Vec<i64>)
    requires
        i >= 1,
        reaches_one_within(i as int, i32::MAX as int),
    ensures
        reaches_one_in(i as int, r@.len()),
        forall|k: int| 0 <= k < r@.len() ==> r@[k] == collatz_iter(i as int, k as nat),
{
    let ghost total: nat = choose|n: nat| n <= i32::MAX && reaches_one_in(i as int, n);
    let mut path: Vec<i64> = Vec::new();
    let mut cur: i64 = i;
    while cur != 1
        invariant
            cur >= 1,
            cur == collatz_iter(i as int, path@.len()),
            path@.len() <= total <= i32::MAX,
            reaches_one_in(i as int, total),
            forall|k: int| 0 <= k < path@.len() ==> path@[k] == collatz_iter(i as int, k as nat),
        decreases total - path@.len(),
    {
        assert(path@.len() < total);
        assert(step_fits(collatz_iter(i as int, path@.len())));
        path.push(cur);
        if cur % 2 == 1 {
            cur = 3 * cur + 1;
        } else {
            cur = cur / 2;
        }
    }
    assert forall|m: nat| m < path@.len() implies collatz_iter(i as int, m) != 1 && step_fits(
        #[trigger] collatz_iter(i as int, m),
    ) by {
        assert(m < total);
    }
    path
}

/// The number of steps the trajectory from `i` takes to reach one, when it does
/// so within `limit` steps while staying within `i64`; `None` otherwise.
pub fn collatz_within(i: i64, limit: i32) -> (r: Option<i32>)
    ensures
        r matches Some(n) ==> 0 <= n <= limit && reaches_one_in(i as int, n as nat),
        r is None ==> i < 1 || !reaches_one_within(i as int, limit as int),
{
    if i < 1 {
        return None;
    }
    let mut cur: i64 = i;
    let mut counter: i32 = 0;
    loop
        invariant
            cur >= 1,
            0 <= counter,
            counter <= limit || counter == 0,
            cur == collatz_iter(i as int, counter as nat),
            forall|m: nat|
                m < counter ==> collatz_iter(i as int, m) != 1 && step_fits(
                    #[trigger] collatz_iter(i as int, m),
                ),
        decreases limit - counter,
    {
        if cur == 1 {
            if counter <= limit {
                return Some(counter);
            }
        }
        if counter >= limit {
            proof {
                assert forall|n: nat| n <= limit implies !reaches_one_in(i as int, n) by {
                    if reaches_one_in(i as int, n) {
                        if n < counter {
                            assert(collatz_iter(i as int, n) != 1);
                        } else if cur == 1 {
                        } else {
                            assert(n == counter);
                        }
                    }
                }
            }
            return None;
        }
        if cur % 2 == 1 {
            if cur > (i64::MAX - 1) / 3 {
                proof {
                    assert forall|n: nat| n <= limit implies !reaches_one_in(i as int, n) by {
                        if reaches_one_in(i as int, n) {
                            if n <= counter {
                                if n < counter {
                                    assert(collatz_iter(i as int, n) != 1);
                                }
                            } else {
                                assert(step_fits(collatz_iter(i as int, counter as nat)));
                            }
                        }
                    }
                }
                return None;
            }
            cur = 3 * cur + 1;
        } else {
            cur = cur / 2;
        }
        counter += 1;
    }
}

/// From a power of two the trajectory only halves.
proof fn lemma_powers_of_two(k: nat, j: nat)
    requires
        j <= k,
    ensures
        collatz_iter(pow2(k) as int, j) == pow2((k - j) as nat) as int,
    decreases j,
{
    if j > 0 {
        lemma_powers_of_two(k, (j - 1) as nat);
        let e = (k - (j - 1)) as nat;
        lemma_pow2_unfold(e);
        assert(pow2(e) == 2 * pow2((e - 1) as nat));
        assert((2 * pow2((e - 1) as nat) as int) % 2 == 0);
        assert((2 * pow2((e - 1) as nat) as int) / 2 == pow2((e - 1) as nat));
    }
}

/// From `2^k` the trajectory reaches one in `k` steps.
proof fn lemma_power_of_two_steps(k: nat)
    requires
        k <= 62,
    ensures
        reaches_one_in(pow2(k) as int, k),
{
    lemma_powers_of_two(k, k);
    assert(pow2(0) == 1) by {
        lemma2_to64();
    }
    assert forall|m: nat| m < k implies collatz_iter(pow2(k) as int, m) != 1 && step_fits(
        #[trigger] collatz_iter(pow2(k) as int, m),
    ) by {
        lemma_powers_of_two(k, m);
        let e = (k - m) as nat;
        lemma_pow2_unfold(e);
        assert(pow2(e) == 2 * pow2((e - 1) as nat));
        assert((2 * pow2((e - 1) as nat) as int) % 2 == 0);
        vstd::arithmetic::power2::lemma_pow2_pos((e - 1) as nat);
    }
}

/// The smallest starting number whose trajectory reaches one in exactly `num`
/// steps, staying within `i64`; `None` when no starting number below `i64::MAX`
/// has one. There is one for every `num` from 0 to 62.
pub fn lowest_start_with_steps(num: i32) -> (r: Option<i64>)
    ensures
        r matches Some(s) ==> {
            &&& num >= 0
            &&& s >= 1
            &&& reaches_one_in(s as int, num as nat)
            &&& forall|c: int| 1 <= c < s ==> !#[trigger] reaches_one_in(c, num as nat)
        },
        r is None ==> num < 0 || forall|c: int|
            1 <= c < i64::MAX ==> !#[trigger] reaches_one_in(c, num as nat),
        0 <= num <= 62 ==> r is Some,
{
    if num < 0 {
        return None;
    }
    proof {
        if num <= 62 {
            lemma_power_of_two_steps(num as nat);
            lemma2_to64();
            lemma2_to64_rest();
            vstd::arithmetic::power2::lemma_pow2_strictly_increases(num as nat, 63);
            vstd::arithmetic::power2::lemma_pow2_pos(num as nat);
            assert(pow2(63) == 0x8000_0000_0000_0000);
        }
    }
    let mut counter: i64 = 1;
    while counter < i64::MAX
        invariant
            0 <= num,
            1 <= counter,
            num <= 62 ==> reaches_one_in(pow2(num as nat) as int, num as nat) && 1 <= pow2(
                num as nat,
            ) < i64::MAX,
            forall|c: int| 1 <= c < counter ==> !#[trigger] reaches_one_in(c, num as nat),
        decreases i64::MAX - counter,
    {
        match collatz_within(counter, num) {
            Some(n) => {
                if n == num {
                    return Some(counter);
                }
                proof {
                    if reaches_one_in(counter as int, num as nat) {
                        law_steps_unique(counter as int, n as nat, num as nat);
                    }
                }
            },
            None => {
                proof {
                    if reaches_one_in(counter as int, num as nat) {
                        assert(reaches_one_within(counter as int, num as int));
                    }
                }
            },
        }
        assert(!reaches_one_in(counter as int, num as nat));
        counter += 1;
    }
    proof {
        if num <= 62 {
            assert(!reaches_one_in(pow2(num as nat) as int, num as nat));
        }
    }
    None
}

} // verus!
