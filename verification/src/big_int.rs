//! Big integers as little-endian vectors of 64-bit limbs with no trailing zero
//! limb, and a minimum over vectors of values that know how to pick the smaller of
//! two.
use vstd::prelude::*;

verus! {

/// `s` without its trailing zeros.
pub open spec fn strip_zeros(s: Seq<u64>) -> Seq<u64>
    decreases s.len(),
{
    if s.len() > 0 && s.last() == 0 {
        strip_zeros(s.drop_last())
    } else {
        s
    }
}

/// Limbs in canonical form: empty, or with a non-zero last limb.
pub open spec fn limbs_canonical(s: Seq<u64>) -> bool {
    s.len() == 0 || s.last() != 0
}

/// Values that can pick the smaller of two.
pub trait Minimum: Sized {
    /// Whether the value is in a state that `min` accepts.
    spec fn min_ready(&self) -> bool;

    /// Whether `min` keeps `self` rather than `other`.
    spec fn keeps_self(&self, other: &Self) -> bool;

    /// The smaller of `self` and `other`.
    fn min<'a>(&'a self, other: &'a Self) -> (r: &'a Self)
        requires
            self.min_ready(),
            other.min_ready(),
        ensures
            *r == if self.keeps_self(other) {
                *self
            } else {
                *other
            },
    ;
}

/// The value that folding `min` along `s` from the left gives.
pub open spec fn fold_min<T: Minimum>(s: Seq<T>) -> T
    decreases s.len(),
{
    if s.len() <= 1 {
        s[0]
    } else {
        let m = fold_min(s.drop_last());
        if m.keeps_self(&s.last()) {
            m
        } else {
            s.last()
        }
    }
}

/// A big integer: little-endian 64-bit limbs.
#[derive(Debug, Clone)]
pub struct BigInt {
    pub data: Vec<u64>,
}

impl BigInt {
    /// The limbs are canonical: no trailing zero limb.
    pub open spec fn well_formed(&self) -> bool {
        limbs_canonical(self.data@)
    }

    /// The big integer of value `x`: no limb for zero, one limb otherwise.
    pub fn new(x: u64) -> (r: BigInt)
        ensures
            r.data@ == if x == 0 {
                Seq::<u64>::empty()
            } else {
                seq![x]
            },
            r.well_formed(),
    {
        if x == 0 {
            BigInt { data: Vec::new() }
        } else {
            let mut data: Vec<u64> = Vec::new();
            data.push(x);
            BigInt { data }
        }
    }

    /// Whether the limbs are canonical.
    pub fn test_invariant(&self) -> (b: bool)
        ensures
            b == self.well_formed(),
    {
        if self.data.len() == 0 {
            true
        } else {
            self.data[self.data.len() - 1] != 0
        }
    }

    /// The big integer with the given limbs, trailing zero limbs dropped.
    pub fn from_vec(v: Vec<u64>) -> (r: BigInt)
        ensures
            r.data@ == strip_zeros(v@),
            r.well_formed(),
    {
        let mut v = v;
        let ghost given = v@;
        loop
            invariant
                strip_zeros(given) == strip_zeros(v@),
            ensures
                strip_zeros(given) == v@,
                limbs_canonical(v@),
            decreases v@.len(),
        {
            let len = v.len();
            if len > 0 && v[len - 1] == 0 {
                let ghost before = v@;
                v.pop();
                assert(v@ == before.drop_last());
            } else {
                break;
            }
        }
        BigInt { data: v }
    }

    /// The one of `self` and `other` with fewer limbs; `self` when they have as
    /// many.
    pub fn min_try1<'a>(&'a self, other: &'a Self) -> (r: &'a Self)
        requires
            self.well_formed(),
            other.well_formed(),
        ensures
            *r == if self.data@.len() <= other.data@.len() {
                *self
            } else {
                *other
            },
    {
        if self.data.len() < other.data.len() {
            self
        } else if self.data.len() > other.data.len() {
            other
        } else {
            self
        }
    }

    /// The value that folding `min` along `v` gives, or `None` when `v` is empty.
    pub fn vec_min<T: Minimum>(v: &Vec<T>) -> (r: Option<&T>)
        requires
            v@.len() >= 2 ==> forall|i: int| 0 <= i < v@.len() ==> (#[trigger] v@[i]).min_ready(),
        ensures
            r is Some <==> v@.len() > 0,
            r matches Some(m) ==> *m == fold_min(v@),
    {
        let mut min: Option<&T> = None;
        let mut i: usize = 0;
        while i < v.len()
            invariant
                i <= v@.len(),
                v@.len() >= 2 ==> forall|j: int| 0 <= j < v@.len() ==> (#[trigger] v@[j]).min_ready(),
                i == 0 ==> min is None,
                i > 0 ==> (min matches Some(m) && *m == fold_min(v@.take(i as int))),
                i > 0 ==> exists|j: int| 0 <= j < i && fold_min(v@.take(i as int)) == v@[j],
            decreases v@.len() - i,
        {
            let e = &v[i];
            let ghost t = v@.take(i + 1);
            assert(t.drop_last() == v@.take(i as int));
            assert(t.last() == *e);
            min = match min {
                None => Some(e),
                Some(n) => {
                    proof {
                        let j = choose|j: int|
                            0 <= j < i && fold_min(v@.take(i as int)) == v@[j];
                        assert(v@[j].min_ready());
                    }
                    Some(n.min(e))
                },
            };
            proof {
                if i > 0 {
                    let j = choose|j: int| 0 <= j < i && fold_min(v@.take(i as int)) == v@[j];
                    if fold_min(t) == fold_min(v@.take(i as int)) {
                        assert(0 <= j < i + 1 && fold_min(t) == v@[j]);
                    } else {
                        assert(fold_min(t) == v@[i as int]);
                    }
                } else {
                    assert(fold_min(t) == v@[0]);
                }
            }
            i += 1;
        }
        assert(v@.take(v@.len() as int) == v@);
        min
    }

    /// The first element of `v`, or `None` when `v` is empty.
    pub fn head<T>(v: &Vec<T>) -> (r: Option<&T>)
        ensures
            r is Some <==> v@.len() > 0,
            r matches Some(x) ==> *x == v@[0],
    {
        if v.len() > 0 {
            Some(&v[0])
        } else {
            None
        }
    }
}

impl Minimum for BigInt {
    open spec fn min_ready(&self) -> bool {
        self.well_formed()
    }

    open spec fn keeps_self(&self, other: &Self) -> bool {
        self.data@.len() <= other.data@.len()
    }

    /// The one with fewer limbs; `self` when they have as many.
    fn min<'a>(&'a self, other: &'a Self) -> (r: &'a Self) {
        if self.data.len() < other.data.len() {
            self
        } else if self.data.len() > other.data.len() {
            other
        } else {
            self
        }
    }
}

/// Stripping trailing zeros gives canonical limbs.
pub proof fn lemma_strip_canonical(s: Seq<u64>)
    ensures
        limbs_canonical(strip_zeros(s)),
        strip_zeros(s).len() <= s.len(),
    decreases s.len(),
{
    if s.len() > 0 && s.last() == 0 {
        lemma_strip_canonical(s.drop_last());
    }
}

/// Law: `from_vec` returns a big integer that passes `test_invariant`, and leaves
/// canonical limbs unchanged.
pub proof fn law_from_vec_canonical(s: Seq<u64>)
    ensures
        limbs_canonical(strip_zeros(s)),
        limbs_canonical(s) ==> strip_zeros(s) == s,
        strip_zeros(strip_zeros(s)) == strip_zeros(s),
{
    lemma_strip_canonical(s);
}

/// Law: the minimum of a non-empty vector of big integers is one of its elements,
/// has the fewest limbs, and comes before every other element with as few limbs.
pub proof fn law_vec_min_fewest_limbs(s: Seq<BigInt>)
    requires
        s.len() > 0,
    ensures
        exists|i: int|
            0 <= i < s.len() && s[i] == fold_min(s) && forall|j: int|
                0 <= j < i ==> s[j].data@.len() > fold_min(s).data@.len(),
        forall|j: int| 0 <= j < s.len() ==> fold_min(s).data@.len() <= (#[trigger] s[j]).data@.len(),
    decreases s.len(),
{
    if s.len() == 1 {
        assert(0 <= 0 < s.len() && s[0] == fold_min(s));
    } else {
        let p = s.drop_last();
        law_vec_min_fewest_limbs(p);
        let i = choose|i: int|
            0 <= i < p.len() && p[i] == fold_min(p) && forall|j: int|
                0 <= j < i ==> p[j].data@.len() > fold_min(p).data@.len();
        assert forall|j: int| 0 <= j < s.len() implies fold_min(s).data@.len() <= (#[trigger] s[
            j]).data@.len() by {
            if j < s.len() - 1 {
                assert(s[j] == p[j]);
            }
        }
        if fold_min(p).keeps_self(&s.last()) {
            assert(forall|j: int| 0 <= j < i ==> s[j] == p[j]);
            assert(0 <= i < s.len() && s[i] == fold_min(s));
        } else {
            let k = s.len() - 1;
            assert forall|j: int| 0 <= j < k implies s[j].data@.len() > fold_min(s).data@.len() by {
                assert(s[j] == p[j]);
            }
            assert(0 <= k < s.len() && s[k] == fold_min(s));
        }
    }
}

} // verus!
