//! A priority queue: items come out highest priority first, as from a max-heap.
//! Items are kept sorted by priority; among items of equal priority the one pushed
//! first comes out first.
use vstd::prelude::*;

verus! {

/// Items that carry a priority.
pub trait Prioritized {
    /// The priority of the item; higher comes out of the queue first.
    spec fn priority(&self) -> u64;

    /// Computes the priority.
    fn priority_key(&self) -> (k: u64)
        ensures
            k == self.priority(),
    ;
}

impl Prioritized for u32 {
    /// A number's priority is its value.
    open spec fn priority(&self) -> u64 {
        *self as u64
    }

    fn priority_key(&self) -> (k: u64) {
        *self as u64
    }
}

/// The priorities along `s` never decrease.
pub open spec fn sorted_by_priority<T: Prioritized>(s: Seq<T>) -> bool {
    forall|i: int, j: int| 0 <= i <= j < s.len() ==> s[i].priority() <= s[j].priority()
}

/// `x` has the highest priority of all the items of `s`.
pub open spec fn is_top<T: Prioritized>(s: Seq<T>, x: T) -> bool {
    forall|i: int| 0 <= i < s.len() ==> s[i].priority() <= x.priority()
}

/// A queue that hands out its items highest priority first.
pub struct PriorityQueue<T: Prioritized> {
    items: Vec<T>,
}

impl<T: Prioritized> View for PriorityQueue<T> {
    type V = Seq<T>;

    /// The items, lowest priority first; the last one comes out next.
    closed spec fn view(&self) -> Seq<T> {
        self.items@
    }
}

impl<T: Prioritized> PriorityQueue<T> {
    #[verifier::type_invariant]
    spec fn items_sorted(self) -> bool {
        sorted_by_priority(self.items@)
    }

    /// An empty queue.
    pub fn new() -> (q: PriorityQueue<T>)
        ensures
            q@ == Seq::<T>::empty(),
    {
        PriorityQueue { items: Vec::new() }
    }

    /// The number of items queued.
    pub fn len(&self) -> (n: usize)
        ensures
            n == self@.len(),
    {
        self.items.len()
    }

    /// Whether the queue holds no item.
    pub fn is_empty(&self) -> (b: bool)
        ensures
            b == (self@.len() == 0),
    {
        self.items.len() == 0
    }

    /// Adds an item. It goes after every item of lower priority and before every
    /// item of equal or higher priority, so that it comes out after the items of
    /// its priority that are already queued.
    pub fn push(&mut self, item: T)
        ensures
            exists|i: int|
                0 <= i <= old(self)@.len() && final(self)@ == old(self)@.insert(i, item) && (
                forall|j: int| 0 <= j < i ==> old(self)@[j].priority() < item.priority()) && (
                forall|j: int|
                    i <= j < old(self)@.len() ==> item.priority() <= old(self)@[j].priority()),
            final(self)@.to_multiset() == old(self)@.to_multiset().insert(item),
    {
        proof {
            use_type_invariant(&*self);
        }
        let key = item.priority_key();
        let mut items: Vec<T> = Vec::new();
        std::mem::swap(&mut items, &mut self.items);
        let ghost old_items = items@;
        let mut i: usize = 0;
        while i < items.len() && items[i].priority_key() < key
            invariant
                i <= items@.len(),
                items@ == old_items,
                sorted_by_priority(old_items),
                key == item.priority(),
                forall|j: int| 0 <= j < i ==> old_items[j].priority() < key,
            decreases items@.len() - i,
        {
            i += 1;
        }
        items.insert(i, item);
        proof {
            let s = items@;
            assert(s == old_items.insert(i as int, item));
            assert forall|a: int, b: int| 0 <= a <= b < s.len() implies s[a].priority()
                <= s[b].priority() by {
                if a < i && b > i {
                    assert(s[a] == old_items[a]);
                    assert(s[b] == old_items[b - 1]);
                } else if a < i && b < i {
                    assert(s[a] == old_items[a]);
                    assert(s[b] == old_items[b]);
                } else if a > i {
                    assert(s[a] == old_items[a - 1]);
                    assert(s[b] == old_items[b - 1]);
                } else if a == i && b > i {
                    assert(s[b] == old_items[b - 1]);
                    assert(i < old_items.len());
                    assert(old_items[i as int].priority() >= key);
                } else if a < i && b == i {
                    assert(s[a] == old_items[a]);
                }
            }
            assert forall|j: int|
                i <= j < old_items.len() implies item.priority() <= old_items[j].priority() by {
                assert(old_items[i as int].priority() >= key);
            }
            old_items.to_multiset_ensures();
            s.to_multiset_ensures();
            vstd::seq_lib::to_multiset_insert(old_items, i as int, item);
        }
        self.items = items;
        assert(old(self)@ == old_items);
    }

    /// Removes and returns an item of the highest priority, or `None` when the
    /// queue is empty.
    pub fn pop(&mut self) -> (r: Option<T>)
        ensures
            old(self)@.len() == 0 ==> r is None && final(self)@ == old(self)@,
            old(self)@.len() > 0 ==> r == Some(old(self)@.last()) && final(self)@ == old(
                self,
            )@.drop_last(),
            r matches Some(x) ==> is_top(old(self)@, x),
    {
        proof {
            use_type_invariant(&*self);
        }
        let mut items: Vec<T> = Vec::new();
        std::mem::swap(&mut items, &mut self.items);
        let ghost old_items = items@;
        let r = items.pop();
        proof {
            if old_items.len() > 0 {
                assert(items@ == old_items.drop_last());
                assert forall|a: int, b: int|
                    0 <= a <= b < items@.len() implies items@[a].priority()
                    <= items@[b].priority() by {
                    assert(items@[a] == old_items[a]);
                    assert(items@[b] == old_items[b]);
                }
            }
        }
        self.items = items;
        r
    }

    /// The item that `pop` would return, left in the queue.
    pub fn peek(&self) -> (r: Option<&T>)
        ensures
            self@.len() == 0 ==> r is None,
            self@.len() > 0 ==> r == Some(&self@.last()),
    {
        if self.items.len() == 0 {
            None
        } else {
            Some(&self.items[self.items.len() - 1])
        }
    }
}

/// Law: an item pushed onto an empty queue is the next to come out.
pub proof fn law_push_then_pop<T>(empty: Seq<T>, item: T, after_push: Seq<T>)
    requires
        empty.len() == 0,
        exists|i: int| 0 <= i <= empty.len() && after_push == empty.insert(i, item),
    ensures
        after_push.len() == 1,
        after_push.last() == item,
        after_push.drop_last() == empty,
{
    assert(after_push == seq![item]);
}

/// Law: what `pop` hands out and what it leaves make up what was queued.
pub proof fn law_pop_keeps_the_rest<T>(before: Seq<T>, after: Seq<T>, out: T)
    requires
        before.len() > 0,
        out == before.last(),
        after == before.drop_last(),
    ensures
        after.to_multiset().insert(out) == before.to_multiset(),
        after.len() + 1 == before.len(),
{
    after.to_multiset_ensures();
    assert(after.push(out) == before);
}

/// Law: items come out in order of non-increasing priority: the item a second
/// `pop` hands out has no higher priority than the item the first handed out.
pub proof fn law_pops_nonincreasing<T: Prioritized>(before: Seq<T>, first: T, second: T)
    requires
        before.len() >= 2,
        first == before.last(),
        is_top(before, first),
        second == before.drop_last().last(),
    ensures
        second.priority() <= first.priority(),
{
    assert(second == before[before.len() - 2]);
}

} // verus!
