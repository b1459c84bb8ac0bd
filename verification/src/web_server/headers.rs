//! The header map of a request: header names to values, where a later value for a
//! name replaces an earlier one.
use vstd::prelude::*;

verus! {

/// The entries as pairs of character sequences.
pub open spec fn entry_views(s: Seq<(String, String)>) -> Seq<(Seq<char>, Seq<char>)> {
    s.map_values(|e: (String, String)| (e.0@, e.1@))
}

/// The map that the entries describe, later entries taking precedence.
pub open spec fn map_of(s: Seq<(Seq<char>, Seq<char>)>) -> Map<Seq<char>, Seq<char>>
    decreases s.len(),
{
    if s.len() == 0 {
        Map::empty()
    } else {
        map_of(s.drop_last()).insert(s.last().0, s.last().1)
    }
}

/// No name occurs twice among the entries.
pub open spec fn names_distinct(s: Seq<(Seq<char>, Seq<char>)>) -> bool {
    forall|i: int, j: int| 0 <= i < j < s.len() ==> s[i].0 != s[j].0
}

/// A name is in the map exactly when some entry carries it.
proof fn lemma_map_of_dom(s: Seq<(Seq<char>, Seq<char>)>, k: Seq<char>)
    ensures
        map_of(s).dom().contains(k) <==> exists|i: int| 0 <= i < s.len() && s[i].0 == k,
    decreases s.len(),
{
    if s.len() > 0 {
        lemma_map_of_dom(s.drop_last(), k);
        if map_of(s.drop_last()).dom().contains(k) {
            let i = choose|i: int| 0 <= i < s.drop_last().len() && s.drop_last()[i].0 == k;
            assert(s[i].0 == k);
        }
        if exists|i: int| 0 <= i < s.len() && s[i].0 == k {
            let i = choose|i: int| 0 <= i < s.len() && s[i].0 == k;
            if i < s.len() - 1 {
                assert(s.drop_last()[i].0 == k);
            }
        }
    }
}

/// With distinct names, the map gives each entry's value for its name.
proof fn lemma_map_of_value(s: Seq<(Seq<char>, Seq<char>)>, i: int)
    requires
        names_distinct(s),
        0 <= i < s.len(),
    ensures
        map_of(s).dom().contains(s[i].0),
        map_of(s)[s[i].0] == s[i].1,
    decreases s.len(),
{
    if i < s.len() - 1 {
        lemma_map_of_value(s.drop_last(), i);
        assert(s.drop_last()[i] == s[i]);
    }
}

/// With distinct names, replacing one entry's value updates the map at that name.
proof fn lemma_map_of_update(s: Seq<(Seq<char>, Seq<char>)>, i: int, v: Seq<char>)
    requires
        names_distinct(s),
        0 <= i < s.len(),
    ensures
        map_of(s.update(i, (s[i].0, v))) == map_of(s).insert(s[i].0, v),
    decreases s.len(),
{
    let t = s.update(i, (s[i].0, v));
    if i == s.len() - 1 {
        assert(t.drop_last() == s.drop_last());
    } else {
        lemma_map_of_update(s.drop_last(), i, v);
        assert(t.drop_last() == s.drop_last().update(i, (s[i].0, v)));
        assert(s.last().0 != s[i].0);
        assert(map_of(t) == map_of(s).insert(s[i].0, v));
    }
}

/// With distinct names, the map has as many names as there are entries.
proof fn lemma_map_of_len(s: Seq<(Seq<char>, Seq<char>)>)
    requires
        names_distinct(s),
    ensures
        map_of(s).dom().finite(),
        map_of(s).dom().len() == s.len(),
    decreases s.len(),
{
    if s.len() > 0 {
        let p = s.drop_last();
        assert(names_distinct(p));
        lemma_map_of_len(p);
        lemma_map_of_dom(p, s.last().0);
        if map_of(p).dom().contains(s.last().0) {
            let i = choose|i: int| 0 <= i < p.len() && p[i].0 == s.last().0;
            assert(s[i].0 == s[s.len() - 1].0);
        }
    }
}

/// Header names mapped to values.
#[derive(Debug)]
pub struct Headers {
    entries: Vec<(String, String)>,
}

impl View for Headers {
    type V = Map<Seq<char>, Seq<char>>;

    closed spec fn view(&self) -> Map<Seq<char>, Seq<char>> {
        map_of(entry_views(self.entries@))
    }
}

impl Headers {
    #[verifier::type_invariant]
    spec fn names_are_distinct(self) -> bool {
        names_distinct(entry_views(self.entries@))
    }

    /// The empty header map.
    pub fn new() -> (r: Headers)
        ensures
            r@ == Map::<Seq<char>, Seq<char>>::empty(),
    {
        let r = Headers { entries: Vec::new() };
        assert(entry_views(r.entries@).len() == 0);
        r
    }

    /// Maps `key` to `value`, replacing any value `key` had.
    pub fn insert(&mut self, key: String, value: String)
        ensures
            final(self)@ == old(self)@.insert(key@, value@),
    {
        proof {
            use_type_invariant(&*self);
        }
        let ghost old_views = entry_views(self.entries@);
        assert(old(self)@ == map_of(old_views));
        let mut entries: Vec<(String, String)> = Vec::new();
        std::mem::swap(&mut entries, &mut self.entries);
        assert(entry_views(entries@) == old_views);
        let mut i: usize = 0;
        while i < entries.len()
            invariant
                i <= entries@.len(),
                entry_views(entries@) == old_views,
                names_distinct(old_views),
                old(self)@ == map_of(old_views),
                forall|j: int| 0 <= j < i ==> old_views[j].0 != key@,
            decreases entries@.len() - i,
        {
            if entries[i].0 == key {
                assert(old_views[i as int].0 == key@);
                let ghost before = entries@;
                entries.set(i, (key, value));
                proof {
                    lemma_map_of_update(old_views, i as int, value@);
                    assert(entry_views(entries@) == old_views.update(
                        i as int,
                        (old_views[i as int].0, value@),
                    ));
                    assert forall|a: int, b: int|
                        0 <= a < b < entry_views(entries@).len() implies entry_views(
                        entries@,
                    )[a].0 != entry_views(entries@)[b].0 by {
                        assert(entry_views(entries@)[a].0 == old_views[a].0);
                        assert(entry_views(entries@)[b].0 == old_views[b].0);
                    }
                }
                self.entries = entries;
                assert(self@ == map_of(old_views).insert(key@, value@));
                return ;
            }
            i += 1;
        }
        entries.push((key, value));
        proof {
            let nv = entry_views(entries@);
            assert(nv == old_views.push((key@, value@)));
            assert(nv.drop_last() == old_views);
            assert forall|a: int, b: int| 0 <= a < b < nv.len() implies nv[a].0 != nv[b].0 by {
                if b < nv.len() - 1 {
                    assert(nv[a].0 == old_views[a].0);
                    assert(nv[b].0 == old_views[b].0);
                }
            }
        }
        self.entries = entries;
    }

    /// The value mapped to `key`, if any.
    pub fn get(&self, key: &String) -> (r: Option<&String>)
        ensures
            r is Some <==> self@.dom().contains(key@),
            r matches Some(v) ==> v@ == self@[key@],
    {
        proof {
            use_type_invariant(self);
        }
        let ghost views = entry_views(self.entries@);
        let mut i: usize = 0;
        while i < self.entries.len()
            invariant
                i <= self.entries@.len(),
                views == entry_views(self.entries@),
                names_distinct(views),
                forall|j: int| 0 <= j < i ==> views[j].0 != key@,
            decreases self.entries@.len() - i,
        {
            if self.entries[i].0 == *key {
                proof {
                    assert(views[i as int].0 == key@);
                    lemma_map_of_value(views, i as int);
                }
                return Some(&self.entries[i].1);
            }
            i += 1;
        }
        proof {
            lemma_map_of_dom(views, key@);
        }
        None
    }

    /// The number of names mapped.
    pub fn len(&self) -> (r: usize)
        ensures
            r == self@.dom().len(),
    {
        proof {
            use_type_invariant(self);
            lemma_map_of_len(entry_views(self.entries@));
        }
        self.entries.len()
    }
}

} // verus!
