//! A map from strings to strings: the icons of the deck and the values of
//! plugin variables.

use vstd::prelude::*;

use crate::keyed::{
    entry_insert, has_key, index_of_key, insert_all, keys_of, keys_unique, lemma_index_of_key,
    lemma_map_of_dom, lemma_map_of_push, lemma_map_of_update, lemma_map_of_value, map_of,
};
use crate::text::{str_eq, views};

verus! {

/// A map from strings to strings; no key occurs twice.
#[derive(Debug)]
pub struct StringMap {
    entries: Vec<(String, String)>,
}

/// The views of string pairs.
pub open spec fn pair_views(e: Seq<(String, String)>) -> Seq<(Seq<char>, Seq<char>)> {
    e.map_values(|p: (String, String)| (p.0@, p.1@))
}

/// The keys of entries with unique keys are distinct, and they are the keys
/// of the map of the entries.
pub proof fn lemma_keys_distinct(e: Seq<(Seq<char>, Seq<char>)>)
    requires
        keys_unique(e),
    ensures
        keys_of(e).no_duplicates(),
        forall|k: Seq<char>| #[trigger] keys_of(e).contains(k) <==> map_of(e).contains_key(k),
{
    assert forall|k: Seq<char>| #[trigger] keys_of(e).contains(k) <==> map_of(e).contains_key(k) by {
        lemma_map_of_dom(e, k);
        if keys_of(e).contains(k) {
            let i = choose|i: int| 0 <= i < keys_of(e).len() && keys_of(e)[i] == k;
            assert(e[i].0 == k);
        }
        if has_key(e, k) {
            let i = choose|i: int| 0 <= i < e.len() && e[i].0 == k;
            assert(keys_of(e)[i] == k);
        }
    }
}

impl StringMap {
    #[verifier::type_invariant]
    closed spec fn inv(self) -> bool {
        keys_unique(self.entries())
    }

    /// The entries, in order.
    pub closed spec fn entries(self) -> Seq<(Seq<char>, Seq<char>)> {
        pair_views(self.entries@)
    }

    /// The map the entries stand for.
    pub open spec fn map(self) -> Map<Seq<char>, Seq<char>> {
        map_of(self.entries())
    }

    /// An empty map.
    pub fn new() -> (r: Self)
        ensures
            r.entries() == Seq::<(Seq<char>, Seq<char>)>::empty(),
            r.map() == Map::<Seq<char>, Seq<char>>::empty(),
    {
        let v: Vec<(String, String)> = Vec::new();
        assert(pair_views(v@) =~= Seq::<(Seq<char>, Seq<char>)>::empty());
        StringMap { entries: v }
    }

    fn find(&self, k: &str) -> (r: Option<usize>)
        ensures
            match r {
                Some(i) => i < self.entries().len() && self.entries()[i as int].0 == k@ && i
                    == index_of_key(self.entries(), k@),
                None => !has_key(self.entries(), k@),
            },
    {
        proof {
            use_type_invariant(self);
        }
        let mut i: usize = 0;
        while i < self.entries.len()
            invariant
                i <= self.entries@.len(),
                keys_unique(self.entries()),
                forall|j: int| 0 <= j < i ==> self.entries()[j].0 != k@,
            decreases self.entries@.len() - i,
        {
            assert(self.entries()[i as int].0 == self.entries@[i as int].0@);
            if str_eq(self.entries[i].0.as_str(), k) {
                proof {
                    lemma_index_of_key(self.entries(), k@, i as int);
                }
                return Some(i);
            }
            i = i + 1;
        }
        None
    }

    /// The number of entries.
    pub fn len(&self) -> (r: usize)
        ensures
            r == self.entries().len(),
    {
        self.entries.len()
    }

    /// The value for `k`, if any.
    pub fn get(&self, k: &str) -> (r: Option<String>)
        ensures
            r is Some == self.map().contains_key(k@),
            r matches Some(v) ==> v@ == self.map()[k@],
    {
        proof {
            use_type_invariant(self);
            lemma_map_of_dom(self.entries(), k@);
        }
        match self.find(k) {
            Some(i) => {
                proof {
                    lemma_map_of_value(self.entries(), i as int);
                }
                Some(self.entries[i].1.clone())
            },
            None => None,
        }
    }

    /// Sets `k` to `v`.
    pub fn insert(&mut self, k: String, v: String)
        ensures
            final(self).entries() == entry_insert(old(self).entries(), k@, v@),
            final(self).map() == old(self).map().insert(k@, v@),
    {
        proof {
            use_type_invariant(&*self);
        }
        match self.find(k.as_str()) {
            Some(i) => {
                let ghost e = self.entries();
                proof {
                    lemma_map_of_update(e, i as int, v@);
                }
                let ghost kv = k@;
                let ghost vv = v@;
                let mut entries: Vec<(String, String)> = Vec::new();
                std::mem::swap(&mut entries, &mut self.entries);
                entries.remove(i);
                entries.insert(i, (k, v));
                assert(pair_views(entries@) =~= e.update(i as int, (kv, vv)));
                self.entries = entries;
            },
            None => {
                let ghost e = self.entries();
                proof {
                    lemma_map_of_push(e, k@, v@);
                }
                let ghost kv = k@;
                let ghost vv = v@;
                let mut entries: Vec<(String, String)> = Vec::new();
                std::mem::swap(&mut entries, &mut self.entries);
                entries.push((k, v));
                assert(pair_views(entries@) =~= e.push((kv, vv)));
                self.entries = entries;
            },
        }
    }

    /// The map of the pairs, a later pair for a key replacing an earlier one
    /// (what collecting them into a map gives).
    pub fn from_pairs(pairs: Vec<(String, String)>) -> (r: Self)
        ensures
            r.entries() == insert_all(Seq::empty(), pair_views(pairs@)),
            r.map() == map_of(pair_views(pairs@)),
    {
        let mut m = StringMap::new();
        let mut i: usize = 0;
        while i < pairs.len()
            invariant
                i <= pairs@.len(),
                m.entries() == insert_all(Seq::empty(), pair_views(pairs@).subrange(0, i as int)),
                m.map() == map_of(pair_views(pairs@).subrange(0, i as int)),
            decreases pairs@.len() - i,
        {
            let k = pairs[i].0.clone();
            let v = pairs[i].1.clone();
            m.insert(k, v);
            proof {
                let s = pair_views(pairs@).subrange(0, i as int + 1);
                assert(s.drop_last() =~= pair_views(pairs@).subrange(0, i as int));
                assert(s.last() == (pairs@[i as int].0@, pairs@[i as int].1@));
            }
            i = i + 1;
        }
        assert(pair_views(pairs@).subrange(0, i as int) =~= pair_views(pairs@));
        m
    }

    /// The entries as pairs, in order.
    pub fn to_pairs(&self) -> (r: Vec<(String, String)>)
        ensures
            pair_views(r@) == self.entries(),
    {
        let mut out: Vec<(String, String)> = Vec::new();
        let mut i: usize = 0;
        while i < self.entries.len()
            invariant
                i <= self.entries@.len(),
                pair_views(out@) == self.entries().subrange(0, i as int),
            decreases self.entries@.len() - i,
        {
            let k = self.entries[i].0.clone();
            let v = self.entries[i].1.clone();
            let ghost prev = pair_views(out@);
            out.push((k, v));
            assert(pair_views(out@) =~= prev.push((self.entries@[i as int].0@, self.entries@[i as int].1@)));
            i = i + 1;
            assert(pair_views(out@) =~= self.entries().subrange(0, i as int));
        }
        assert(self.entries().subrange(0, i as int) =~= self.entries());
        out
    }

    /// The keys, in order; no key occurs twice, and they are exactly the
    /// keys of the map.
    pub fn keys(&self) -> (r: Vec<String>)
        ensures
            r@.map_values(|s: String| s@) == keys_of(self.entries()),
            views(r@).no_duplicates(),
            forall|k: Seq<char>| #[trigger] views(r@).contains(k) <==> self.map().contains_key(k),
    {
        proof {
            use_type_invariant(self);
            lemma_keys_distinct(self.entries());
        }
        let mut out: Vec<String> = Vec::new();
        let mut i: usize = 0;
        while i < self.entries.len()
            invariant
                i <= self.entries@.len(),
                out@.map_values(|s: String| s@) == keys_of(self.entries()).subrange(0, i as int),
            decreases self.entries@.len() - i,
        {
            let k = self.entries[i].0.clone();
            assert(keys_of(self.entries())[i as int] == k@);
            let ghost prev = out@.map_values(|s: String| s@);
            out.push(k);
            assert(out@.map_values(|s: String| s@) =~= prev.push(k@));
            i = i + 1;
            assert(out@.map_values(|s: String| s@) =~= keys_of(self.entries()).subrange(0, i as int));
        }
        assert(keys_of(self.entries()).subrange(0, i as int) =~= keys_of(self.entries()));
        out
    }


    /// A copy with the same entries in the same order.
    pub fn duplicate(&self) -> (r: Self)
        ensures
            r.entries() == self.entries(),
    {
        proof {
            use_type_invariant(self);
        }
        let pairs = self.to_pairs();
        StringMap { entries: pairs }
    }
}

} // verus!
