//! The buttons of one screen, keyed by position.

use vstd::prelude::*;

use crate::buttons::{ButtonView, RawDeckButton};
use crate::keyed::{
    entry_insert, entry_remove, has_key, index_of_key, insert_all, keys_unique,
    lemma_index_of_key, lemma_insert_all_map, lemma_map_of_dom, lemma_map_of_push,
    lemma_map_of_remove, lemma_map_of_update, lemma_map_of_value, map_of,
};

verus! {

/// The buttons of one screen, each at its `(y, x)` position; no position
/// holds two buttons.
#[derive(Debug)]
pub struct ButtonScreen {
    entries: Vec<((u32, u32), RawDeckButton)>,
}

/// The views of positioned buttons.
pub open spec fn entry_views(e: Seq<((u32, u32), RawDeckButton)>) -> Seq<((u32, u32), ButtonView)> {
    e.map_values(|p: ((u32, u32), RawDeckButton)| (p.0, p.1@))
}

impl ButtonScreen {
    #[verifier::type_invariant]
    closed spec fn inv(self) -> bool {
        keys_unique(self.entries())
    }

    /// The positions and buttons of the screen, in order.
    pub closed spec fn entries(self) -> Seq<((u32, u32), ButtonView)> {
        entry_views(self.entries@)
    }

    /// The buttons of the screen by position.
    pub open spec fn buttons(self) -> Map<(u32, u32), ButtonView> {
        map_of(self.entries())
    }

    /// A screen without buttons.
    pub fn new() -> (r: Self)
        ensures
            r.entries() == Seq::<((u32, u32), ButtonView)>::empty(),
    {
        let v: Vec<((u32, u32), RawDeckButton)> = Vec::new();
        assert(entry_views(v@) =~= Seq::<((u32, u32), ButtonView)>::empty());
        ButtonScreen { entries: v }
    }

    /// The number of buttons.
    pub fn len(&self) -> (r: usize)
        ensures
            r == self.entries().len(),
    {
        self.entries.len()
    }

    /// The position and button of the `i`-th entry.
    pub fn entry_at(&self, i: usize) -> (r: &((u32, u32), RawDeckButton))
        requires
            i < self.entries().len(),
        ensures
            r.0 == self.entries()[i as int].0,
            r.1@ == self.entries()[i as int].1,
    {
        &self.entries[i]
    }

    fn find(&self, pos: (u32, u32)) -> (r: Option<usize>)
        ensures
            match r {
                Some(i) => i < self.entries().len() && self.entries()[i as int].0 == pos && i
                    == index_of_key(self.entries(), pos),
                None => !has_key(self.entries(), pos),
            },
    {
        proof {
            use_type_invariant(self);
        }
        let mut i: usize = 0;
        while i < self.entries.len()
            invariant
                i <= self.entries@.len(),
                keys_unique(self.entries()),
                forall|j: int| 0 <= j < i ==> self.entries()[j].0 != pos,
            decreases self.entries@.len() - i,
        {
            if self.entries[i].0.0 == pos.0 && self.entries[i].0.1 == pos.1 {
                proof {
                    lemma_index_of_key(self.entries(), pos, i as int);
                }
                return Some(i);
            }
            i = i + 1;
        }
        None
    }

    /// Whether a button is at `pos`.
    pub fn contains(&self, pos: (u32, u32)) -> (r: bool)
        ensures
            r == self.buttons().contains_key(pos),
            r == has_key(self.entries(), pos),
    {
        proof {
            lemma_map_of_dom(self.entries(), pos);
        }
        self.find(pos).is_some()
    }

    /// The button at `pos`, if any.
    pub fn get(&self, pos: (u32, u32)) -> (r: Option<&RawDeckButton>)
        ensures
            r is Some == self.buttons().contains_key(pos),
            r matches Some(b) ==> b@ == self.buttons()[pos],
    {
        proof {
            use_type_invariant(self);
            lemma_map_of_dom(self.entries(), pos);
        }
        match self.find(pos) {
            Some(i) => {
                proof {
                    lemma_map_of_value(self.entries(), i as int);
                }
                Some(&self.entries[i].1)
            },
            None => None,
        }
    }

    /// Sets the button at `pos`, giving back the button it replaces.
    pub fn insert(&mut self, pos: (u32, u32), b: RawDeckButton) -> (r: Option<RawDeckButton>)
        ensures
            final(self).entries() == entry_insert(old(self).entries(), pos, b@),
            final(self).buttons() == old(self).buttons().insert(pos, b@),
            r is Some == old(self).buttons().contains_key(pos),
            r matches Some(o) ==> o@ == old(self).buttons()[pos],
    {
        proof {
            use_type_invariant(&*self);
            lemma_map_of_dom(self.entries(), pos);
        }
        match self.find(pos) {
            Some(i) => {
                let ghost e = self.entries();
                proof {
                    lemma_map_of_value(e, i as int);
                    lemma_map_of_update(e, i as int, b@);
                }
                let mut entries: Vec<((u32, u32), RawDeckButton)> = Vec::new();
                std::mem::swap(&mut entries, &mut self.entries);
                let old_entry = entries.remove(i);
                entries.insert(i, (pos, b));
                assert(entry_views(entries@) =~= e.update(i as int, (pos, b@)));
                self.entries = entries;
                Some(old_entry.1)
            },
            None => {
                let ghost e = self.entries();
                proof {
                    lemma_map_of_push(e, pos, b@);
                }
                let mut entries: Vec<((u32, u32), RawDeckButton)> = Vec::new();
                std::mem::swap(&mut entries, &mut self.entries);
                entries.push((pos, b));
                assert(entry_views(entries@) =~= e.push((pos, b@)));
                self.entries = entries;
                None
            },
        }
    }

    /// Takes out the button at `pos`, if any.
    pub fn remove(&mut self, pos: (u32, u32)) -> (r: Option<RawDeckButton>)
        ensures
            final(self).entries() == entry_remove(old(self).entries(), pos),
            final(self).buttons() == old(self).buttons().remove(pos),
            r is Some == old(self).buttons().contains_key(pos),
            r matches Some(o) ==> o@ == old(self).buttons()[pos],
    {
        proof {
            use_type_invariant(&*self);
            lemma_map_of_dom(self.entries(), pos);
        }
        match self.find(pos) {
            Some(i) => {
                let ghost e = self.entries();
                proof {
                    lemma_map_of_value(e, i as int);
                    lemma_map_of_remove(e, i as int);
                }
                let mut entries: Vec<((u32, u32), RawDeckButton)> = Vec::new();
                std::mem::swap(&mut entries, &mut self.entries);
                let old_entry = entries.remove(i);
                assert(entry_views(entries@) =~= e.remove(i as int));
                self.entries = entries;
                Some(old_entry.1)
            },
            None => {
                proof {
                    assert(self.buttons().remove(pos) =~= self.buttons());
                }
                None
            },
        }
    }

    /// A copy of the screen with the same buttons in the same order.
    pub fn duplicate(&self) -> (r: Self)
        ensures
            r.entries() == self.entries(),
            keys_unique(r.entries()),
    {
        proof {
            use_type_invariant(self);
        }
        let mut out: Vec<((u32, u32), RawDeckButton)> = Vec::new();
        let mut i: usize = 0;
        while i < self.entries.len()
            invariant
                i <= self.entries@.len(),
                keys_unique(self.entries()),
                entry_views(out@) == self.entries().subrange(0, i as int),
            decreases self.entries@.len() - i,
        {
            let pos = self.entries[i].0;
            let b = self.entries[i].1.duplicate();
            assert(self.entries()[i as int] == (pos, b@));
            let ghost prev = entry_views(out@);
            out.push((pos, b));
            assert(entry_views(out@) =~= prev.push((pos, b@)));
            i = i + 1;
            assert(entry_views(out@) =~= self.entries().subrange(0, i as int));
        }
        assert(self.entries().subrange(0, i as int) =~= self.entries());
        ButtonScreen { entries: out }
    }
}

impl ButtonScreen {
    /// The screen that setting the positioned buttons one after the other
    /// gives: a later button for a position replaces an earlier one.
    pub fn from_entries(v: &Vec<((u32, u32), RawDeckButton)>) -> (r: Self)
        ensures
            r.entries() == insert_all(Seq::empty(), entry_views(v@)),
            r.buttons() == map_of(entry_views(v@)),
    {
        let mut out = ButtonScreen::new();
        let mut i: usize = 0;
        while i < v.len()
            invariant
                i <= v@.len(),
                out.entries() == insert_all(Seq::empty(), entry_views(v@).subrange(0, i as int)),
            decreases v@.len() - i,
        {
            let pos = v[i].0;
            let b = v[i].1.duplicate();
            out.insert(pos, b);
            proof {
                let s = entry_views(v@).subrange(0, i as int + 1);
                assert(s.drop_last() =~= entry_views(v@).subrange(0, i as int));
                assert(s.last() == (pos, b@));
            }
            i = i + 1;
        }
        assert(entry_views(v@).subrange(0, i as int) =~= entry_views(v@));
        proof {
            lemma_insert_all_map(entry_views(v@));
        }
        out
    }

    /// The positioned buttons, in order.
    pub fn to_entries(&self) -> (r: Vec<((u32, u32), RawDeckButton)>)
        ensures
            entry_views(r@) == self.entries(),
    {
        let d = self.duplicate();
        d.entries
    }
}

impl Clone for ButtonScreen {
    fn clone(&self) -> (r: Self)
        ensures
            r.entries() == self.entries(),
    {
        self.duplicate()
    }
}

} // verus!
