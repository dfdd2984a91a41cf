//! A small map keyed by names, kept as a vector of entries with distinct names.
//!
//! Registries, batch buffers and queue trackers all look things up by a
//! worker or queue name; this map gives them one verified store whose
//! abstract view is a `Map<Seq<char>, V>`.

use vstd::prelude::*;

verus! {

/// One named entry of a [`NamedMap`].
pub struct NamedEntry<V> {
    pub name: String,
    pub value: V,
}

/// A map from names to values that keeps its entries in insertion order.
pub struct NamedMap<V> {
    entries: Vec<NamedEntry<V>>,
    contents: Ghost<Map<Seq<char>, V>>,
}

impl<V> View for NamedMap<V> {
    type V = Map<Seq<char>, V>;

    closed spec fn view(&self) -> Map<Seq<char>, V> {
        self.contents@
    }
}

impl<V> NamedMap<V> {
    /// The names of the entries, in insertion order.
    pub closed spec fn name_seq(&self) -> Seq<Seq<char>> {
        self.entries@.map_values(|e: NamedEntry<V>| e.name@)
    }

    /// The entries as (name, value) pairs, in insertion order.
    pub closed spec fn entry_seq(&self) -> Seq<(Seq<char>, V)> {
        self.entries@.map_values(|e: NamedEntry<V>| (e.name@, e.value))
    }

    /// The map's internal invariant: names are distinct, and the entries
    /// hold exactly the map's contents.
    pub closed spec fn wf(&self) -> bool {
        &&& forall|i: int, j: int|
            0 <= i < j < self.entries@.len() ==> #[trigger] self.entries@[i].name@
                != #[trigger] self.entries@[j].name@
        &&& forall|i: int|
            0 <= i < self.entries@.len() ==> {
                &&& self.contents@.contains_key(#[trigger] self.entries@[i].name@)
                &&& self.contents@[self.entries@[i].name@] == self.entries@[i].value
            }
        &&& forall|k: Seq<char>|
            #[trigger] self.contents@.contains_key(k) ==> exists|i: int|
                0 <= i < self.entries@.len() && #[trigger] self.entries@[i].name@ == k
        &&& self.contents@.dom().finite()
        &&& self.contents@.len() == self.entries@.len()
    }

    pub proof fn lemma_views_agree(&self)
        requires
            self.wf(),
        ensures
            self.entry_seq().len() == self@.len(),
            self.name_seq().len() == self@.len(),
            forall|i: int|
                0 <= i < self.entry_seq().len() ==> #[trigger] self.entry_seq()[i].0
                    == self.name_seq()[i] && self@.contains_key(self.name_seq()[i])
                    && self@[self.name_seq()[i]] == self.entry_seq()[i].1,
            forall|k: Seq<char>|
                #[trigger] self@.contains_key(k) <==> self.name_seq().contains(k),
            self.name_seq().no_duplicates(),
    {
        assert forall|k: Seq<char>| #[trigger] self@.contains_key(k) implies self.name_seq().contains(
            k,
        ) by {
            let i = choose|i: int| 0 <= i < self.entries@.len() && #[trigger] self.entries@[i].name@ == k;
            assert(self.name_seq()[i] == k);
        }
        assert forall|k: Seq<char>| self.name_seq().contains(k) implies #[trigger] self@.contains_key(
            k,
        ) by {
            let i = choose|i: int| 0 <= i < self.name_seq().len() && self.name_seq()[i] == k;
            assert(self.entries@[i].name@ == k);
        }
        assert forall|i: int, j: int|
            0 <= i < self.name_seq().len() && 0 <= j < self.name_seq().len() && i != j implies self.name_seq()[i]
            != self.name_seq()[j] by {
            if i < j {
                assert(self.entries@[i].name@ != self.entries@[j].name@);
            } else {
                assert(self.entries@[j].name@ != self.entries@[i].name@);
            }
        }
    }

    /// An empty map.
    pub fn new() -> (m: Self)
        ensures
            m.wf(),
            m@ == Map::<Seq<char>, V>::empty(),
    {
        NamedMap { entries: Vec::new(), contents: Ghost(Map::empty()) }
    }

    /// The number of entries.
    pub fn len(&self) -> (n: usize)
        requires
            self.wf(),
        ensures
            n == self@.len(),
    {
        self.entries.len()
    }

    /// The position of `name` among the entries, if it is present.
    fn position(&self, name: &str) -> (r: Option<usize>)
        requires
            self.wf(),
        ensures
            match r {
                Some(i) => i < self.entries@.len() && self.entries@[i as int].name@ == name@
                    && self@.contains_key(name@),
                None => !self@.contains_key(name@),
            },
    {
        let mut i: usize = 0;
        while i < self.entries.len()
            invariant
                self.wf(),
                i <= self.entries@.len(),
                forall|j: int| 0 <= j < i ==> self.entries@[j].name@ != name@,
            decreases self.entries@.len() - i,
        {
            if str_equal(self.entries[i].name.as_str(), name) {
                return Some(i);
            }
            i = i + 1;
        }
        None
    }

    /// Whether `name` is present.
    pub fn contains_key(&self, name: &str) -> (r: bool)
        requires
            self.wf(),
        ensures
            r == self@.contains_key(name@),
    {
        self.position(name).is_some()
    }

    /// The value stored under `name`, if any.
    pub fn get(&self, name: &str) -> (r: Option<&V>)
        requires
            self.wf(),
        ensures
            match r {
                Some(v) => self@.contains_key(name@) && *v == self@[name@],
                None => !self@.contains_key(name@),
            },
    {
        match self.position(name) {
            Some(i) => Some(&self.entries[i].value),
            None => None,
        }
    }

    /// Stores `value` under `name`, replacing any value stored there before.
    /// A new name is placed after all the others.
    pub fn insert(&mut self, name: String, value: V)
        requires
            old(self).wf(),
        ensures
            final(self).wf(),
            final(self)@ == old(self)@.insert(name@, value),
            old(self)@.contains_key(name@) ==> final(self).name_seq() == old(self).name_seq(),
            !old(self)@.contains_key(name@) ==> final(self).name_seq() == old(self).name_seq().push(
                name@,
            ),
    {
        let ghost k = name@;
        let ghost old_entries = self.entries@;
        match self.position(name.as_str()) {
            Some(i) => {
                let ghost new_contents = self.contents@.insert(k, value);
                self.entries.set(i, NamedEntry { name, value });
                self.contents = Ghost(new_contents);
                assert forall|j: int| 0 <= j < self.entries@.len() implies {
                    &&& self.contents@.contains_key(#[trigger] self.entries@[j].name@)
                    &&& self.contents@[self.entries@[j].name@] == self.entries@[j].value
                } by {
                    if j != i {
                        assert(old_entries[j].name@ != k) by {
                            if j < i {
                                assert(old_entries[j].name@ != old_entries[i as int].name@);
                            } else {
                                assert(old_entries[i as int].name@ != old_entries[j].name@);
                            }
                        }
                    }
                }
                assert forall|kk: Seq<char>| #[trigger]
                    self.contents@.contains_key(kk) implies exists|j: int|
                    0 <= j < self.entries@.len() && #[trigger] self.entries@[j].name@ == kk by {
                    if kk == k {
                        assert(self.entries@[i as int].name@ == kk);
                    } else {
                        let j = choose|j: int|
                            0 <= j < old_entries.len() && #[trigger] old_entries[j].name@ == kk;
                        assert(self.entries@[j].name@ == kk);
                    }
                }
                assert(self.contents@.dom() =~= old(self).contents@.dom());
                assert(self.name_seq() =~= old(self).name_seq()) by {
                    assert forall|j: int| 0 <= j < self.name_seq().len() implies self.name_seq()[j]
                        == old(self).name_seq()[j] by {
                        if j == i {
                        } else {
                        }
                    }
                }
            },
            None => {
                let ghost new_contents = self.contents@.insert(k, value);
                self.entries.push(NamedEntry { name, value });
                self.contents = Ghost(new_contents);
                assert forall|kk: Seq<char>| #[trigger]
                    self.contents@.contains_key(kk) implies exists|j: int|
                    0 <= j < self.entries@.len() && #[trigger] self.entries@[j].name@ == kk by {
                    if kk == k {
                        assert(self.entries@[old_entries.len() as int].name@ == kk);
                    } else {
                        let j = choose|j: int|
                            0 <= j < old_entries.len() && #[trigger] old_entries[j].name@ == kk;
                        assert(self.entries@[j].name@ == kk);
                    }
                }
                assert forall|a: int, b: int|
                    0 <= a < b < self.entries@.len() implies #[trigger] self.entries@[a].name@
                    != #[trigger] self.entries@[b].name@ by {
                    if b == old_entries.len() {
                        assert(old(self).contents@.contains_key(old_entries[a].name@));
                    }
                }
                assert(self.name_seq() =~= old(self).name_seq().push(k));
            },
        }
    }

    /// Removes `name`, returning the value stored under it, if any.
    /// The remaining entries keep their order.
    pub fn remove(&mut self, name: &str) -> (r: Option<V>)
        requires
            old(self).wf(),
        ensures
            final(self).wf(),
            final(self)@ == old(self)@.remove(name@),
            match r {
                Some(v) => old(self)@.contains_key(name@) && v == old(self)@[name@],
                None => !old(self)@.contains_key(name@),
            },
    {
        match self.position(name) {
            Some(i) => {
                let ghost k = name@;
                let ghost old_entries = self.entries@;
                let ghost new_contents = self.contents@.remove(k);
                let e = self.entries.remove(i);
                self.contents = Ghost(new_contents);
                assert forall|j: int| 0 <= j < self.entries@.len() implies {
                    &&& self.contents@.contains_key(#[trigger] self.entries@[j].name@)
                    &&& self.contents@[self.entries@[j].name@] == self.entries@[j].value
                } by {
                    let oj = if j < i { j } else { j + 1 };
                    assert(self.entries@[j] == old_entries[oj]);
                    if oj < i {
                        assert(old_entries[oj].name@ != old_entries[i as int].name@);
                    } else {
                        assert(old_entries[i as int].name@ != old_entries[oj].name@);
                    }
                }
                assert forall|kk: Seq<char>| #[trigger]
                    self.contents@.contains_key(kk) implies exists|j: int|
                    0 <= j < self.entries@.len() && #[trigger] self.entries@[j].name@ == kk by {
                    let oj = choose|j: int|
                        0 <= j < old_entries.len() && #[trigger] old_entries[j].name@ == kk;
                    if oj < i {
                        assert(self.entries@[oj].name@ == kk);
                    } else {
                        assert(oj != i);
                        assert(self.entries@[oj - 1].name@ == kk);
                    }
                }
                assert forall|a: int, b: int|
                    0 <= a < b < self.entries@.len() implies #[trigger] self.entries@[a].name@
                    != #[trigger] self.entries@[b].name@ by {
                    let oa = if a < i { a } else { a + 1 };
                    let ob = if b < i { b } else { b + 1 };
                    assert(old_entries[oa].name@ != old_entries[ob].name@);
                }
                Some(e.value)
            },
            None => {
                assert(self.contents@.remove(name@) =~= self.contents@);
                None
            },
        }
    }

    /// The name of the entry at position `i`, in insertion order.
    pub fn name_at(&self, i: usize) -> (r: &String)
        requires
            self.wf(),
            i < self@.len(),
        ensures
            r@ == self.name_seq()[i as int],
    {
        &self.entries[i].name
    }

    /// The value of the entry at position `i`, in insertion order.
    pub fn value_at(&self, i: usize) -> (r: &V)
        requires
            self.wf(),
            i < self@.len(),
        ensures
            *r == self.entry_seq()[i as int].1,
    {
        &self.entries[i].value
    }

    /// The names, in insertion order.
    pub fn names(&self) -> (r: Vec<String>)
        requires
            self.wf(),
        ensures
            string_views(r@) == self.name_seq(),
    {
        let mut r: Vec<String> = Vec::new();
        let mut i: usize = 0;
        while i < self.entries.len()
            invariant
                i <= self.entries@.len(),
                string_views(r@) == self.name_seq().take(i as int),
            decreases self.entries@.len() - i,
        {
            let ghost before = r@;
            assert(self.name_seq().len() == self.entries@.len());
            assert(string_views(before).len() == before.len());
            assert(before.len() == i);
            r.push(self.entries[i].name.clone());
            assert forall|j: int| 0 <= j <= i implies #[trigger] string_views(r@)[j]
                == self.name_seq().take(i + 1)[j] by {
                if j < i {
                    assert(r@[j] == before[j]);
                    assert(string_views(before)[j] == self.name_seq().take(i as int)[j]);
                }
            }
            assert(string_views(r@) =~= self.name_seq().take(i + 1));
            i = i + 1;
        }
        assert(self.name_seq().take(i as int) =~= self.name_seq());
        r
    }
}

/// The characters of each string of a sequence.
pub open spec fn string_views(v: Seq<String>) -> Seq<Seq<char>> {
    v.map_values(|s: String| s@)
}

/// Equality of two strings by their characters.
pub fn str_equal(a: &str, b: &str) -> (r: bool)
    ensures
        r == (a@ == b@),
{
    let sa = String::from_str(a);
    let sb = String::from_str(b);
    sa == sb
}

} // verus!
