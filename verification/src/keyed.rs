//! A map from content hashes to records, with the order of arrival kept.
//!
//! The backend identifies every torrent by its content hash, a short string.
//! A [`KeyedMap`] holds one record per hash. It is backed by a vector, so that
//! a frame's entries can be walked by position, and it keeps its keys pairwise
//! distinct, so that its view is a mathematical map.

use vstd::prelude::*;

verus! {

#[derive(Clone, Debug)]
struct Entry<V> {
    key: String,
    value: V,
}

spec fn entry_keys<V>(s: Seq<Entry<V>>) -> Seq<Seq<char>> {
    Seq::new(s.len(), |i: int| s[i].key@)
}

spec fn entry_map<V: View>(s: Seq<Entry<V>>) -> Map<Seq<char>, V::V>
    decreases s.len(),
{
    if s.len() == 0 {
        Map::empty()
    } else {
        entry_map(s.drop_last()).insert(s.last().key@, s.last().value@)
    }
}

proof fn lemma_entry_map_dom<V: View>(s: Seq<Entry<V>>)
    ensures
        entry_map(s).dom().finite(),
        forall|k: Seq<char>| #[trigger] entry_map(s).contains_key(k) <==> entry_keys(s).contains(k),
    decreases s.len(),
{
    if s.len() > 0 {
        let front = s.drop_last();
        lemma_entry_map_dom(front);
        assert forall|k: Seq<char>| #[trigger]
            entry_map(s).contains_key(k) <==> entry_keys(s).contains(k) by {
            if entry_map(s).contains_key(k) {
                if k == s.last().key@ {
                    assert(entry_keys(s)[s.len() - 1] == k);
                } else {
                    assert(entry_map(front).contains_key(k));
                    let i = choose|i: int| 0 <= i < entry_keys(front).len() && entry_keys(front)[i] == k;
                    assert(entry_keys(s)[i] == k);
                }
            }
            if entry_keys(s).contains(k) {
                let i = choose|i: int| 0 <= i < entry_keys(s).len() && entry_keys(s)[i] == k;
                if i < s.len() - 1 {
                    assert(entry_keys(front)[i] == k);
                }
            }
        }
    }
}

proof fn lemma_entry_map_value<V: View>(s: Seq<Entry<V>>, i: int)
    requires
        entry_keys(s).no_duplicates(),
        0 <= i < s.len(),
    ensures
        entry_map(s).contains_key(s[i].key@),
        entry_map(s)[s[i].key@] == s[i].value@,
    decreases s.len(),
{
    let front = s.drop_last();
    if i < s.len() - 1 {
        assert(entry_keys(s)[i] != entry_keys(s)[s.len() - 1]);
        assert forall|a: int, b: int|
            0 <= a < front.len() && 0 <= b < front.len() && a != b implies entry_keys(front)[a]
            != entry_keys(front)[b] by {
            assert(entry_keys(s)[a] != entry_keys(s)[b]);
        }
        lemma_entry_map_value(front, i);
    }
}

proof fn lemma_entry_map_len<V: View>(s: Seq<Entry<V>>)
    requires
        entry_keys(s).no_duplicates(),
    ensures
        entry_map(s).dom().finite(),
        entry_map(s).dom().len() == s.len(),
    decreases s.len(),
{
    lemma_entry_map_dom(s);
    if s.len() > 0 {
        let front = s.drop_last();
        assert forall|a: int, b: int|
            0 <= a < front.len() && 0 <= b < front.len() && a != b implies entry_keys(front)[a]
            != entry_keys(front)[b] by {
            assert(entry_keys(s)[a] != entry_keys(s)[b]);
        }
        lemma_entry_map_len(front);
        lemma_entry_map_dom(front);
        if entry_keys(front).contains(s.last().key@) {
            let i = choose|i: int| 0 <= i < entry_keys(front).len() && entry_keys(front)[i] == s.last().key@;
            assert(entry_keys(s)[i] == entry_keys(s)[s.len() - 1]);
        }
        assert(!entry_map(front).dom().contains(s.last().key@));
        assert(entry_map(s).dom() =~= entry_map(front).dom().insert(s.last().key@));
    } else {
        assert(entry_map(s).dom() =~= Set::empty());
    }
}

proof fn lemma_entry_map_replace<V: View>(s: Seq<Entry<V>>, i: int, e: Entry<V>)
    requires
        entry_keys(s).no_duplicates(),
        0 <= i < s.len(),
        e.key@ == s[i].key@,
    ensures
        entry_keys(s.update(i, e)) == entry_keys(s),
        entry_map(s.update(i, e)) == entry_map(s).insert(e.key@, e.value@),
{
    let t = s.update(i, e);
    assert(entry_keys(t) =~= entry_keys(s));
    lemma_entry_map_dom(s);
    lemma_entry_map_dom(t);
    let want = entry_map(s).insert(e.key@, e.value@);
    lemma_entry_map_value(s, i);
    assert forall|k: Seq<char>| #[trigger] entry_map(t).contains_key(k) implies entry_map(t)[k]
        == want[k] by {
        let j = choose|j: int| 0 <= j < entry_keys(t).len() && entry_keys(t)[j] == k;
        lemma_entry_map_value(t, j);
        lemma_entry_map_value(s, j);
        if j != i {
            assert(entry_keys(s)[j] != entry_keys(s)[i]);
        }
    }
    assert(entry_map(t) =~= want);
}

proof fn lemma_entry_map_drop_last<V: View>(s: Seq<Entry<V>>)
    requires
        entry_keys(s).no_duplicates(),
        s.len() > 0,
    ensures
        entry_keys(s.drop_last()) == entry_keys(s).drop_last(),
        entry_keys(s.drop_last()).no_duplicates(),
        entry_map(s.drop_last()) == entry_map(s).remove(s.last().key@),
{
    let front = s.drop_last();
    assert(entry_keys(front) =~= entry_keys(s).drop_last());
    assert forall|a: int, b: int|
        0 <= a < front.len() && 0 <= b < front.len() && a != b implies entry_keys(front)[a]
        != entry_keys(front)[b] by {
        assert(entry_keys(s)[a] != entry_keys(s)[b]);
    }
    lemma_entry_map_dom(front);
    if entry_keys(front).contains(s.last().key@) {
        let i = choose|i: int| 0 <= i < entry_keys(front).len() && entry_keys(front)[i] == s.last().key@;
        assert(entry_keys(s)[i] == entry_keys(s)[s.len() - 1]);
    }
    assert(entry_map(front) =~= entry_map(s).remove(s.last().key@));
}

proof fn lemma_entry_map_push<V: View>(s: Seq<Entry<V>>, e: Entry<V>)
    requires
        entry_keys(s).no_duplicates(),
        !entry_map(s).contains_key(e.key@),
    ensures
        entry_keys(s.push(e)) == entry_keys(s).push(e.key@),
        entry_keys(s.push(e)).no_duplicates(),
        entry_map(s.push(e)) == entry_map(s).insert(e.key@, e.value@),
{
    let t = s.push(e);
    assert(t.drop_last() =~= s);
    assert(entry_keys(t) =~= entry_keys(s).push(e.key@));
    lemma_entry_map_dom(s);
    assert forall|a: int, b: int|
        0 <= a < t.len() && 0 <= b < t.len() && a != b implies entry_keys(t)[a] != entry_keys(
        t,
    )[b] by {
        if a < s.len() && b < s.len() {
            assert(entry_keys(s)[a] != entry_keys(s)[b]);
        } else if a < s.len() {
            assert(entry_keys(s).contains(entry_keys(s)[a]));
        } else {
            assert(entry_keys(s).contains(entry_keys(s)[b]));
        }
    }
}

/// A finite map from hash strings to records.
///
/// The view is the map from each key's characters to the view of its record.
/// [`KeyedMap::keys`] gives the keys in the order in which they were first
/// inserted; the positions taken by [`KeyedMap::key_at`] and
/// [`KeyedMap::value_at`] index that sequence.
#[derive(Debug)]
pub struct KeyedMap<V: View> {
    entries: Vec<Entry<V>>,
}

impl<V: View> View for KeyedMap<V> {
    type V = Map<Seq<char>, V::V>;

    closed spec fn view(&self) -> Map<Seq<char>, V::V> {
        entry_map(self.entries@)
    }
}

impl<V: View + Clone> Clone for KeyedMap<V> {
    /// A map with the same keys in the same order, each record cloned.
    fn clone(&self) -> (r: Self)
        ensures
            r.keys() == self.keys(),
    {
        proof {
            use_type_invariant(self);
        }
        let n = self.entries.len();
        let mut entries: Vec<Entry<V>> = Vec::new();
        let mut i: usize = 0;
        while i < n
            invariant
                n == self.entries.len(),
                i <= n,
                entries.len() == i,
                forall|j: int| 0 <= j < i ==> entries@[j].key@ == self.entries@[j].key@,
            decreases n - i,
        {
            let key = self.entries[i].key.clone();
            let value = self.entries[i].value.clone();
            entries.push(Entry { key, value });
            i += 1;
        }
        assert(entry_keys(entries@) =~= entry_keys(self.entries@));
        KeyedMap { entries }
    }
}

impl<V: View> KeyedMap<V> {
    #[verifier::type_invariant]
    spec fn keys_distinct(self) -> bool {
        entry_keys(self.entries@).no_duplicates()
    }

    /// The keys, in order of first insertion.
    pub closed spec fn keys(&self) -> Seq<Seq<char>> {
        entry_keys(self.entries@)
    }

    /// What every map satisfies: its keys are pairwise distinct and are
    /// exactly the domain of its view.
    pub open spec fn keys_match_view(&self) -> bool {
        &&& self.keys().no_duplicates()
        &&& self@.dom().finite()
        &&& self@.dom().len() == self.keys().len()
        &&& forall|k: Seq<char>| #[trigger] self@.contains_key(k) <==> self.keys().contains(k)
    }

    /// The empty map.
    pub fn new() -> (m: Self)
        ensures
            m@ == Map::<Seq<char>, V::V>::empty(),
            m.keys() == Seq::<Seq<char>>::empty(),
            m.keys_match_view(),
    {
        let m = KeyedMap { entries: Vec::new() };
        proof {
            assert(m.keys() =~= Seq::<Seq<char>>::empty());
            lemma_entry_map_len(m.entries@);
            lemma_entry_map_dom(m.entries@);
        }
        m
    }

    /// The number of records, together with the facts that relate the key
    /// sequence to the view.
    pub fn len(&self) -> (n: usize)
        ensures
            n == self.keys().len(),
            n == self@.len(),
            self.keys_match_view(),
    {
        proof {
            use_type_invariant(self);
            lemma_entry_map_len(self.entries@);
            lemma_entry_map_dom(self.entries@);
        }
        self.entries.len()
    }

    /// Whether the map holds no record.
    pub fn is_empty(&self) -> (b: bool)
        ensures
            b == (self@.len() == 0),
            b == (self.keys().len() == 0),
            self.keys_match_view(),
    {
        self.len() == 0
    }

    /// The position of `key`, if the map holds it.
    pub fn index_of(&self, key: &String) -> (r: Option<usize>)
        ensures
            r is Some <==> self@.contains_key(key@),
            r matches Some(i) ==> i < self.keys().len() && self.keys()[i as int] == key@,
            self.keys_match_view(),
    {
        proof {
            use_type_invariant(self);
            lemma_entry_map_dom(self.entries@);
            lemma_entry_map_len(self.entries@);
        }
        let n = self.entries.len();
        let mut i: usize = 0;
        while i < n
            invariant
                n == self.entries.len(),
                i <= n,
                forall|j: int| 0 <= j < i ==> entry_keys(self.entries@)[j] != key@,
            decreases n - i,
        {
            if self.entries[i].key == *key {
                proof {
                    use_type_invariant(self);
                    lemma_entry_map_dom(self.entries@);
                    lemma_entry_map_len(self.entries@);
                    assert(entry_keys(self.entries@)[i as int] == key@);
                }
                return Some(i);
            }
            i += 1;
        }
        None
    }

    /// Whether the map holds `key`.
    pub fn contains_key(&self, key: &String) -> (b: bool)
        ensures
            b == self@.contains_key(key@),
    {
        self.index_of(key).is_some()
    }

    /// The record stored under `key`, if there is one.
    pub fn get(&self, key: &String) -> (r: Option<&V>)
        ensures
            r is Some <==> self@.contains_key(key@),
            r matches Some(v) ==> v@ == self@[key@],
    {
        match self.index_of(key) {
            Some(i) => {
                proof {
                    use_type_invariant(self);
                    lemma_entry_map_value(self.entries@, i as int);
                }
                Some(&self.entries[i].value)
            },
            None => None,
        }
    }

    /// The key at position `i`.
    pub fn key_at(&self, i: usize) -> (k: &String)
        requires
            i < self.keys().len(),
        ensures
            k@ == self.keys()[i as int],
            self@.contains_key(k@),
    {
        proof {
            use_type_invariant(self);
            lemma_entry_map_value(self.entries@, i as int);
        }
        &self.entries[i].key
    }

    /// The record at position `i`.
    pub fn value_at(&self, i: usize) -> (v: &V)
        requires
            i < self.keys().len(),
        ensures
            self@.contains_key(self.keys()[i as int]),
            v@ == self@[self.keys()[i as int]],
    {
        proof {
            use_type_invariant(self);
            lemma_entry_map_value(self.entries@, i as int);
        }
        &self.entries[i].value
    }

    /// Replaces the record at position `i`, keeping its key, and hands back
    /// the record that was there.
    pub fn replace_at(&mut self, i: usize, value: V) -> (previous: V)
        requires
            i < old(self).keys().len(),
        ensures
            final(self).keys() == old(self).keys(),
            final(self)@ == old(self)@.insert(old(self).keys()[i as int], value@),
            old(self)@.contains_key(old(self).keys()[i as int]),
            previous@ == old(self)@[old(self).keys()[i as int]],
            final(self).keys_match_view(),
    {
        proof {
            use_type_invariant(&*self);
        }
        let mut entries: Vec<Entry<V>> = Vec::new();
        std::mem::swap(&mut entries, &mut self.entries);
        let ghost before = entries@;
        let mut slot = value;
        std::mem::swap(&mut entries[i].value, &mut slot);
        proof {
            assert(entries@ =~= before.update(i as int, entries@[i as int]));
            lemma_entry_map_replace(before, i as int, entries@[i as int]);
            lemma_entry_map_value(before, i as int);
            lemma_entry_map_len(entries@);
            lemma_entry_map_dom(entries@);
        }
        self.entries = entries;
        slot
    }

    /// Stores `value` under `key`. A record already stored under `key` is
    /// replaced in place; a new key goes to the end of the key sequence.
    pub fn insert(&mut self, key: String, value: V)
        ensures
            final(self)@ == old(self)@.insert(key@, value@),
            old(self)@.contains_key(key@) ==> final(self).keys() == old(self).keys(),
            !old(self)@.contains_key(key@) ==> final(self).keys() == old(self).keys().push(key@),
            old(self).keys_match_view(),
            final(self).keys_match_view(),
    {
        match self.index_of(&key) {
            Some(i) => {
                let _ = self.replace_at(i, value);
            },
            None => {
                proof {
                    use_type_invariant(&*self);
                }
                let mut entries: Vec<Entry<V>> = Vec::new();
                std::mem::swap(&mut entries, &mut self.entries);
                let entry = Entry { key, value };
                proof {
                    lemma_entry_map_push(entries@, entry);
                    lemma_entry_map_len(entries@.push(entry));
                    lemma_entry_map_dom(entries@.push(entry));
                }
                entries.push(entry);
                self.entries = entries;
            },
        }
    }

    /// Takes the record at the last position out of the map.
    pub fn pop(&mut self) -> (r: Option<(String, V)>)
        ensures
            r is None <==> old(self).keys().len() == 0,
            r is None ==> final(self)@ == old(self)@ && final(self).keys() == old(self).keys(),
            r matches Some((k, v)) ==> {
                &&& k@ == old(self).keys().last()
                &&& old(self)@.contains_key(k@)
                &&& v@ == old(self)@[k@]
                &&& final(self).keys() == old(self).keys().drop_last()
                &&& final(self)@ == old(self)@.remove(k@)
            },
            final(self).keys_match_view(),
    {
        proof {
            use_type_invariant(&*self);
        }
        let mut entries: Vec<Entry<V>> = Vec::new();
        std::mem::swap(&mut entries, &mut self.entries);
        let ghost before = entries@;
        let last = entries.pop();
        proof {
            if before.len() > 0 {
                lemma_entry_map_drop_last(before);
                lemma_entry_map_value(before, before.len() - 1);
                assert(entries@ =~= before.drop_last());
            } else {
                assert(entries@ =~= before);
            }
            lemma_entry_map_len(entries@);
            lemma_entry_map_dom(entries@);
        }
        self.entries = entries;
        match last {
            Some(entry) => Some((entry.key, entry.value)),
            None => None,
        }
    }
}

} // verus!
