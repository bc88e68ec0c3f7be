//! A small string-keyed option table, the `options` of an API configuration.

use vstd::prelude::*;

verus! {

/// One option: a key and its value.
pub struct OptionEntry {
    pub key: String,
    pub value: String,
}

/// The map that a list of entries describes, later entries overriding earlier
/// ones with the same key.
pub open spec fn entries_map(s: Seq<OptionEntry>) -> Map<Seq<char>, Seq<char>>
    decreases s.len(),
{
    if s.len() == 0 {
        Map::empty()
    } else {
        entries_map(s.drop_last()).insert(s.last().key@, s.last().value@)
    }
}

/// No key occurs twice.
pub open spec fn keys_distinct(s: Seq<OptionEntry>) -> bool {
    forall|i: int, j: int| 0 <= i < j < s.len() ==> s[i].key@ != s[j].key@
}

/// A key is in the map exactly when some entry carries it, and then the map
/// holds that entry's value.
proof fn lemma_entries_map(s: Seq<OptionEntry>)
    requires
        keys_distinct(s),
    ensures
        forall|k: Seq<char>| #[trigger] entries_map(s).contains_key(k)
            <==> exists|i: int| 0 <= i < s.len() && s[i].key@ == k,
        forall|i: int| 0 <= i < s.len() ==> #[trigger] entries_map(s)[s[i].key@] == s[i].value@,
    decreases s.len(),
{
    if s.len() > 0 {
        let p = s.drop_last();
        lemma_entries_map(p);
        assert forall|k: Seq<char>| #[trigger] entries_map(s).contains_key(k)
            <==> exists|i: int| 0 <= i < s.len() && s[i].key@ == k by {
            if entries_map(s).contains_key(k) && k != s.last().key@ {
                assert(entries_map(p).contains_key(k));
                let i = choose|i: int| 0 <= i < p.len() && p[i].key@ == k;
                assert(s[i] == p[i]);
                assert(s[i].key@ == k);
            }
            if entries_map(s).contains_key(k) && k == s.last().key@ {
                assert(s[s.len() - 1].key@ == k);
            }
            if exists|i: int| 0 <= i < s.len() && s[i].key@ == k {
                let i = choose|i: int| 0 <= i < s.len() && s[i].key@ == k;
                if i < s.len() - 1 {
                    assert(p[i] == s[i]);
                    assert(p[i].key@ == k);
                    assert(entries_map(p).contains_key(k));
                } else {
                    assert(k == s.last().key@);
                }
            }
        }
        assert forall|i: int| 0 <= i < s.len() implies #[trigger] entries_map(s)[s[i].key@]
            == s[i].value@ by {
            if i < s.len() - 1 {
                assert(p[i] == s[i]);
                assert(s[i].key@ != s[s.len() - 1].key@);
                assert(entries_map(p)[p[i].key@] == p[i].value@);
            }
        }
    }
}

/// Replacing the value of the entry at `i` is an insertion into the map.
proof fn lemma_entries_map_update(s: Seq<OptionEntry>, i: int, e: OptionEntry)
    requires
        keys_distinct(s),
        0 <= i < s.len(),
        e.key@ == s[i].key@,
    ensures
        keys_distinct(s.update(i, e)),
        entries_map(s.update(i, e)) == entries_map(s).insert(e.key@, e.value@),
{
    let t = s.update(i, e);
    assert(keys_distinct(t));
    lemma_entries_map(s);
    lemma_entries_map(t);
    let m = entries_map(s).insert(e.key@, e.value@);
    assert forall|k: Seq<char>| #[trigger] entries_map(t).contains_key(k) <==> m.contains_key(k) by {
        if entries_map(t).contains_key(k) {
            let j = choose|j: int| 0 <= j < t.len() && t[j].key@ == k;
            if j != i {
                assert(s[j].key@ == k);
                assert(entries_map(s).contains_key(k));
            }
            assert(m.contains_key(k));
        }
        if m.contains_key(k) {
            if k != e.key@ {
                assert(entries_map(s).contains_key(k));
                let j = choose|j: int| 0 <= j < s.len() && s[j].key@ == k;
                assert(t[j].key@ == k);
            } else {
                assert(t[i].key@ == k);
            }
            assert(entries_map(t).contains_key(k));
        }
    }
    assert forall|k: Seq<char>| #[trigger] entries_map(t).contains_key(k) implies entries_map(
        t,
    )[k] == m[k] by {
        let j = choose|j: int| 0 <= j < t.len() && t[j].key@ == k;
        if j != i {
            assert(s[j] == t[j]);
        }
    }
    assert(entries_map(t) =~= m);
}

/// A table of options with distinct keys. Its view is the map from key to
/// value.
pub struct Options {
    entries: Vec<OptionEntry>,
}

impl View for Options {
    type V = Map<Seq<char>, Seq<char>>;

    /// The map from key to value.
    closed spec fn view(&self) -> Map<Seq<char>, Seq<char>> {
        entries_map(self.entries@)
    }
}

impl Options {
    #[verifier::type_invariant]
    spec fn inv(self) -> bool {
        keys_distinct(self.entries@)
    }

    /// An empty table.
    pub fn new() -> (o: Options)
        ensures
            o@ == Map::<Seq<char>, Seq<char>>::empty(),
    {
        Options { entries: Vec::new() }
    }

    /// The number of options.
    pub fn len(&self) -> (n: usize)
        ensures
            n == self@.len(),
            self@.dom().finite(),
    {
        proof {
            use_type_invariant(self);
            self.lemma_len();
        }
        self.entries.len()
    }

    proof fn lemma_len(&self)
        requires
            keys_distinct(self.entries@),
        ensures
            self@.dom().finite(),
            self@.len() == self.entries@.len(),
    {
        lemma_map_len(self.entries@);
    }

    /// The value stored under `key`, if any.
    pub fn get(&self, key: &str) -> (v: Option<String>)
        ensures
            match v {
                Some(x) => self@.contains_key(key@) && x@ == self@[key@],
                None => !self@.contains_key(key@),
            },
    {
        proof {
            use_type_invariant(self);
            lemma_entries_map(self.entries@);
        }
        let n: usize = self.entries.len();
        let mut i: usize = 0;
        while i < n
            invariant
                n == self.entries@.len(),
                i <= n,
                forall|j: int| 0 <= j < i ==> self.entries@[j].key@ != key@,
                keys_distinct(self.entries@),
            decreases n - i,
        {
            if crate::text::same_text(self.entries[i].key.as_str(), key) {
                proof {
                    lemma_entries_map(self.entries@);
                }
                assert(entries_map(self.entries@)[self.entries@[i as int].key@]
                    == self.entries@[i as int].value@);
                return Some(self.entries[i].value.clone());
            }
            i = i + 1;
        }
        proof {
            lemma_entries_map(self.entries@);
        }
        None
    }

    /// Stores `value` under `key`, replacing the value that was there.
    pub fn insert(&mut self, key: String, value: String)
        ensures
            final(self)@ == old(self)@.insert(key@, value@),
    {
        proof {
            use_type_invariant(&*self);
        }
        let n: usize = self.entries.len();
        let mut i: usize = 0;
        while i < n
            invariant
                n == self.entries@.len(),
                i <= n,
                forall|j: int| 0 <= j < i ==> self.entries@[j].key@ != key@,
                keys_distinct(self.entries@),
                self.entries@ == old(self).entries@,
            decreases n - i,
        {
            if crate::text::same_text(self.entries[i].key.as_str(), key.as_str()) {
                let mut entries: Vec<OptionEntry> = Vec::new();
                std::mem::swap(&mut entries, &mut self.entries);
                let e = OptionEntry { key, value };
                proof {
                    lemma_entries_map_update(entries@, i as int, e);
                }
                entries.set(i, e);
                self.entries = entries;
                return;
            }
            i = i + 1;
        }
        let mut entries: Vec<OptionEntry> = Vec::new();
        std::mem::swap(&mut entries, &mut self.entries);
        let ghost before = entries@;
        entries.push(OptionEntry { key, value });
        assert(entries@.drop_last() == before);
        assert(keys_distinct(entries@));
        self.entries = entries;
    }

    /// Every key, each once.
    pub fn keys(&self) -> (ks: Vec<String>)
        ensures
            ks@.len() == self@.len(),
            forall|i: int| 0 <= i < ks@.len() ==> #[trigger] self@.contains_key(ks@[i]@),
            forall|k: Seq<char>|
                #[trigger] self@.contains_key(k) ==> exists|i: int| 0 <= i < ks@.len() && ks@[i]@ == k,
            forall|i: int, j: int| 0 <= i < j < ks@.len() ==> ks@[i]@ != ks@[j]@,
    {
        proof {
            use_type_invariant(self);
            self.lemma_len();
            lemma_entries_map(self.entries@);
        }
        let n: usize = self.entries.len();
        let mut ks: Vec<String> = Vec::new();
        let mut i: usize = 0;
        while i < n
            invariant
                n == self.entries@.len(),
                i <= n,
                ks@.len() == i,
                forall|j: int| 0 <= j < i ==> #[trigger] ks@[j]@ == self.entries@[j].key@,
            decreases n - i,
        {
            ks.push(self.entries[i].key.clone());
            i = i + 1;
        }
        proof {
            assert forall|i: int| 0 <= i < ks@.len() implies #[trigger] self@.contains_key(ks@[i]@) by {
                assert(ks@[i]@ == self.entries@[i].key@);
            }
            assert forall|k: Seq<char>| #[trigger] self@.contains_key(k) implies exists|i: int|
                0 <= i < ks@.len() && ks@[i]@ == k by {
                let i = choose|i: int| 0 <= i < self.entries@.len() && self.entries@[i].key@ == k;
                assert(ks@[i]@ == k);
            }
            assert forall|i: int, j: int| 0 <= i < j < ks@.len() implies ks@[i]@ != ks@[j]@ by {
                assert(ks@[i]@ == self.entries@[i].key@);
                assert(ks@[j]@ == self.entries@[j].key@);
            }
        }
        ks
    }
}

proof fn lemma_map_len(s: Seq<OptionEntry>)
    requires
        keys_distinct(s),
    ensures
        entries_map(s).dom().finite(),
        entries_map(s).len() == s.len(),
    decreases s.len(),
{
    if s.len() > 0 {
        let p = s.drop_last();
        lemma_map_len(p);
        lemma_entries_map(p);
        assert(!entries_map(p).contains_key(s.last().key@)) by {
            if entries_map(p).contains_key(s.last().key@) {
                let i = choose|i: int| 0 <= i < p.len() && p[i].key@ == s.last().key@;
                assert(s[i].key@ == s[s.len() - 1].key@);
            }
        }
    }
}

} // verus!
