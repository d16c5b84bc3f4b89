//! A table from string keys to values, where a key names at most one entry.
//!
//! It holds the peer's session routes (session id to handler) and the
//! transport's pending requests (request id to the waiting sender).

use vstd::prelude::*;

verus! {

broadcast use vstd::seq_lib::group_seq_properties, vstd::seq::group_seq_axioms,
    vstd::map::group_map_axioms, vstd::set::group_set_axioms;

/// The map that a list of entries denotes; a later entry for a key wins.
pub open spec fn entries_map<V>(entries: Seq<(Seq<char>, V)>) -> Map<Seq<char>, V>
    decreases entries.len(),
{
    if entries.len() == 0 {
        Map::empty()
    } else {
        entries_map(entries.drop_last()).insert(entries.last().0, entries.last().1)
    }
}

/// No key occurs twice.
pub open spec fn keys_unique<V>(entries: Seq<(Seq<char>, V)>) -> bool {
    forall|i: int, j: int|
        0 <= i < entries.len() && 0 <= j < entries.len() && i != j ==> entries[i].0 != entries[j].0
}

/// With unique keys, the map holds exactly the entries.
pub proof fn lemma_entries_map<V>(entries: Seq<(Seq<char>, V)>)
    requires
        keys_unique(entries),
    ensures
        forall|k: Seq<char>|
            #[trigger] entries_map(entries).contains_key(k) <==> exists|i: int|
                0 <= i < entries.len() && entries[i].0 == k,
        forall|i: int|
            0 <= i < entries.len() ==> #[trigger] entries_map(entries)[entries[i].0] == entries[i].1,
    decreases entries.len(),
{
    if entries.len() > 0 {
        let rest = entries.drop_last();
        assert(keys_unique(rest)) by {
            assert forall|a: int, b: int|
                0 <= a < rest.len() && 0 <= b < rest.len() && a != b implies rest[a].0 != rest[b].0 by {
                assert(rest[a] == entries[a] && rest[b] == entries[b]);
            }
        }
        lemma_entries_map(rest);
        assert(entries_map(entries) == entries_map(rest).insert(entries.last().0, entries.last().1));
        assert forall|k: Seq<char>| #[trigger]
            entries_map(entries).contains_key(k) <==> exists|i: int|
                0 <= i < entries.len() && entries[i].0 == k by {
            if entries_map(entries).contains_key(k) && k != entries.last().0 {
                let i = choose|i: int| 0 <= i < rest.len() && rest[i].0 == k;
                assert(entries[i].0 == k);
            }
            if exists|i: int| 0 <= i < entries.len() && entries[i].0 == k {
                let i = choose|i: int| 0 <= i < entries.len() && entries[i].0 == k;
                if i < entries.len() - 1 {
                    assert(rest[i].0 == k);
                }
            }
        }
        assert forall|i: int| 0 <= i < entries.len() implies #[trigger] entries_map(entries)[entries[i].0]
            == entries[i].1 by {
            if i < entries.len() - 1 {
                assert(rest[i] == entries[i]);
                assert(entries[i].0 != entries.last().0);
            }
        }
    }
}

/// Removing the entry at `i` removes its key from the map.
pub proof fn lemma_entries_map_remove<V>(entries: Seq<(Seq<char>, V)>, i: int)
    requires
        keys_unique(entries),
        0 <= i < entries.len(),
    ensures
        keys_unique(entries.remove(i)),
        entries_map(entries.remove(i)) == entries_map(entries).remove(entries[i].0),
{
    let rest = entries.remove(i);
    assert forall|a: int, b: int|
        0 <= a < rest.len() && 0 <= b < rest.len() && a != b implies rest[a].0 != rest[b].0 by {
        let a2 = if a < i { a } else { a + 1 };
        let b2 = if b < i { b } else { b + 1 };
        assert(rest[a] == entries[a2]);
        assert(rest[b] == entries[b2]);
    }
    lemma_entries_map(entries);
    lemma_entries_map(rest);
    let key = entries[i].0;
    assert forall|k: Seq<char>| #[trigger]
        entries_map(rest).contains_key(k) <==> entries_map(entries).remove(key).contains_key(k) by {
        if entries_map(rest).contains_key(k) {
            let a = choose|a: int| 0 <= a < rest.len() && rest[a].0 == k;
            let a2 = if a < i { a } else { a + 1 };
            assert(rest[a] == entries[a2]);
        }
        if entries_map(entries).remove(key).contains_key(k) {
            let a = choose|a: int| 0 <= a < entries.len() && entries[a].0 == k;
            assert(a != i);
            let a1 = if a < i { a } else { a - 1 };
            assert(rest[a1] == entries[a]);
        }
    }
    assert forall|k: Seq<char>| #[trigger] entries_map(rest).contains_key(k) implies entries_map(rest)[k]
        == entries_map(entries).remove(key)[k] by {
        let a = choose|a: int| 0 <= a < rest.len() && rest[a].0 == k;
        let a2 = if a < i { a } else { a + 1 };
        assert(rest[a] == entries[a2]);
        assert(entries_map(rest)[rest[a].0] == rest[a].1);
        assert(entries_map(entries)[entries[a2].0] == entries[a2].1);
    }
    assert(entries_map(rest) =~= entries_map(entries).remove(key));
}

/// A table from string keys to values; a key names at most one entry.
pub struct KeyedTable<V> {
    entries: Vec<(String, V)>,
}

impl<V> KeyedTable<V> {
    /// The entries, keys taken by their text.
    pub closed spec fn entry_models(&self) -> Seq<(Seq<char>, V)> {
        self.entries@.map_values(|e: (String, V)| (e.0@, e.1))
    }

    #[verifier::type_invariant]
    closed spec fn wf(&self) -> bool {
        keys_unique(self.entry_models())
    }

    /// The map from key text to value that the table holds.
    pub closed spec fn view(&self) -> Map<Seq<char>, V> {
        entries_map(self.entry_models())
    }

    /// An empty table.
    pub fn new() -> (t: Self)
        ensures
            t@ == Map::<Seq<char>, V>::empty(),
    {
        let t = KeyedTable { entries: Vec::new() };
        assert(t.entry_models() =~= Seq::<(Seq<char>, V)>::empty());
        t
    }

    /// The position of the entry for `key`, if there is one.
    fn position(&self, key: &String) -> (r: Option<usize>)
        ensures
            match r {
                Some(i) => i < self.entries@.len() && self.entry_models()[i as int].0 == key@,
                None => !self@.contains_key(key@),
            },
    {
        proof {
            use_type_invariant(self);
            lemma_entries_map(self.entry_models());
        }
        let mut i: usize = 0;
        while i < self.entries.len()
            invariant
                i <= self.entries@.len(),
                forall|j: int| 0 <= j < i ==> self.entry_models()[j].0 != key@,
            decreases self.entries@.len() - i,
        {
            if self.entries[i].0 == *key {
                return Some(i);
            }
            i = i + 1;
        }
        None
    }

    /// The value stored under `key`.
    pub fn get(&self, key: &String) -> (r: Option<&V>)
        ensures
            match r {
                Some(v) => self@.contains_key(key@) && self@[key@] == *v,
                None => !self@.contains_key(key@),
            },
    {
        proof {
            use_type_invariant(self);
            lemma_entries_map(self.entry_models());
        }
        match self.position(key) {
            Some(i) => {
                assert(self.entry_models()[i as int].1 == self.entries@[i as int].1);
                Some(&self.entries[i].1)
            },
            None => None,
        }
    }

    /// Stores `value` under `key`, replacing what was stored there.
    pub fn insert(&mut self, key: String, value: V)
        ensures
            final(self)@ == old(self)@.insert(key@, value),
    {
        proof {
            use_type_invariant(&*self);
        }
        let ghost before = self.entry_models();
        let found = self.position(&key);
        let mut entries: Vec<(String, V)> = Vec::new();
        std::mem::swap(&mut entries, &mut self.entries);
        let ghost after_remove: Seq<(Seq<char>, V)>;
        proof {
            lemma_entries_map(before);
        }
        match found {
            Some(i) => {
                let _old = entries.remove(i);
                proof {
                    lemma_entries_map_remove(before, i as int);
                    assert(entries@.map_values(|e: (String, V)| (e.0@, e.1)) =~= before.remove(
                        i as int,
                    ));
                    after_remove = before.remove(i as int);
                }
            },
            None => {
                proof {
                    after_remove = before;
                    assert(entries_map(before).remove(key@) =~= entries_map(before));
                }
            },
        }
        proof {
            lemma_entries_map(after_remove);
            assert(!entries_map(after_remove).contains_key(key@));
        }
        entries.push((key, value));
        proof {
            let now = entries@.map_values(|e: (String, V)| (e.0@, e.1));
            assert(now =~= after_remove.push((key@, value)));
            assert(now.drop_last() =~= after_remove);
            assert(keys_unique(now)) by {
                assert forall|a: int, b: int|
                    0 <= a < now.len() && 0 <= b < now.len() && a != b implies now[a].0
                    != now[b].0 by {
                    if a < after_remove.len() && b == after_remove.len() {
                        assert(entries_map(after_remove).contains_key(after_remove[a].0));
                    }
                    if b < after_remove.len() && a == after_remove.len() {
                        assert(entries_map(after_remove).contains_key(after_remove[b].0));
                    }
                    if a < after_remove.len() && b < after_remove.len() {
                        assert(now[a] == after_remove[a] && now[b] == after_remove[b]);
                    }
                }
            }
            assert(entries_map(now) =~= entries_map(before).insert(key@, value));
        }
        self.entries = entries;
    }

    /// Removes and returns the value stored under `key`.
    pub fn take(&mut self, key: &String) -> (r: Option<V>)
        ensures
            match r {
                Some(v) => old(self)@.contains_key(key@) && old(self)@[key@] == v,
                None => !old(self)@.contains_key(key@),
            },
            final(self)@ == old(self)@.remove(key@),
    {
        proof {
            use_type_invariant(&*self);
        }
        let ghost before = self.entry_models();
        proof {
            lemma_entries_map(before);
        }
        match self.position(key) {
            Some(i) => {
                let mut entries: Vec<(String, V)> = Vec::new();
                std::mem::swap(&mut entries, &mut self.entries);
                assert(entries@.map_values(|e: (String, V)| (e.0@, e.1)) == before);
                let ghost taken = before[i as int];
                let (_k, v) = entries.remove(i);
                proof {
                    assert(v == taken.1);
                    lemma_entries_map_remove(before, i as int);
                    assert(entries@.map_values(|e: (String, V)| (e.0@, e.1)) =~= before.remove(
                        i as int,
                    ));
                }
                self.entries = entries;
                Some(v)
            },
            None => {
                assert(old(self)@.remove(key@) =~= old(self)@);
                None
            },
        }
    }

    /// Removes every entry.
    pub fn clear(&mut self)
        ensures
            final(self)@ == Map::<Seq<char>, V>::empty(),
    {
        self.entries = Vec::new();
        assert(self.entry_models() =~= Seq::<(Seq<char>, V)>::empty());
    }

    /// The number of entries.
    pub fn len(&self) -> (n: usize)
        ensures
            n == self@.len(),
    {
        proof {
            use_type_invariant(self);
            lemma_entries_map_len(self.entry_models());
        }
        self.entries.len()
    }
}

/// What is stored under a key is what a later lookup of that key finds, and
/// storing under one key leaves every other key as it was.
pub proof fn lemma_table_read_after_write<V>(before: Map<Seq<char>, V>, key: Seq<char>, value: V, other: Seq<char>)
    ensures
        before.insert(key, value).contains_key(key),
        before.insert(key, value)[key] == value,
        other != key ==> before.insert(key, value).contains_key(other) == before.contains_key(other),
        other != key && before.contains_key(other) ==> before.insert(key, value)[other] == before[other],
{
}

/// Taking a key hands back what was stored under it and leaves every other key as it was.
pub proof fn lemma_table_take_after_write<V>(before: Map<Seq<char>, V>, key: Seq<char>, value: V, other: Seq<char>)
    ensures
        before.insert(key, value).remove(key) == before.remove(key),
        other != key ==> before.insert(key, value).remove(other).contains_key(key),
        other != key ==> before.insert(key, value).remove(other)[key] == value,
{
    assert(before.insert(key, value).remove(key) =~= before.remove(key));
}

/// With unique keys, the map has one key per entry.
pub proof fn lemma_entries_map_len<V>(entries: Seq<(Seq<char>, V)>)
    requires
        keys_unique(entries),
    ensures
        entries_map(entries).len() == entries.len(),
        entries_map(entries).dom().finite(),
    decreases entries.len(),
{
    if entries.len() > 0 {
        let rest = entries.drop_last();
        assert(keys_unique(rest)) by {
            assert forall|a: int, b: int|
                0 <= a < rest.len() && 0 <= b < rest.len() && a != b implies rest[a].0 != rest[b].0 by {
                assert(rest[a] == entries[a] && rest[b] == entries[b]);
            }
        }
        lemma_entries_map_len(rest);
        lemma_entries_map(rest);
        if entries_map(rest).contains_key(entries.last().0) {
            let i = choose|i: int| 0 <= i < rest.len() && rest[i].0 == entries.last().0;
            assert(entries[i].0 == entries[entries.len() - 1].0);
        }
    }
}

/// The map after storing each entry of `entries` in turn into `base`.
pub open spec fn stored_in_turn<V>(base: Map<Seq<char>, V>, entries: Seq<(Seq<char>, V)>) -> Map<Seq<char>, V>
    decreases entries.len(),
{
    if entries.len() == 0 {
        base
    } else {
        stored_in_turn(base, entries.drop_last()).insert(entries.last().0, entries.last().1)
    }
}

proof fn lemma_stored_in_turn_found<V>(base: Map<Seq<char>, V>, entries: Seq<(Seq<char>, V)>, i: int)
    requires
        forall|a: int, b: int|
            0 <= a < entries.len() && 0 <= b < entries.len() && a != b ==> entries[a].0 != entries[b].0,
        0 <= i < entries.len(),
    ensures
        stored_in_turn(base, entries).contains_key(entries[i].0),
        stored_in_turn(base, entries)[entries[i].0] == entries[i].1,
    decreases entries.len(),
{
    let last = entries.len() - 1;
    if i < last {
        let rest = entries.drop_last();
        assert forall|a: int, b: int|
            0 <= a < rest.len() && 0 <= b < rest.len() && a != b implies rest[a].0 != rest[b].0 by {
            assert(rest[a] == entries[a] && rest[b] == entries[b]);
        }
        assert(rest[i] == entries[i]);
        lemma_stored_in_turn_found(base, rest, i);
        assert(entries[i].0 != entries[last].0);
    }
}

/// Entries stored in turn under distinct keys are each found again under
/// their own key, and taking one of them leaves every other in place.
pub proof fn lemma_stored_in_turn<V>(base: Map<Seq<char>, V>, entries: Seq<(Seq<char>, V)>, i: int, j: int)
    requires
        forall|a: int, b: int|
            0 <= a < entries.len() && 0 <= b < entries.len() && a != b ==> entries[a].0 != entries[b].0,
        0 <= i < entries.len(),
        0 <= j < entries.len(),
    ensures
        stored_in_turn(base, entries).contains_key(entries[i].0),
        stored_in_turn(base, entries)[entries[i].0] == entries[i].1,
        i != j ==> stored_in_turn(base, entries).remove(entries[j].0).contains_key(entries[i].0),
        i != j ==> stored_in_turn(base, entries).remove(entries[j].0)[entries[i].0] == entries[i].1,
{
    lemma_stored_in_turn_found(base, entries, i);
}

} // verus!
