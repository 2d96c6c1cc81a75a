use vstd::prelude::*;

use crate::store::LocalStore;
use crate::NoError;

verus! {

/// Whether each key occurs at most once among `entries`.
spec fn entry_keys_unique<S>(entries: Seq<(String, S)>) -> bool {
    forall|i: int, j: int|
        #![trigger entries[i], entries[j]]
        0 <= i < j < entries.len() ==> entries[i].0@ != entries[j].0@
}

/// Whether some entry carries the key `k`.
spec fn entries_have_key<S>(entries: Seq<(String, S)>, k: Seq<char>) -> bool {
    exists|i: int| #![trigger entries[i]] 0 <= i < entries.len() && entries[i].0@ == k
}

/// The position of the entry carrying `k`, where one exists.
spec fn entry_index_of<S>(entries: Seq<(String, S)>, k: Seq<char>) -> int {
    choose|i: int| #![trigger entries[i]] 0 <= i < entries.len() && entries[i].0@ == k
}

/// The key-to-state mapping an entry list stands for.
spec fn entry_map<S>(entries: Seq<(String, S)>) -> Map<Seq<char>, S> {
    Map::new(
        |k: Seq<char>| entries_have_key(entries, k),
        |k: Seq<char>| entries[entry_index_of(entries, k)].1,
    )
}

/// With unique keys, the entry at position `i` is the one `entry_map` finds
/// under its key.
proof fn lemma_entry_map_at<S>(entries: Seq<(String, S)>, i: int)
    requires
        entry_keys_unique(entries),
        0 <= i < entries.len(),
    ensures
        entries_have_key(entries, entries[i].0@),
        entry_map(entries)[entries[i].0@] == entries[i].1,
{
    let k = entries[i].0@;
    assert(0 <= i < entries.len() && entries[i].0@ == k);
    let j = entry_index_of(entries, k);
    assert(0 <= j < entries.len() && entries[j].0@ == k);
    assert(i == j);
}

/// Removing the entry at position `i` removes exactly its key from the map.
proof fn lemma_entry_map_remove<S>(entries: Seq<(String, S)>, i: int)
    requires
        entry_keys_unique(entries),
        0 <= i < entries.len(),
    ensures
        entry_keys_unique(entries.remove(i)),
        entry_map(entries.remove(i)) == entry_map(entries).remove(entries[i].0@),
{
    entries.remove_ensures(i);
    let post = entries.remove(i);
    let k0 = entries[i].0@;

    assert forall|a: int, b: int|
        #![trigger post[a], post[b]]
        0 <= a < b < post.len() implies post[a].0@ != post[b].0@ by {
        let a0: int = if a < i { a } else { a + 1 };
        let b0: int = if b < i { b } else { b + 1 };
        assert(post[a] == entries[a0]);
        assert(post[b] == entries[b0]);
    }

    assert forall|k: Seq<char>| #![auto] entries_have_key(post, k) implies (entries_have_key(
        entries,
        k,
    ) && k != k0) by {
        let m = choose|m: int| #![trigger post[m]] 0 <= m < post.len() && post[m].0@ == k;
        let m0: int = if m < i { m } else { m + 1 };
        assert(post[m] == entries[m0]);
        assert(entries[m0].0@ == k);
        if k == k0 {
            assert(entries[m0].0@ == entries[i].0@ && m0 != i);
        }
    }

    assert forall|k: Seq<char>| #![auto] entries_have_key(entries, k) && k != k0
        implies entries_have_key(post, k) && entry_map(post)[k] == entry_map(entries)[k] by {
        let m = choose|m: int| #![trigger entries[m]] 0 <= m < entries.len() && entries[m].0@ == k;
        assert(m != i);
        let m1: int = if m < i { m } else { m - 1 };
        assert(post[m1] == entries[m]);
        assert(entries_have_key(post, k));
        let j = entry_index_of(post, k);
        assert(0 <= j < post.len() && post[j].0@ == k);
        assert(j == m1);
        lemma_entry_map_at(entries, m);
        assert(entry_map(post)[k] == post[m1].1);
    }

    assert(entry_map(post) =~= entry_map(entries).remove(k0));
}

/// Appending an entry whose key is absent adds exactly that key to the map.
proof fn lemma_entry_map_push<S>(entries: Seq<(String, S)>, entry: (String, S))
    requires
        entry_keys_unique(entries),
        !entries_have_key(entries, entry.0@),
    ensures
        entry_keys_unique(entries.push(entry)),
        entry_map(entries.push(entry)) == entry_map(entries).insert(entry.0@, entry.1),
{
    let post = entries.push(entry);
    let n = entries.len() as int;
    let k0 = entry.0@;
    assert(post[n] == entry);

    assert forall|a: int, b: int|
        #![trigger post[a], post[b]]
        0 <= a < b < post.len() implies post[a].0@ != post[b].0@ by {
        assert(post[a] == entries[a]);
        if b < n {
            assert(post[b] == entries[b]);
        } else {
            assert(post[b] == entry);
            assert(entries[a].0@ != k0);
        }
    }

    assert forall|k: Seq<char>| #![auto] entries_have_key(post, k) implies (k == k0
        || entries_have_key(entries, k)) by {
        let m = choose|m: int| #![trigger post[m]] 0 <= m < post.len() && post[m].0@ == k;
        if m < n {
            assert(post[m] == entries[m]);
        }
    }

    assert(entries_have_key(post, k0));
    let j0 = entry_index_of(post, k0);
    assert(0 <= j0 < post.len() && post[j0].0@ == k0);
    if j0 < n {
        assert(post[j0] == entries[j0]);
        assert(entries_have_key(entries, k0));
    }
    assert(entry_map(post)[k0] == entry.1);

    assert forall|k: Seq<char>| #![auto] entries_have_key(entries, k) implies (entries_have_key(
        post,
        k,
    ) && entry_map(post)[k] == entry_map(entries)[k]) by {
        let m = choose|m: int| #![trigger entries[m]] 0 <= m < entries.len() && entries[m].0@ == k;
        assert(post[m] == entries[m]);
        assert(entries_have_key(post, k));
        let j = entry_index_of(post, k);
        assert(0 <= j < post.len() && post[j].0@ == k);
        if j == n {
            assert(post[j] == entry);
            assert(entries_have_key(entries, k0));
        }
        assert(post[j] == entries[j]);
        assert(j == m);
        lemma_entry_map_at(entries, m);
    }

    assert(entry_map(post) =~= entry_map(entries).insert(k0, entry.1));
}

/// The reference store: an in-process mapping from key to state. Entries are
/// created lazily on first `set`, never expire, and live until cleared.
pub struct MemoryStore<S> {
    entries: Vec<(String, S)>,
}

impl<S> MemoryStore<S> {
    #[verifier::type_invariant]
    spec fn keys_unique(&self) -> bool {
        entry_keys_unique(self.entries@)
    }

    /// The position of `key` among the entries, if it is present.
    fn find_index(&self, key: &str) -> (r: Option<usize>)
        ensures
            match r {
                Some(i) => i < self.entries@.len() && self.entries@[i as int].0@ == key@,
                None => forall|j: int|
                    #![trigger self.entries@[j]]
                    0 <= j < self.entries@.len() ==> self.entries@[j].0@ != key@,
            },
    {
        let k: String = key.to_owned();
        let n = self.entries.len();
        let mut i: usize = 0;
        while i < n
            invariant
                n == self.entries@.len(),
                i <= n,
                k@ == key@,
                forall|j: int|
                    #![trigger self.entries@[j]]
                    0 <= j < i ==> self.entries@[j].0@ != key@,
            decreases n - i,
        {
            if self.entries[i].0 == k {
                return Some(i);
            }
            i = i + 1;
        }
        None
    }
}

impl<S: Copy> MemoryStore<S> {
    /// An empty store: no key has any state.
    pub fn new() -> (r: Self)
        ensures
            r.contents() == Map::<Seq<char>, S>::empty(),
    {
        let r = MemoryStore { entries: Vec::new() };
        proof {
            assert(r.contents() =~= Map::<Seq<char>, S>::empty());
        }
        r
    }
}

impl<S: Copy> Default for MemoryStore<S> {
    /// An empty store, as `new` builds it.
    fn default() -> (r: Self)
        ensures
            r.contents() == Map::<Seq<char>, S>::empty(),
    {
        Self::new()
    }
}

impl<S: Copy> LocalStore<S> for MemoryStore<S> {
    type Error = NoError;

    closed spec fn contents(&self) -> Map<Seq<char>, S> {
        entry_map(self.entries@)
    }

    open spec fn spec_infallible(&self) -> bool {
        true
    }

    fn get(&self, key: &str) -> (r: Result<Option<S>, NoError>) {
        proof {
            use_type_invariant(&*self);
        }
        match self.find_index(key) {
            Some(i) => {
                proof {
                    lemma_entry_map_at(self.entries@, i as int);
                }
                Ok(Some(self.entries[i].1))
            },
            None => {
                proof {
                    assert(!entries_have_key(self.entries@, key@));
                }
                Ok(None)
            },
        }
    }

    fn set(&mut self, key: &str, state: S) -> (r: Result<(), NoError>) {
        proof {
            use_type_invariant(&*self);
        }
        let ghost pre = self.entries@;
        let found = self.find_index(key);
        let mut entries: Vec<(String, S)> = Vec::new();
        std::mem::swap(&mut entries, &mut self.entries);
        let ghost mid;
        match found {
            Some(i) => {
                entries.remove(i);
                proof {
                    lemma_entry_map_remove(pre, i as int);
                    mid = pre.remove(i as int);
                }
            },
            None => {
                proof {
                    mid = pre;
                    assert(!entries_have_key(mid, key@));
                }
            },
        }
        let owned: String = key.to_owned();
        entries.push((owned, state));
        proof {
            assert(!entries_have_key(mid, key@)) by {
                if entries_have_key(mid, key@) {
                    let m = choose|m: int|
                        #![trigger mid[m]]
                        0 <= m < mid.len() && mid[m].0@ == key@;
                    assert(!entry_map(pre).remove(key@).contains_key(key@));
                    assert(entry_map(mid).contains_key(key@));
                }
            }
            lemma_entry_map_push(mid, (owned, state));
            assert(entry_map(mid).insert(key@, state) =~= entry_map(pre).insert(key@, state));
        }
        std::mem::swap(&mut entries, &mut self.entries);
        Ok(())
    }

    fn clear(&mut self, key: &str) -> (r: Result<(), NoError>) {
        proof {
            use_type_invariant(&*self);
        }
        let ghost pre = self.entries@;
        let found = self.find_index(key);
        match found {
            Some(i) => {
                let mut entries: Vec<(String, S)> = Vec::new();
                std::mem::swap(&mut entries, &mut self.entries);
                entries.remove(i);
                proof {
                    lemma_entry_map_remove(pre, i as int);
                }
                std::mem::swap(&mut entries, &mut self.entries);
                Ok(())
            },
            None => {
                proof {
                    assert(!entries_have_key(pre, key@));
                    assert(entry_map(pre).remove(key@) =~= entry_map(pre));
                }
                Ok(())
            },
        }
    }
}

} // verus!
