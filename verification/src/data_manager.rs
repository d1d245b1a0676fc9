//! Centralises the data around the application: a keyed store whose writes
//! are announced to the subscribers of the key.

use vstd::prelude::*;
use vstd::pervasive::cloned;
use crate::model::album::FullAlbum;

verus! {

/// The map that a sequence of (key, value) entries describes, the later
/// entry winning when a key occurs twice.
pub open spec fn entries_map<V>(entries: Seq<(String, V)>) -> Map<Seq<char>, V>
    decreases entries.len(),
{
    if entries.len() == 0 {
        Map::empty()
    } else {
        entries_map(entries.drop_last()).insert(entries.last().0@, entries.last().1)
    }
}

/// No key occurs twice among the entries.
pub open spec fn keys_unique<V>(entries: Seq<(String, V)>) -> bool {
    forall|i: int, j: int|
        0 <= i < entries.len() && 0 <= j < entries.len() && i != j ==> entries[i].0@ != entries[j].0@
}

/// The position of `key` among the entries, if it occurs.
pub open spec fn key_index<V>(entries: Seq<(String, V)>, key: Seq<char>) -> Option<int> {
    if exists|i: int| 0 <= i < entries.len() && entries[i].0@ == key {
        Some(choose|i: int| 0 <= i < entries.len() && entries[i].0@ == key)
    } else {
        None
    }
}

proof fn lemma_key_index_at<V>(entries: Seq<(String, V)>, i: int)
    requires
        keys_unique(entries),
        0 <= i < entries.len(),
    ensures
        key_index(entries, entries[i].0@) == Some(i),
{
    let k = entries[i].0@;
    let c = choose|c: int| 0 <= c < entries.len() && entries[c].0@ == k;
    assert(entries[c].0@ == k);
}

proof fn lemma_entries_map_domain<V>(entries: Seq<(String, V)>, key: Seq<char>)
    ensures
        entries_map(entries).contains_key(key) <==> exists|i: int|
            0 <= i < entries.len() && entries[i].0@ == key,
    decreases entries.len(),
{
    if entries.len() > 0 {
        lemma_entries_map_domain(entries.drop_last(), key);
        if exists|i: int| 0 <= i < entries.len() && entries[i].0@ == key {
            let i = choose|i: int| 0 <= i < entries.len() && entries[i].0@ == key;
            if i < entries.len() - 1 {
                assert(entries.drop_last()[i].0@ == key);
            }
        }
        if exists|i: int| 0 <= i < entries.drop_last().len() && entries.drop_last()[i].0@ == key {
            let i = choose|i: int|
                0 <= i < entries.drop_last().len() && entries.drop_last()[i].0@ == key;
            assert(entries[i].0@ == key);
        }
    }
}

proof fn lemma_entries_map_at<V>(entries: Seq<(String, V)>, i: int)
    requires
        keys_unique(entries),
        0 <= i < entries.len(),
    ensures
        entries_map(entries).contains_key(entries[i].0@),
        entries_map(entries)[entries[i].0@] == entries[i].1,
    decreases entries.len(),
{
    if i < entries.len() - 1 {
        let d = entries.drop_last();
        assert(keys_unique(d)) by {
            assert forall|a: int, b: int|
                0 <= a < d.len() && 0 <= b < d.len() && a != b implies d[a].0@ != d[b].0@ by {
                assert(d[a] == entries[a] && d[b] == entries[b]);
            }
        }
        lemma_entries_map_at(d, i);
        assert(entries[i].0@ != entries.last().0@);
        assert(d[i] == entries[i]);
    }
}

/// Replacing the value of an existing key, or appending a fresh key, updates
/// the described map by one insertion.
proof fn lemma_entries_map_set<V>(entries: Seq<(String, V)>, i: int, key: String, value: V)
    requires
        keys_unique(entries),
        0 <= i < entries.len(),
        entries[i].0@ == key@,
    ensures
        keys_unique(entries.update(i, (key, value))),
        entries_map(entries.update(i, (key, value))) =~= entries_map(entries).insert(key@, value),
{
    let u = entries.update(i, (key, value));
    assert(keys_unique(u));
    assert forall|k: Seq<char>| #[trigger] entries_map(u).contains_key(k) <==> entries_map(
        entries,
    ).insert(key@, value).contains_key(k) by {
        lemma_entries_map_domain(u, k);
        lemma_entries_map_domain(entries, k);
        if exists|j: int| 0 <= j < entries.len() && entries[j].0@ == k {
            let j = choose|j: int| 0 <= j < entries.len() && entries[j].0@ == k;
            assert(u[j].0@ == k);
        }
        if exists|j: int| 0 <= j < u.len() && u[j].0@ == k {
            let j = choose|j: int| 0 <= j < u.len() && u[j].0@ == k;
            if j != i {
                assert(entries[j].0@ == k);
            }
        }
    }
    assert forall|k: Seq<char>| #[trigger] entries_map(u).contains_key(k) implies entries_map(u)[k]
        == entries_map(entries).insert(key@, value)[k] by {
        lemma_entries_map_domain(u, k);
        let j = choose|j: int| 0 <= j < u.len() && u[j].0@ == k;
        lemma_entries_map_at(u, j);
        if j != i {
            lemma_entries_map_at(entries, j);
        }
    }
}

proof fn lemma_entries_map_push<V>(entries: Seq<(String, V)>, key: String, value: V)
    requires
        keys_unique(entries),
        forall|j: int| 0 <= j < entries.len() ==> entries[j].0@ != key@,
    ensures
        keys_unique(entries.push((key, value))),
        entries_map(entries.push((key, value))) =~= entries_map(entries).insert(key@, value),
{
    let p = entries.push((key, value));
    assert(p.drop_last() =~= entries);
}

/// A keyed store. Writing a value under a key first hands the value to every
/// callback subscribed to that key, in the order of subscription, then
/// stores it; reading gives back a clone of the stored value.
pub struct DataStore<T: Clone, F: Fn(&T)> {
    data: Vec<(String, T)>,
    subscribers: Vec<(String, Vec<F>)>,
}

impl<T: Clone, F: Fn(&T)> DataStore<T, F> {
    /// The stored values, by key.
    pub closed spec fn view(&self) -> Map<Seq<char>, T> {
        entries_map(self.data@)
    }

    /// The callbacks subscribed to `key`, in the order of subscription.
    pub closed spec fn subscribers_of(&self, key: Seq<char>) -> Seq<F> {
        match key_index(self.subscribers@, key) {
            Some(i) => self.subscribers@[i].1@,
            None => Seq::empty(),
        }
    }

    #[verifier::type_invariant]
    closed spec fn wf(&self) -> bool {
        &&& keys_unique(self.data@)
        &&& keys_unique(self.subscribers@)
        &&& forall|i: int, j: int, t: &T|
            0 <= i < self.subscribers@.len() && 0 <= j < self.subscribers@[i].1@.len()
                ==> #[trigger] call_requires(self.subscribers@[i].1@[j], (t,))
    }

    /// An empty store with no subscriber.
    pub fn new() -> (r: Self)
        ensures
            r.view() == Map::<Seq<char>, T>::empty(),
            forall|k: Seq<char>| #[trigger] r.subscribers_of(k) == Seq::<F>::empty(),
    {
        DataStore { data: Vec::new(), subscribers: Vec::new() }
    }

    fn find_data(&self, key: &str) -> (r: Option<usize>)
        ensures
            match r {
                Some(i) => i < self.data@.len() && self.data@[i as int].0@ == key@,
                None => forall|j: int| 0 <= j < self.data@.len() ==> self.data@[j].0@ != key@,
            },
    {
        let mut i: usize = 0;
        while i < self.data.len()
            invariant
                i <= self.data@.len(),
                forall|j: int| 0 <= j < i ==> self.data@[j].0@ != key@,
            decreases self.data@.len() - i,
        {
            if crate::text::str_eq(self.data[i].0.as_str(), key) {
                return Some(i);
            }
            i = i + 1;
        }
        None
    }

    fn find_subscribers(&self, key: &str) -> (r: Option<usize>)
        ensures
            match r {
                Some(i) => i < self.subscribers@.len() && self.subscribers@[i as int].0@ == key@,
                None => forall|j: int|
                    0 <= j < self.subscribers@.len() ==> self.subscribers@[j].0@ != key@,
            },
    {
        let mut i: usize = 0;
        while i < self.subscribers.len()
            invariant
                i <= self.subscribers@.len(),
                forall|j: int| 0 <= j < i ==> self.subscribers@[j].0@ != key@,
            decreases self.subscribers@.len() - i,
        {
            if crate::text::str_eq(self.subscribers[i].0.as_str(), key) {
                return Some(i);
            }
            i = i + 1;
        }
        None
    }

    /// Hands `value` to each subscriber of `key`, then stores it under `key`.
    pub fn write(&mut self, key: &str, value: T)
        ensures
            final(self).view() == old(self).view().insert(key@, value),
            forall|k: Seq<char>| #[trigger] final(self).subscribers_of(k) == old(self).subscribers_of(k),
            forall|j: int|
                0 <= j < old(self).subscribers_of(key@).len() ==> call_ensures(
                    #[trigger] old(self).subscribers_of(key@)[j],
                    (&value,),
                    (),
                ),
    {
        proof {
            use_type_invariant(&*self);
        }
        let ghost subs = self.subscribers_of(key@);
        match self.find_subscribers(key) {
            Some(s) => {
                proof {
                    assert(key_index(self.subscribers@, key@) == Some(s as int)) by {
                        let c = choose|i: int|
                            0 <= i < self.subscribers@.len() && self.subscribers@[i].0@ == key@;
                        assert(self.subscribers@[c].0@ == key@);
                    }
                }
                let callbacks = &self.subscribers[s].1;
                let mut j: usize = 0;
                while j < callbacks.len()
                    invariant
                        callbacks@ == subs,
                        j <= subs.len(),
                        forall|a: int, t: &T| 0 <= a < subs.len() ==> #[trigger] call_requires(subs[a], (t,)),
                        forall|a: int| 0 <= a < j ==> call_ensures(#[trigger] subs[a], (&value,), ()),
                    decreases subs.len() - j,
                {
                    let callback = &callbacks[j];
                    callback(&value);
                    j = j + 1;
                }
            },
            None => {
                proof {
                    assert(key_index(self.subscribers@, key@) is None);
                }
            },
        }
        let ghost old_data = self.data@;
        let k = key.to_owned();
        match self.find_data(key) {
            Some(i) => {
                proof {
                    lemma_entries_map_set(old_data, i as int, k, value);
                }
                let mut data = Vec::new();
                std::mem::swap(&mut data, &mut self.data);
                data.set(i, (k, value));
                self.data = data;
            },
            None => {
                proof {
                    lemma_entries_map_push(old_data, k, value);
                }
                let mut data = Vec::new();
                std::mem::swap(&mut data, &mut self.data);
                data.push((k, value));
                self.data = data;
            },
        }
    }

    /// A clone of the value stored under `key`, if any.
    pub fn read(&self, key: &str) -> (r: Option<T>)
        ensures
            r is Some <==> self.view().contains_key(key@),
            r matches Some(v) ==> cloned(self.view()[key@], v),
    {
        proof {
            use_type_invariant(self);
            lemma_entries_map_domain(self.data@, key@);
        }
        match self.find_data(key) {
            Some(i) => {
                proof {
                    lemma_entries_map_at(self.data@, i as int);
                }
                Some(self.data[i].1.clone())
            },
            None => None,
        }
    }

    /// Adds `callback` after the other subscribers of `key`.
    pub fn subscribe(&mut self, key: &str, callback: F)
        requires
            forall|t: &T| call_requires(callback, (t,)),
        ensures
            final(self).view() == old(self).view(),
            final(self).subscribers_of(key@) == old(self).subscribers_of(key@).push(callback),
            forall|k: Seq<char>|
                k != key@ ==> #[trigger] final(self).subscribers_of(k) == old(self).subscribers_of(k),
    {
        proof {
            use_type_invariant(&*self);
        }
        let ghost old_subs = self.subscribers@;
        match self.find_subscribers(key) {
            Some(s) => {
                proof {
                    lemma_key_index_at(old_subs, s as int);
                }
                let mut subscribers = Vec::new();
                std::mem::swap(&mut subscribers, &mut self.subscribers);
                let mut entry = (String::new(), Vec::new());
                std::mem::swap(&mut entry, &mut subscribers[s]);
                entry.1.push(callback);
                subscribers.set(s, entry);
                proof {
                    let new_subs = subscribers@;
                    assert(new_subs[s as int].0@ == key@);
                    assert(keys_unique(new_subs)) by {
                        assert forall|a: int, b: int|
                            0 <= a < new_subs.len() && 0 <= b < new_subs.len() && a != b
                            implies new_subs[a].0@ != new_subs[b].0@ by {
                            assert(new_subs[a].0@ == old_subs[a].0@);
                            assert(new_subs[b].0@ == old_subs[b].0@);
                        }
                    }
                    lemma_key_index_at(new_subs, s as int);
                    assert forall|k: Seq<char>| k != key@ implies key_index(new_subs, k) == key_index(old_subs, k)
                        && (key_index(new_subs, k) matches Some(i) ==> new_subs[i] == old_subs[i]) by {
                        if exists|i: int| 0 <= i < old_subs.len() && old_subs[i].0@ == k {
                            let i = choose|i: int| 0 <= i < old_subs.len() && old_subs[i].0@ == k;
                            lemma_key_index_at(old_subs, i);
                            assert(new_subs[i] == old_subs[i]);
                            lemma_key_index_at(new_subs, i);
                        } else {
                            assert forall|i: int| 0 <= i < new_subs.len() implies new_subs[i].0@ != k by {
                                assert(new_subs[i].0@ == old_subs[i].0@);
                            }
                        }
                    }
                }
                self.subscribers = subscribers;
            },
            None => {
                let mut callbacks = Vec::new();
                callbacks.push(callback);
                let mut subscribers = Vec::new();
                std::mem::swap(&mut subscribers, &mut self.subscribers);
                subscribers.push((key.to_owned(), callbacks));
                proof {
                    let new_subs = subscribers@;
                    assert(keys_unique(new_subs));
                    lemma_key_index_at(new_subs, old_subs.len() as int);
                    assert(key_index(old_subs, key@) is None);
                    assert forall|k: Seq<char>| k != key@ implies key_index(new_subs, k) == key_index(old_subs, k)
                        && (key_index(new_subs, k) matches Some(i) ==> new_subs[i] == old_subs[i]) by {
                        if exists|i: int| 0 <= i < old_subs.len() && old_subs[i].0@ == k {
                            let i = choose|i: int| 0 <= i < old_subs.len() && old_subs[i].0@ == k;
                            lemma_key_index_at(old_subs, i);
                            lemma_key_index_at(new_subs, i);
                        } else {
                            assert forall|i: int| 0 <= i < new_subs.len() implies new_subs[i].0@ != k by {
                                if i < old_subs.len() {
                                    assert(new_subs[i] == old_subs[i]);
                                }
                            }
                        }
                    }
                }
                self.subscribers = subscribers;
            },
        }
    }
}

/// Once a value is written under a key, a read of that key finds the value
/// that was written, and every other key reads as it did before the write.
pub proof fn law_read_after_write<T: Clone, F: Fn(&T)>(
    before: DataStore<T, F>,
    after: DataStore<T, F>,
    key: Seq<char>,
    value: T,
    other: Seq<char>,
)
    requires
        after.view() == before.view().insert(key, value),
    ensures
        after.view().contains_key(key),
        after.view()[key] == value,
        other != key ==> (after.view().contains_key(other) <==> before.view().contains_key(other)),
        other != key && before.view().contains_key(other) ==> after.view()[other]
            == before.view()[other],
{
}

/// A write never changes who is subscribed, and a subscription never changes
/// what is stored: the two halves of a store are independent.
pub proof fn law_subscriptions_and_data_independent<T: Clone, F: Fn(&T)>(
    s0: DataStore<T, F>,
    s1: DataStore<T, F>,
    s2: DataStore<T, F>,
    key: Seq<char>,
    value: T,
    sub_key: Seq<char>,
    callback: F,
    k: Seq<char>,
)
    requires
        s1.view() == s0.view().insert(key, value),
        forall|x: Seq<char>| #[trigger] s1.subscribers_of(x) == s0.subscribers_of(x),
        s2.view() == s1.view(),
        s2.subscribers_of(sub_key) == s1.subscribers_of(sub_key).push(callback),
        forall|x: Seq<char>| x != sub_key ==> #[trigger] s2.subscribers_of(x) == s1.subscribers_of(x),
    ensures
        s2.view() == s0.view().insert(key, value),
        k == sub_key ==> s2.subscribers_of(k) == s0.subscribers_of(k).push(callback),
        k != sub_key ==> s2.subscribers_of(k) == s0.subscribers_of(k),
{
    assert(s1.subscribers_of(k) == s0.subscribers_of(k));
}

/// The application's data: the album lists and the albums, each in a store
/// of its own.
pub struct DataManager<L: Fn(&Vec<FullAlbum>), A: Fn(&FullAlbum)> {
    pub album_lists: DataStore<Vec<FullAlbum>, L>,
    pub albums: DataStore<FullAlbum, A>,
}

impl<L: Fn(&Vec<FullAlbum>), A: Fn(&FullAlbum)> DataManager<L, A> {
    /// Two empty stores with no subscriber.
    pub fn new() -> (r: Self)
        ensures
            r.album_lists.view() == Map::<Seq<char>, Vec<FullAlbum>>::empty(),
            r.albums.view() == Map::<Seq<char>, FullAlbum>::empty(),
            forall|k: Seq<char>| #[trigger] r.album_lists.subscribers_of(k) == Seq::<L>::empty(),
            forall|k: Seq<char>| #[trigger] r.albums.subscribers_of(k) == Seq::<A>::empty(),
    {
        DataManager { album_lists: DataStore::new(), albums: DataStore::new() }
    }
}

} // verus!
