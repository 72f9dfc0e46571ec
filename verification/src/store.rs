//! An in-memory object-storage backend.
//!
//! [`StoreBackend`] implements the three object-storage operations of the
//! capability contract over an association list with unique keys. Its
//! abstract value is a map from key characters to stored bytes, and each
//! operation's contract is stated over that map: a lookup is determined by
//! its own key alone, so calls with distinct keys cannot answer for one
//! another, and every operation leaves the backend well formed and usable.

use vstd::prelude::*;

use vstd::pervasive::VecAdditionalExecFns;

use crate::contract::Extio;
use crate::error::IoError;
use crate::op::Op;

verus! {

/// The failure the in-memory store itself reports: a lookup of a key that
/// holds no value.
#[derive(Clone, Copy, Debug, PartialEq, Eq, Structural)]
pub enum StoreError {
    MissingKey,
}

/// No two entries share a key.
spec fn unique_keys(s: Seq<(String, Vec<u8>)>) -> bool {
    forall|i: int, j: int| 0 <= i < j < s.len() ==> s[i].0@ != s[j].0@
}

/// The map an association list denotes: later entries win, though with
/// unique keys every entry is visible.
spec fn store_map(s: Seq<(String, Vec<u8>)>) -> Map<Seq<char>, Seq<u8>>
    decreases s.len(),
{
    if s.len() == 0 {
        Map::empty()
    } else {
        store_map(s.drop_last()).insert(s.last().0@, s.last().1@)
    }
}

proof fn lemma_store_map_contains(s: Seq<(String, Vec<u8>)>, k: Seq<char>)
    ensures
        store_map(s).contains_key(k) <==> exists|i: int| 0 <= i < s.len() && s[i].0@ == k,
    decreases s.len(),
{
    if s.len() == 0 {
    } else {
        lemma_store_map_contains(s.drop_last(), k);
        assert(forall|i: int| 0 <= i < s.len() - 1 ==> s.drop_last()[i] == s[i]);
        if s.last().0@ == k {
            assert(s[s.len() - 1].0@ == k);
            assert(store_map(s).contains_key(k));
        } else {
            if store_map(s).contains_key(k) {
                let i = choose|i: int| 0 <= i < s.drop_last().len() && s.drop_last()[i].0@ == k;
                assert(s[i].0@ == k);
            }
            if exists|i: int| 0 <= i < s.len() && s[i].0@ == k {
                let i = choose|i: int| 0 <= i < s.len() && s[i].0@ == k;
                assert(i != s.len() - 1);
                assert(s.drop_last()[i].0@ == k);
            }
        }
    }
}

proof fn lemma_store_map_value(s: Seq<(String, Vec<u8>)>, i: int)
    requires
        unique_keys(s),
        0 <= i < s.len(),
    ensures
        store_map(s).contains_key(s[i].0@),
        store_map(s)[s[i].0@] == s[i].1@,
    decreases s.len(),
{
    if i == s.len() - 1 {
        assert(store_map(s)[s.last().0@] == s.last().1@);
    } else {
        assert(forall|j: int| 0 <= j < s.len() - 1 ==> s.drop_last()[j] == s[j]);
        assert(unique_keys(s.drop_last()));
        lemma_store_map_value(s.drop_last(), i);
        assert(s.last().0@ != s[i].0@);
    }
}

/// An in-memory object store: an association list of keys and blobs, with
/// no key held twice. Its abstract value is the map of stored blobs.
pub struct StoreBackend {
    entries: Vec<(String, Vec<u8>)>,
}

impl View for StoreBackend {
    type V = Map<Seq<char>, Seq<u8>>;

    closed spec fn view(&self) -> Map<Seq<char>, Seq<u8>> {
        store_map(self.entries@)
    }
}

impl StoreBackend {
    #[verifier::type_invariant]
    spec fn well_formed(self) -> bool {
        unique_keys(self.entries@)
    }

    /// An empty store.
    pub fn new() -> (b: StoreBackend)
        ensures
            b@ == Map::<Seq<char>, Seq<u8>>::empty(),
    {
        StoreBackend { entries: Vec::new() }
    }

    /// The index of the entry holding `key`, if one does.
    fn find(&self, key: &str) -> (r: Option<usize>)
        ensures
            r matches Some(i) ==> i < self.entries@.len() && self.entries@[i as int].0@ == key@,
            r is None ==> forall|i: int| 0 <= i < self.entries@.len() ==> self.entries@[i].0@
                != key@,
    {
        let k = key.to_owned();
        let mut i: usize = 0;
        while i < self.entries.len()
            invariant
                k@ == key@,
                i <= self.entries@.len(),
                forall|j: int| 0 <= j < i ==> self.entries@[j].0@ != key@,
            decreases self.entries@.len() - i,
        {
            if self.entries[i].0 == k {
                return Some(i);
            }
            i = i + 1;
        }
        None
    }
}

impl Extio for StoreBackend {
    type Error = StoreError;

    /// Exactly the three object-storage capabilities.
    open spec fn supports(op: Op) -> bool {
        op is StoragePut || op is StorageGet || op is StorageDelete
    }

    /// Stores `data` under `key`, replacing whatever the key held. Always
    /// succeeds: afterwards the store holds exactly the old map with this
    /// one binding inserted.
    fn storage_put(&mut self, key: &str, data: Vec<u8>) -> (r: Result<(), IoError<StoreError>>)
        ensures
            r == Ok::<(), IoError<StoreError>>(()),
            final(self)@ == old(self)@.insert(key@, data@),
    {
        proof {
            use_type_invariant(&*self);
        }
        let ghost olds = self.entries@;
        let ghost data_view = data@;
        let k = key.to_owned();
        let found = self.find(key);
        let mut entries: Vec<(String, Vec<u8>)> = Vec::new();
        core::mem::swap(&mut entries, &mut self.entries);
        match found {
            Some(i) => {
                entries.set(i, (k, data));
                proof {
                    let news = entries@;
                    assert(news[i as int].0@ == key@);
                    assert(news[i as int].1@ == data_view);
                    assert forall|a: int, b: int|
                        0 <= a < b < news.len() implies news[a].0@ != news[b].0@ by {
                        assert(news[a].0@ == olds[a].0@ && news[b].0@ == olds[b].0@);
                    }
                    lemma_put_replace(olds, news, i as int, key@, data_view);
                }
            },
            None => {
                entries.push((k, data));
                proof {
                    let news = entries@;
                    assert(news.drop_last() =~= olds);
                    assert(unique_keys(news));
                    assert(store_map(news) == store_map(olds).insert(key@, data_view));
                }
            },
        }
        core::mem::swap(&mut entries, &mut self.entries);
        Ok(())
    }

    /// Retrieves the blob stored under `key`: exactly the bytes the map
    /// holds for that key, and the missing-key failure if and only if the
    /// key holds nothing.
    fn storage_get(&self, key: &str) -> (r: Result<Vec<u8>, IoError<StoreError>>)
        ensures
            self@.contains_key(key@) ==> (r matches Ok(v) && v@ == self@[key@]),
            !self@.contains_key(key@) ==> r == Err::<Vec<u8>, IoError<StoreError>>(
                IoError::Backend(StoreError::MissingKey),
            ),
    {
        proof {
            use_type_invariant(&*self);
        }
        match self.find(key) {
            Some(i) => {
                proof {
                    lemma_store_map_value(self.entries@, i as int);
                }
                let v = self.entries[i].1.clone();
                proof {
                    assert forall|j: int|
                        0 <= j < v@.len() implies v@[j] == self.entries[i as int].1@[j] by {
                        assert(cloned::<u8>(self.entries[i as int].1[j], v[j]));
                    }
                    assert(v@ =~= self.entries@[i as int].1@);
                }
                Ok(v)
            },
            None => {
                proof {
                    lemma_store_map_contains(self.entries@, key@);
                }
                Err(IoError::Backend(StoreError::MissingKey))
            },
        }
    }

    /// Removes whatever `key` holds. Always succeeds: afterwards the store
    /// holds exactly the old map with the binding removed, whether or not
    /// one was there.
    fn storage_delete(&mut self, key: &str) -> (r: Result<(), IoError<StoreError>>)
        ensures
            r == Ok::<(), IoError<StoreError>>(()),
            final(self)@ == old(self)@.remove(key@),
    {
        proof {
            use_type_invariant(&*self);
        }
        let ghost olds = self.entries@;
        match self.find(key) {
            Some(i) => {
                let mut entries: Vec<(String, Vec<u8>)> = Vec::new();
                core::mem::swap(&mut entries, &mut self.entries);
                let _removed = entries.remove(i);
                proof {
                    let news = entries@;
                    assert(news == olds.remove(i as int));
                    lemma_delete_found(olds, news, i as int, key@);
                }
                core::mem::swap(&mut entries, &mut self.entries);
                Ok(())
            },
            None => {
                proof {
                    lemma_store_map_contains(olds, key@);
                    assert(self@ =~= old(self)@.remove(key@));
                }
                Ok(())
            },
        }
    }
}

proof fn lemma_put_replace(
    olds: Seq<(String, Vec<u8>)>,
    news: Seq<(String, Vec<u8>)>,
    i: int,
    k: Seq<char>,
    data: Seq<u8>,
)
    requires
        unique_keys(olds),
        unique_keys(news),
        news.len() == olds.len(),
        0 <= i < olds.len(),
        olds[i].0@ == k,
        news[i].0@ == k,
        news[i].1@ == data,
        forall|j: int| 0 <= j < olds.len() && j != i ==> news[j] == olds[j],
    ensures
        store_map(news) == store_map(olds).insert(k, data),
{
    assert forall|c: Seq<char>|
        store_map(news).contains_key(c) == store_map(olds).insert(k, data).contains_key(c) by {
        lemma_store_map_contains(news, c);
        lemma_store_map_contains(olds, c);
        if c == k {
            assert(news[i].0@ == c);
        } else {
            assert(forall|j: int| 0 <= j < news.len() ==> news[j].0@ == olds[j].0@);
        }
    }
    assert forall|c: Seq<char>| store_map(news).contains_key(c) implies store_map(news)[c]
        == store_map(olds).insert(k, data)[c] by {
        lemma_store_map_contains(news, c);
        if c == k {
            lemma_store_map_value(news, i);
        } else {
            let j = choose|j: int| 0 <= j < news.len() && news[j].0@ == c;
            assert(j != i);
            assert(news[j] == olds[j]);
            lemma_store_map_value(news, j);
            lemma_store_map_value(olds, j);
        }
    }
    assert(store_map(news) =~= store_map(olds).insert(k, data));
}

proof fn lemma_delete_found(
    olds: Seq<(String, Vec<u8>)>,
    news: Seq<(String, Vec<u8>)>,
    i: int,
    k: Seq<char>,
)
    requires
        unique_keys(olds),
        0 <= i < olds.len(),
        olds[i].0@ == k,
        news == olds.remove(i),
    ensures
        unique_keys(news),
        store_map(news) == store_map(olds).remove(k),
{
    assert(news.len() == olds.len() - 1);
    assert(forall|j: int| 0 <= j < i ==> news[j] == olds[j]);
    assert(forall|j: int| i <= j < news.len() ==> news[j] == olds[j + 1]);
    assert forall|a: int, b: int| 0 <= a < b < news.len() implies news[a].0@ != news[b].0@ by {
        let a0 = if a < i { a } else { a + 1 };
        let b0 = if b < i { b } else { b + 1 };
        assert(news[a] == olds[a0]);
        assert(news[b] == olds[b0]);
    }
    assert forall|c: Seq<char>|
        store_map(news).contains_key(c) == store_map(olds).remove(k).contains_key(c) by {
        lemma_store_map_contains(news, c);
        lemma_store_map_contains(olds, c);
        if store_map(news).contains_key(c) {
            let j = choose|j: int| 0 <= j < news.len() && news[j].0@ == c;
            let j0 = if j < i { j } else { j + 1 };
            assert(olds[j0].0@ == c);
            assert(j0 != i || c == k);
            if c == k {
                assert(olds[j0].0@ == olds[i].0@);
                assert(j0 == i);
                assert(false);
            }
        }
        if c != k && store_map(olds).contains_key(c) {
            let j0 = choose|j: int| 0 <= j < olds.len() && olds[j].0@ == c;
            assert(j0 != i);
            let j = if j0 < i { j0 } else { j0 - 1 };
            assert(news[j].0@ == c);
        }
    }
    assert forall|c: Seq<char>| store_map(news).contains_key(c) implies store_map(news)[c]
        == store_map(olds).remove(k)[c] by {
        lemma_store_map_contains(news, c);
        let j = choose|j: int| 0 <= j < news.len() && news[j].0@ == c;
        let j0 = if j < i { j } else { j + 1 };
        assert(news[j] == olds[j0]);
        lemma_store_map_value(news, j);
        lemma_store_map_value(olds, j0);
        assert(c != k);
    }
    assert(store_map(news) =~= store_map(olds).remove(k));
}

} // verus!
