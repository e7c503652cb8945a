//! The mapping store: the single source of truth for short-id to target-URL
//! records. At most one mapping exists per short id; `create_url` fails on a
//! duplicate, `delete_url` and `get_url` fail on an absent id. The store is
//! modelled as a map from the short id's characters to the target URL's
//! characters.

use vstd::prelude::*;

verus! {

/// One persisted mapping: a short id and the URL it redirects to.
#[derive(Debug)]
pub struct Url {
    pub short: String,
    pub target_url: String,
}

impl Clone for Url {
    fn clone(&self) -> (r: Self)
        ensures
            r == *self,
    {
        Url { short: self.short.clone(), target_url: self.target_url.clone() }
    }
}

/// The outcomes a store operation can fail with. `Database` stands for any
/// underlying storage malfunction and is kept distinct from the two domain
/// outcomes; it carries no detail so that none can leak to a client.
#[derive(Clone, Copy, Debug, PartialEq, Eq, Structural)]
pub enum Error {
    /// A mapping with the requested short id already exists.
    ShortExists,
    /// No mapping with the requested short id exists.
    ShortDoesNotExist,
    /// The underlying storage failed; deliberately opaque.
    Database,
}

/// No two records share a short id.
pub open spec fn unique_shorts(s: Seq<Url>) -> bool {
    forall|i: int, j: int| 0 <= i < j < s.len() ==> s[i].short@ != s[j].short@
}

/// The map a sequence of records denotes: later records win, though under
/// `unique_shorts` there is nothing to win over.
pub open spec fn map_of(s: Seq<Url>) -> Map<Seq<char>, Seq<char>>
    decreases s.len(),
{
    if s.len() == 0 {
        Map::empty()
    } else {
        map_of(s.drop_last()).insert(s.last().short@, s.last().target_url@)
    }
}

/// A key is in the map exactly when some record carries it.
pub proof fn lemma_map_of_contains(s: Seq<Url>, k: Seq<char>)
    ensures
        map_of(s).contains_key(k) <==> exists|i: int| 0 <= i < s.len() && s[i].short@ == k,
    decreases s.len(),
{
    if s.len() > 0 {
        lemma_map_of_contains(s.drop_last(), k);
        if s.last().short@ == k {
            assert(s[s.len() - 1].short@ == k);
        } else {
            if map_of(s).contains_key(k) {
                let i = choose|i: int| 0 <= i < s.drop_last().len() && s.drop_last()[i].short@ == k;
                assert(s[i].short@ == k);
            }
            if exists|i: int| 0 <= i < s.len() && s[i].short@ == k {
                let i = choose|i: int| 0 <= i < s.len() && s[i].short@ == k;
                assert(s.drop_last()[i].short@ == k);
            }
        }
    }
}

/// Under uniqueness, the record at index `i` is what the map holds for its id.
pub proof fn lemma_map_of_index(s: Seq<Url>, i: int)
    requires
        unique_shorts(s),
        0 <= i < s.len(),
    ensures
        map_of(s).contains_key(s[i].short@),
        map_of(s)[s[i].short@] == s[i].target_url@,
    decreases s.len(),
{
    if i == s.len() - 1 {
    } else {
        lemma_map_of_index(s.drop_last(), i);
        assert(s.drop_last()[i] == s[i]);
    }
}

/// Removing the record at index `i` removes exactly its key from the map.
pub proof fn lemma_map_of_remove(s: Seq<Url>, i: int)
    requires
        unique_shorts(s),
        0 <= i < s.len(),
    ensures
        map_of(s.remove(i)) == map_of(s).remove(s[i].short@),
    decreases s.len(),
{
    let k = s[i].short@;
    if i == s.len() - 1 {
        assert(s.remove(i) =~= s.drop_last());
        lemma_map_of_contains(s.drop_last(), k);
        assert(forall|j: int|
            0 <= j < s.drop_last().len() ==> s.drop_last()[j].short@ != k) by {
            assert(forall|j: int| 0 <= j < s.len() - 1 ==> s[j].short@ != k);
        }
        assert(!map_of(s.drop_last()).contains_key(k));
        assert(map_of(s.drop_last()).insert(k, s[i].target_url@).remove(k)
            =~= map_of(s.drop_last()));
    } else {
        let t = s.drop_last();
        assert(forall|a: int, b: int| 0 <= a < b < t.len() ==> t[a] == s[a] && t[b] == s[b]);
        lemma_map_of_remove(t, i);
        assert(s.remove(i).drop_last() =~= t.remove(i));
        assert(s.remove(i).last() == s.last());
        assert(map_of(s.remove(i))
            == map_of(t.remove(i)).insert(s.last().short@, s.last().target_url@));
        assert(t[i] == s[i]);
        assert(s.last().short@ != k) by {
            assert(s[i].short@ != s[s.len() - 1].short@);
        }
        assert(map_of(t).remove(k).insert(s.last().short@, s.last().target_url@)
            =~= map_of(t).insert(s.last().short@, s.last().target_url@).remove(k));
    }
}

/// Appending a record with a fresh short id keeps the ids unique.
proof fn lemma_unique_push(s: Seq<Url>, u: Url)
    requires
        unique_shorts(s),
        forall|i: int| 0 <= i < s.len() ==> s[i].short@ != u.short@,
    ensures
        unique_shorts(s.push(u)),
{
    let t = s.push(u);
    assert forall|i: int, j: int| 0 <= i < j < t.len() implies t[i].short@ != t[j].short@ by {
        if j < s.len() {
            assert(t[i] == s[i] && t[j] == s[j]);
        } else {
            assert(t[j] == u && t[i] == s[i]);
        }
    }
}

/// Removing a record keeps the ids unique.
proof fn lemma_unique_remove(s: Seq<Url>, i: int)
    requires
        unique_shorts(s),
        0 <= i < s.len(),
    ensures
        unique_shorts(s.remove(i)),
{
    s.remove_ensures(i);
    let t = s.remove(i);
    assert forall|a: int, b: int| 0 <= a < b < t.len() implies t[a].short@ != t[b].short@ by {
        let a0 = if a < i { a } else { a + 1 };
        let b0 = if b < i { b } else { b + 1 };
        assert(t[a] == s[a0] && t[b] == s[b0]);
    }
}

/// Whether `Create` is owed success on a store in state `m`.
pub open spec fn create_ok(m: Map<Seq<char>, Seq<char>>, short: Seq<char>) -> bool {
    !m.contains_key(short)
}

/// The store state after a `Create`: unchanged when the id is taken.
pub open spec fn create_map(
    m: Map<Seq<char>, Seq<char>>,
    short: Seq<char>,
    target: Seq<char>,
) -> Map<Seq<char>, Seq<char>> {
    if create_ok(m, short) {
        m.insert(short, target)
    } else {
        m
    }
}

/// Whether `Delete` is owed success on a store in state `m`.
pub open spec fn delete_ok(m: Map<Seq<char>, Seq<char>>, short: Seq<char>) -> bool {
    m.contains_key(short)
}

/// The store state after a `Delete`: unchanged when the id is absent.
pub open spec fn delete_map(
    m: Map<Seq<char>, Seq<char>>,
    short: Seq<char>,
) -> Map<Seq<char>, Seq<char>> {
    if delete_ok(m, short) {
        m.remove(short)
    } else {
        m
    }
}

/// What `Fetch` returns on a store in state `m`.
pub open spec fn fetch_of(m: Map<Seq<char>, Seq<char>>, short: Seq<char>) -> Option<Seq<char>> {
    if m.contains_key(short) {
        Some(m[short])
    } else {
        None
    }
}

/// An in-memory mapping store. It realises the store contract that the
/// service is specified against; a storage engine that keeps records
/// elsewhere must meet the same contract.
pub struct Store {
    urls: Vec<Url>,
}

impl Store {
    #[verifier::type_invariant]
    spec fn inv(self) -> bool {
        unique_shorts(self.urls@)
    }

    /// The record sequence, in insertion order.
    pub closed spec fn entries(&self) -> Seq<Url> {
        self.urls@
    }

    /// The map this store's records denote.
    pub open spec fn view(&self) -> Map<Seq<char>, Seq<char>> {
        map_of(self.entries())
    }

    pub fn new() -> (s: Store)
        ensures
            s@ == Map::<Seq<char>, Seq<char>>::empty(),
            s.entries() == Seq::<Url>::empty(),
    {
        Store { urls: Vec::new() }
    }

    /// The index of the record carrying `short`, if any.
    fn index_of(&self, short: &str) -> (r: Option<usize>)
        ensures
            match r {
                Some(i) => i < self.entries().len() && self.entries()[i as int].short@ == short@,
                None => forall|i: int|
                    0 <= i < self.entries().len() ==> self.entries()[i].short@ != short@,
            },
    {
        let key: String = short.to_owned();
        let n = self.urls.len();
        for i in 0..n
            invariant
                n == self.urls.len(),
                key@ == short@,
                forall|j: int| 0 <= j < i ==> self.urls@[j].short@ != short@,
        {
            if self.urls[i].short == key {
                return Some(i);
            }
        }
        None
    }

    /// Inserts the mapping unless its short id is taken. Exactly one of two
    /// `create_url` calls with the same id can succeed.
    pub fn create_url(&mut self, url: &Url) -> (r: Result<(), Error>)
        ensures
            r is Ok <==> create_ok(old(self)@, url.short@),
            !create_ok(old(self)@, url.short@) ==> r == Err::<(), Error>(Error::ShortExists),
            final(self)@ == create_map(old(self)@, url.short@, url.target_url@),
            create_ok(old(self)@, url.short@) ==> final(self).entries()
                == old(self).entries().push(*url),
            !create_ok(old(self)@, url.short@) ==> final(self).entries() == old(self).entries(),
            unique_shorts(final(self).entries()),
    {
        proof {
            use_type_invariant(&*self);
            lemma_map_of_contains(self.urls@, url.short@);
        }
        match self.index_of(url.short.as_str()) {
            Some(_) => Err(Error::ShortExists),
            None => {
                let ghost pre = self.urls@;
                proof {
                    assert(forall|j: int|
                        0 <= j < self.entries().len() ==> self.entries()[j].short@
                            != url.short@);
                }
                let mut urls = Vec::new();
                core::mem::swap(&mut urls, &mut self.urls);
                urls.push(url.clone());
                proof {
                    lemma_unique_push(pre, *url);
                    assert(urls@ =~= pre.push(*url));
                    assert(urls@.drop_last() =~= pre);
                }
                self.urls = urls;
                Ok(())
            },
        }
    }

    /// Removes the mapping with the given short id; fails when it is absent.
    pub fn delete_url(&mut self, short: &str) -> (r: Result<(), Error>)
        ensures
            r is Ok <==> delete_ok(old(self)@, short@),
            !delete_ok(old(self)@, short@) ==> r == Err::<(), Error>(Error::ShortDoesNotExist),
            final(self)@ == delete_map(old(self)@, short@),
            !delete_ok(old(self)@, short@) ==> final(self).entries() == old(self).entries(),
            delete_ok(old(self)@, short@) ==> exists|i: int|
                {
                    &&& 0 <= i < old(self).entries().len()
                    &&& old(self).entries()[i].short@ == short@
                    &&& final(self).entries() == old(self).entries().remove(i)
                },
            unique_shorts(final(self).entries()),
    {
        proof {
            use_type_invariant(&*self);
            lemma_map_of_contains(self.urls@, short@);
        }
        match self.index_of(short) {
            None => Err(Error::ShortDoesNotExist),
            Some(i) => {
                let ghost pre = self.urls@;
                proof {
                    lemma_map_of_remove(pre, i as int);
                    lemma_unique_remove(pre, i as int);
                }
                let mut urls = Vec::new();
                core::mem::swap(&mut urls, &mut self.urls);
                urls.remove(i);
                self.urls = urls;
                Ok(())
            },
        }
    }

    /// Returns the mapping with the given short id; fails when it is absent.
    pub fn get_url(&self, short: &str) -> (r: Result<Url, Error>)
        ensures
            match fetch_of(self@, short@) {
                Some(target) => r is Ok && r->Ok_0.short@ == short@
                    && r->Ok_0.target_url@ == target,
                None => r == Err::<Url, Error>(Error::ShortDoesNotExist),
            },
    {
        proof {
            use_type_invariant(&*self);
            lemma_map_of_contains(self.urls@, short@);
        }
        match self.index_of(short) {
            None => Err(Error::ShortDoesNotExist),
            Some(i) => {
                proof {
                    lemma_map_of_index(self.urls@, i as int);
                }
                Ok(self.urls[i].clone())
            },
        }
    }

    /// Returns up to `max_entries` mappings, oldest first: a limit of zero
    /// yields nothing, and any limit at or above the record count yields
    /// every mapping.
    pub fn list_urls(&self, max_entries: u32) -> (r: Vec<Url>)
        ensures
            r@.len() == vstd::math::min(max_entries as int, self.entries().len() as int),
            forall|i: int| 0 <= i < r@.len() ==> r@[i] == self.entries()[i],
    {
        let mut out: Vec<Url> = Vec::new();
        let n = self.urls.len();
        let limit = if (max_entries as usize) < n {
            max_entries as usize
        } else {
            n
        };
        for i in 0..limit
            invariant
                limit <= self.urls.len(),
                out@.len() == i,
                forall|j: int| 0 <= j < i ==> out@[j] == self.urls@[j],
        {
            out.push(self.urls[i].clone());
        }
        out
    }
}

} // verus!
