//! The texture cache: a content-addressed store from an image key to its
//! decoded size and a host texture handle, deduplicating concurrent loads.
//!
//! The cache itself performs no I/O.  `load` records that a key is wanted
//! and queues a fetch request at most once per outstanding key; the host
//! drains the request queue with `take_requests`, performs the fetches and
//! decodes, and reports back through `loaded` or `load_err`.

use vstd::prelude::*;

verus! {

/// A decoded image: width, height, and the host's opaque texture handle.
#[derive(Clone, Copy, Debug, PartialEq, Eq, Structural)]
pub struct SizedTexture(pub u32, pub u32, pub u64);

/// Whether some element of `s` views to the string `k`.
pub open spec fn contains_str(s: Seq<String>, k: Seq<char>) -> bool {
    exists|i: int| 0 <= i < s.len() && s[i]@ == k
}

/// No two elements view to the same string.
pub open spec fn uniq_strs(s: Seq<String>) -> bool {
    forall|i: int, j: int| 0 <= i < j < s.len() ==> s[i]@ != s[j]@
}

/// No two entries share a key.
pub open spec fn uniq_keys(s: Seq<(String, SizedTexture)>) -> bool {
    forall|i: int, j: int| 0 <= i < j < s.len() ==> s[i].0@ != s[j].0@
}

/// The content-addressed texture store.
///
/// `entries` holds the decoded images, at most one per key; `pending`
/// holds the keys whose fetches are outstanding; `requests` is the queue
/// of fetches the host has not collected yet.
pub struct TextureCache {
    pub entries: Vec<(String, SizedTexture)>,
    pub pending: Vec<String>,
    pub requests: Vec<String>,
}

impl TextureCache {
    pub open spec fn wf(self) -> bool {
        &&& uniq_keys(self.entries@)
        &&& uniq_strs(self.pending@)
    }

    /// Whether a decoded image is stored under `k`.
    pub open spec fn has_entry(self, k: Seq<char>) -> bool {
        exists|i: int| 0 <= i < self.entries@.len() && self.entries@[i].0@ == k
    }

    /// The stored image under `k` (meaningful only when `has_entry(k)`).
    pub open spec fn entry_at(self, k: Seq<char>) -> SizedTexture {
        self.entries@[choose|i: int| 0 <= i < self.entries@.len() && self.entries@[i].0@ == k].1
    }

    /// Whether a fetch for `k` is outstanding.
    pub open spec fn is_pending(self, k: Seq<char>) -> bool {
        contains_str(self.pending@, k)
    }

    /// The keys of the fetch requests the host has not collected yet, in
    /// request order.
    pub open spec fn request_keys(self) -> Seq<Seq<char>> {
        self.requests@.map_values(|s: String| s@)
    }

    /// `load` starts a fetch exactly when the key is neither stored nor
    /// already being fetched.
    pub open spec fn load_decision(self, k: Seq<char>) -> bool {
        !(self.has_entry(k) || self.is_pending(k))
    }

    /// How one `load` of `k` relates the cache before and after the call.
    pub open spec fn load_effect(pre: TextureCache, post: TextureCache, k: Seq<char>) -> bool {
        &&& post.wf()
        &&& post.entries@ == pre.entries@
        &&& if pre.load_decision(k) {
            (forall|k2: Seq<char>| post.is_pending(k2) == (pre.is_pending(k2) || k2 == k))
                && post.request_keys() == pre.request_keys().push(k)
        } else {
            post.pending@ == pre.pending@ && post.requests@ == pre.requests@
        }
    }

    /// How any number of `load` calls over the keys `ks` relates the cache
    /// before and after: entries are untouched, pending marks only grow
    /// and only by keys of `ks`, every key of `ks` ends up stored or
    /// pending, and the request queue grows only by keys of `ks`.
    pub open spec fn load_set_effect(
        pre: TextureCache,
        post: TextureCache,
        ks: Seq<Seq<char>>,
    ) -> bool {
        &&& post.wf()
        &&& post.entries@ == pre.entries@
        &&& forall|k: Seq<char>| pre.is_pending(k) ==> post.is_pending(k)
        &&& forall|k: Seq<char>| post.is_pending(k) ==> pre.is_pending(k) || ks.contains(k)
        &&& forall|i: int| 0 <= i < ks.len() ==> post.is_pending(ks[i]) || post.has_entry(ks[i])
        &&& pre.request_keys().is_prefix_of(post.request_keys())
        &&& forall|i: int|
            pre.request_keys().len() <= i < post.request_keys().len() ==> ks.contains(
                post.request_keys()[i],
            )
    }

    pub fn new() -> (r: TextureCache)
        ensures
            r.entries@.len() == 0,
            r.pending@.len() == 0,
            r.requests@.len() == 0,
            r.wf(),
    {
        TextureCache { entries: Vec::new(), pending: Vec::new(), requests: Vec::new() }
    }

    /// The index of the entry stored under `key`, if any.
    fn find_entry(&self, key: &String) -> (r: Option<usize>)
        ensures
            match r {
                Some(i) => i < self.entries@.len() && self.entries@[i as int].0@ == key@,
                None => !self.has_entry(key@),
            },
    {
        let n = self.entries.len();
        let mut i: usize = 0;
        while i < n
            invariant
                i <= n,
                n == self.entries@.len(),
                forall|j: int| 0 <= j < i ==> self.entries@[j].0@ != key@,
            decreases n - i,
        {
            if self.entries[i].0 == *key {
                return Some(i);
            }
            i = i + 1;
        }
        None
    }

    /// The index of `key` in the pending list, if any.
    fn find_pending(&self, key: &String) -> (r: Option<usize>)
        ensures
            match r {
                Some(i) => i < self.pending@.len() && self.pending@[i as int]@ == key@,
                None => !self.is_pending(key@),
            },
    {
        let n = self.pending.len();
        let mut i: usize = 0;
        while i < n
            invariant
                i <= n,
                n == self.pending@.len(),
                forall|j: int| 0 <= j < i ==> self.pending@[j]@ != key@,
            decreases n - i,
        {
            if self.pending[i] == *key {
                return Some(i);
            }
            i = i + 1;
        }
        None
    }

    /// Request `key`.  Idempotent while the key is stored or in flight: a
    /// repeated call is a no-op and issues no second fetch.
    pub fn load(&mut self, key: &str) -> (issued: bool)
        requires
            old(self).wf(),
        ensures
            final(self).wf(),
            issued == old(self).load_decision(key@),
            final(self).entries@ == old(self).entries@,
            !issued ==> final(self).pending@ == old(self).pending@ && final(self).requests@
                == old(self).requests@,
            issued ==> forall|k: Seq<char>|
                final(self).is_pending(k) == (old(self).is_pending(k) || k == key@),
            issued ==> final(self).request_keys() == old(self).request_keys().push(key@),
            TextureCache::load_effect(*old(self), *final(self), key@),
    {
        let k: String = key.to_owned();
        if let Some(_) = self.find_entry(&k) {
            return false;
        }
        if let Some(_) = self.find_pending(&k) {
            return false;
        }
        let k2: String = key.to_owned();
        self.pending.push(k);
        self.requests.push(k2);
        proof {
            let p0 = old(self).pending@;
            let p1 = self.pending@;
            assert(forall|k2: Seq<char>|
                self.is_pending(k2) == (old(self).is_pending(k2) || k2 == key@)) by {
                assert(forall|i: int| 0 <= i < p0.len() ==> p1[i] == p0[i]);
                assert(p1[p0.len() as int]@ == key@);
                assert(forall|k2: Seq<char>| old(self).is_pending(k2) ==> self.is_pending(k2));
                assert(forall|k2: Seq<char>|
                    self.is_pending(k2) ==> (old(self).is_pending(k2) || k2 == key@)) by {
                    assert forall|k2: Seq<char>| self.is_pending(k2) implies (old(
                        self,
                    ).is_pending(k2) || k2 == key@) by {
                        let i = choose|i: int| 0 <= i < p1.len() && p1[i]@ == k2;
                        if i < p0.len() {
                            assert(old(self).is_pending(k2));
                        } else {
                            assert(k2 == key@);
                        }
                    }
                }
            }
            assert(self.request_keys() =~= old(self).request_keys().push(key@));
        }
        true
    }

    /// Hand the queued fetch requests to the host and clear the queue.
    pub fn take_requests(&mut self) -> (r: Vec<String>)
        ensures
            r@ == old(self).requests@,
            final(self).requests@.len() == 0,
            final(self).entries@ == old(self).entries@,
            final(self).pending@ == old(self).pending@,
    {
        let mut r: Vec<String> = Vec::new();
        core::mem::swap(&mut r, &mut self.requests);
        r
    }

    /// Record a decoded image under `key` and retire its pending fetch.
    pub fn loaded(&mut self, key: &str, w: u32, h: u32, tex: u64)
        requires
            old(self).wf(),
        ensures
            final(self).wf(),
            final(self).has_entry(key@),
            final(self).entry_at(key@) == SizedTexture(w, h, tex),
            forall|k: Seq<char>|
                k != key@ ==> final(self).has_entry(k) == old(self).has_entry(k),
            forall|k: Seq<char>|
                k != key@ && old(self).has_entry(k) ==> final(self).entry_at(k) == old(
                    self,
                ).entry_at(k),
            !final(self).is_pending(key@),
            forall|k: Seq<char>| k != key@ ==> final(self).is_pending(k) == old(self).is_pending(k),
            final(self).requests@ == old(self).requests@,
    {
        let k: String = key.to_owned();
        let found = self.find_entry(&k);
        match found {
            Some(i) => {
                self.entries.set(i, (k, SizedTexture(w, h, tex)));
                proof {
                    assert(self.entries@.len() == old(self).entries@.len());
                    assert(self.entries@[i as int].0@ == key@);
                    assert(forall|j: int|
                        0 <= j < old(self).entries@.len() && j != i ==> self.entries@[j] == old(
                            self,
                        ).entries@[j]);
                    assert(self.entries@[i as int].1 == SizedTexture(w, h, tex));
                    lemma_entries_update_preserves(*old(self), *self, i as int, key@);
                }
            },
            None => {
                self.entries.push((k, SizedTexture(w, h, tex)));
                proof {
                    let e0 = old(self).entries@;
                    let e1 = self.entries@;
                    assert(forall|i: int| 0 <= i < e0.len() ==> e1[i] == e0[i]);
                    assert(e1[e0.len() as int].0@ == key@);
                    lemma_entries_push_preserves(*old(self), *self, key@);
                }
            },
        }
        let ghost mid = *self;
        remove_pending(&mut self.pending, key);
        proof {
            lemma_same_entries(mid, *self);
        }
    }

    /// A failed fetch: the key's pending mark is dropped and nothing is
    /// stored, so only another explicit `load` will retry it.
    pub fn load_err(&mut self, key: &str)
        requires
            old(self).wf(),
        ensures
            final(self).wf(),
            final(self).entries@ == old(self).entries@,
            !final(self).is_pending(key@),
            forall|k: Seq<char>| k != key@ ==> final(self).is_pending(k) == old(self).is_pending(k),
            final(self).requests@ == old(self).requests@,
    {
        remove_pending(&mut self.pending, key);
    }

    /// The whole stored entry under `key`.
    pub fn lookup(&self, key: &str) -> (r: Option<SizedTexture>)
        requires
            self.wf(),
        ensures
            r is Some <==> self.has_entry(key@),
            match r {
                Some(e) => e == self.entry_at(key@),
                None => true,
            },
    {
        let k: String = key.to_owned();
        match self.find_entry(&k) {
            Some(i) => {
                proof {
                    lemma_found_is_entry_at(*self, i as int, key@);
                }
                Some(self.entries[i].1)
            },
            None => None,
        }
    }

    /// The decoded size of the image under `key`, for layout queries.
    pub fn get(&self, key: &str) -> (r: Option<(u32, u32)>)
        requires
            self.wf(),
        ensures
            r is Some <==> self.has_entry(key@),
            match r {
                Some(wh) => wh == (self.entry_at(key@).0, self.entry_at(key@).1),
                None => true,
            },
    {
        let k: String = key.to_owned();
        match self.find_entry(&k) {
            Some(i) => {
                proof {
                    lemma_found_is_entry_at(*self, i as int, key@);
                }
                let e = &self.entries[i].1;
                Some((e.0, e.1))
            },
            None => None,
        }
    }

    /// The texture handle under `key`, for rendering; absent while the
    /// image is still loading (the renderer skips drawing then).
    pub fn get_texture(&self, key: &str) -> (r: Option<u64>)
        requires
            self.wf(),
        ensures
            r is Some <==> self.has_entry(key@),
            match r {
                Some(t) => t == self.entry_at(key@).2,
                None => true,
            },
    {
        let k: String = key.to_owned();
        match self.find_entry(&k) {
            Some(i) => {
                proof {
                    lemma_found_is_entry_at(*self, i as int, key@);
                }
                Some(self.entries[i].1.2)
            },
            None => None,
        }
    }
}

/// Two cache states with the same entry list agree on every lookup.
pub proof fn lemma_same_entries(a: TextureCache, b: TextureCache)
    requires
        a.entries@ == b.entries@,
    ensures
        forall|k: Seq<char>| #[trigger] a.has_entry(k) == b.has_entry(k),
        forall|k: Seq<char>| a.has_entry(k) ==> #[trigger] a.entry_at(k) == b.entry_at(k),
{
    assert forall|k: Seq<char>| #[trigger] a.has_entry(k) == b.has_entry(k) by {
        if a.has_entry(k) {
            let i = choose|i: int| 0 <= i < a.entries@.len() && a.entries@[i].0@ == k;
            assert(b.entries@[i].0@ == k);
        }
        if b.has_entry(k) {
            let i = choose|i: int| 0 <= i < b.entries@.len() && b.entries@[i].0@ == k;
            assert(a.entries@[i].0@ == k);
        }
    }
    assert forall|k: Seq<char>| a.has_entry(k) implies #[trigger] a.entry_at(k) == b.entry_at(
        k,
    ) by {
        let i = choose|i: int| 0 <= i < a.entries@.len() && a.entries@[i].0@ == k;
        assert(b.entries@[i].0@ == k);
    }
}

/// Under unique keys, the entry found at an index is the entry `entry_at`
/// denotes.
proof fn lemma_found_is_entry_at(c: TextureCache, i: int, k: Seq<char>)
    requires
        uniq_keys(c.entries@),
        0 <= i < c.entries@.len(),
        c.entries@[i].0@ == k,
    ensures
        c.has_entry(k),
        c.entry_at(k) == c.entries@[i].1,
{
    let j = choose|j: int| 0 <= j < c.entries@.len() && c.entries@[j].0@ == k;
    if j != i {
        if j < i {
            assert(c.entries@[j].0@ != c.entries@[i].0@);
        } else {
            assert(c.entries@[i].0@ != c.entries@[j].0@);
        }
    }
}

/// Overwriting the entry at the key's own index changes that key alone.
proof fn lemma_entries_update_preserves(c0: TextureCache, c1: TextureCache, i: int, k: Seq<char>)
    requires
        uniq_keys(c0.entries@),
        0 <= i < c0.entries@.len(),
        c0.entries@[i].0@ == k,
        c1.entries@.len() == c0.entries@.len(),
        c1.entries@[i].0@ == k,
        forall|j: int| 0 <= j < c0.entries@.len() && j != i ==> c1.entries@[j] == c0.entries@[j],
    ensures
        uniq_keys(c1.entries@),
        c1.has_entry(k),
        c1.entry_at(k) == c1.entries@[i].1,
        forall|k2: Seq<char>| k2 != k ==> c1.has_entry(k2) == c0.has_entry(k2),
        forall|k2: Seq<char>|
            k2 != k && c0.has_entry(k2) ==> c1.entry_at(k2) == c0.entry_at(k2),
{
    assert forall|a: int, b: int| 0 <= a < b < c1.entries@.len() implies c1.entries@[a].0@
        != c1.entries@[b].0@ by {
        assert(c0.entries@[a].0@ == c1.entries@[a].0@ || a == i);
        assert(c0.entries@[b].0@ == c1.entries@[b].0@ || b == i);
    }
    lemma_found_is_entry_at(c1, i, k);
    assert forall|k2: Seq<char>| k2 != k implies c1.has_entry(k2) == c0.has_entry(k2) by {
        if c0.has_entry(k2) {
            let j = choose|j: int| 0 <= j < c0.entries@.len() && c0.entries@[j].0@ == k2;
            assert(j != i);
            assert(c1.entries@[j].0@ == k2);
        }
        if c1.has_entry(k2) {
            let j = choose|j: int| 0 <= j < c1.entries@.len() && c1.entries@[j].0@ == k2;
            assert(j != i);
            assert(c0.entries@[j].0@ == k2);
        }
    }
    assert forall|k2: Seq<char>| k2 != k && c0.has_entry(k2) implies c1.entry_at(k2)
        == c0.entry_at(k2) by {
        let j = choose|j: int| 0 <= j < c0.entries@.len() && c0.entries@[j].0@ == k2;
        assert(j != i);
        assert(c1.entries@[j].0@ == k2);
        lemma_found_is_entry_at(c1, j, k2);
        lemma_found_is_entry_at(c0, j, k2);
    }
}

/// Appending an entry under a fresh key leaves every other key's lookup
/// unchanged.
proof fn lemma_entries_push_preserves(c0: TextureCache, c1: TextureCache, k: Seq<char>)
    requires
        uniq_keys(c0.entries@),
        !c0.has_entry(k),
        c1.entries@.len() == c0.entries@.len() + 1,
        c1.entries@[c0.entries@.len() as int].0@ == k,
        forall|j: int| 0 <= j < c0.entries@.len() ==> c1.entries@[j] == c0.entries@[j],
    ensures
        uniq_keys(c1.entries@),
        c1.has_entry(k),
        c1.entry_at(k) == c1.entries@[c0.entries@.len() as int].1,
        forall|k2: Seq<char>| k2 != k ==> c1.has_entry(k2) == c0.has_entry(k2),
        forall|k2: Seq<char>|
            k2 != k && c0.has_entry(k2) ==> c1.entry_at(k2) == c0.entry_at(k2),
{
    let n = c0.entries@.len() as int;
    assert forall|a: int, b: int| 0 <= a < b < c1.entries@.len() implies c1.entries@[a].0@
        != c1.entries@[b].0@ by {
        if b < n {
        } else {
            assert(b == n);
            assert(c1.entries@[a].0@ == c0.entries@[a].0@);
            if c1.entries@[a].0@ == k {
                assert(c0.has_entry(k));
            }
        }
    }
    lemma_found_is_entry_at(c1, n, k);
    assert forall|k2: Seq<char>| k2 != k implies c1.has_entry(k2) == c0.has_entry(k2) by {
        if c1.has_entry(k2) {
            let j = choose|j: int| 0 <= j < c1.entries@.len() && c1.entries@[j].0@ == k2;
            assert(j != n);
            assert(c0.entries@[j].0@ == k2);
        }
    }
    assert forall|k2: Seq<char>| k2 != k && c0.has_entry(k2) implies c1.entry_at(k2)
        == c0.entry_at(k2) by {
        let j = choose|j: int| 0 <= j < c0.entries@.len() && c0.entries@[j].0@ == k2;
        assert(c1.entries@[j].0@ == k2);
        lemma_found_is_entry_at(c1, j, k2);
        lemma_found_is_entry_at(c0, j, k2);
    }
}

/// Drop the (unique) occurrence of `key` from a pending list, if present.
fn remove_pending(v: &mut Vec<String>, key: &str)
    requires
        uniq_strs(old(v)@),
    ensures
        uniq_strs(final(v)@),
        !contains_str(final(v)@, key@),
        forall|k: Seq<char>|
            k != key@ ==> contains_str(final(v)@, k) == contains_str(old(v)@, k),
{
    let k: String = key.to_owned();
    let n = v.len();
    let mut i: usize = 0;
    while i < n
        invariant
            i <= n,
            n == v@.len(),
            v@ == old(v)@,
            uniq_strs(v@),
            k@ == key@,
            forall|j: int| 0 <= j < i ==> v@[j]@ != key@,
        decreases n - i,
    {
        if v[i] == k {
            let ghost v0 = v@;
            let ghost ii = i as int;
            v.remove(i);
            proof {
                v0.remove_ensures(ii);
                assert(v@ == v0.remove(ii));
                assert forall|a: int, b: int| 0 <= a < b < v@.len() implies v@[a]@ != v@[b]@ by {
                    let a0 = if a < ii {
                        a
                    } else {
                        a + 1
                    };
                    let b0 = if b < ii {
                        b
                    } else {
                        b + 1
                    };
                    assert(v@[a] == v0[a0]);
                    assert(v@[b] == v0[b0]);
                }
                assert forall|j: int| 0 <= j < v@.len() implies v@[j]@ != key@ by {
                    let j0 = if j < ii {
                        j
                    } else {
                        j + 1
                    };
                    assert(v@[j] == v0[j0]);
                    if j0 != ii && v0[j0]@ == key@ {
                        if j0 < ii {
                            assert(v0[j0]@ != v0[ii]@);
                        } else {
                            assert(v0[ii]@ != v0[j0]@);
                        }
                    }
                }
                assert forall|k2: Seq<char>| k2 != key@ implies contains_str(v@, k2)
                    == contains_str(v0, k2) by {
                    if contains_str(v@, k2) {
                        let j = choose|j: int| 0 <= j < v@.len() && v@[j]@ == k2;
                        let j0 = if j < ii {
                            j
                        } else {
                            j + 1
                        };
                        assert(v@[j] == v0[j0]);
                        assert(contains_str(v0, k2));
                    }
                    if contains_str(v0, k2) {
                        let j0 = choose|j: int| 0 <= j < v0.len() && v0[j]@ == k2;
                        assert(j0 != ii);
                        let j = if j0 < ii {
                            j0
                        } else {
                            j0 - 1
                        };
                        assert(v@[j] == v0[j0]);
                        assert(contains_str(v@, k2));
                    }
                }
            }
            return ;
        }
        i = i + 1;
    }
}

/// One `load` is a `load_set_effect` over the one-key sequence.
pub proof fn lemma_load_effect_single(pre: TextureCache, post: TextureCache, k: Seq<char>)
    requires
        pre.wf(),
        TextureCache::load_effect(pre, post, k),
    ensures
        TextureCache::load_set_effect(pre, post, seq![k]),
{
    lemma_same_entries(pre, post);
    if pre.load_decision(k) {
        assert(post.is_pending(k));
        assert(seq![k].contains(k)) by {
            assert(seq![k][0] == k);
        }
        assert(post.request_keys() == pre.request_keys().push(k));
        assert(pre.request_keys().is_prefix_of(post.request_keys())) by {
            assert(pre.request_keys() =~= post.request_keys().subrange(
                0,
                pre.request_keys().len() as int,
            ));
        }
    } else {
        assert(pre.request_keys().is_prefix_of(post.request_keys())) by {
            assert(pre.request_keys() =~= post.request_keys().subrange(
                0,
                pre.request_keys().len() as int,
            ));
        }
        if pre.has_entry(k) {
            assert(post.has_entry(k));
        } else {
            assert(pre.is_pending(k));
            assert(post.is_pending(k));
        }
        assert(seq![k].contains(k)) by {
            assert(seq![k][0] == k);
        }
    }
}

/// Doing nothing is a `load_set_effect` over no keys.
pub proof fn lemma_load_set_effect_refl(c: TextureCache)
    requires
        c.wf(),
    ensures
        TextureCache::load_set_effect(c, c, Seq::<Seq<char>>::empty()),
{
    assert(c.request_keys().is_prefix_of(c.request_keys())) by {
        assert(c.request_keys() =~= c.request_keys().subrange(0, c.request_keys().len() as int));
    }
}

/// `load_set_effect` composes: the combined run covers the concatenated
/// key lists.
pub proof fn lemma_load_set_effect_trans(
    a: TextureCache,
    b: TextureCache,
    c: TextureCache,
    ks1: Seq<Seq<char>>,
    ks2: Seq<Seq<char>>,
)
    requires
        TextureCache::load_set_effect(a, b, ks1),
        TextureCache::load_set_effect(b, c, ks2),
    ensures
        TextureCache::load_set_effect(a, c, ks1 + ks2),
{
    lemma_same_entries(b, c);
    lemma_same_entries(a, b);
    let ks = ks1 + ks2;
    assert forall|k: Seq<char>| c.is_pending(k) implies a.is_pending(k) || ks.contains(k) by {
        if !a.is_pending(k) {
            if b.is_pending(k) {
                let i = choose|i: int| 0 <= i < ks1.len() && ks1[i] == k;
                assert(ks[i] == k);
            } else {
                let i = choose|i: int| 0 <= i < ks2.len() && ks2[i] == k;
                assert(ks[ks1.len() + i] == k);
            }
        }
    }
    assert forall|i: int| 0 <= i < ks.len() implies c.is_pending(ks[i]) || c.has_entry(ks[i]) by {
        if i < ks1.len() {
            assert(ks[i] == ks1[i]);
            if b.has_entry(ks1[i]) {
                assert(c.has_entry(ks1[i]));
            } else {
                assert(b.is_pending(ks1[i]));
                assert(c.is_pending(ks1[i]));
            }
        } else {
            assert(ks[i] == ks2[i - ks1.len()]);
        }
    }
    assert(a.request_keys().is_prefix_of(c.request_keys())) by {
        assert(a.request_keys() =~= b.request_keys().subrange(
            0,
            a.request_keys().len() as int,
        ));
        assert(b.request_keys() =~= c.request_keys().subrange(
            0,
            b.request_keys().len() as int,
        ));
        assert(a.request_keys() =~= c.request_keys().subrange(
            0,
            a.request_keys().len() as int,
        ));
    }
    assert forall|i: int|
        a.request_keys().len() <= i < c.request_keys().len() implies ks.contains(
        c.request_keys()[i],
    ) by {
        if i < b.request_keys().len() {
            assert(b.request_keys() =~= c.request_keys().subrange(
                0,
                b.request_keys().len() as int,
            ));
            assert(c.request_keys()[i] == b.request_keys()[i]);
            let j = choose|j: int| 0 <= j < ks1.len() && ks1[j] == b.request_keys()[i];
            assert(ks[j] == ks1[j]);
        } else {
            let j = choose|j: int| 0 <= j < ks2.len() && ks2[j] == c.request_keys()[i];
            assert(ks[ks1.len() + j] == ks2[j]);
        }
    }
}

/// A key that is stored or already in flight is never fetched again: a
/// second `load` before the first resolves decides against issuing work.
pub proof fn lemma_load_idempotent(c: TextureCache, k: Seq<char>)
    requires
        c.is_pending(k) || c.has_entry(k),
    ensures
        !c.load_decision(k),
{
}

} // verus!
