//! The bounded lookup cache: two independent memoizing maps, one from user
//! ids to display names and one from media URLs to decoded artifacts.
//!
//! Each map holds at most a fixed number of entries and evicts the least
//! recently used one when full. A cached value is treated as stable for the
//! run: there is no invalidation. Eviction never loses correctness — the
//! cache never invents a binding, so a miss merely repeats a lookup.

use vstd::prelude::*;
use crate::media::Image;
use crate::util::str_eq;

verus! {

/// The value bound to `k` in an association list, scanning entries from most
/// recently used (the back) to least recently used (the front).
pub open spec fn spec_assoc<V>(s: Seq<(String, V)>, k: Seq<char>) -> Option<V>
    decreases s.len(),
{
    if s.len() == 0 {
        None
    } else if s.last().0@ == k {
        Some(s.last().1)
    } else {
        spec_assoc(s.drop_last(), k)
    }
}

/// No two entries share a key.
pub open spec fn unique_keys<V>(s: Seq<(String, V)>) -> bool {
    forall|i: int, j: int| 0 <= i < j < s.len() ==> s[i].0@ != s[j].0@
}

/// A key is unbound exactly when no entry carries it.
pub proof fn lemma_assoc_absent<V>(s: Seq<(String, V)>, k: Seq<char>)
    ensures
        (spec_assoc(s, k) is None) <==> (forall|i: int| 0 <= i < s.len() ==> s[i].0@ != k),
    decreases s.len(),
{
    if s.len() > 0 {
        lemma_assoc_absent(s.drop_last(), k);
        assert(forall|i: int| 0 <= i < s.len() - 1 ==> s.drop_last()[i] == s[i]);
        assert(s.last() == s[s.len() - 1]);
    }
}

/// With unique keys, the entry at `i` is what its key is bound to.
pub proof fn lemma_assoc_at<V>(s: Seq<(String, V)>, i: int)
    requires
        unique_keys(s),
        0 <= i < s.len(),
    ensures
        spec_assoc(s, s[i].0@) == Some(s[i].1),
    decreases s.len(),
{
    if i == s.len() - 1 {
    } else {
        assert(s.last().0@ != s[i].0@);
        assert(forall|m: int| 0 <= m < s.len() - 1 ==> s.drop_last()[m] == s[m]);
        lemma_assoc_at(s.drop_last(), i);
    }
}

/// Removing the entry at `i` leaves every key it does not carry bound as
/// before.
pub proof fn lemma_assoc_remove<V>(s: Seq<(String, V)>, i: int, k: Seq<char>)
    requires
        0 <= i < s.len(),
        s[i].0@ != k,
    ensures
        spec_assoc(s.remove(i), k) == spec_assoc(s, k),
    decreases s.len(),
{
    if i == s.len() - 1 {
        assert(s.remove(i) =~= s.drop_last());
    } else {
        assert(s.remove(i).len() == s.len() - 1);
        assert(s.remove(i).last() == s.last());
        if s.last().0@ == k {
        } else {
            assert(s.remove(i).drop_last() =~= s.drop_last().remove(i));
            assert(s.drop_last()[i] == s[i]);
            lemma_assoc_remove(s.drop_last(), i, k);
        }
    }
}

/// Binding a fresh key binds exactly that key and nothing else.
pub proof fn lemma_assoc_push<V>(s: Seq<(String, V)>, e: (String, V), k: Seq<char>)
    ensures
        spec_assoc(s.push(e), k) == if e.0@ == k {
            Some(e.1)
        } else {
            spec_assoc(s, k)
        },
{
    assert(s.push(e).drop_last() =~= s);
    assert(s.push(e).last() == e);
}

/// One bounded memoizing map with least-recently-used eviction. The most
/// recently used entry sits at the back.
pub struct LruMap<V> {
    cap: usize,
    entries: Vec<(String, V)>,
}

impl<V> LruMap<V> {
    /// The entries, least recently used first.
    pub closed spec fn contents(self) -> Seq<(String, V)> {
        self.entries@
    }

    /// The capacity the map was made with.
    pub closed spec fn spec_cap(self) -> usize {
        self.cap
    }

    /// The value bound to `k`.
    pub open spec fn spec_get(self, k: Seq<char>) -> Option<V> {
        spec_assoc(self.contents(), k)
    }

    /// Bounded, with unique keys.
    pub open spec fn wf(self) -> bool {
        &&& self.spec_cap() >= 1
        &&& self.contents().len() <= self.spec_cap()
        &&& unique_keys(self.contents())
    }

    /// An empty map that will hold at most `cap` entries.
    pub fn new(cap: usize) -> (r: Self)
        requires
            cap >= 1,
        ensures
            r.wf(),
            r.spec_cap() == cap,
            forall|k: Seq<char>| r.spec_get(k) is None,
    {
        let r = LruMap { cap, entries: Vec::new() };
        proof {
            assert forall|k: Seq<char>| r.spec_get(k) is None by {
                lemma_assoc_absent(r.contents(), k);
            }
        }
        r
    }

    /// Looks `k` up without touching the use order.
    #[verifier::loop_isolation(false)]
    pub fn lookup(&self, k: &str) -> (r: Option<&V>)
        ensures
            match r {
                Some(v) => self.spec_get(k@) == Some(*v),
                None => self.spec_get(k@) is None,
            },
    {
        proof {
            assert(self.contents().subrange(0, self.contents().len() as int) =~= self.contents());
        }
        let mut i: usize = self.entries.len();
        while i > 0
            invariant
                i <= self.entries.len(),
                spec_assoc(self.contents(), k@) == spec_assoc(
                    self.contents().subrange(0, i as int),
                    k@,
                ),
            decreases i,
        {
            let j = i - 1;
            let ghost pre = self.contents().subrange(0, i as int);
            proof {
                assert(pre.last() == self.contents()[j as int]);
                assert(pre.drop_last() =~= self.contents().subrange(0, j as int));
            }
            if str_eq(&self.entries[j].0, k) {
                return Some(&self.entries[j].1);
            }
            i = j;
        }
        proof {
            assert(self.contents().subrange(0, 0) =~= Seq::<(String, V)>::empty());
        }
        None
    }

    /// Marks `k` as most recently used, leaving every binding as it was:
    /// when `k` is bound, its entry stands at the back afterwards.
    #[verifier::loop_isolation(false)]
    pub fn touch(&mut self, k: &str)
        requires
            old(self).wf(),
        ensures
            final(self).wf(),
            final(self).spec_cap() == old(self).spec_cap(),
            final(self).contents().len() == old(self).contents().len(),
            forall|k2: Seq<char>|
                #[trigger] final(self).spec_get(k2) == old(self).spec_get(k2),
            old(self).spec_get(k@) is Some ==> {
                let entries = final(self).contents();
                entries.len() > 0 && entries.last().0@ == k@
            },
    {
        let ghost s0 = self.contents();
        let mut i: usize = 0;
        while i < self.entries.len()
            invariant
                i <= self.entries.len(),
                self.spec_cap() == old(self).spec_cap(),
                self.contents() == s0,
                forall|j: int| 0 <= j < i ==> s0[j].0@ != k@,
            decreases self.entries.len() - i,
        {
            if str_eq(&self.entries[i].0, k) {
                let ghost idx = i as int;
                let e = self.entries.remove(i);
                self.entries.push(e);
                proof {
                    let s1 = s0.remove(idx);
                    assert(s1 =~= s0.subrange(0, idx) + s0.subrange(idx + 1, s0.len() as int));
                    assert(forall|m: int| 0 <= m < idx ==> s1[m] == s0[m]);
                    assert(forall|m: int| idx <= m < s1.len() ==> s1[m] == s0[m + 1]);
                    assert(self.contents() =~= s1.push(s0[idx]));
                    assert forall|m: int, n: int|
                        0 <= m < n < s1.len() implies s1[m].0@ != s1[n].0@ by {
                        assert(s1[m] == if m < idx {
                            s0[m]
                        } else {
                            s0[m + 1]
                        });
                        assert(s1[n] == if n < idx {
                            s0[n]
                        } else {
                            s0[n + 1]
                        });
                    }
                    assert forall|m: int| 0 <= m < s1.len() implies s1[m].0@ != s0[idx].0@ by {
                        assert(s1[m] == if m < idx {
                            s0[m]
                        } else {
                            s0[m + 1]
                        });
                    }
                    assert forall|k2: Seq<char>|
                        #[trigger] spec_assoc(self.contents(), k2) == spec_assoc(s0, k2) by {
                        lemma_assoc_push(s1, s0[idx], k2);
                        if s0[idx].0@ == k2 {
                            lemma_assoc_at(s0, idx);
                        } else {
                            lemma_assoc_remove(s0, idx, k2);
                        }
                    }
                }
                return ;
            }
            i = i + 1;
        }
        proof {
            lemma_assoc_absent(s0, k@);
        }
    }

    /// Binds a fresh key, evicting the least recently used entry when full.
    /// Below capacity, the new entry simply joins at the back; at capacity,
    /// the front (least recently used) entry leaves and the new entry joins
    /// at the back. The new key is bound to the new value; every other key
    /// is bound as before or, when its entry was the one evicted, not at
    /// all. The cache never invents a binding.
    pub fn insert(&mut self, k: String, v: V)
        requires
            old(self).wf(),
            old(self).spec_get(k@) is None,
        ensures
            final(self).wf(),
            final(self).spec_cap() == old(self).spec_cap(),
            old(self).contents().len() < old(self).spec_cap() ==> final(self).contents() == old(
                self,
            ).contents().push((k, v)),
            old(self).contents().len() >= old(self).spec_cap() ==> final(self).contents() == old(
                self,
            ).contents().drop_first().push((k, v)),
            final(self).spec_get(k@) == Some(v),
            forall|k2: Seq<char>|
                k2 != k@ ==> (#[trigger] final(self).spec_get(k2) == old(self).spec_get(k2)
                    || final(self).spec_get(k2) is None),
            old(self).contents().len() < old(self).spec_cap() ==> forall|k2: Seq<char>|
                k2 != k@ ==> #[trigger] final(self).spec_get(k2) == old(self).spec_get(k2),
    {
        let ghost s0 = self.contents();
        proof {
            lemma_assoc_absent(s0, k@);
        }
        if self.entries.len() >= self.cap {
            let _evicted = self.entries.remove(0);
            proof {
                let s1 = s0.remove(0);
                assert(self.contents() =~= s1);
                assert(s1 =~= s0.drop_first());
                assert(forall|m: int| 0 <= m < s1.len() ==> s1[m] == s0[m + 1]);
            }
        }
        let ghost s1 = self.contents();
        self.entries.push((k, v));
        proof {
            assert(self.contents() =~= s1.push((k, v)));
            assert(forall|m: int| 0 <= m < s1.len() ==> s1[m].0@ != k@);
            assert forall|m: int, n: int|
                0 <= m < n < self.contents().len() implies self.contents()[m].0@
                != self.contents()[n].0@ by {}
            lemma_assoc_push(s1, (k, v), k@);
            assert forall|k2: Seq<char>|
                k2 != k@ implies (#[trigger] spec_assoc(self.contents(), k2) == spec_assoc(s0, k2)
                || spec_assoc(self.contents(), k2) is None) by {
                lemma_assoc_push(s1, (k, v), k2);
                if s1 =~= s0 {
                } else {
                    if s0[0].0@ == k2 {
                        lemma_assoc_absent(s1, k2);
                        if spec_assoc(s1, k2) is Some {
                            let w = choose|w: int|
                                0 <= w < s1.len() && s1[w].0@ == k2;
                        }
                    } else {
                        lemma_assoc_remove(s0, 0, k2);
                    }
                }
            }
            if s0.len() < self.spec_cap() {
                assert(s1 == s0);
                assert forall|k2: Seq<char>|
                    k2 != k@ implies #[trigger] spec_assoc(self.contents(), k2) == spec_assoc(
                    s0,
                    k2,
                ) by {
                    lemma_assoc_push(s1, (k, v), k2);
                }
            }
        }
    }
}

/// The bounded lookup cache of the pipeline: user id to display name, and
/// media URL to decoded artifact. The two maps are independent.
pub struct LookupCache {
    names: LruMap<String>,
    media: LruMap<Image>,
}

impl LookupCache {
    /// The display name bound to a user id.
    pub open spec fn spec_name(self, id: Seq<char>) -> Option<String> {
        self.names_map().spec_get(id)
    }

    /// The artifact bound to a media URL.
    pub open spec fn spec_media(self, url: Seq<char>) -> Option<Image> {
        self.media_map().spec_get(url)
    }

    /// The name map.
    pub closed spec fn names_map(self) -> LruMap<String> {
        self.names
    }

    /// The media map.
    pub closed spec fn media_map(self) -> LruMap<Image> {
        self.media
    }

    /// Both maps bounded and well formed.
    pub open spec fn wf(self) -> bool {
        self.names_map().wf() && self.media_map().wf()
    }

    /// An empty cache; each of the two maps holds at most `cap` entries.
    pub fn new(cap: usize) -> (r: LookupCache)
        requires
            cap >= 1,
        ensures
            r.wf(),
            r.names_map().spec_cap() == cap,
            r.media_map().spec_cap() == cap,
            forall|k: Seq<char>| r.spec_name(k) is None,
            forall|k: Seq<char>| r.spec_media(k) is None,
    {
        LookupCache { names: LruMap::new(cap), media: LruMap::new(cap) }
    }

    /// The memoized display name of a user id, if present.
    pub fn display_name(&self, id: &str) -> (r: Option<&String>)
        ensures
            match r {
                Some(v) => self.spec_name(id@) == Some(*v),
                None => self.spec_name(id@) is None,
            },
    {
        self.names.lookup(id)
    }

    /// Memoizes a display name just resolved; the media map is untouched.
    pub fn remember_name(&mut self, id: String, name: String)
        requires
            old(self).wf(),
            old(self).spec_name(id@) is None,
        ensures
            final(self).wf(),
            final(self).spec_name(id@) == Some(name),
            forall|k2: Seq<char>|
                k2 != id@ ==> (#[trigger] final(self).spec_name(k2) == old(self).spec_name(k2)
                    || final(self).spec_name(k2) is None),
            forall|k2: Seq<char>| #[trigger] final(self).spec_media(k2) == old(self).spec_media(k2),
    {
        self.names.insert(id, name);
    }

    /// Marks a user id as most recently used.
    pub fn touch_name(&mut self, id: &str)
        requires
            old(self).wf(),
        ensures
            final(self).wf(),
            forall|k2: Seq<char>| #[trigger] final(self).spec_name(k2) == old(self).spec_name(k2),
            forall|k2: Seq<char>| #[trigger] final(self).spec_media(k2) == old(self).spec_media(k2),
    {
        self.names.touch(id);
    }

    /// The memoized artifact of a media URL, if present.
    pub fn media(&self, url: &str) -> (r: Option<&Image>)
        ensures
            match r {
                Some(v) => self.spec_media(url@) == Some(*v),
                None => self.spec_media(url@) is None,
            },
    {
        self.media.lookup(url)
    }

    /// Memoizes an artifact just fetched; the name map is untouched.
    pub fn remember_media(&mut self, url: String, img: Image)
        requires
            old(self).wf(),
            old(self).spec_media(url@) is None,
        ensures
            final(self).wf(),
            final(self).spec_media(url@) == Some(img),
            forall|k2: Seq<char>|
                k2 != url@ ==> (#[trigger] final(self).spec_media(k2) == old(self).spec_media(k2)
                    || final(self).spec_media(k2) is None),
            forall|k2: Seq<char>| #[trigger] final(self).spec_name(k2) == old(self).spec_name(k2),
    {
        self.media.insert(url, img);
    }

    /// Marks a media URL as most recently used.
    pub fn touch_media(&mut self, url: &str)
        requires
            old(self).wf(),
        ensures
            final(self).wf(),
            forall|k2: Seq<char>| #[trigger] final(self).spec_name(k2) == old(self).spec_name(k2),
            forall|k2: Seq<char>| #[trigger] final(self).spec_media(k2) == old(self).spec_media(k2),
    {
        self.media.touch(url);
    }
}

} // verus!
