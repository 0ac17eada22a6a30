//! The dedup log: which media URLs have already been fetched and persisted.
//!
//! The durable form is an append-only, line-delimited text file, one URL per
//! line. The file itself is read and appended outside the library; this type
//! is the in-memory set hydrated from the file's lines at startup and kept in
//! step with every append. A URL present here is never fetched again.

use vstd::prelude::*;
use crate::util::str_eq;

verus! {

/// The set of media URLs already fetched, in the order they were recorded.
pub struct DedupLog {
    entries: Vec<String>,
}

impl View for DedupLog {
    type V = Seq<Seq<char>>;

    closed spec fn view(&self) -> Seq<Seq<char>> {
        self.entries@.map_values(|s: String| s@)
    }
}

impl DedupLog {
    /// Whether a URL is recorded.
    pub open spec fn spec_contains(self, url: Seq<char>) -> bool {
        self@.contains(url)
    }

    /// An empty log: nothing has been fetched yet.
    pub fn new() -> (r: DedupLog)
        ensures
            r@ == Seq::<Seq<char>>::empty(),
    {
        let r = DedupLog { entries: Vec::new() };
        proof {
            assert(r@ =~= Seq::<Seq<char>>::empty());
        }
        r
    }

    /// Hydrates the log from the lines of its backing file, in file order.
    pub fn from_lines(lines: Vec<String>) -> (r: DedupLog)
        ensures
            r@.len() == lines@.len(),
            forall|i: int| 0 <= i < lines@.len() ==> r@[i] == lines@[i]@,
    {
        DedupLog { entries: lines }
    }

    /// How many URLs are recorded.
    pub fn len(&self) -> (r: usize)
        ensures
            r == self@.len(),
    {
        self.entries.len()
    }

    /// Reports whether `url` was already fetched, in this run or an earlier
    /// one.
    pub fn contains(&self, url: &str) -> (r: bool)
        ensures
            r == self.spec_contains(url@),
    {
        let mut i: usize = 0;
        while i < self.entries.len()
            invariant
                i <= self.entries.len(),
                forall|j: int| 0 <= j < i ==> self@[j] != url@,
                self@.len() == self.entries@.len(),
                forall|j: int| 0 <= j < self.entries@.len() ==> self@[j] == self.entries@[j]@,
            decreases self.entries.len() - i,
        {
            if str_eq(&self.entries[i], url) {
                proof {
                    assert(self@[i as int] == url@);
                }
                return true;
            }
            i = i + 1;
        }
        proof {
            if self.spec_contains(url@) {
                let w = choose|w: int| 0 <= w < self@.len() && self@[w] == url@;
                assert(self@[w] != url@);
            }
        }
        false
    }

    /// Records a freshly persisted URL. Nothing is ever removed: the log
    /// after the call holds every URL it held before, plus `url`.
    pub fn record(&mut self, url: String)
        ensures
            final(self)@ == old(self)@.push(url@),
            final(self).spec_contains(url@),
            forall|u: Seq<char>| old(self).spec_contains(u) ==> final(self).spec_contains(u),
    {
        let ghost before = self@;
        self.entries.push(url);
        proof {
            assert(self@ =~= before.push(url@));
            assert(self@[self@.len() - 1] == url@);
            assert forall|u: Seq<char>| before.contains(u) implies self@.contains(u) by {
                let w = choose|w: int| 0 <= w < before.len() && before[w] == u;
                assert(self@[w] == u);
            }
        }
    }
}

/// A URL once recorded is never lost: whatever the log held before a record
/// it still holds afterwards, and the recorded URL is held from then on.
/// This is the append-only invariant of the durable log, stated over the
/// log's contents.
pub proof fn lemma_record_is_append_only(log: Seq<Seq<char>>, added: Seq<char>, u: Seq<char>)
    ensures
        log.contains(u) ==> log.push(added).contains(u),
        log.push(added).contains(added),
{
    if log.contains(u) {
        let w = choose|w: int| 0 <= w < log.len() && log[w] == u;
        assert(log.push(added)[w] == u);
    }
    assert(log.push(added)[log.len() as int] == added);
}

} // verus!
