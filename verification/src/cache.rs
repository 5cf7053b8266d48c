//! The capped, deduplicated document scan cache.
//!
//! Entries are unique by identifier. Putting an entry removes any prior
//! entry with the same identifier and appends the new one at the tail, so a
//! replacement counts as a fresh insertion for recency. On overflow the
//! oldest entries, by insert-or-replace order, are evicted from the head.

use vstd::prelude::*;

use crate::CACHE_CAP;
use crate::bounded::{doc_seq, keep_last, spec_keep_last, vec_of_doc};
use crate::records::CachedScan;

verus! {

/// `s` without every entry whose identifier is `id`; the relative order of
/// the remaining entries is preserved.
pub open spec fn remove_id(s: Seq<CachedScan>, id: Seq<char>) -> Seq<CachedScan>
    decreases s.len(),
{
    if s.len() == 0 {
        Seq::empty()
    } else {
        let rest = remove_id(s.drop_last(), id);
        if s.last().id@ == id {
            rest
        } else {
            rest.push(s.last())
        }
    }
}

/// The first entry of `s` whose identifier is `id`, if any.
pub open spec fn spec_find(s: Seq<CachedScan>, id: Seq<char>) -> Option<CachedScan>
    decreases s.len(),
{
    if s.len() == 0 {
        None
    } else if s[0].id@ == id {
        Some(s[0])
    } else {
        spec_find(s.skip(1), id)
    }
}

/// What one put leaves behind: entries with the new entry's identifier
/// removed, the new entry appended at the tail, the whole capped at
/// `CACHE_CAP` by evicting from the head.
pub open spec fn spec_put(s: Seq<CachedScan>, e: CachedScan) -> Seq<CachedScan> {
    spec_keep_last(remove_id(s, e.id@).push(e), CACHE_CAP as int)
}

/// No two entries of `s` share an identifier.
pub open spec fn unique_ids(s: Seq<CachedScan>) -> bool {
    forall|i: int, j: int| 0 <= i < j < s.len() ==> s[i].id@ != s[j].id@
}

/// The document scan cache: at most `CACHE_CAP` entries, unique by
/// identifier, ordered oldest first by insert-or-replace time.
pub struct ScanCache {
    entries: Vec<CachedScan>,
}

impl View for ScanCache {
    type V = Seq<CachedScan>;

    closed spec fn view(&self) -> Seq<CachedScan> {
        self.entries@
    }
}

impl ScanCache {
    /// The empty cache of a fresh namespace.
    pub fn new() -> (r: Self)
        ensures
            r@ == Seq::<CachedScan>::empty(),
    {
        ScanCache { entries: Vec::new() }
    }

    /// The cache as decoded from a stored document; an absent or malformed
    /// document (`None`) reads as empty.
    pub fn from_doc(doc: Option<Vec<CachedScan>>) -> (r: Self)
        ensures
            r@ == doc_seq(doc),
    {
        ScanCache { entries: vec_of_doc(doc) }
    }

    /// Inserts `scan`, replacing any entry with the same identifier and
    /// placing it at the most-recently-inserted position; evicts the oldest
    /// entries if the cap is exceeded.
    pub fn put(&mut self, scan: CachedScan)
        ensures
            final(self)@ == spec_put(old(self)@, scan),
            final(self)@.len() <= CACHE_CAP,
    {
        let ghost orig = self.entries@;
        let mut kept: Vec<CachedScan> = Vec::new();
        let mut i: usize = 0;
        while i < self.entries.len()
            invariant
                i <= self.entries@.len(),
                self.entries@ == orig,
                kept@ == remove_id(orig.take(i as int), scan.id@),
            decreases self.entries@.len() - i,
        {
            let e = self.entries[i].clone();
            proof {
                assert(orig.take(i as int + 1).drop_last() =~= orig.take(i as int));
                assert(orig.take(i as int + 1).last() == orig[i as int]);
            }
            if !(e.id == scan.id) {
                kept.push(e);
            }
            i += 1;
        }
        proof {
            assert(orig.take(orig.len() as int) =~= orig);
        }
        kept.push(scan);
        keep_last(&mut kept, CACHE_CAP);
        self.entries = kept;
    }

    /// Looks `scan_id` up by linear scan; returns the first (and, when
    /// identifiers are unique, only) match, or `None` if absent.
    pub fn get(&self, scan_id: &String) -> (r: Option<CachedScan>)
        ensures
            r == spec_find(self@, scan_id@),
    {
        let mut i: usize = 0;
        proof {
            assert(self@.skip(0) =~= self@);
        }
        while i < self.entries.len()
            invariant
                i <= self@.len(),
                spec_find(self@, scan_id@) == spec_find(self@.skip(i as int), scan_id@),
            decreases self@.len() - i,
        {
            proof {
                assert(self@.skip(i as int)[0] == self@[i as int]);
            }
            if self.entries[i].id == *scan_id {
                return Some(self.entries[i].clone());
            }
            proof {
                assert(self@.skip(i as int).skip(1) =~= self@.skip(i as int + 1));
            }
            i += 1;
        }
        proof {
            assert(self@.skip(i as int) =~= Seq::<CachedScan>::empty());
        }
        None
    }

    /// Resets the cache to empty; the namespace itself stays.
    pub fn clear(&mut self)
        ensures
            final(self)@ == Seq::<CachedScan>::empty(),
    {
        self.entries = Vec::new();
    }

    /// The entries as a plain vector, oldest first, for the host to encode
    /// and persist.
    pub fn to_entries(&self) -> (r: Vec<CachedScan>)
        ensures
            r@ == self@,
    {
        let mut out: Vec<CachedScan> = Vec::new();
        let mut i: usize = 0;
        while i < self.entries.len()
            invariant
                i <= self@.len(),
                out@ =~= self@.take(i as int),
            decreases self@.len() - i,
        {
            out.push(self.entries[i].clone());
            proof {
                assert(out@ =~= self@.take(i as int + 1));
            }
            i += 1;
        }
        proof {
            assert(self@.take(self@.len() as int) =~= self@);
        }
        out
    }
}

} // verus!
