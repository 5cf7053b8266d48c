//! The capped append-only voice command log.
//!
//! Appends go at the tail; once more than `HISTORY_CAP` entries would be
//! held, the oldest are discarded from the head, preserving the relative
//! order of the retained, most recent, entries. Recency is defined purely
//! by append order, never by the timestamp carried in an entry.

use vstd::prelude::*;

use crate::HISTORY_CAP;
use crate::bounded::{doc_seq, keep_last, spec_keep_last, vec_of_doc};
use crate::records::VoiceCommand;

verus! {

/// What one append leaves behind: `c` at the tail, the whole capped at
/// `HISTORY_CAP` by dropping the oldest entries from the head.
pub open spec fn spec_append(s: Seq<VoiceCommand>, c: VoiceCommand) -> Seq<VoiceCommand> {
    spec_keep_last(s.push(c), HISTORY_CAP as int)
}

/// The effective read limit: the caller's, or 100 when none is given.
pub open spec fn spec_limit(limit: Option<u32>) -> int {
    match limit {
        Some(l) => l as int,
        None => 100,
    }
}

/// What a read returns: the `min(k, s.len())` most recent entries of `s`,
/// most recent first.
pub open spec fn spec_read(s: Seq<VoiceCommand>, k: int) -> Seq<VoiceCommand> {
    let n = if k < s.len() {
        k
    } else {
        s.len() as int
    };
    Seq::new(n as nat, |i: int| s[s.len() - 1 - i])
}

/// The voice command history log: an ordered sequence, oldest first, of at
/// most `HISTORY_CAP` entries once any append has run.
pub struct HistoryLog {
    entries: Vec<VoiceCommand>,
}

impl View for HistoryLog {
    type V = Seq<VoiceCommand>;

    closed spec fn view(&self) -> Seq<VoiceCommand> {
        self.entries@
    }
}

impl HistoryLog {
    /// The empty log of a fresh namespace.
    pub fn new() -> (r: Self)
        ensures
            r@ == Seq::<VoiceCommand>::empty(),
    {
        HistoryLog { entries: Vec::new() }
    }

    /// The log as decoded from a stored document; an absent or malformed
    /// document (`None`) reads as empty.
    pub fn from_doc(doc: Option<Vec<VoiceCommand>>) -> (r: Self)
        ensures
            r@ == doc_seq(doc),
    {
        HistoryLog { entries: vec_of_doc(doc) }
    }

    /// Appends `command` at the tail and drops the oldest entries when the
    /// cap is exceeded, keeping only the `HISTORY_CAP` most recent.
    pub fn append(&mut self, command: VoiceCommand)
        ensures
            final(self)@ == spec_append(old(self)@, command),
            final(self)@.len() <= HISTORY_CAP,
    {
        self.entries.push(command);
        keep_last(&mut self.entries, HISTORY_CAP);
    }

    /// Returns the `min(limit, len)` most recent entries, most recent
    /// first, where a missing `limit` means 100. Non-destructive.
    pub fn read(&self, limit: Option<u32>) -> (r: Vec<VoiceCommand>)
        ensures
            r@ == spec_read(self@, spec_limit(limit)),
    {
        let lim: usize = match limit {
            Some(l) => l as usize,
            None => 100,
        };
        let n: usize = self.entries.len();
        let k: usize = if lim < n {
            lim
        } else {
            n
        };
        let mut out: Vec<VoiceCommand> = Vec::new();
        let mut i: usize = 0;
        while i < k
            invariant
                i <= k,
                k <= n,
                n == self@.len(),
                k == (if spec_limit(limit) < self@.len() {
                    spec_limit(limit)
                } else {
                    self@.len() as int
                }),
                out@ =~= spec_read(self@, spec_limit(limit)).take(i as int),
            decreases k - i,
        {
            out.push(self.entries[n - 1 - i].clone());
            proof {
                assert(out@ =~= spec_read(self@, spec_limit(limit)).take(i as int + 1));
            }
            i += 1;
        }
        proof {
            assert(spec_read(self@, spec_limit(limit)).take(k as int) =~= spec_read(
                self@,
                spec_limit(limit),
            ));
        }
        out
    }

    /// Resets the log to empty; the namespace itself stays.
    pub fn clear(&mut self)
        ensures
            final(self)@ == Seq::<VoiceCommand>::empty(),
    {
        self.entries = Vec::new();
    }

    /// The entries as a plain vector, oldest first, for the host to encode
    /// and persist.
    pub fn to_entries(&self) -> (r: Vec<VoiceCommand>)
        ensures
            r@ == self@,
    {
        let mut out: Vec<VoiceCommand> = Vec::new();
        let mut i: usize = 0;
        while i < self.entries.len()
            invariant
                i <= self@.len(),
                out@ =~= self@.take(i as int),
            decreases self@.len() - i,
        {
            out.push(self.entries[i].clone());
            proof {
                assert(out@ =~= self@.take(i as int + 1));
            }
            i += 1;
        }
        proof {
            assert(self@.take(self@.len() as int) =~= self@);
        }
        out
    }
}

} // verus!
