//! The laws of the bounded collections: what holds of every sequence of
//! operations, proved once and for all over the same spec functions that
//! the executable operations are specified with.

use vstd::prelude::*;

use crate::CACHE_CAP;
use crate::HISTORY_CAP;
use crate::bounded::spec_keep_last;
use crate::cache::{remove_id, spec_find, spec_put, unique_ids};
use crate::history::{spec_append, spec_read};
use crate::records::{CachedScan, VoiceCommand};

verus! {

/// The log left by a whole sequence of appends, oldest first, starting
/// from the empty log.
pub open spec fn apply_appends(cmds: Seq<VoiceCommand>) -> Seq<VoiceCommand>
    decreases cmds.len(),
{
    if cmds.len() == 0 {
        Seq::empty()
    } else {
        spec_append(apply_appends(cmds.drop_last()), cmds.last())
    }
}

/// The cache left by a whole sequence of puts, oldest first, starting from
/// the empty cache.
pub open spec fn apply_puts(scans: Seq<CachedScan>) -> Seq<CachedScan>
    decreases scans.len(),
{
    if scans.len() == 0 {
        Seq::empty()
    } else {
        spec_put(apply_puts(scans.drop_last()), scans.last())
    }
}

/// Law: after any N appends to an empty log, the log holds exactly the
/// `min(N, HISTORY_CAP)` most recently appended entries, in append order.
pub proof fn lemma_history_retention(cmds: Seq<VoiceCommand>)
    ensures
        apply_appends(cmds).len() == vstd::math::min(cmds.len() as int, HISTORY_CAP as int),
        apply_appends(cmds) == cmds.subrange(
            cmds.len() - vstd::math::min(cmds.len() as int, HISTORY_CAP as int),
            cmds.len() as int,
        ),
    decreases cmds.len(),
{
    if cmds.len() == 0 {
        assert(apply_appends(cmds) =~= cmds.subrange(0, 0));
    } else {
        let prefix = cmds.drop_last();
        lemma_history_retention(prefix);
        let m = vstd::math::min(prefix.len() as int, HISTORY_CAP as int);
        let t = apply_appends(prefix).push(cmds.last());
        assert(t =~= cmds.subrange(cmds.len() - 1 - m, cmds.len() as int));
        if t.len() <= HISTORY_CAP {
            assert(apply_appends(cmds) == t);
        } else {
            assert(apply_appends(cmds) =~= cmds.subrange(
                cmds.len() - HISTORY_CAP,
                cmds.len() as int,
            ));
        }
    }
}

/// Removal by identifier leaves no entry with that identifier behind,
/// never grows the sequence, and keeps only entries of the input.
pub proof fn lemma_remove_id_membership(s: Seq<CachedScan>, id: Seq<char>)
    ensures
        remove_id(s, id).len() <= s.len(),
        forall|k: int|
            0 <= k < remove_id(s, id).len() ==> (#[trigger] remove_id(s, id)[k]).id@ != id,
        forall|k: int|
            0 <= k < remove_id(s, id).len() ==> exists|j: int|
                0 <= j < s.len() && #[trigger] remove_id(s, id)[k] == s[j],
    decreases s.len(),
{
    if s.len() > 0 {
        let s0 = s.drop_last();
        lemma_remove_id_membership(s0, id);
        let rest = remove_id(s0, id);
        assert forall|k: int| 0 <= k < remove_id(s, id).len() implies exists|j: int|
            0 <= j < s.len() && #[trigger] remove_id(s, id)[k] == s[j] by {
            if k < rest.len() {
                assert(remove_id(s, id)[k] == rest[k]);
                let j0 = choose|j: int| 0 <= j < s0.len() && rest[k] == s0[j];
                assert(s[j0] == s0[j0]);
            } else {
                assert(remove_id(s, id)[k] == s.last());
                assert(s[s.len() - 1] == s.last());
            }
        }
    }
}

/// Removal by identifier preserves the uniqueness of identifiers.
pub proof fn lemma_remove_id_unique(s: Seq<CachedScan>, id: Seq<char>)
    requires
        unique_ids(s),
    ensures
        unique_ids(remove_id(s, id)),
    decreases s.len(),
{
    if s.len() > 0 {
        let s0 = s.drop_last();
        assert(unique_ids(s0)) by {
            assert(forall|i: int, j: int|
                0 <= i < j < s0.len() ==> s0[i] == s[i] && s0[j] == s[j]);
        }
        lemma_remove_id_unique(s0, id);
        lemma_remove_id_membership(s0, id);
        let rest = remove_id(s0, id);
        if s.last().id@ != id {
            assert forall|i: int, j: int| 0 <= i < j < remove_id(s, id).len() implies remove_id(
                s,
                id,
            )[i].id@ != remove_id(s, id)[j].id@ by {
                if j < rest.len() {
                    assert(remove_id(s, id)[i] == rest[i] && remove_id(s, id)[j] == rest[j]);
                } else {
                    assert(remove_id(s, id)[i] == rest[i]);
                    assert(remove_id(s, id)[j] == s.last());
                    let j0 = choose|t: int| 0 <= t < s0.len() && rest[i] == s0[t];
                    assert(s[j0] == s0[j0]);
                    assert(s[j0].id@ != s[s.len() - 1].id@);
                }
            }
        }
    }
}

/// Capping a sequence preserves the uniqueness of identifiers.
pub proof fn lemma_keep_last_unique(s: Seq<CachedScan>, n: int)
    requires
        unique_ids(s),
        n >= 0,
    ensures
        unique_ids(spec_keep_last(s, n)),
{
    if s.len() > n {
        assert forall|i: int, j: int| 0 <= i < j < spec_keep_last(s, n).len() implies spec_keep_last(
            s,
            n,
        )[i].id@ != spec_keep_last(s, n)[j].id@ by {
            assert(spec_keep_last(s, n)[i] == s[s.len() - n + i]);
            assert(spec_keep_last(s, n)[j] == s[s.len() - n + j]);
        }
    }
}

/// Law: one put on a cache with unique identifiers leaves the identifiers
/// unique and the cache within its cap.
pub proof fn lemma_put_preserves_wf(s: Seq<CachedScan>, e: CachedScan)
    requires
        unique_ids(s),
    ensures
        unique_ids(spec_put(s, e)),
        spec_put(s, e).len() <= CACHE_CAP,
{
    lemma_remove_id_membership(s, e.id@);
    lemma_remove_id_unique(s, e.id@);
    let rest = remove_id(s, e.id@);
    let r = rest.push(e);
    assert(unique_ids(r)) by {
        assert forall|i: int, j: int| 0 <= i < j < r.len() implies r[i].id@ != r[j].id@ by {
            if j < rest.len() {
                assert(r[i] == rest[i] && r[j] == rest[j]);
            } else {
                assert(r[i] == rest[i] && r[j] == e);
            }
        }
    }
    lemma_keep_last_unique(r, CACHE_CAP as int);
}

/// Law: after any sequence of puts with possibly repeated identifiers,
/// starting from the empty cache, the cache never holds two entries with
/// the same identifier and never exceeds `CACHE_CAP` entries.
pub proof fn lemma_cache_bounded_and_deduplicated(scans: Seq<CachedScan>)
    ensures
        unique_ids(apply_puts(scans)),
        apply_puts(scans).len() <= CACHE_CAP,
    decreases scans.len(),
{
    if scans.len() > 0 {
        lemma_cache_bounded_and_deduplicated(scans.drop_last());
        lemma_put_preserves_wf(apply_puts(scans.drop_last()), scans.last());
    }
}

/// A sequence whose last entry alone carries `id` finds that entry.
pub proof fn lemma_find_last(t: Seq<CachedScan>, id: Seq<char>)
    requires
        t.len() >= 1,
        t.last().id@ == id,
        forall|k: int| 0 <= k < t.len() - 1 ==> (#[trigger] t[k]).id@ != id,
    ensures
        spec_find(t, id) == Some(t.last()),
    decreases t.len(),
{
    if t.len() == 1 {
        assert(t[0] == t.last());
    } else {
        assert(t[0].id@ != id);
        let t1 = t.skip(1);
        assert(t1.last() == t.last());
        assert forall|k: int| 0 <= k < t1.len() - 1 implies (#[trigger] t1[k]).id@ != id by {
            assert(t1[k] == t[k + 1]);
        }
        lemma_find_last(t1, id);
    }
}

/// Law: putting an entry whose identifier already exists replaces the
/// prior entry and repositions it as most recently added: it stands at the
/// tail, a lookup of its identifier yields the new content, and ahead of
/// it stand the other entries in their old order, capped to the remaining
/// room by evicting the oldest first.
pub proof fn lemma_put_moves_to_tail(s: Seq<CachedScan>, e: CachedScan)
    ensures
        spec_put(s, e).len() >= 1,
        spec_put(s, e).last() == e,
        spec_put(s, e).drop_last() == spec_keep_last(remove_id(s, e.id@), CACHE_CAP as int - 1),
        spec_find(spec_put(s, e), e.id@) == Some(e),
{
    lemma_remove_id_membership(s, e.id@);
    let rest = remove_id(s, e.id@);
    let r = rest.push(e);
    let p = spec_put(s, e);
    if r.len() <= CACHE_CAP {
        assert(p == r);
        assert(p.drop_last() =~= rest);
        assert(spec_keep_last(rest, CACHE_CAP as int - 1) == rest);
    } else {
        assert(p =~= r.subrange(r.len() - CACHE_CAP, r.len() as int));
        assert(p.last() == e);
        assert(p.drop_last() =~= rest.subrange(
            rest.len() - (CACHE_CAP as int - 1),
            rest.len() as int,
        ));
        assert(p.drop_last() =~= spec_keep_last(rest, CACHE_CAP as int - 1));
    }
    assert forall|k: int| 0 <= k < p.len() - 1 implies (#[trigger] p[k]).id@ != e.id@ by {
        if r.len() <= CACHE_CAP {
            assert(p[k] == rest[k]);
        } else {
            assert(p[k] == rest[rest.len() - (CACHE_CAP as int - 1) + k]);
        }
    }
    lemma_find_last(p, e.id@);
}

/// Law: two appends serialized on the empty log — in whichever order the
/// per-namespace lock grants them; swap `a` and `b` for the other order —
/// leave a log of length two holding both entries: neither update is lost.
pub proof fn lemma_no_lost_update(a: VoiceCommand, b: VoiceCommand)
    ensures
        spec_append(spec_append(Seq::empty(), a), b) == seq![a, b],
{
    assert(Seq::empty().push(a) =~= seq![a]);
    assert(seq![a].push(b) =~= seq![a, b]);
    assert(spec_append(spec_append(Seq::empty(), a), b) =~= seq![a, b]);
}

/// Law: a cleared history reads as the empty list under every limit, and
/// an append to it behaves exactly as on a fresh namespace: the log
/// becomes the single new entry.
pub proof fn lemma_clear_resets_history(c: VoiceCommand)
    ensures
        forall|k: int|
            0 <= k ==> #[trigger] spec_read(Seq::<VoiceCommand>::empty(), k) == Seq::<
                VoiceCommand,
            >::empty(),
        spec_append(Seq::<VoiceCommand>::empty(), c) == seq![c],
{
    assert forall|k: int| 0 <= k implies #[trigger] spec_read(Seq::<VoiceCommand>::empty(), k)
        == Seq::<VoiceCommand>::empty() by {
        assert(spec_read(Seq::<VoiceCommand>::empty(), k) =~= Seq::<VoiceCommand>::empty());
    }
    assert(Seq::<VoiceCommand>::empty().push(c) =~= seq![c]);
    assert(spec_append(Seq::<VoiceCommand>::empty(), c) =~= seq![c]);
}

} // verus!
