//! The transfer producer's decisions: which remote transfers a poll cycle
//! enqueues, how the seen set evolves, and what startup reconciliation does.
//!
//! The unverified shell runs the polling loop: it fetches the remote transfer
//! list, hands each snapshot to [`Producer::poll_cycle`], sends the returned
//! transfers into the pipeline as `QueuedForDownload`, and sleeps one polling
//! interval. On a fetch failure it backs off one interval and retries.

use vstd::prelude::*;

use crate::putio::PutIOTransfer;
use crate::transfer::{spec_fresh_transfer, Transfer};

verus! {

/// Whether some transfer of the snapshot carries this id.
pub open spec fn spec_has_id(snap: Seq<PutIOTransfer>, id: u64) -> bool {
    exists|j: int| 0 <= j < snap.len() && (#[trigger] snap[j]).id == id
}

/// What one poll cycle enqueues, and the seen set it leaves before pruning:
/// the downloadable transfers whose ids are not yet seen, in snapshot order,
/// each marking its id seen as it is taken.
pub open spec fn spec_enqueue(snap: Seq<PutIOTransfer>, seen: Seq<u64>) -> (Seq<PutIOTransfer>, Seq<
    u64,
>)
    decreases snap.len(),
{
    if snap.len() == 0 {
        (Seq::empty(), seen)
    } else {
        let t = snap[0];
        let rest = snap.drop_first();
        if t.file_id is Some && !seen.contains(t.id) {
            let r = spec_enqueue(rest, seen.push(t.id));
            (seq![t] + r.0, r.1)
        } else {
            spec_enqueue(rest, seen)
        }
    }
}

/// The transfers startup reconciliation selects: those owned by the resolved
/// root folder and downloadable, in snapshot order.
pub open spec fn spec_reconcile(snap: Seq<PutIOTransfer>, root: u64) -> Seq<PutIOTransfer>
    decreases snap.len(),
{
    if snap.len() == 0 {
        Seq::empty()
    } else {
        let rest = spec_reconcile(snap.drop_first(), root);
        if snap[0].save_parent_id == Option::Some(root) && snap[0].file_id is Some {
            seq![snap[0]] + rest
        } else {
            rest
        }
    }
}

/// The transfer producer's state: the set of remote transfer ids already
/// enqueued and still active upstream.
pub struct Producer {
    pub seen: Vec<u64>,
}

impl Producer {
    /// A producer that has enqueued nothing yet.
    pub fn new() -> (r: Self)
        ensures
            r.seen@ == Seq::<u64>::empty(),
    {
        Producer { seen: Vec::new() }
    }

    /// Whether this id was already enqueued and is still tracked.
    pub fn seen_contains(&self, id: u64) -> (r: bool)
        ensures
            r == self.seen@.contains(id),
    {
        let mut i: usize = 0;
        while i < self.seen.len()
            invariant
                0 <= i <= self.seen@.len(),
                forall|j: int| 0 <= j < i ==> self.seen@[j] != id,
            decreases self.seen@.len() - i,
        {
            if self.seen[i] == id {
                return true;
            }
            i = i + 1;
        }
        false
    }

    /// One steady-state poll cycle over a snapshot of the remote transfer
    /// list. Returns the transfers to enqueue as `QueuedForDownload`: the
    /// downloadable ones not yet seen, in snapshot order. Their ids are added
    /// to the seen set, which is then pruned to the ids still present in the
    /// snapshot, so an id that disappears upstream becomes eligible again.
    pub fn poll_cycle(&mut self, snapshot: &Vec<PutIOTransfer>) -> (queued: Vec<Transfer>)
        ensures
            queued.len() == spec_enqueue(snapshot@, old(self).seen@).0.len(),
            forall|k: int|
                0 <= k < queued.len() ==> (#[trigger] queued[k]@) == spec_fresh_transfer(
                    spec_enqueue(snapshot@, old(self).seen@).0[k],
                ),
            forall|id: u64|
                #[trigger] final(self).seen@.contains(id) <==> (spec_enqueue(
                    snapshot@,
                    old(self).seen@,
                ).1.contains(id) && spec_has_id(snapshot@, id)),
    {
        let ghost seen0 = self.seen@;
        let mut queued: Vec<Transfer> = Vec::new();
        let ghost mut q_spec: Seq<PutIOTransfer> = Seq::empty();
        proof {
            assert(snapshot@.skip(0) =~= snapshot@);
            assert(q_spec + spec_enqueue(snapshot@, seen0).0 =~= spec_enqueue(snapshot@, seen0).0);
        }
        let mut i: usize = 0;
        while i < snapshot.len()
            invariant
                0 <= i <= snapshot@.len(),
                queued.len() == q_spec.len(),
                forall|k: int|
                    0 <= k < queued.len() ==> (#[trigger] queued[k]@) == spec_fresh_transfer(
                        q_spec[k],
                    ),
                spec_enqueue(snapshot@, seen0).0 == q_spec + spec_enqueue(
                    snapshot@.skip(i as int),
                    self.seen@,
                ).0,
                spec_enqueue(snapshot@, seen0).1 == spec_enqueue(
                    snapshot@.skip(i as int),
                    self.seen@,
                ).1,
            decreases snapshot@.len() - i,
        {
            let ghost pre = snapshot@.skip(i as int);
            proof {
                assert(pre[0] == snapshot@[i as int]);
                assert(pre.drop_first() =~= snapshot@.skip(i + 1));
            }
            let t = &snapshot[i];
            if t.is_downloadable() && !self.seen_contains(t.id) {
                queued.push(Transfer::from(t));
                self.seen.push(t.id);
                proof {
                    q_spec = q_spec + seq![snapshot@[i as int]];
                    assert(spec_enqueue(snapshot@, seen0).0 == q_spec + spec_enqueue(
                        snapshot@.skip(i + 1),
                        self.seen@,
                    ).0) by {
                        assert((q_spec.drop_last() + (seq![snapshot@[i as int]] + spec_enqueue(
                            snapshot@.skip(i + 1),
                            self.seen@,
                        ).0)) =~= q_spec + spec_enqueue(snapshot@.skip(i + 1), self.seen@).0);
                    }
                }
            }
            i = i + 1;
        }
        proof {
            assert(snapshot@.skip(snapshot@.len() as int) =~= Seq::<PutIOTransfer>::empty());
        }
        self.prune(snapshot);
        queued
    }

    /// Prunes the seen set to the ids still present in the snapshot.
    fn prune(&mut self, snapshot: &Vec<PutIOTransfer>)
        ensures
            forall|id: u64|
                #[trigger] final(self).seen@.contains(id) <==> (old(self).seen@.contains(id)
                    && spec_has_id(snapshot@, id)),
    {
        let mut kept: Vec<u64> = Vec::new();
        let mut i: usize = 0;
        while i < self.seen.len()
            invariant
                0 <= i <= self.seen@.len(),
                forall|id: u64|
                    #[trigger] kept@.contains(id) <==> (self.seen@.take(i as int).contains(id)
                        && spec_has_id(snapshot@, id)),
            decreases self.seen@.len() - i,
        {
            let id = self.seen[i];
            let ghost old_kept = kept@;
            let present = snapshot_has_id(snapshot, id);
            if present {
                kept.push(id);
            }
            proof {
                assert(self.seen@.take(i + 1).drop_last() =~= self.seen@.take(i as int));
                assert(self.seen@.take(i + 1).last() == self.seen@[i as int]);
                assert forall|x: u64| #[trigger] kept@.contains(x) implies (self.seen@.take(
                    i + 1,
                ).contains(x) && spec_has_id(snapshot@, x)) by {
                    if old_kept.contains(x) {
                        let j = choose|j: int|
                            0 <= j < i && #[trigger] self.seen@.take(i as int)[j] == x;
                        assert(self.seen@.take(i + 1)[j] == x);
                    } else {
                        let j2 = choose|j2: int| 0 <= j2 < kept@.len() && #[trigger] kept@[j2] == x;
                        assert(present && x == id);
                        assert(self.seen@.take(i + 1)[i as int] == x);
                    }
                }
                assert forall|x: u64|
                    (self.seen@.take(i + 1).contains(x) && spec_has_id(
                        snapshot@,
                        x,
                    )) implies #[trigger] kept@.contains(x) by {
                    let j = choose|j: int|
                        0 <= j <= i && #[trigger] self.seen@.take(i + 1)[j] == x;
                    if j < i {
                        assert(self.seen@.take(i as int)[j] == x);
                        assert(old_kept.contains(x));
                        let j3 = choose|j3: int|
                            0 <= j3 < old_kept.len() && #[trigger] old_kept[j3] == x;
                        assert(kept@[j3] == x);
                    } else {
                        assert(x == self.seen@[i as int]);
                        assert(kept@[kept@.len() - 1] == x);
                    }
                }
            }
            i = i + 1;
        }
        proof {
            assert(self.seen@.take(self.seen@.len() as int) =~= self.seen@);
        }
        self.seen = kept;
    }

    /// Startup reconciliation: selects the transfers already active under the
    /// resolved root folder that are downloadable, so the shell can warm and
    /// validate their planning. Nothing is enqueued and the seen set is left
    /// untouched: a transfer selected here still enters the pipeline only
    /// through a later poll cycle.
    pub fn reconcile_startup(&mut self, snapshot: &Vec<PutIOTransfer>, root_folder_id: u64) -> (to_plan: Vec<Transfer>)
        ensures
            final(self).seen@ == old(self).seen@,
            to_plan.len() == spec_reconcile(snapshot@, root_folder_id).len(),
            forall|k: int|
                0 <= k < to_plan.len() ==> (#[trigger] to_plan[k]@) == spec_fresh_transfer(
                    spec_reconcile(snapshot@, root_folder_id)[k],
                ),
    {
        let mut to_plan: Vec<Transfer> = Vec::new();
        let ghost mut p_spec: Seq<PutIOTransfer> = Seq::empty();
        proof {
            assert(snapshot@.skip(0) =~= snapshot@);
            assert(p_spec + spec_reconcile(snapshot@, root_folder_id) =~= spec_reconcile(
                snapshot@,
                root_folder_id,
            ));
        }
        let mut i: usize = 0;
        while i < snapshot.len()
            invariant
                0 <= i <= snapshot@.len(),
                self.seen@ == old(self).seen@,
                to_plan.len() == p_spec.len(),
                forall|k: int|
                    0 <= k < to_plan.len() ==> (#[trigger] to_plan[k]@) == spec_fresh_transfer(
                        p_spec[k],
                    ),
                spec_reconcile(snapshot@, root_folder_id) == p_spec + spec_reconcile(
                    snapshot@.skip(i as int),
                    root_folder_id,
                ),
            decreases snapshot@.len() - i,
        {
            let ghost pre = snapshot@.skip(i as int);
            proof {
                assert(pre[0] == snapshot@[i as int]);
                assert(pre.drop_first() =~= snapshot@.skip(i + 1));
            }
            let t = &snapshot[i];
            let owned = match t.save_parent_id {
                Option::Some(p) => p == root_folder_id,
                Option::None => false,
            };
            if owned && t.is_downloadable() {
                to_plan.push(Transfer::from(t));
                proof {
                    p_spec = p_spec + seq![snapshot@[i as int]];
                    assert(spec_reconcile(snapshot@, root_folder_id) == p_spec + spec_reconcile(
                        snapshot@.skip(i + 1),
                        root_folder_id,
                    )) by {
                        assert((p_spec.drop_last() + (seq![snapshot@[i as int]] + spec_reconcile(
                            snapshot@.skip(i + 1),
                            root_folder_id,
                        ))) =~= p_spec + spec_reconcile(snapshot@.skip(i + 1), root_folder_id));
                    }
                }
            }
            i = i + 1;
        }
        proof {
            assert(snapshot@.skip(snapshot@.len() as int) =~= Seq::<PutIOTransfer>::empty());
        }
        to_plan
    }
}

proof fn lemma_push_contains(s: Seq<u64>, x: u64, y: u64)
    ensures
        s.push(x).contains(y) <==> (s.contains(y) || x == y),
{
    if s.contains(y) {
        let j = choose|j: int| 0 <= j < s.len() && #[trigger] s[j] == y;
        assert(s.push(x)[j] == y);
    }
    assert(s.push(x)[s.len() as int] == x);
    if s.push(x).contains(y) {
        let j = choose|j: int| 0 <= j < s.push(x).len() && #[trigger] s.push(x)[j] == y;
        if j < s.len() {
            assert(s[j] == y);
        }
    }
}

/// An id already in the seen set is not enqueued by a poll cycle's scan, and
/// stays in the pre-prune seen set the scan leaves.
pub proof fn lemma_enqueue_seen_stays(snap: Seq<PutIOTransfer>, seen: Seq<u64>, id: u64)
    requires
        seen.contains(id),
    ensures
        spec_enqueue(snap, seen).1.contains(id),
        forall|m: int|
            0 <= m < spec_enqueue(snap, seen).0.len() ==> (#[trigger] spec_enqueue(
                snap,
                seen,
            ).0[m]).id != id,
    decreases snap.len(),
{
    if snap.len() == 0 {
    } else {
        let t = snap[0];
        let rest = snap.drop_first();
        let out = spec_enqueue(snap, seen);
        if t.file_id is Some && !seen.contains(t.id) {
            let seen2 = seen.push(t.id);
            lemma_push_contains(seen, t.id, id);
            lemma_enqueue_seen_stays(rest, seen2, id);
            let r = spec_enqueue(rest, seen2);
            assert forall|m: int| 0 <= m < out.0.len() implies (#[trigger] out.0[m]).id != id by {
                if m > 0 {
                    assert(out.0[m] == r.0[m - 1]);
                }
            }
        } else {
            lemma_enqueue_seen_stays(rest, seen, id);
        }
    }
}

/// Every transfer a scan enqueues has its id recorded in the pre-prune seen
/// set, and occurs in the snapshot.
pub proof fn lemma_enqueued_recorded(snap: Seq<PutIOTransfer>, seen: Seq<u64>, k: int)
    requires
        0 <= k < spec_enqueue(snap, seen).0.len(),
    ensures
        spec_enqueue(snap, seen).1.contains(spec_enqueue(snap, seen).0[k].id),
        spec_has_id(snap, spec_enqueue(snap, seen).0[k].id),
    decreases snap.len(),
{
    let t = snap[0];
    let rest = snap.drop_first();
    let out = spec_enqueue(snap, seen);
    if t.file_id is Some && !seen.contains(t.id) {
        let seen2 = seen.push(t.id);
        let r = spec_enqueue(rest, seen2);
        if k == 0 {
            assert(out.0[0] == t);
            assert(seen2[seen.len() as int] == t.id);
            lemma_enqueue_seen_stays(rest, seen2, t.id);
            assert(snap[0].id == t.id);
        } else {
            assert(out.0[k] == r.0[k - 1]);
            lemma_enqueued_recorded(rest, seen2, k - 1);
            let j = choose|j: int| 0 <= j < rest.len() && (#[trigger] rest[j]).id == out.0[k].id;
            assert(snap[j + 1].id == out.0[k].id);
        }
    } else {
        lemma_enqueued_recorded(rest, seen, k);
        let j = choose|j: int| 0 <= j < rest.len() && (#[trigger] rest[j]).id == out.0[k].id;
        assert(snap[j + 1].id == out.0[k].id);
    }
}

/// A downloadable member of the snapshot whose id is not yet seen is
/// enqueued by the scan.
pub proof fn lemma_enqueue_finds_new(snap: Seq<PutIOTransfer>, seen: Seq<u64>, j: int)
    requires
        0 <= j < snap.len(),
        snap[j].file_id is Some,
        !seen.contains(snap[j].id),
    ensures
        exists|k: int|
            0 <= k < spec_enqueue(snap, seen).0.len() && (#[trigger] spec_enqueue(
                snap,
                seen,
            ).0[k]).id == snap[j].id,
    decreases snap.len(),
{
    let t = snap[0];
    let rest = snap.drop_first();
    let out = spec_enqueue(snap, seen);
    let id = snap[j].id;
    if t.file_id is Some && !seen.contains(t.id) {
        let seen2 = seen.push(t.id);
        let r = spec_enqueue(rest, seen2);
        if t.id == id {
            assert(out.0[0] == t);
        } else {
            assert(j >= 1);
            assert(rest[j - 1] == snap[j]);
            lemma_push_contains(seen, t.id, id);
            lemma_enqueue_finds_new(rest, seen2, j - 1);
            let k = choose|k: int| 0 <= k < r.0.len() && (#[trigger] r.0[k]).id == id;
            assert(out.0[k + 1] == r.0[k]);
        }
    } else {
        assert(j >= 1);
        assert(rest[j - 1] == snap[j]);
        lemma_enqueue_finds_new(rest, seen, j - 1);
        let r = spec_enqueue(rest, seen);
        let k = choose|k: int| 0 <= k < r.0.len() && (#[trigger] r.0[k]).id == id;
        assert(out.0[k] == r.0[k]);
    }
}

/// Law (seen-set dedupe): a transfer enqueued by one poll cycle is not
/// enqueued again by the next cycle, whose seen set is the one the first
/// cycle left behind.
pub proof fn lemma_seen_set_dedupe(
    snap1: Seq<PutIOTransfer>,
    seen0: Seq<u64>,
    seen1: Seq<u64>,
    snap2: Seq<PutIOTransfer>,
    k: int,
)
    requires
        forall|id: u64|
            #[trigger] seen1.contains(id) <==> (spec_enqueue(snap1, seen0).1.contains(id)
                && spec_has_id(snap1, id)),
        0 <= k < spec_enqueue(snap1, seen0).0.len(),
    ensures
        forall|m: int|
            0 <= m < spec_enqueue(snap2, seen1).0.len() ==> (#[trigger] spec_enqueue(
                snap2,
                seen1,
            ).0[m]).id != spec_enqueue(snap1, seen0).0[k].id,
{
    let id = spec_enqueue(snap1, seen0).0[k].id;
    lemma_enqueued_recorded(snap1, seen0, k);
    assert(seen1.contains(id));
    lemma_enqueue_seen_stays(snap2, seen1, id);
}

/// Law (seen-set preservation): across one poll cycle, an already-seen id
/// stays in the seen set exactly as long as the snapshot still lists it, and
/// is never part of what the cycle enqueues.
pub proof fn lemma_seen_preserved_or_dropped(
    snap: Seq<PutIOTransfer>,
    seen: Seq<u64>,
    seen_after: Seq<u64>,
    id: u64,
)
    requires
        forall|x: u64|
            #[trigger] seen_after.contains(x) <==> (spec_enqueue(snap, seen).1.contains(x)
                && spec_has_id(snap, x)),
        seen.contains(id),
    ensures
        seen_after.contains(id) <==> spec_has_id(snap, id),
        forall|m: int|
            0 <= m < spec_enqueue(snap, seen).0.len() ==> (#[trigger] spec_enqueue(
                snap,
                seen,
            ).0[m]).id != id,
{
    lemma_enqueue_seen_stays(snap, seen, id);
}

/// Law (re-enqueue after absence): once an id was absent from a cycle's
/// snapshot, the seen set that cycle leaves does not hold it, so a later
/// snapshot that lists it as downloadable gets it enqueued again.
pub proof fn lemma_reenqueue_after_absence(
    snap2: Seq<PutIOTransfer>,
    seen1: Seq<u64>,
    seen2: Seq<u64>,
    snap3: Seq<PutIOTransfer>,
    j: int,
)
    requires
        forall|id: u64|
            #[trigger] seen2.contains(id) <==> (spec_enqueue(snap2, seen1).1.contains(id)
                && spec_has_id(snap2, id)),
        0 <= j < snap3.len(),
        snap3[j].file_id is Some,
        !spec_has_id(snap2, snap3[j].id),
    ensures
        exists|k: int|
            0 <= k < spec_enqueue(snap3, seen2).0.len() && (#[trigger] spec_enqueue(
                snap3,
                seen2,
            ).0[k]).id == snap3[j].id,
{
    assert(!seen2.contains(snap3[j].id));
    lemma_enqueue_finds_new(snap3, seen2, j);
}

/// Whether some transfer of the snapshot carries this id.
pub fn snapshot_has_id(snapshot: &Vec<PutIOTransfer>, id: u64) -> (r: bool)
    ensures
        r == spec_has_id(snapshot@, id),
{
    let mut i: usize = 0;
    while i < snapshot.len()
        invariant
            0 <= i <= snapshot@.len(),
            forall|j: int| 0 <= j < i ==> (#[trigger] snapshot@[j]).id != id,
        decreases snapshot@.len() - i,
    {
        if snapshot[i].id == id {
            return true;
        }
        i = i + 1;
    }
    false
}

/// The heartbeat log line is due once 60 seconds have elapsed since the last
/// one.
pub fn heartbeat_due(elapsed_secs: u64) -> (r: bool)
    ensures
        r == (elapsed_secs >= 60),
{
    elapsed_secs >= 60
}

} // verus!
