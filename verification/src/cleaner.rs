//! The expiry reconciler: one pass scans every lock record, moves overdue
//! active locks to `Outdated`, and deletes terminal records older than the
//! retention window.

use vstd::prelude::*;

use crate::errors::Error;
use crate::models::ProcessView;
use crate::repository::{
    clock_ok, delete_process_by_id, get_running_processes, update_process_status, updated_rec,
    LockStore,
};
use crate::status::{OperationStatus, Origin};

verus! {

/// How long a terminal record is kept before it may be deleted, in seconds.
pub const DEFAULT_DELETION_INTERVAL: u64 = 600;

/// A terminal record is due for deletion once it has sat unchanged longer
/// than the retention window.
pub open spec fn due_delete(p: ProcessView, now: u64, retention: u64) -> bool {
    p.status.is_terminal_spec() && now > p.updated_at + retention
}

/// A non-terminal record is overdue once its SLA has elapsed since creation.
pub open spec fn due_outdate(p: ProcessView, now: u64) -> bool {
    !p.status.is_terminal_spec() && now > p.create_at + p.sla
}

/// What one reconciliation pass at time `now` leaves of the records: due
/// terminal records disappear, overdue active records become `Outdated`
/// stamped at `now`, everything else is untouched.
pub open spec fn pass_spec(s: Seq<ProcessView>, now: u64, retention: u64) -> Seq<ProcessView>
    decreases s.len(),
{
    if s.len() == 0 {
        Seq::empty()
    } else {
        let rest = pass_spec(s.drop_last(), now, retention);
        let p = s.last();
        if due_delete(p, now, retention) {
            rest
        } else if due_outdate(p, now) {
            rest.push(updated_rec(p, OperationStatus::Outdated, now))
        } else {
            rest.push(p)
        }
    }
}

/// Reconciliation is idempotent: a second pass at the same moment, with no
/// writes in between, changes nothing further.
pub proof fn lemma_pass_idempotent(s: Seq<ProcessView>, now: u64, retention: u64)
    ensures
        pass_spec(pass_spec(s, now, retention), now, retention) == pass_spec(s, now, retention),
    decreases s.len(),
{
    if s.len() > 0 {
        lemma_pass_idempotent(s.drop_last(), now, retention);
        let rest = pass_spec(s.drop_last(), now, retention);
        let p = s.last();
        if due_delete(p, now, retention) {
        } else if due_outdate(p, now) {
            let q = updated_rec(p, OperationStatus::Outdated, now);
            assert(pass_spec(s, now, retention) == rest.push(q));
            assert(rest.push(q).drop_last() =~= rest);
            assert(rest.push(q).last() == q);
            assert(!due_delete(q, now, retention) && !due_outdate(q, now));
        } else {
            assert(pass_spec(s, now, retention) == rest.push(p));
            assert(rest.push(p).drop_last() =~= rest);
            assert(rest.push(p).last() == p);
        }
    }
}

/// The background task that runs reconciliation passes.
pub struct Cleaner {
    pub retention: u64,
}

impl Cleaner {
    pub fn new(retention: u64) -> (r: Self)
        ensures
            r.retention == retention,
    {
        Cleaner { retention }
    }

    /// One reconciliation pass at time `now`: scans a snapshot of every
    /// record and applies the expiry and retention rules through the
    /// repository, leaving the store exactly as [`pass_spec`] describes.
    pub fn run(&self, store: &mut LockStore, now: u64) -> (r: Result<(), Error>)
        requires
            old(store).inv(),
            clock_ok(old(store)@, now),
            now >= 1,
        ensures
            final(store).inv(),
            final(store)@ == pass_spec(old(store)@, now, self.retention),
            r == Ok::<(), Error>(()),
    {
        let ghost s0 = store@;
        let snapshot = match get_running_processes(store) {
            Ok(Some(v)) => v,
            Ok(None) => {
                return Ok(());
            },
            Err(_) => {
                return Ok(());
            },
        };
        let n = snapshot.len();
        let mut i: usize = 0;
        while i < n
            invariant
                i <= n,
                n == snapshot.len(),
                snapshot.deep_view() == s0,
                store.inv(),
                clock_ok(store@, now),
                now >= 1,
                store@ == pass_spec(s0.take(i as int), now, self.retention) + s0.skip(i as int),
            decreases n - i,
        {
            let p = &snapshot[i];
            proof {
                assert(snapshot@[i as int]@ == s0[i as int]);
            }
            let ghost pv = s0[i as int];
            let ghost prefix = pass_spec(s0.take(i as int), now, self.retention);
            let ghost m = prefix.len() as int;
            proof {
                assert(s0.skip(i as int)[0] == s0[i as int]);
                assert(store@[m] == pv);
                assert(s0.take(i + 1 as int).drop_last() =~= s0.take(i as int));
                assert(s0.take(i + 1 as int).last() == pv);
            }
            let terminal = p.status.is_terminal();
            if terminal && now > self.retention && now - self.retention > p.updated_at {
                let ghost pre = store@;
                let _ = delete_process_by_id(store, p.process_id.as_str());
                proof {
                    assert(due_delete(pv, now, self.retention));
                    assert(pre[m].process_id == pv.process_id);
                    assert(store@ == pre.remove(m));
                    assert(store@ =~= prefix + s0.skip(i + 1 as int));
                    assert(pass_spec(s0.take(i + 1 as int), now, self.retention) == prefix);
                    assert forall|j: int|
                        0 <= j < store@.len() implies store@[j].create_at <= now && store@[
                        j
                    ].updated_at <= now by {
                        if j < m {
                            assert(store@[j] == pre[j]);
                        } else {
                            assert(store@[j] == pre[j + 1]);
                        }
                    }
                }
            } else if !terminal && now > p.sla && now - p.sla > p.create_at {
                let _ = update_process_status(
                    store,
                    p.process_id.as_str(),
                    OperationStatus::Outdated,
                    now,
                    Origin::Reconciler,
                );
                proof {
                    let ghost pre = pass_spec(s0.take(i as int), now, self.retention) + s0.skip(
                        i as int,
                    );
                    assert(due_outdate(pv, now));
                    assert(!due_delete(pv, now, self.retention));
                    let q = updated_rec(pv, OperationStatus::Outdated, now);
                    assert(store@ == pre.update(m, q));
                    assert(store@ =~= prefix.push(q) + s0.skip(i + 1 as int));
                    assert(pass_spec(s0.take(i + 1 as int), now, self.retention) == prefix.push(
                        q,
                    ));
                }
            } else {
                proof {
                    assert(!due_delete(pv, now, self.retention));
                    assert(!due_outdate(pv, now));
                    assert(pass_spec(s0.take(i + 1 as int), now, self.retention) == prefix.push(
                        pv,
                    ));
                    assert(store@ =~= prefix.push(pv) + s0.skip(i + 1 as int));
                }
            }
            i = i + 1;
        }
        proof {
            assert(s0.take(n as int) =~= s0);
            assert(s0.skip(n as int) =~= Seq::<ProcessView>::empty());
            assert(store@ =~= pass_spec(s0, now, self.retention));
        }
        Ok(())
    }
}

} // verus!
