//! The service-level guarantees, stated over the same models the repository
//! and reconciler contracts use, and proved once and for all.

use vstd::prelude::*;

use crate::models::ProcessView;
use crate::repository::{
    at_most_one_active, has_active, is_active_for, new_process_view, updated_rec,
};
use crate::status::{
    client_transition_allowed, reconciler_transition_allowed, transition_allowed,
    OperationStatus, Origin,
};

verus! {

/// After a successful acquisition the key holds an active record, so — by
/// the contract of `create_new_process` — any further acquisition for the
/// same key is refused with `Conflict` as long as that record stays
/// non-terminal.
pub proof fn lemma_acquire_then_conflict(
    s: Seq<ProcessView>,
    app: Seq<char>,
    pn: Seq<char>,
    sla: u64,
    now: u64,
    id: Seq<char>,
)
    ensures
        has_active(s.push(new_process_view(app, pn, sla, now, id)), app, pn),
{
    let t = s.push(new_process_view(app, pn, sla, now, id));
    assert(is_active_for(t[t.len() - 1], app, pn));
}

/// Once the key's single active record is moved to a terminal status, the
/// key holds no active record any more: the next acquisition succeeds.
pub proof fn lemma_release_reopens(
    s: Seq<ProcessView>,
    i: int,
    st: OperationStatus,
    now: u64,
    app: Seq<char>,
    pn: Seq<char>,
)
    requires
        at_most_one_active(s),
        0 <= i < s.len(),
        is_active_for(s[i], app, pn),
        st.is_terminal_spec(),
    ensures
        !has_active(s.update(i, updated_rec(s[i], st, now)), app, pn),
{
    let t = s.update(i, updated_rec(s[i], st, now));
    assert forall|j: int| 0 <= j < t.len() implies !is_active_for(t[j], app, pn) by {
        if j != i {
            assert(t[j] == s[j]);
            if is_active_for(s[j], app, pn) {
                if i < j {
                    assert(!(s[i].is_active() && s[j].is_active()));
                } else {
                    assert(!(s[j].is_active() && s[i].is_active()));
                }
            }
        }
    }
}

/// A status change to `Outdated` is accepted only on the reconciler path:
/// the state machine rejects every client-issued transition into
/// `Outdated`, while the reconciler may apply it to any non-terminal
/// record.
pub proof fn lemma_outdated_only_via_reconciler(from: OperationStatus)
    ensures
        !client_transition_allowed(from, OperationStatus::Outdated),
        reconciler_transition_allowed(from, OperationStatus::Outdated) == (
        !from.is_terminal_spec()),
{
}

/// A terminal status admits no transition at all, from either path — not
/// even a retry of the same terminal status — so `update_process_status`
/// answers `InvalidTransition` for every request on a terminal record.
pub proof fn lemma_terminal_is_final(from: OperationStatus, to: OperationStatus, origin: Origin)
    ensures
        from.is_terminal_spec() ==> !transition_allowed(from, to, origin),
{
}

} // verus!
