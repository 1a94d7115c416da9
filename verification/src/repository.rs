//! The lock repository: creating, reading, filtering, updating and deleting
//! lock records, with the "no duplicate active lock" check.
//!
//! The repository operates on a [`LockStore`], the core's view of the record
//! collection held by the persistence collaborator. Every operation states
//! exactly how it changes that collection and which error it returns on
//! which inputs.

use vstd::prelude::*;

use crate::errors::Error;
use crate::models::{Process, ProcessView};
use crate::query::{
    condition_str, contains_where, table_ref_str, Conditions, ParamView, Parameter, QueryBuilder,
};
use crate::status::{transition_allowed, OperationStatus, Origin};
use crate::text::str_eq;

verus! {

/// A column of the lock record collection that filters can constrain.
pub enum Column {
    App,
    ProcessName,
    Status,
}

impl Column {
    pub open spec fn str_spec(self) -> Seq<char> {
        match self {
            Column::App => "app"@,
            Column::ProcessName => "process_name"@,
            Column::Status => "status"@,
        }
    }

    /// The column name as it appears in query text.
    pub fn to_string(&self) -> (r: &'static str)
        ensures
            r@ == self.str_spec(),
    {
        match self {
            Column::App => "app",
            Column::ProcessName => "process_name",
            Column::Status => "status",
        }
    }
}

/// Whether `p` belongs to the key `(app, process_name)`.
pub open spec fn key_matches(p: ProcessView, app: Seq<char>, pn: Seq<char>) -> bool {
    p.app == app && p.process_name == pn
}

/// Whether `p` is an active (non-terminal) record for the key.
pub open spec fn is_active_for(p: ProcessView, app: Seq<char>, pn: Seq<char>) -> bool {
    key_matches(p, app, pn) && p.is_active()
}

/// Whether some record in `s` is an active record for the key: exactly the
/// situation in which a new lock on the key must be refused.
pub open spec fn has_active(s: Seq<ProcessView>, app: Seq<char>, pn: Seq<char>) -> bool {
    exists|i: int| 0 <= i < s.len() && is_active_for(s[i], app, pn)
}

/// Whether some record in `s` carries the given id.
pub open spec fn contains_id(s: Seq<ProcessView>, id: Seq<char>) -> bool {
    exists|i: int| 0 <= i < s.len() && s[i].process_id == id
}

/// The active records for a key, in store order.
pub open spec fn active_for_key(s: Seq<ProcessView>, app: Seq<char>, pn: Seq<char>) -> Seq<
    ProcessView,
>
    decreases s.len(),
{
    if s.len() == 0 {
        Seq::empty()
    } else {
        let rest = active_for_key(s.drop_last(), app, pn);
        if is_active_for(s.last(), app, pn) {
            rest.push(s.last())
        } else {
            rest
        }
    }
}

/// The record a fresh lock acquisition writes: status `New`, both timestamps
/// at `now`, no end time, and the requested SLA.
pub open spec fn new_process_view(
    app: Seq<char>,
    pn: Seq<char>,
    sla: u64,
    now: u64,
    id: Seq<char>,
) -> ProcessView {
    ProcessView {
        process_id: id,
        app: app,
        process_name: pn,
        status: OperationStatus::New,
        create_at: now,
        updated_at: now,
        ended_at: 0,
        sla: sla,
    }
}

/// The record after a status change at `now`: the new status, a fresh
/// `updated_at`, and `ended_at` stamped exactly when the new status is
/// terminal.
pub open spec fn updated_rec(p: ProcessView, st: OperationStatus, now: u64) -> ProcessView {
    ProcessView {
        status: st,
        updated_at: now,
        ended_at: if st.is_terminal_spec() {
            now
        } else {
            p.ended_at
        },
        ..p
    }
}

/// Every record is well-formed.
pub open spec fn all_wf(s: Seq<ProcessView>) -> bool {
    forall|i: int| 0 <= i < s.len() ==> s[i].wf()
}

/// No two records share an id.
pub open spec fn unique_ids(s: Seq<ProcessView>) -> bool {
    forall|i: int, j: int|
        0 <= i < j < s.len() ==> s[i].process_id != s[j].process_id
}

/// The mutual-exclusion guarantee: a key has at most one active record.
pub open spec fn at_most_one_active(s: Seq<ProcessView>) -> bool {
    forall|i: int, j: int|
        0 <= i < j < s.len() && s[i].app == s[j].app && s[i].process_name == s[j].process_name
            ==> !(s[i].is_active() && s[j].is_active())
}

/// All timestamps in the store lie at or before `now`: the wall clock does
/// not run behind what has already been written.
pub open spec fn clock_ok(s: Seq<ProcessView>, now: u64) -> bool {
    forall|i: int|
        0 <= i < s.len() ==> s[i].create_at <= now && s[i].updated_at <= now
}

/// The core's view of the persisted lock record collection.
pub struct LockStore {
    pub recs: Vec<Process>,
}

impl View for LockStore {
    type V = Seq<ProcessView>;

    open spec fn view(&self) -> Seq<ProcessView> {
        self.recs.deep_view()
    }
}

impl LockStore {
    /// The store invariant: well-formed records, unique ids, and at most one
    /// active record per `(application, process_name)` key.
    pub open spec fn inv(self) -> bool {
        &&& all_wf(self@)
        &&& unique_ids(self@)
        &&& at_most_one_active(self@)
    }

    pub fn new() -> (r: Self)
        ensures
            r.inv(),
            r@ == Seq::<ProcessView>::empty(),
    {
        let r = LockStore { recs: Vec::new() };
        proof {
            assert(r@ =~= Seq::<ProcessView>::empty());
        }
        r
    }
}

/// The active records for the key, or `None` when there are none: the
/// duplicate-lock check that guards every acquisition.
pub fn check_running_processes(store: &LockStore, app: &str, process_name: &str) -> (r: Result<
    Option<Vec<Process>>,
    Error,
>)
    ensures
        r matches Ok(o),
        ({
            let act = active_for_key(store@, app@, process_name@);
            match r {
                Ok(Some(v)) => v.deep_view() == act && act.len() > 0,
                Ok(None) => act.len() == 0,
                Err(_) => false,
            }
        }),
{
    let mut out: Vec<Process> = Vec::new();
    let n = store.recs.len();
    let mut i: usize = 0;
    while i < n
        invariant
            i <= n,
            n == store.recs.len(),
            out.deep_view() == active_for_key(store@.take(i as int), app@, process_name@),
        decreases n - i,
    {
        let rec = &store.recs[i];
        let matches_key = str_eq(rec.app.as_str(), app) && str_eq(
            rec.process_name.as_str(),
            process_name,
        );
        let active = !rec.status.is_terminal();
        let ghost pre = out.deep_view();
        if matches_key && active {
            out.push(rec.duplicate());
        }
        proof {
            let s = store@;
            assert(s.take(i + 1 as int).drop_last() =~= s.take(i as int));
            assert(s.take(i + 1 as int).last() == s[i as int]);
            if matches_key && active {
                assert(out.deep_view() =~= pre.push(s[i as int]));
            }
        }
        i = i + 1;
    }
    proof {
        assert(store@.take(store@.len() as int) =~= store@);
    }
    if out.is_empty() {
        Ok(None)
    } else {
        Ok(Some(out))
    }
}

/// Whether a record with this id exists.
pub fn contains_process_id(store: &LockStore, id: &str) -> (r: bool)
    ensures
        r == contains_id(store@, id@),
{
    let n = store.recs.len();
    let mut i: usize = 0;
    while i < n
        invariant
            i <= n,
            n == store.recs.len(),
            forall|j: int| 0 <= j < i ==> store@[j].process_id != id@,
        decreases n - i,
    {
        if str_eq(store.recs[i].process_id.as_str(), id) {
            proof {
                assert(store@[i as int] == store.recs@[i as int]@);
                assert(store@[i as int].process_id == id@);
            }
            return true;
        }
        i = i + 1;
    }
    false
}

/// Acquires a lock for `(app_name, process)`: refuses with `Conflict` while
/// an active record for the key exists, refuses with `Storage` if the fresh
/// id is already taken, and otherwise appends a new record in status `New`
/// stamped at `now` and returns its id.
pub fn create_new_process(
    store: &mut LockStore,
    app_name: String,
    process: String,
    eta: u64,
    now: u64,
    new_id: String,
) -> (r: Result<String, Error>)
    requires
        old(store).inv(),
    ensures
        final(store).inv(),
        has_active(old(store)@, app_name@, process@) ==> r == Err::<String, Error>(
            Error::Conflict,
        ) && final(store)@ == old(store)@,
        !has_active(old(store)@, app_name@, process@) && contains_id(old(store)@, new_id@)
            ==> r == Err::<String, Error>(Error::Storage) && final(store)@ == old(store)@,
        !has_active(old(store)@, app_name@, process@) && !contains_id(old(store)@, new_id@) ==> (
        r matches Ok(s) && s@ == new_id@ && final(store)@ == old(store)@.push(
            new_process_view(app_name@, process@, eta, now, new_id@),
        )),
{
    let existing = check_running_processes(store, app_name.as_str(), process.as_str());
    let any_active = match existing {
        Ok(Some(_)) => true,
        _ => false,
    };
    proof {
        lemma_active_for_key_len(old(store)@, app_name@, process@);
    }
    if any_active {
        return Err(Error::Conflict);
    }
    if contains_process_id(store, new_id.as_str()) {
        return Err(Error::Storage);
    }
    let ghost pre = store@;
    let rec = Process {
        process_id: new_id.clone(),
        app: app_name,
        process_name: process,
        status: OperationStatus::New,
        create_at: now,
        updated_at: now,
        ended_at: 0,
        sla: eta,
    };
    let ghost recv = rec@;
    store.recs.push(rec);
    proof {
        assert(store@ =~= pre.push(recv));
        assert forall|i: int, j: int|
            0 <= i < j < store@.len() implies store@[i].process_id != store@[j].process_id by {
            if j < pre.len() {
            } else {
                assert(store@[j] == recv);
                assert(pre[i].process_id != recv.process_id);
            }
        }
        assert forall|i: int, j: int|
            0 <= i < j < store@.len() && store@[i].app == store@[j].app && store@[
                i
            ].process_name == store@[j].process_name implies !(store@[i].is_active() && store@[
            j
        ].is_active()) by {
            if j < pre.len() {
            } else {
                assert(store@[j] == recv);
                if store@[i].is_active() && recv.is_active() {
                    assert(is_active_for(pre[i], recv.app, recv.process_name));
                }
            }
        }
    }
    Ok(new_id)
}

/// Acquires a lock for `(app_name, process)` using the wall clock and a
/// freshly generated id. An active record for the key yields `Conflict` —
/// and nothing else does: without one, the call fails only for a clock that
/// stands before the epoch (`TimeConversion`) or a generated id that is
/// already stored (`Storage`). On success a new record in status `New` is
/// appended, stamped at the moment the clock reported, and its id returned.
pub fn acquire_lock(store: &mut LockStore, app_name: String, process: String, eta: u64) -> (r:
    Result<String, Error>)
    requires
        old(store).inv(),
    ensures
        final(store).inv(),
        r == Err::<String, Error>(Error::Conflict) <==> has_active(
            old(store)@,
            app_name@,
            process@,
        ),
        r matches Err(e) ==> (e == Error::Conflict || e == Error::Storage
            || e == Error::TimeConversion) && final(store)@ == old(store)@,
        r matches Ok(s) ==> s@.len() == 36 && exists|now: u64|
            final(store)@ == old(store)@.push(
                new_process_view(app_name@, process@, eta, now, s@),
            ),
{
    let existing = check_running_processes(store, app_name.as_str(), process.as_str());
    let any_active = match existing {
        Ok(Some(_)) => true,
        _ => false,
    };
    proof {
        lemma_active_for_key_len(old(store)@, app_name@, process@);
    }
    if any_active {
        return Err(Error::Conflict);
    }
    let now = match crate::clock::from_epoch() {
        Ok(n) => n,
        Err(e) => {
            return Err(e);
        },
    };
    let id = crate::ids::new_lock_id(now);
    create_new_process(store, app_name, process, eta, now, id)
}

/// The record with the given id, or `NotFound`.
pub fn get_process_by_id(store: &LockStore, id: &str) -> (r: Result<Process, Error>)
    ensures
        !contains_id(store@, id@) ==> r == Err::<Process, Error>(Error::NotFound),
        contains_id(store@, id@) ==> (r matches Ok(p) && exists|i: int|
            0 <= i < store@.len() && store@[i].process_id == id@ && p@ == store@[i]),
{
    let n = store.recs.len();
    let mut i: usize = 0;
    while i < n
        invariant
            i <= n,
            n == store.recs.len(),
            forall|j: int| 0 <= j < i ==> store@[j].process_id != id@,
        decreases n - i,
    {
        if str_eq(store.recs[i].process_id.as_str(), id) {
            let p = store.recs[i].duplicate();
            proof {
                assert(store@[i as int] == store.recs@[i as int]@);
                assert(store@[i as int].process_id == id@ && p@ == store@[i as int]);
            }
            return Ok(p);
        }
        i = i + 1;
    }
    Err(Error::NotFound)
}

/// Every record in the store, in order, or `None` when the store is empty:
/// the full scan the reconciler works from.
pub fn get_running_processes(store: &LockStore) -> (r: Result<Option<Vec<Process>>, Error>)
    ensures
        store@.len() == 0 ==> r == Ok::<Option<Vec<Process>>, Error>(None),
        store@.len() > 0 ==> (r matches Ok(o) && o matches Some(v) && v.deep_view() == store@),
{
    if store.recs.is_empty() {
        return Ok(None);
    }
    let n = store.recs.len();
    let mut out: Vec<Process> = Vec::new();
    let mut i: usize = 0;
    while i < n
        invariant
            i <= n,
            n == store.recs.len(),
            out.deep_view() == store@.take(i as int),
        decreases n - i,
    {
        let ghost pre = out.deep_view();
        out.push(store.recs[i].duplicate());
        proof {
            assert(store@.take(i + 1 as int).drop_last() =~= store@.take(i as int));
            assert(store@.take(i + 1 as int).last() == store@[i as int]);
            assert(out.deep_view() =~= pre.push(store@[i as int]));
            assert(out.deep_view() =~= store@.take(i + 1 as int));
        }
        i = i + 1;
    }
    proof {
        assert(store@.take(store@.len() as int) =~= store@);
    }
    Ok(Some(out))
}

/// Whether `p` passes the conjunction of the optional filters: an absent
/// field imposes no constraint.
pub open spec fn filter_matches(
    p: ProcessView,
    app: Option<Seq<char>>,
    pn: Option<Seq<char>>,
    st: Option<OperationStatus>,
) -> bool {
    &&& (app matches Some(a) ==> p.app == a)
    &&& (pn matches Some(n) ==> p.process_name == n)
    &&& (st matches Some(t) ==> p.status == t)
}

/// The records passing the filters, in store order.
pub open spec fn filtered(
    s: Seq<ProcessView>,
    app: Option<Seq<char>>,
    pn: Option<Seq<char>>,
    st: Option<OperationStatus>,
) -> Seq<ProcessView>
    decreases s.len(),
{
    if s.len() == 0 {
        Seq::empty()
    } else {
        let rest = filtered(s.drop_last(), app, pn, st);
        if filter_matches(s.last(), app, pn, st) {
            rest.push(s.last())
        } else {
            rest
        }
    }
}

/// The records matching all supplied filters; absent filters impose no
/// constraint, and an empty result is not an error.
pub fn get_processes(
    store: &LockStore,
    app: Option<String>,
    process_name: Option<String>,
    status: Option<OperationStatus>,
) -> (r: Result<Option<Vec<Process>>, Error>)
    ensures
        r matches Ok(o) && o matches Some(v) && v.deep_view() == filtered(
            store@,
            app.deep_view(),
            process_name.deep_view(),
            status,
        ),
{
    let n = store.recs.len();
    let mut out: Vec<Process> = Vec::new();
    let mut i: usize = 0;
    while i < n
        invariant
            i <= n,
            n == store.recs.len(),
            out.deep_view() == filtered(
                store@.take(i as int),
                app.deep_view(),
                process_name.deep_view(),
                status,
            ),
        decreases n - i,
    {
        let rec = &store.recs[i];
        let app_ok = match &app {
            Some(a) => str_eq(rec.app.as_str(), a.as_str()),
            None => true,
        };
        let pn_ok = match &process_name {
            Some(p) => str_eq(rec.process_name.as_str(), p.as_str()),
            None => true,
        };
        let st_ok = match status {
            Some(t) => rec.status == t,
            None => true,
        };
        let ghost pre = out.deep_view();
        if app_ok && pn_ok && st_ok {
            out.push(rec.duplicate());
        }
        proof {
            let s = store@;
            assert(s.take(i + 1 as int).drop_last() =~= s.take(i as int));
            assert(s.take(i + 1 as int).last() == s[i as int]);
            if app_ok && pn_ok && st_ok {
                assert(out.deep_view() =~= pre.push(s[i as int]));
            }
        }
        i = i + 1;
    }
    proof {
        assert(store@.take(store@.len() as int) =~= store@);
    }
    Ok(Some(out))
}

/// The segments of the listing query for the given optional filters: a
/// `SELECT` over the parameterized table, `WHERE`/`AND` predicates for the
/// key columns, and — as the status filter is always joined with `AND` — a
/// bare `AND` predicate for the status.
pub open spec fn get_processes_query_segments(
    app: Option<Seq<char>>,
    pn: Option<Seq<char>>,
    st: Option<OperationStatus>,
) -> Seq<Seq<char>> {
    let base = seq!["SELECT"@, "*"@, "FROM"@, table_ref_str(1)];
    let s1 = if app is Some {
        base + seq!["WHERE"@, condition_str("app"@, "="@, 2)]
    } else {
        base
    };
    let s2 = if pn is Some {
        s1 + seq![
            if app is Some {
                "AND"@
            } else {
                "WHERE"@
            },
            condition_str("process_name"@, "="@, if app is Some {
                3nat
            } else {
                2nat
            }),
        ]
    } else {
        s1
    };
    if st is Some {
        let idx = (2 + (if app is Some {
            1int
        } else {
            0int
        }) + (if pn is Some {
            1int
        } else {
            0int
        })) as nat;
        s2 + seq!["AND"@, condition_str("status"@, "="@, idx)]
    } else {
        s2
    }
}

/// The parameters of the listing query, in placeholder order: the table
/// name first, then the present filters.
pub open spec fn get_processes_query_params(
    app: Option<Seq<char>>,
    pn: Option<Seq<char>>,
    st: Option<OperationStatus>,
) -> Seq<ParamView> {
    let base = seq![ParamView::Str("process"@)];
    let s1 = match app {
        Some(a) => base.push(ParamView::Str(a)),
        None => base,
    };
    let s2 = match pn {
        Some(n) => s1.push(ParamView::Str(n)),
        None => s1,
    };
    match st {
        Some(t) => s2.push(ParamView::Str(t.str_spec())),
        None => s2,
    }
}

proof fn lemma_query_literals()
    ensures
        "SELECT"@.len() == 6,
        "*"@.len() == 1,
        "FROM"@.len() == 4,
        "WHERE"@.len() == 5,
        "AND"@.len() == 3,
        "OR"@.len() == 2,
        "app"@.len() == 3,
        "process_name"@.len() == 12,
        "status"@.len() == 6,
        "="@.len() == 1,
        " "@.len() == 1,
        " $"@.len() == 2,
        "type::table($"@.len() == 13,
        ")"@.len() == 1,
        "process"@.len() == 7,
{
    reveal_strlit("SELECT");
    reveal_strlit("*");
    reveal_strlit("FROM");
    reveal_strlit("WHERE");
    reveal_strlit("AND");
    reveal_strlit("OR");
    reveal_strlit("app");
    reveal_strlit("process_name");
    reveal_strlit("status");
    reveal_strlit("=");
    reveal_strlit(" ");
    reveal_strlit(" $");
    reveal_strlit("type::table($");
    reveal_strlit(")");
    reveal_strlit("process");
}

/// The parameterized listing query the repository hands to the persistence
/// collaborator for `get_processes`, built through the query DSL.
pub fn get_processes_query(
    app: Option<String>,
    process_name: Option<String>,
    status: Option<OperationStatus>,
) -> (r: (String, Vec<Parameter>))
    ensures
        r.0@ == crate::text::join_spaces(
            get_processes_query_segments(app.deep_view(), process_name.deep_view(), status),
        ),
        r.1.deep_view() == get_processes_query_params(
            app.deep_view(),
            process_name.deep_view(),
            status,
        ),
{
    proof {
        lemma_query_literals();
        crate::text::lemma_dec_spec_len(1);
        crate::text::lemma_dec_spec_len(2);
        crate::text::lemma_dec_spec_len(3);
        crate::text::lemma_dec_spec_len(4);
    }
    let ghost appv = app.deep_view();
    let ghost pnv = process_name.deep_view();
    let qb = QueryBuilder::new();
    let qb = qb.select("*".to_owned());
    proof {
        assert(qb.segs() =~= seq!["SELECT"@, "*"@]);
    }
    let qb = qb.from(Parameter::StringArg("process".to_owned()));
    proof {
        assert(qb.segs() =~= seq!["SELECT"@, "*"@, "FROM"@, table_ref_str(1)]);
        assert(qb.pars() =~= seq![ParamView::Str("process"@)]);
        assert(!contains_where(qb.segs()));
    }
    let mut qb = qb;
    if let Some(a) = app {
        let prev = qb;
        qb = prev.filter(Column::App.to_string(), Conditions::Eq, Parameter::StringArg(a));
        proof {
            assert(qb.segs() =~= prev.segs() + seq![
                "WHERE"@,
                condition_str("app"@, "="@, 2),
            ]);
            assert(qb.segs()[prev.segs().len() as int] == "WHERE"@);
            assert(contains_where(qb.segs()));
        }
    }
    if let Some(p) = process_name {
        let prev = qb;
        qb = prev.filter(
            Column::ProcessName.to_string(),
            Conditions::Eq,
            Parameter::StringArg(p),
        );
        proof {
            let conn: Seq<char> = if appv is Some {
                "AND"@
            } else {
                "WHERE"@
            };
            let idx: nat = if appv is Some {
                3nat
            } else {
                2nat
            };
            assert(qb.segs() =~= prev.segs() + seq![
                conn,
                condition_str("process_name"@, "="@, idx),
            ]);
            if appv is Some {
                let w = choose|w: int|
                    0 <= w < prev.segs().len() && prev.segs()[w] == "WHERE"@;
                assert(qb.segs()[w] == "WHERE"@);
            } else {
                assert(qb.segs()[prev.segs().len() as int] == "WHERE"@);
            }
            assert(contains_where(qb.segs()));
        }
    }
    if let Some(t) = status {
        let prev = qb;
        qb = prev.and(
            Column::Status.to_string(),
            Conditions::Eq,
            Parameter::StringArg(t.as_str().to_owned()),
        );
        proof {
            let idx = (2 + (if appv is Some {
                1int
            } else {
                0int
            }) + (if pnv is Some {
                1int
            } else {
                0int
            })) as nat;
            assert(qb.segs() =~= prev.segs() + seq![
                "AND"@,
                condition_str("status"@, "="@, idx),
            ]);
        }
    }
    proof {
        assert(qb.segs() =~= get_processes_query_segments(appv, pnv, status));
        assert(qb.pars() =~= get_processes_query_params(appv, pnv, status));
    }
    qb.build()
}

/// Applies the status change `id -> st` the state machine allows at `now`,
/// returning `NotFound` for a missing record and `InvalidTransition` for a
/// rejected change. On success the record gets the new status, a fresh
/// `updated_at`, and `ended_at = now` exactly when the new status is
/// terminal.
pub fn update_process_status(
    store: &mut LockStore,
    id: &str,
    status: OperationStatus,
    now: u64,
    origin: Origin,
) -> (r: Result<(), Error>)
    requires
        old(store).inv(),
        clock_ok(old(store)@, now),
        now >= 1,
    ensures
        final(store).inv(),
        clock_ok(final(store)@, now),
        !contains_id(old(store)@, id@) ==> r == Err::<(), Error>(Error::NotFound) && final(store)@
            == old(store)@,
        forall|i: int|
            0 <= i < old(store)@.len() && old(store)@[i].process_id == id@ ==> (
            if transition_allowed(old(store)@[i].status, status, origin) {
                r == Ok::<(), Error>(()) && final(store)@ == old(store)@.update(
                    i,
                    updated_rec(old(store)@[i], status, now),
                )
            } else {
                r == Err::<(), Error>(Error::InvalidTransition) && final(store)@ == old(store)@
            }),
{
    let n = store.recs.len();
    let mut i: usize = 0;
    while i < n
        invariant
            i <= n,
            n == store.recs.len(),
            store.recs@ == old(store).recs@,
            old(store).inv(),
            clock_ok(old(store)@, now),
            now >= 1,
            forall|j: int| 0 <= j < i ==> store@[j].process_id != id@,
        decreases n - i,
    {
        if str_eq(store.recs[i].process_id.as_str(), id) {
            proof {
                assert(store@[i as int] == store.recs@[i as int]@);
            }
            let allowed = crate::status::can_transition(store.recs[i].status, status, origin);
            if !allowed {
                return Err(Error::InvalidTransition);
            }
            let ghost pre = store@;
            let cur = &store.recs[i];
            let new_ended: u64 = if status.is_terminal() {
                now
            } else {
                cur.ended_at
            };
            let updated = Process {
                process_id: cur.process_id.clone(),
                app: cur.app.clone(),
                process_name: cur.process_name.clone(),
                status,
                create_at: cur.create_at,
                updated_at: now,
                ended_at: new_ended,
                sla: cur.sla,
            };
            let ghost updv = updated@;
            store.recs.set(i, updated);
            proof {
                assert(store@ =~= pre.update(i as int, updv));
                assert(updv == updated_rec(pre[i as int], status, now));
                assert(!pre[i as int].status.is_terminal_spec());
                assert(updv.wf());
                assert forall|j: int|
                    0 <= j < store@.len() implies store@[j].wf() by {
                    if j != i {
                        assert(store@[j] == pre[j]);
                    }
                }
                assert forall|j: int, k: int|
                    0 <= j < k < store@.len() implies store@[j].process_id != store@[
                    k
                ].process_id by {
                    assert(store@[j].process_id == pre[j].process_id);
                    assert(store@[k].process_id == pre[k].process_id);
                }
                assert forall|j: int, k: int|
                    0 <= j < k < store@.len() && store@[j].app == store@[k].app && store@[
                        j
                    ].process_name == store@[k].process_name implies !(store@[j].is_active()
                    && store@[k].is_active()) by {
                    assert(store@[j].app == pre[j].app && store@[j].process_name == pre[
                        j
                    ].process_name);
                    assert(store@[k].app == pre[k].app && store@[k].process_name == pre[
                        k
                    ].process_name);
                    if store@[j].is_active() && store@[k].is_active() {
                        assert(pre[j].is_active() || j == i);
                        assert(pre[k].is_active() || k == i);
                        if j == i {
                            assert(pre[j].is_active());
                        }
                        if k == i {
                            assert(pre[k].is_active());
                        }
                    }
                }
                assert forall|j: int|
                    0 <= j < old(store)@.len() && old(store)@[j].process_id == id@ implies j
                    == i by {
                    if j < i {
                    } else if j > i {
                        assert(pre[i as int].process_id == id@);
                    }
                }
            }
            return Ok(());
        }
        i = i + 1;
    }
    Err(Error::NotFound)
}

/// The client-facing status update: the status carried by the payload is
/// applied through the state machine on the client path, so a transition
/// into `Outdated`, and any transition off a terminal record, is refused
/// with `InvalidTransition`.
pub fn set_process_status<T: crate::params::ProcessData>(
    store: &mut LockStore,
    id: &str,
    data: &T,
    now: u64,
) -> (r: Result<(), Error>)
    requires
        old(store).inv(),
        clock_ok(old(store)@, now),
        now >= 1,
    ensures
        final(store).inv(),
        !contains_id(old(store)@, id@) ==> r == Err::<(), Error>(Error::NotFound) && final(store)@
            == old(store)@,
        forall|i: int|
            0 <= i < old(store)@.len() && old(store)@[i].process_id == id@ ==> (
            if crate::status::client_transition_allowed(old(store)@[i].status, data.status_spec()) {
                r == Ok::<(), Error>(()) && final(store)@ == old(store)@.update(
                    i,
                    updated_rec(old(store)@[i], data.status_spec(), now),
                )
            } else {
                r == Err::<(), Error>(Error::InvalidTransition) && final(store)@ == old(store)@
            }),
{
    let status = data.get_status();
    update_process_status(store, id, status, now, Origin::Client)
}

/// Removes the record with the given id; deleting an id that is not present
/// is not an error.
pub fn delete_process_by_id(store: &mut LockStore, id: &str) -> (r: Result<(), Error>)
    requires
        old(store).inv(),
    ensures
        final(store).inv(),
        r == Ok::<(), Error>(()),
        !contains_id(old(store)@, id@) ==> final(store)@ == old(store)@,
        forall|i: int|
            0 <= i < old(store)@.len() && old(store)@[i].process_id == id@ ==> final(store)@
                == old(store)@.remove(i),
{
    let n = store.recs.len();
    let mut i: usize = 0;
    while i < n
        invariant
            i <= n,
            n == store.recs.len(),
            store.recs@ == old(store).recs@,
            old(store).inv(),
            forall|j: int| 0 <= j < i ==> store@[j].process_id != id@,
        decreases n - i,
    {
        if str_eq(store.recs[i].process_id.as_str(), id) {
            proof {
                assert(store@[i as int] == store.recs@[i as int]@);
            }
            let ghost pre = store@;
            let _removed = store.recs.remove(i);
            proof {
                assert(store@ =~= pre.remove(i as int));
                assert forall|j: int|
                    0 <= j < store@.len() implies store@[j].wf() by {
                    if j < i {
                        assert(store@[j] == pre[j]);
                    } else {
                        assert(store@[j] == pre[j + 1]);
                    }
                }
                assert forall|j: int, k: int|
                    0 <= j < k < store@.len() implies store@[j].process_id != store@[
                    k
                ].process_id by {
                    let j0 = if j < i { j } else { j + 1 };
                    let k0 = if k < i { k } else { k + 1 };
                    assert(store@[j] == pre[j0] && store@[k] == pre[k0]);
                }
                assert forall|j: int, k: int|
                    0 <= j < k < store@.len() && store@[j].app == store@[k].app && store@[
                        j
                    ].process_name == store@[k].process_name implies !(store@[j].is_active()
                    && store@[k].is_active()) by {
                    let j0 = if j < i { j } else { j + 1 };
                    let k0 = if k < i { k } else { k + 1 };
                    assert(store@[j] == pre[j0] && store@[k] == pre[k0]);
                }
                assert forall|j: int|
                    0 <= j < old(store)@.len() && old(store)@[j].process_id == id@ implies
                    final(store)@ == old(store)@.remove(j) by {
                    if j < i {
                    } else if j > i {
                        assert(pre[i as int].process_id == id@);
                    }
                }
            }
            return Ok(());
        }
        i = i + 1;
    }
    Ok(())
}

/// A key has an active record exactly when its list of active records is
/// non-empty.
pub proof fn lemma_active_for_key_len(s: Seq<ProcessView>, app: Seq<char>, pn: Seq<char>)
    ensures
        active_for_key(s, app, pn).len() > 0 <==> has_active(s, app, pn),
    decreases s.len(),
{
    if s.len() > 0 {
        lemma_active_for_key_len(s.drop_last(), app, pn);
        if is_active_for(s.last(), app, pn) {
            assert(is_active_for(s[s.len() - 1], app, pn));
        } else {
            if has_active(s, app, pn) {
                let i = choose|i: int| 0 <= i < s.len() && is_active_for(s[i], app, pn);
                if i < s.len() - 1 {
                    assert(is_active_for(s.drop_last()[i], app, pn));
                }
            }
            if has_active(s.drop_last(), app, pn) {
                let i = choose|i: int|
                    0 <= i < s.drop_last().len() && is_active_for(s.drop_last()[i], app, pn);
                assert(is_active_for(s[i], app, pn));
            }
        }
    }
}

} // verus!
