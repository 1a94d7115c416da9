//! Lock status values and the transition rules of the lock state machine.

use vstd::prelude::*;

verus! {

/// The lifecycle status of a lock record.
#[derive(Clone, Copy, Debug, PartialEq, Eq, Structural)]
pub enum OperationStatus {
    New,
    InProgress,
    Completed,
    Canceled,
    Outdated,
}

/// Who is asking for a status change: a client of the service, or the
/// background reconciler. Only the reconciler may move a lock to `Outdated`.
#[derive(Clone, Copy, Debug, PartialEq, Eq, Structural)]
pub enum Origin {
    Client,
    Reconciler,
}

impl OperationStatus {
    /// A terminal status admits no further transition.
    pub open spec fn is_terminal_spec(self) -> bool {
        self is Completed || self is Canceled || self is Outdated
    }

    pub fn is_terminal(&self) -> (r: bool)
        ensures
            r == self.is_terminal_spec(),
    {
        match self {
            OperationStatus::Completed => true,
            OperationStatus::Canceled => true,
            OperationStatus::Outdated => true,
            _ => false,
        }
    }

    pub fn is_completed(&self) -> (r: bool)
        ensures
            r == (*self is Completed),
    {
        matches!(self, OperationStatus::Completed)
    }

    pub fn is_canceled(&self) -> (r: bool)
        ensures
            r == (*self is Canceled),
    {
        matches!(self, OperationStatus::Canceled)
    }

    pub fn is_outdated(&self) -> (r: bool)
        ensures
            r == (*self is Outdated),
    {
        matches!(self, OperationStatus::Outdated)
    }
}

impl OperationStatus {
    /// The stable string under which this status is persisted and reported.
    pub open spec fn str_spec(self) -> Seq<char> {
        match self {
            OperationStatus::New => "New"@,
            OperationStatus::InProgress => "InProgress"@,
            OperationStatus::Completed => "Completed"@,
            OperationStatus::Canceled => "Canceled"@,
            OperationStatus::Outdated => "Outdated"@,
        }
    }

    /// The stable persisted string for this status.
    pub fn as_str(&self) -> (r: &'static str)
        ensures
            r@ == self.str_spec(),
    {
        match self {
            OperationStatus::New => "New",
            OperationStatus::InProgress => "InProgress",
            OperationStatus::Completed => "Completed",
            OperationStatus::Canceled => "Canceled",
            OperationStatus::Outdated => "Outdated",
        }
    }
}

/// The status a persisted string stands for, if any.
pub open spec fn status_of_str(s: Seq<char>) -> Option<OperationStatus> {
    if s == "New"@ {
        Some(OperationStatus::New)
    } else if s == "InProgress"@ {
        Some(OperationStatus::InProgress)
    } else if s == "Completed"@ {
        Some(OperationStatus::Completed)
    } else if s == "Canceled"@ {
        Some(OperationStatus::Canceled)
    } else if s == "Outdated"@ {
        Some(OperationStatus::Outdated)
    } else {
        None
    }
}

/// Parses a persisted status string back into the status it stands for.
pub fn status_from_str(s: &str) -> (r: Option<OperationStatus>)
    ensures
        r == status_of_str(s@),
{
    if crate::text::str_eq(s, "New") {
        Some(OperationStatus::New)
    } else if crate::text::str_eq(s, "InProgress") {
        Some(OperationStatus::InProgress)
    } else if crate::text::str_eq(s, "Completed") {
        Some(OperationStatus::Completed)
    } else if crate::text::str_eq(s, "Canceled") {
        Some(OperationStatus::Canceled)
    } else if crate::text::str_eq(s, "Outdated") {
        Some(OperationStatus::Outdated)
    } else {
        None
    }
}

/// Rendering a status and parsing the result gives the status back: the
/// closed enumeration and its stable strings are in exact correspondence.
pub proof fn lemma_status_string_round_trip(st: OperationStatus)
    ensures
        status_of_str(st.str_spec()) == Some(st),
{
    reveal_strlit("New");
    reveal_strlit("InProgress");
    reveal_strlit("Completed");
    reveal_strlit("Canceled");
    reveal_strlit("Outdated");
    assert("New"@.len() == 3);
    assert("InProgress"@.len() == 10);
    assert("Completed"@.len() == 9);
    assert("Canceled"@.len() == 8);
    assert("Outdated"@.len() == 8);
    assert("Canceled"@[0] == 'C' && "Outdated"@[0] == 'O');
}

/// The transitions a client may request directly:
/// `New -> InProgress`, `New -> Completed`, `New -> Canceled`,
/// `InProgress -> Completed`, `InProgress -> Canceled`. Everything else,
/// including any transition targeting `Outdated` and any transition out of a
/// terminal status, is rejected.
pub open spec fn client_transition_allowed(from: OperationStatus, to: OperationStatus) -> bool {
    ||| (from is New && (to is InProgress || to is Completed || to is Canceled))
    ||| (from is InProgress && (to is Completed || to is Canceled))
}

/// The reconciler moves overdue locks to `Outdated`, and may do so from any
/// non-terminal status; it requests nothing else.
pub open spec fn reconciler_transition_allowed(from: OperationStatus, to: OperationStatus) -> bool {
    !from.is_terminal_spec() && to is Outdated
}

pub open spec fn transition_allowed(
    from: OperationStatus,
    to: OperationStatus,
    origin: Origin,
) -> bool {
    match origin {
        Origin::Client => client_transition_allowed(from, to),
        Origin::Reconciler => reconciler_transition_allowed(from, to),
    }
}

/// Decides whether the state machine permits the transition `from -> to`
/// when requested by `origin`.
pub fn can_transition(from: OperationStatus, to: OperationStatus, origin: Origin) -> (r: bool)
    ensures
        r == transition_allowed(from, to, origin),
{
    match origin {
        Origin::Client => match (from, to) {
            (OperationStatus::New, OperationStatus::InProgress) => true,
            (OperationStatus::New, OperationStatus::Completed) => true,
            (OperationStatus::New, OperationStatus::Canceled) => true,
            (OperationStatus::InProgress, OperationStatus::Completed) => true,
            (OperationStatus::InProgress, OperationStatus::Canceled) => true,
            _ => false,
        },
        Origin::Reconciler => !from.is_terminal() && matches!(to, OperationStatus::Outdated),
    }
}

} // verus!
