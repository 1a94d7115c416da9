//! The lock record entity and its mathematical model.

use vstd::prelude::*;

use crate::status::OperationStatus;

verus! {

/// The abstract value of a lock record: its strings as character sequences,
/// its timestamps as plain epoch seconds.
pub ghost struct ProcessView {
    pub process_id: Seq<char>,
    pub app: Seq<char>,
    pub process_name: Seq<char>,
    pub status: OperationStatus,
    pub create_at: u64,
    pub updated_at: u64,
    pub ended_at: u64,
    pub sla: u64,
}

impl ProcessView {
    /// Well-formedness of a single record: `ended_at` is non-zero exactly
    /// when the status is terminal, and `updated_at` never precedes
    /// `create_at`.
    pub open spec fn wf(self) -> bool {
        &&& self.ended_at != 0 <==> self.status.is_terminal_spec()
        &&& self.updated_at >= self.create_at
    }

    /// A record is active while its status is non-terminal; an active record
    /// for a key excludes a second lock on that key.
    pub open spec fn is_active(self) -> bool {
        !self.status.is_terminal_spec()
    }
}

/// One lock record: a claimed execution slot for an `(application,
/// process_name)` pair.
#[derive(Debug, Clone, PartialEq)]
pub struct Process {
    pub process_id: String,
    pub app: String,
    pub process_name: String,
    pub status: OperationStatus,
    pub create_at: u64,
    pub updated_at: u64,
    pub ended_at: u64,
    pub sla: u64,
}

impl View for Process {
    type V = ProcessView;

    open spec fn view(&self) -> ProcessView {
        ProcessView {
            process_id: self.process_id@,
            app: self.app@,
            process_name: self.process_name@,
            status: self.status,
            create_at: self.create_at,
            updated_at: self.updated_at,
            ended_at: self.ended_at,
            sla: self.sla,
        }
    }
}

impl DeepView for Process {
    type V = ProcessView;

    open spec fn deep_view(&self) -> ProcessView {
        self.view()
    }
}

impl Process {
    /// A field-for-field copy whose abstract value is the same.
    pub fn duplicate(&self) -> (r: Process)
        ensures
            r@ == self@,
    {
        Process {
            process_id: self.process_id.clone(),
            app: self.app.clone(),
            process_name: self.process_name.clone(),
            status: self.status,
            create_at: self.create_at,
            updated_at: self.updated_at,
            ended_at: self.ended_at,
            sla: self.sla,
        }
    }

    /// The response shape handed to clients: the same record, with the end
    /// timestamp absent rather than zero while the lock is still active.
    pub fn to_response(&self) -> (r: ResponseProcess)
        ensures
            r.process_id@ == self@.process_id,
            r.app@ == self@.app,
            r.process_name@ == self@.process_name,
            r.status == self@.status,
            r.create_at == self@.create_at,
            r.updated_at == self@.updated_at,
            r.ended_at == (if self@.ended_at != 0 {
                Some(self@.ended_at)
            } else {
                None::<u64>
            }),
            r.sla == self@.sla,
    {
        let ended_at: Option<u64> = if self.ended_at != 0 {
            Some(self.ended_at)
        } else {
            None
        };
        ResponseProcess {
            process_id: self.process_id.clone(),
            app: self.app.clone(),
            process_name: self.process_name.clone(),
            status: self.status,
            create_at: self.create_at,
            updated_at: self.updated_at,
            ended_at,
            sla: self.sla,
        }
    }
}

/// A lock record as reported to clients.
#[derive(Debug, Clone, PartialEq)]
pub struct ResponseProcess {
    pub process_id: String,
    pub app: String,
    pub process_name: String,
    pub status: OperationStatus,
    pub create_at: u64,
    pub updated_at: u64,
    pub ended_at: Option<u64>,
    pub sla: u64,
}

} // verus!
