//! Request payloads of the lock API and the parsing they need.

use vstd::prelude::*;

use crate::status::OperationStatus;
use crate::text::{all_digits, digits_val, parse_u64_digits};

verus! {

/// Which endpoint a response belongs to.
#[derive(Debug, Clone, Copy, PartialEq, Eq, Structural)]
pub enum RequestEndpoint {
    StartNewLock,
    GetLockedProcess,
}

/// The SLA a duration string denotes, in seconds: decimal digits followed
/// by a unit (`s` seconds, `m` minutes, `h` hours). A malformed string, and
/// a value whose seconds do not fit in 64 bits, denote nothing.
pub open spec fn duration_secs_of(s: Seq<char>) -> Option<u64> {
    if s.len() < 2 {
        None
    } else {
        let num = s.drop_last();
        let unit = s.last();
        let mult: int = if unit == 's' {
            1
        } else if unit == 'm' {
            60
        } else if unit == 'h' {
            3600
        } else {
            0
        };
        if mult == 0 || !all_digits(num) || digits_val(num) > u64::MAX || digits_val(num) * mult
            > u64::MAX {
            None
        } else {
            Some((digits_val(num) * mult) as u64)
        }
    }
}

/// Parses a duration such as `"60s"`, `"5m"` or `"2h"` into seconds.
pub fn string_to_duration(duration: &str) -> (r: Option<u64>)
    ensures
        r == duration_secs_of(duration@),
{
    let n = duration.unicode_len();
    if n < 2 {
        return None;
    }
    let unit = duration.get_char(n - 1);
    let mult: u64 = if unit == 's' {
        1
    } else if unit == 'm' {
        60
    } else if unit == 'h' {
        3600
    } else {
        return None;
    };
    proof {
        assert(duration@.subrange(0, n - 1 as int) =~= duration@.drop_last());
    }
    let value = match parse_u64_digits(duration, 0, n - 1) {
        Some(v) => v,
        None => {
            return None;
        },
    };
    if mult > 1 && value > u64::MAX / mult {
        proof {
            let m = mult as int;
            assert(u64::MAX as int == m * (u64::MAX as int / m) + u64::MAX as int % m);
            assert(value * m > u64::MAX) by (nonlinear_arith)
                requires
                    value > u64::MAX as int / m,
                    m == 60 || m == 3600,
                    u64::MAX as int == m * (u64::MAX as int / m) + u64::MAX as int % m,
                    u64::MAX as int % m < m,
            ;
        }
        return None;
    }
    proof {
        if mult > 1 {
            let m = mult as int;
            assert(u64::MAX as int == m * (u64::MAX as int / m) + u64::MAX as int % m);
            assert(value * m <= u64::MAX) by (nonlinear_arith)
                requires
                    value <= u64::MAX as int / m,
                    m == 60 || m == 3600,
                    u64::MAX as int == m * (u64::MAX as int / m) + u64::MAX as int % m,
                    0 <= u64::MAX as int % m,
            ;
        }
    }
    Some(value * mult)
}

/// The payload that asks for a new lock: the application, the process name,
/// and the SLA as a duration string.
pub struct NewProcess {
    pub app: String,
    pub process: String,
    pub eta: String,
}

impl NewProcess {
    /// The requested SLA in seconds, if the `eta` field is well-formed.
    pub fn eta_to_u64(&self) -> (r: Option<u64>)
        ensures
            r == duration_secs_of(self.eta@),
    {
        string_to_duration(self.eta.as_str())
    }
}

/// A payload that carries the status a client wants a lock moved to.
pub trait ProcessData {
    spec fn status_spec(&self) -> OperationStatus;

    fn get_status(&self) -> (s: OperationStatus)
        ensures
            s == self.status_spec(),
    ;
}

/// The explicit status-update payload.
pub struct UpdateProcess {
    pub status: OperationStatus,
}

/// The unlock payload: releasing a lock means completing it.
pub struct UnlockProcess {}

impl ProcessData for UpdateProcess {
    open spec fn status_spec(&self) -> OperationStatus {
        self.status
    }

    fn get_status(&self) -> (s: OperationStatus) {
        self.status
    }
}

impl ProcessData for UnlockProcess {
    open spec fn status_spec(&self) -> OperationStatus {
        OperationStatus::Completed
    }

    fn get_status(&self) -> (s: OperationStatus) {
        OperationStatus::Completed
    }
}

} // verus!
