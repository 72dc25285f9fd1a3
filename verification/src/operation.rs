//! Error codes and task states shared by every front end; no threads,
//! callbacks or display text.

use crate::account::AccountErrorKind;
use vstd::prelude::*;

verus! {

/// The kind of a failed operation, as front ends report it.
#[derive(Debug, Clone, Copy, PartialEq, Eq, Structural)]
pub enum OperationErrorCode {
    State,
    Auth,
    External,
    Internal,
}

/// The code of an account error kind: one for one.
pub open spec fn code_of_kind(kind: AccountErrorKind) -> OperationErrorCode {
    match kind {
        AccountErrorKind::State => OperationErrorCode::State,
        AccountErrorKind::Auth => OperationErrorCode::Auth,
        AccountErrorKind::External => OperationErrorCode::External,
        AccountErrorKind::Internal => OperationErrorCode::Internal,
    }
}

impl From<AccountErrorKind> for OperationErrorCode {
    fn from(value: AccountErrorKind) -> (r: OperationErrorCode) {
        match value {
            AccountErrorKind::State => OperationErrorCode::State,
            AccountErrorKind::Auth => OperationErrorCode::Auth,
            AccountErrorKind::External => OperationErrorCode::External,
            AccountErrorKind::Internal => OperationErrorCode::Internal,
        }
    }
}

impl vstd::std_specs::convert::FromSpecImpl<AccountErrorKind> for OperationErrorCode {
    open spec fn obeys_from_spec() -> bool {
        true
    }

    open spec fn from_spec(v: AccountErrorKind) -> OperationErrorCode {
        code_of_kind(v)
    }
}

/// The phase of a background task.
#[derive(Debug, Clone, Copy, PartialEq, Eq, Structural)]
pub enum TaskPhase {
    Pending,
    Running,
    Succeeded,
    Failed,
    Cancelled,
}

impl TaskPhase {
    /// A phase after which a task changes no more.
    pub open spec fn is_terminal_phase(self) -> bool {
        self is Succeeded || self is Failed || self is Cancelled
    }
}

/// A task's request number, phase and, when it failed, the error code.
#[derive(Debug, Clone, Copy, PartialEq, Eq, Structural)]
pub struct TaskStatus {
    pub request_id: u64,
    pub phase: TaskPhase,
    pub error_code: Option<OperationErrorCode>,
}

impl TaskStatus {
    /// A task that has succeeded, failed or been cancelled changes no more.
    pub open spec fn is_terminal_spec(self) -> bool {
        self.phase is Succeeded || self.phase is Failed || self.phase is Cancelled
    }

    pub fn is_terminal(&self) -> (r: bool)
        ensures
            r == self.is_terminal_spec(),
    {
        match self.phase {
            TaskPhase::Succeeded | TaskPhase::Failed | TaskPhase::Cancelled => true,
            _ => false,
        }
    }
}

} // verus!
