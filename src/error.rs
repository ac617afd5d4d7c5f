use vstd::prelude::*;

verus! {

/// The kinds of failure that the shell reports.
#[derive(Debug, Clone, PartialEq, Eq)]
pub enum ShellError {
    /// Taking the instance lock failed for a reason other than a live holder.
    /// Fatal: startup stops.
    LockAcquisitionFailed { reason: String },
    /// The platform refused a window request; the process goes on.
    WindowOperationFailed { reason: String },
    /// The window was destroyed before the request reached it.
    HandleInvalid,
}

/// The text shown to the frontend for a window handle that is gone.
pub open spec fn handle_invalid_text() -> Seq<char> {
    "the window handle is no longer valid"@
}

impl ShellError {
    /// Is this the fatal startup error?
    pub open spec fn spec_is_fatal(&self) -> bool {
        self is LockAcquisitionFailed
    }

    /// The human-readable message of this error.
    pub open spec fn spec_message(&self) -> Seq<char> {
        match self {
            ShellError::LockAcquisitionFailed { reason } => reason@,
            ShellError::WindowOperationFailed { reason } => reason@,
            ShellError::HandleInvalid => handle_invalid_text(),
        }
    }

    /// Whether the process must stop: only a failed lock acquisition is fatal.
    pub fn is_fatal(&self) -> (r: bool)
        ensures
            r == self.spec_is_fatal(),
    {
        match self {
            ShellError::LockAcquisitionFailed { .. } => true,
            _ => false,
        }
    }

    /// The message that crosses the string-typed command boundary.
    pub fn message(&self) -> (r: String)
        ensures
            r@ == self.spec_message(),
    {
        match self {
            ShellError::LockAcquisitionFailed { reason } => reason.clone(),
            ShellError::WindowOperationFailed { reason } => reason.clone(),
            ShellError::HandleInvalid => {
                proof {
                    reveal_strlit("the window handle is no longer valid");
                }
                "the window handle is no longer valid".to_owned()
            },
        }
    }
}

} // verus!
