use vstd::prelude::*;

verus! {

/// Which of a child's two output streams is meant.
#[derive(Clone, Copy, Debug, PartialEq, Eq, Structural)]
pub enum StreamRole {
    Stdout,
    Stderr,
}

/// The step of a drain at which an I/O failure happened.
#[derive(Clone, Copy, Debug, PartialEq, Eq, Structural)]
pub enum IoPhase {
    /// Reading from the child's stream failed.
    Read,
    /// Echoing a chunk to the console failed.
    Forward,
}

/// A failed read or a failed echo; it ends one stream's drain and no other.
#[derive(Clone, Debug, PartialEq, Eq)]
pub struct IoError {
    pub phase: IoPhase,
    /// The underlying cause, as the operating system reported it.
    pub cause: String,
}

/// The operating system could not report the child's exit status.
#[derive(Clone, Debug, PartialEq, Eq)]
pub struct ExitWaitError {
    /// The underlying cause, as the operating system reported it.
    pub cause: String,
}

/// The one failure that a coordinated wait reports, with the sub-operation
/// that it came from.
#[derive(Clone, Debug, PartialEq, Eq)]
pub enum ChildError {
    ExitWait(ExitWaitError),
    Stdout(IoError),
    Stderr(IoError),
}

impl ChildError {
    /// The failure of the drain of `role`.
    pub open spec fn of_stream(role: StreamRole, error: IoError) -> ChildError {
        match role {
            StreamRole::Stdout => ChildError::Stdout(error),
            StreamRole::Stderr => ChildError::Stderr(error),
        }
    }

    /// The underlying cause of the failure, as the operating system reported
    /// it.
    pub open spec fn cause_text(self) -> Seq<char> {
        match self {
            ChildError::ExitWait(error) => error.cause@,
            ChildError::Stdout(error) => error.cause@,
            ChildError::Stderr(error) => error.cause@,
        }
    }

    /// The underlying cause of the failure.
    pub fn cause(&self) -> (cause: &String)
        ensures
            cause@ == self.cause_text(),
    {
        match self {
            ChildError::ExitWait(error) => &error.cause,
            ChildError::Stdout(error) => &error.cause,
            ChildError::Stderr(error) => &error.cause,
        }
    }

    /// Wraps a drain's failure with the stream it belongs to.
    pub fn from_stream(role: StreamRole, error: IoError) -> (e: ChildError)
        ensures
            e == ChildError::of_stream(role, error),
    {
        match role {
            StreamRole::Stdout => ChildError::Stdout(error),
            StreamRole::Stderr => ChildError::Stderr(error),
        }
    }
}

} // verus!
