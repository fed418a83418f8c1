use vstd::prelude::*;

verus! {

/// How a child process ended, as the platform reported it.
#[derive(Clone, Copy, Debug, PartialEq, Eq)]
pub struct ExitStatus {
    /// The exit code, where the child exited with one; `None` where it was
    /// ended in another way (on Unix: by a signal).
    pub code: Option<i32>,
}

impl ExitStatus {
    /// The child exited with code zero.
    pub open spec fn succeeded(self) -> bool {
        self.code == Some(0i32)
    }

    /// The status of a child that exited with `code`.
    pub fn from_code(code: i32) -> (status: ExitStatus)
        ensures
            status.code == Some(code),
    {
        ExitStatus { code: Some(code) }
    }

    /// The exit code, if the child exited with one.
    pub fn code(&self) -> (code: Option<i32>)
        ensures
            code == self.code,
    {
        self.code
    }

    /// Whether the child exited with code zero.
    pub fn success(&self) -> (b: bool)
        ensures
            b == self.succeeded(),
    {
        match self.code {
            Some(code) => code == 0,
            None => false,
        }
    }
}

} // verus!
