use vstd::prelude::*;

verus! {

/// How one output stream of a child process is handled.
///
/// The launcher and the coordinator agree on the policy of each stream before
/// the child is spawned: it decides whether the child's end of the stream is
/// connected to this process at all.
#[derive(Clone, Copy, Debug, PartialEq, Eq, Structural)]
pub enum StdioPolicy {
    /// The stream is not read; its handle is not connected to this process.
    Discard,
    /// The launcher wires the stream straight to the parent's stream; nothing
    /// is read or captured here.
    ForwardOnly,
    /// Every byte is read and kept in memory; nothing is echoed.
    CaptureOnly,
    /// Every byte is read, echoed live to the parent's console and kept in
    /// memory.
    CaptureAndForward,
}

impl StdioPolicy {
    /// The stream's handle is connected to this process and has to be read.
    pub open spec fn connected(self) -> bool {
        self is CaptureOnly || self is CaptureAndForward
    }

    /// The bytes read are echoed to the console while they are captured.
    pub open spec fn echoes(self) -> bool {
        self is CaptureAndForward
    }

    /// Whether a stream under this policy is read by the coordinator.
    pub fn is_connected(self) -> (b: bool)
        ensures
            b == self.connected(),
    {
        match self {
            StdioPolicy::CaptureOnly | StdioPolicy::CaptureAndForward => true,
            StdioPolicy::Discard | StdioPolicy::ForwardOnly => false,
        }
    }

    /// Whether a stream under this policy is echoed to the console.
    pub fn is_echoed(self) -> (b: bool)
        ensures
            b == self.echoes(),
    {
        match self {
            StdioPolicy::CaptureAndForward => true,
            _ => false,
        }
    }
}

impl Default for StdioPolicy {
    /// Streams are captured without echo unless the caller says otherwise.
    fn default() -> (policy: Self)
        ensures
            policy == StdioPolicy::CaptureOnly,
    {
        StdioPolicy::CaptureOnly
    }
}

} // verus!
