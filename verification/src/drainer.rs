use vstd::prelude::*;
use crate::error::{IoError, StreamRole};
use crate::policy::StdioPolicy;
use crate::tee::{append_bytes, CapturedStream, TeeSink};

verus! {

/// Where the drain of one stream stands.
#[derive(Clone, Debug, PartialEq, Eq)]
pub enum DrainPhase {
    /// The stream is connected and its end has not been seen.
    Reading,
    /// The stream ended, or was never connected.
    Finished,
    /// A read or an echo failed; the drain stopped there.
    Failed(IoError),
}

/// What the driver of a drain does next.
#[derive(Debug, PartialEq, Eq)]
pub enum DrainAction<'a> {
    /// Read the next chunk from the stream.
    Read,
    /// Write these bytes to the console now, then read the next chunk.
    Forward(&'a [u8]),
    /// The drain is over: touch the stream no more.
    Done,
}

/// A stream of the parent's console.
#[derive(Clone, Copy, Debug, PartialEq, Eq, Structural)]
pub enum ConsoleStream {
    Stdout,
    Stderr,
}

/// Where the echo of a child's stream goes: to the parent's standard output,
/// for the child's stdout and for its stderr alike. Nothing is echoed to the
/// parent's standard error.
pub fn echo_target(role: StreamRole) -> (target: ConsoleStream)
    ensures
        target == ConsoleStream::Stdout,
{
    ConsoleStream::Stdout
}

/// What a driver can report to a drain, as a mathematical value.
pub enum DrainEvent {
    /// The stream yielded these bytes.
    Chunk(Seq<u8>),
    /// The stream reached its end.
    EndOfStream,
    /// Reading the stream, or echoing the last chunk, failed.
    Failure(IoError),
}

/// A `DrainAction` as a mathematical value.
pub enum DrainActionView {
    Read,
    Forward(Seq<u8>),
    Done,
}

impl<'a> View for DrainAction<'a> {
    type V = DrainActionView;

    open spec fn view(&self) -> DrainActionView {
        match *self {
            DrainAction::Read => DrainActionView::Read,
            DrainAction::Forward(bytes) => DrainActionView::Forward(bytes@),
            DrainAction::Done => DrainActionView::Done,
        }
    }
}

/// The state of a drain as a mathematical value.
pub struct DrainerView {
    pub policy: StdioPolicy,
    pub phase: DrainPhase,
    pub captured: Seq<u8>,
}

impl DrainerView {
    /// The state in which a drain under `policy` starts: a stream that is not
    /// connected is finished before anything is read.
    pub open spec fn initial(policy: StdioPolicy) -> DrainerView {
        DrainerView {
            policy,
            phase: if policy.connected() {
                DrainPhase::Reading
            } else {
                DrainPhase::Finished
            },
            captured: Seq::empty(),
        }
    }

    /// The drain still has to read from its stream.
    pub open spec fn reading(self) -> bool {
        self.phase is Reading
    }

    /// The drain reached a terminal state, by success or by failure.
    pub open spec fn done(self) -> bool {
        !self.reading()
    }

    /// A stream that is not connected is never read and captures nothing.
    pub open spec fn wf(self) -> bool {
        !self.policy.connected() ==> self.phase is Finished && self.captured.len() == 0
    }

    /// The state after `event`. A drain that is over ignores every event, so
    /// the first end or failure is the one that counts.
    pub open spec fn after(self, event: DrainEvent) -> DrainerView {
        if !self.reading() {
            self
        } else {
            match event {
                DrainEvent::Chunk(bytes) => DrainerView {
                    captured: self.captured + bytes,
                    ..self
                },
                DrainEvent::EndOfStream => DrainerView { phase: DrainPhase::Finished, ..self },
                DrainEvent::Failure(error) => DrainerView {
                    phase: DrainPhase::Failed(error),
                    ..self
                },
            }
        }
    }

    /// What the driver is told to do when it reports `event` in this state.
    pub open spec fn action(self, event: DrainEvent) -> DrainActionView {
        if !self.reading() {
            DrainActionView::Done
        } else {
            match event {
                DrainEvent::Chunk(bytes) => if self.policy.echoes() {
                    DrainActionView::Forward(bytes)
                } else {
                    DrainActionView::Read
                },
                DrainEvent::EndOfStream => DrainActionView::Done,
                DrainEvent::Failure(_) => DrainActionView::Done,
            }
        }
    }

    /// What the driver does before it has reported anything.
    pub open spec fn first_action(self) -> DrainActionView {
        if self.reading() {
            DrainActionView::Read
        } else {
            DrainActionView::Done
        }
    }

    /// The bytes that `event` sends to the console in this state.
    pub open spec fn echo(self, event: DrainEvent) -> Seq<u8> {
        match self.action(event) {
            DrainActionView::Forward(bytes) => bytes,
            _ => Seq::empty(),
        }
    }

    /// The state after all of `events`, in order.
    pub open spec fn run(self, events: Seq<DrainEvent>) -> DrainerView
        decreases events.len(),
    {
        if events.len() == 0 {
            self
        } else {
            self.run(events.drop_last()).after(events.last())
        }
    }

    /// Everything that `events`, in order, send to the console.
    pub open spec fn echoed(self, events: Seq<DrainEvent>) -> Seq<u8>
        decreases events.len(),
    {
        if events.len() == 0 {
            Seq::empty()
        } else {
            self.echoed(events.drop_last()) + self.run(events.drop_last()).echo(events.last())
        }
    }

    /// What a finished drain returns: the first failure, else the capture.
    pub open spec fn outcome(self) -> Result<Seq<u8>, IoError> {
        match self.phase {
            DrainPhase::Failed(error) => Err(error),
            _ => Ok(self.captured),
        }
    }
}

/// The outcome of a drain as a mathematical value.
pub open spec fn outcome_view(outcome: Result<Vec<u8>, IoError>) -> Result<Seq<u8>, IoError> {
    match outcome {
        Ok(bytes) => Ok(bytes@),
        Err(error) => Err(error),
    }
}

/// The events of a stream that yields `chunks` one after the other.
pub open spec fn chunk_events(chunks: Seq<Seq<u8>>) -> Seq<DrainEvent> {
    chunks.map_values(|bytes: Seq<u8>| DrainEvent::Chunk(bytes))
}

enum Capture {
    Unconnected { forwarded: bool },
    Plain(Vec<u8>),
    Tee(TeeSink),
}

impl Capture {
    spec fn bytes(self) -> Seq<u8> {
        match self {
            Capture::Unconnected { .. } => Seq::empty(),
            Capture::Plain(buffer) => buffer@,
            Capture::Tee(tee) => tee.captured(),
        }
    }

    spec fn policy(self) -> StdioPolicy {
        match self {
            Capture::Unconnected { forwarded } => if forwarded {
                StdioPolicy::ForwardOnly
            } else {
                StdioPolicy::Discard
            },
            Capture::Plain(_) => StdioPolicy::CaptureOnly,
            Capture::Tee(_) => StdioPolicy::CaptureAndForward,
        }
    }
}

/// Reads one stream of a child to its end under a policy, and keeps what the
/// policy says to keep.
///
/// The drainer decides; its driver does the reading and the echoing, and
/// reports each chunk, the end of the stream or a failure.
pub struct StreamDrainer {
    phase: DrainPhase,
    capture: Capture,
}

impl View for StreamDrainer {
    type V = DrainerView;

    closed spec fn view(&self) -> DrainerView {
        DrainerView {
            policy: self.capture.policy(),
            phase: if self.capture is Unconnected {
                DrainPhase::Finished
            } else {
                self.phase
            },
            captured: self.capture.bytes(),
        }
    }
}

impl StreamDrainer {
    /// A drain under `policy` that has seen nothing of its stream yet.
    pub fn new(policy: StdioPolicy) -> (drainer: StreamDrainer)
        ensures
            drainer@ == DrainerView::initial(policy),
    {
        match policy {
            StdioPolicy::Discard => StreamDrainer {
                phase: DrainPhase::Finished,
                capture: Capture::Unconnected { forwarded: false },
            },
            StdioPolicy::ForwardOnly => StreamDrainer {
                phase: DrainPhase::Finished,
                capture: Capture::Unconnected { forwarded: true },
            },
            StdioPolicy::CaptureOnly => StreamDrainer {
                phase: DrainPhase::Reading,
                capture: Capture::Plain(Vec::new()),
            },
            StdioPolicy::CaptureAndForward => StreamDrainer {
                phase: DrainPhase::Reading,
                capture: Capture::Tee(TeeSink::new()),
            },
        }
    }

    /// The policy this drain runs under.
    pub fn policy(&self) -> (policy: StdioPolicy)
        ensures
            policy == self@.policy,
    {
        match &self.capture {
            Capture::Unconnected { forwarded } => if *forwarded {
                StdioPolicy::ForwardOnly
            } else {
                StdioPolicy::Discard
            },
            Capture::Plain(_) => StdioPolicy::CaptureOnly,
            Capture::Tee(_) => StdioPolicy::CaptureAndForward,
        }
    }

    /// Whether the driver has to read the stream again.
    pub fn needs_read(&self) -> (b: bool)
        ensures
            b == self@.reading(),
    {
        match (&self.phase, &self.capture) {
            (_, Capture::Unconnected { .. }) => false,
            (DrainPhase::Reading, _) => true,
            _ => false,
        }
    }

    /// Whether the drain reached a terminal state.
    pub fn is_done(&self) -> (b: bool)
        ensures
            b == self@.done(),
    {
        !self.needs_read()
    }

    /// Takes a chunk that the stream yielded. While the drain reads, the chunk
    /// is appended to the capture, and echoed if the policy says so.
    pub fn accept<'a>(&mut self, chunk: &'a [u8]) -> (action: DrainAction<'a>)
        ensures
            final(self)@ == old(self)@.after(DrainEvent::Chunk(chunk@)),
            action@ == old(self)@.action(DrainEvent::Chunk(chunk@)),
    {
        if !self.needs_read() {
            return DrainAction::Done;
        }
        match &mut self.capture {
            Capture::Unconnected { .. } => DrainAction::Done,
            Capture::Plain(buffer) => {
                append_bytes(buffer, chunk);
                DrainAction::Read
            },
            Capture::Tee(tee) => {
                let echo = tee.write(chunk);
                DrainAction::Forward(echo)
            },
        }
    }

    /// Takes the end of the stream: a drain that reads is finished by it.
    pub fn end_of_stream(&mut self)
        ensures
            final(self)@ == old(self)@.after(DrainEvent::EndOfStream),
    {
        if self.needs_read() {
            self.phase = DrainPhase::Finished;
        }
    }

    /// Takes a failed read or a failed echo: a drain that reads stops with
    /// that error.
    pub fn fail(&mut self, error: IoError)
        ensures
            final(self)@ == old(self)@.after(DrainEvent::Failure(error)),
    {
        if self.needs_read() {
            self.phase = DrainPhase::Failed(error);
        }
    }

    /// Ends the drain and gives out its result: the error if it failed, else
    /// every byte captured, in order.
    pub fn finish(self) -> (outcome: Result<CapturedStream, IoError>)
        requires
            self@.done(),
        ensures
            outcome_view(outcome) == self@.outcome(),
    {
        match (self.phase, self.capture) {
            (_, Capture::Unconnected { .. }) => Ok(Vec::new()),
            (DrainPhase::Failed(error), _) => Err(error),
            (_, Capture::Plain(buffer)) => Ok(buffer),
            (_, Capture::Tee(tee)) => Ok(tee.into_buffer()),
        }
    }
}

/// The policy alone decides whether a stream is read: a drain starts by
/// reading exactly if its policy connects the stream, and a drain that never
/// reads is over from the start, with an empty capture.
pub proof fn policy_decides_whether_a_stream_is_read(policy: StdioPolicy)
    ensures
        DrainerView::initial(policy).reading() == policy.connected(),
        DrainerView::initial(policy).first_action() == if policy.connected() {
            DrainActionView::Read
        } else {
            DrainActionView::Done
        },
        !policy.connected() ==> DrainerView::initial(policy).outcome() == Ok::<Seq<u8>, IoError>(
            Seq::empty(),
        ),
{
}

/// A drain that is over stays as it is, whatever is reported to it, and sends
/// nothing more to the console.
pub proof fn finished_drain_ignores_events(drain: DrainerView, events: Seq<DrainEvent>)
    requires
        drain.done(),
    ensures
        drain.run(events) == drain,
        drain.echoed(events) == Seq::<u8>::empty(),
    decreases events.len(),
{
    if events.len() > 0 {
        finished_drain_ignores_events(drain, events.drop_last());
    }
}

/// Under `Discard` and `ForwardOnly` the drain is over before it starts: the
/// driver is never told to read, no state is ever entered in which it would
/// be, and the capture is empty whatever is reported.
pub proof fn unconnected_stream_is_never_read(policy: StdioPolicy, events: Seq<DrainEvent>)
    requires
        policy == StdioPolicy::Discard || policy == StdioPolicy::ForwardOnly,
    ensures
        DrainerView::initial(policy).first_action() == DrainActionView::Done,
        !DrainerView::initial(policy).run(events).reading(),
        DrainerView::initial(policy).run(events).outcome() == Ok::<Seq<u8>, IoError>(Seq::empty()),
        DrainerView::initial(policy).echoed(events) == Seq::<u8>::empty(),
{
    finished_drain_ignores_events(DrainerView::initial(policy), events);
}

/// While a connected stream yields chunks, the drain keeps reading, its
/// capture is the chunks joined in order, and the console has received the
/// same bytes if the policy echoes and nothing if it does not.
pub proof fn chunks_accumulate_in_order(policy: StdioPolicy, chunks: Seq<Seq<u8>>)
    requires
        policy.connected(),
    ensures
        DrainerView::initial(policy).run(chunk_events(chunks)).reading(),
        DrainerView::initial(policy).run(chunk_events(chunks)).policy == policy,
        DrainerView::initial(policy).run(chunk_events(chunks)).captured == chunks.flatten(),
        DrainerView::initial(policy).echoed(chunk_events(chunks)) == if policy.echoes() {
            chunks.flatten()
        } else {
            Seq::<u8>::empty()
        },
    decreases chunks.len(),
{
    if chunks.len() > 0 {
        let front = chunks.drop_last();
        chunks_accumulate_in_order(policy, front);
        assert(chunk_events(chunks).drop_last() == chunk_events(front));
        assert(chunks == front.push(chunks.last()));
        front.lemma_flatten_push(chunks.last());
    }
}

/// Under `CaptureOnly`, when a stream yields `chunks` and then ends, the drain
/// returns exactly the bytes of the chunks, in order, and echoes nothing.
pub proof fn capture_only_returns_what_was_written(chunks: Seq<Seq<u8>>)
    ensures
        DrainerView::initial(StdioPolicy::CaptureOnly).run(chunk_events(chunks)).after(
            DrainEvent::EndOfStream,
        ).outcome() == Ok::<Seq<u8>, IoError>(chunks.flatten()),
        DrainerView::initial(StdioPolicy::CaptureOnly).run(chunk_events(chunks)).after(
            DrainEvent::EndOfStream,
        ).done(),
        DrainerView::initial(StdioPolicy::CaptureOnly).echoed(
            chunk_events(chunks).push(DrainEvent::EndOfStream),
        ) == Seq::<u8>::empty(),
{
    chunks_accumulate_in_order(StdioPolicy::CaptureOnly, chunks);
    let events = chunk_events(chunks).push(DrainEvent::EndOfStream);
    assert(events.drop_last() == chunk_events(chunks));
}

/// Under `CaptureAndForward`, when a stream yields `chunks` and then ends, the
/// drain returns exactly the bytes of the chunks, and the console has received
/// the same bytes in the same order: nothing lost, nothing moved.
pub proof fn capture_and_forward_duplicates_the_stream(chunks: Seq<Seq<u8>>)
    ensures
        DrainerView::initial(StdioPolicy::CaptureAndForward).run(chunk_events(chunks)).after(
            DrainEvent::EndOfStream,
        ).outcome() == Ok::<Seq<u8>, IoError>(chunks.flatten()),
        DrainerView::initial(StdioPolicy::CaptureAndForward).run(chunk_events(chunks)).after(
            DrainEvent::EndOfStream,
        ).done(),
        DrainerView::initial(StdioPolicy::CaptureAndForward).echoed(
            chunk_events(chunks).push(DrainEvent::EndOfStream),
        ) == chunks.flatten(),
{
    chunks_accumulate_in_order(StdioPolicy::CaptureAndForward, chunks);
    let events = chunk_events(chunks).push(DrainEvent::EndOfStream);
    assert(events.drop_last() == chunk_events(chunks));
}

/// The first failure ends a drain for good: whatever is reported after it, the
/// drain returns that error.
pub proof fn first_failure_is_kept(drain: DrainerView, error: IoError, events: Seq<DrainEvent>)
    requires
        drain.reading(),
    ensures
        drain.after(DrainEvent::Failure(error)).run(events).done(),
        drain.after(DrainEvent::Failure(error)).run(events).outcome() == Err::<Seq<u8>, IoError>(
            error,
        ),
{
    finished_drain_ignores_events(drain.after(DrainEvent::Failure(error)), events);
}

/// Every state that a drain can reach keeps an unconnected stream unread and
/// its capture empty.
pub proof fn drain_stays_well_formed(policy: StdioPolicy, events: Seq<DrainEvent>)
    ensures
        DrainerView::initial(policy).run(events).wf(),
        DrainerView::initial(policy).run(events).policy == policy,
    decreases events.len(),
{
    if events.len() > 0 {
        drain_stays_well_formed(policy, events.drop_last());
    }
}

} // verus!
