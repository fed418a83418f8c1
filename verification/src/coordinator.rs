use vstd::prelude::*;
use crate::drainer::{outcome_view, DrainAction, DrainEvent, DrainerView, StreamDrainer};
use crate::error::{ChildError, ExitWaitError, IoError, StreamRole};
use crate::policy::StdioPolicy;
use crate::status::ExitStatus;

verus! {

/// Everything a finished child left behind: how it ended and what each
/// captured stream held.
#[derive(Clone, Debug, PartialEq, Eq)]
pub struct ChildResult {
    pub status: ExitStatus,
    pub stdout: Vec<u8>,
    pub stderr: Vec<u8>,
}

/// A `ChildResult` as a mathematical value.
pub struct ChildResultView {
    pub status: ExitStatus,
    pub stdout: Seq<u8>,
    pub stderr: Seq<u8>,
}

impl View for ChildResult {
    type V = ChildResultView;

    open spec fn view(&self) -> ChildResultView {
        ChildResultView { status: self.status, stdout: self.stdout@, stderr: self.stderr@ }
    }
}

/// What a coordinated wait returns, as a mathematical value.
pub open spec fn result_view(result: Result<ChildResult, ChildError>) -> Result<
    ChildResultView,
    ChildError,
> {
    match result {
        Ok(child) => Ok(child@),
        Err(error) => Err(error),
    }
}

/// What the three joined sub-operations amount to. A failure is reported in a
/// fixed order of priority, whichever happened first: the exit-wait's, then
/// stdout's, then stderr's. Only when none failed is there a result.
pub open spec fn joined(
    exit: Result<ExitStatus, ExitWaitError>,
    stdout: Result<Seq<u8>, IoError>,
    stderr: Result<Seq<u8>, IoError>,
) -> Result<ChildResultView, ChildError> {
    match (exit, stdout, stderr) {
        (Err(error), _, _) => Err(ChildError::ExitWait(error)),
        (Ok(_), Err(error), _) => Err(ChildError::Stdout(error)),
        (Ok(_), Ok(_), Err(error)) => Err(ChildError::Stderr(error)),
        (Ok(status), Ok(out), Ok(err)) => Ok(
            ChildResultView { status, stdout: out, stderr: err },
        ),
    }
}

/// Joins the outcomes of the exit-wait and of the two drains into the one
/// value that a coordinated wait returns.
pub fn join_outcomes(
    exit: Result<ExitStatus, ExitWaitError>,
    stdout: Result<Vec<u8>, IoError>,
    stderr: Result<Vec<u8>, IoError>,
) -> (result: Result<ChildResult, ChildError>)
    ensures
        result_view(result) == joined(exit, outcome_view(stdout), outcome_view(stderr)),
{
    match exit {
        Err(error) => Err(ChildError::ExitWait(error)),
        Ok(status) => match stdout {
            Err(error) => Err(ChildError::Stdout(error)),
            Ok(out) => match stderr {
                Err(error) => Err(ChildError::Stderr(error)),
                Ok(err) => Ok(ChildResult { status, stdout: out, stderr: err }),
            },
        },
    }
}

/// Where the wait for the child's exit stands.
#[derive(Clone, Debug, PartialEq, Eq)]
pub enum ExitWait {
    /// The operating system has not reported yet.
    Pending,
    /// The child ended with this status.
    Exited(ExitStatus),
    /// The operating system could not report the status.
    Failed(ExitWaitError),
}

impl ExitWait {
    /// The wait reached a terminal state, by success or by failure.
    pub open spec fn done(self) -> bool {
        !(self is Pending)
    }

    /// The wait after `report`: the first report is the one that counts.
    pub open spec fn after(self, report: Result<ExitStatus, ExitWaitError>) -> ExitWait {
        match (self, report) {
            (ExitWait::Pending, Ok(status)) => ExitWait::Exited(status),
            (ExitWait::Pending, Err(error)) => ExitWait::Failed(error),
            _ => self,
        }
    }

    /// What a finished wait returns.
    pub open spec fn outcome(self) -> Result<ExitStatus, ExitWaitError>
        recommends
            self.done(),
    {
        match self {
            ExitWait::Failed(error) => Err(error),
            ExitWait::Exited(status) => Ok(status),
            ExitWait::Pending => Ok(ExitStatus { code: None }),
        }
    }
}

/// What can be reported to a coordinator, as a mathematical value.
pub enum ChildEvent {
    /// Something happened on one of the two streams.
    Stream(StreamRole, DrainEvent),
    /// The exit-wait came back.
    Exit(Result<ExitStatus, ExitWaitError>),
}

/// The state of a coordinator as a mathematical value: its three
/// sub-operations, side by side.
pub struct CoordinatorView {
    pub stdout: DrainerView,
    pub stderr: DrainerView,
    pub exit: ExitWait,
}

impl CoordinatorView {
    /// The state in which the wait for a child starts.
    pub open spec fn initial(stdout: StdioPolicy, stderr: StdioPolicy) -> CoordinatorView {
        CoordinatorView {
            stdout: DrainerView::initial(stdout),
            stderr: DrainerView::initial(stderr),
            exit: ExitWait::Pending,
        }
    }

    /// The drain of the stream `role`.
    pub open spec fn drainer(self, role: StreamRole) -> DrainerView {
        match role {
            StreamRole::Stdout => self.stdout,
            StreamRole::Stderr => self.stderr,
        }
    }

    /// All three sub-operations reached a terminal state. Nothing less counts:
    /// a failure of one does not stand in for the completion of another.
    pub open spec fn all_complete(self) -> bool {
        self.stdout.done() && self.stderr.done() && self.exit.done()
    }

    /// The state after `event`: it moves the sub-operation that it belongs to
    /// and no other.
    pub open spec fn after(self, event: ChildEvent) -> CoordinatorView {
        match event {
            ChildEvent::Stream(StreamRole::Stdout, e) => CoordinatorView {
                stdout: self.stdout.after(e),
                ..self
            },
            ChildEvent::Stream(StreamRole::Stderr, e) => CoordinatorView {
                stderr: self.stderr.after(e),
                ..self
            },
            ChildEvent::Exit(report) => CoordinatorView { exit: self.exit.after(report), ..self },
        }
    }

    /// The state after all of `events`, in order.
    pub open spec fn run(self, events: Seq<ChildEvent>) -> CoordinatorView
        decreases events.len(),
    {
        if events.len() == 0 {
            self
        } else {
            self.run(events.drop_last()).after(events.last())
        }
    }

    /// What the wait returns once all three sub-operations are over.
    pub open spec fn outcome(self) -> Result<ChildResultView, ChildError>
        recommends
            self.all_complete(),
    {
        joined(self.exit.outcome(), self.stdout.outcome(), self.stderr.outcome())
    }
}

/// The events of `events` that belong to the stream `role`, in their order.
pub open spec fn stream_events(events: Seq<ChildEvent>, role: StreamRole) -> Seq<DrainEvent>
    decreases events.len(),
{
    if events.len() == 0 {
        Seq::empty()
    } else {
        match events.last() {
            ChildEvent::Stream(r, e) if r == role => stream_events(events.drop_last(), role).push(
                e,
            ),
            _ => stream_events(events.drop_last(), role),
        }
    }
}

/// The exit reports among `events`, in their order.
pub open spec fn exit_reports(events: Seq<ChildEvent>) -> Seq<Result<ExitStatus, ExitWaitError>>
    decreases events.len(),
{
    if events.len() == 0 {
        Seq::empty()
    } else {
        match events.last() {
            ChildEvent::Exit(report) => exit_reports(events.drop_last()).push(report),
            _ => exit_reports(events.drop_last()),
        }
    }
}

/// Runs the wait for one child: the drain of its stdout, the drain of its
/// stderr and the wait for its exit, none of which waits for another.
///
/// The coordinator decides; its driver reads, echoes and waits, and reports
/// what happened in whatever order it happens. The result is assembled only
/// when all three are over.
pub struct ChildCoordinator {
    stdout: StreamDrainer,
    stderr: StreamDrainer,
    exit: ExitWait,
}

impl View for ChildCoordinator {
    type V = CoordinatorView;

    closed spec fn view(&self) -> CoordinatorView {
        CoordinatorView { stdout: self.stdout@, stderr: self.stderr@, exit: self.exit }
    }
}

impl ChildCoordinator {
    /// A coordinator for a child whose streams are handled under these two
    /// policies, before anything was reported.
    pub fn new(stdout: StdioPolicy, stderr: StdioPolicy) -> (coordinator: ChildCoordinator)
        ensures
            coordinator@ == CoordinatorView::initial(stdout, stderr),
    {
        ChildCoordinator {
            stdout: StreamDrainer::new(stdout),
            stderr: StreamDrainer::new(stderr),
            exit: ExitWait::Pending,
        }
    }

    /// The policy of the stream `role`.
    pub fn policy(&self, role: StreamRole) -> (policy: StdioPolicy)
        ensures
            policy == self@.drainer(role).policy,
    {
        match role {
            StreamRole::Stdout => self.stdout.policy(),
            StreamRole::Stderr => self.stderr.policy(),
        }
    }

    /// Whether the driver has to read the stream `role` again.
    pub fn needs_read(&self, role: StreamRole) -> (b: bool)
        ensures
            b == self@.drainer(role).reading(),
    {
        match role {
            StreamRole::Stdout => self.stdout.needs_read(),
            StreamRole::Stderr => self.stderr.needs_read(),
        }
    }

    /// Whether the exit-wait has still to come back.
    pub fn awaits_exit(&self) -> (b: bool)
        ensures
            b == !self@.exit.done(),
    {
        match &self.exit {
            ExitWait::Pending => true,
            _ => false,
        }
    }

    /// Whether all three sub-operations are over.
    pub fn is_all_complete(&self) -> (b: bool)
        ensures
            b == self@.all_complete(),
    {
        self.stdout.is_done() && self.stderr.is_done() && !self.awaits_exit()
    }

    /// Takes a chunk that the stream `role` yielded, and says what to do with
    /// that stream next.
    pub fn accept<'a>(&mut self, role: StreamRole, chunk: &'a [u8]) -> (action: DrainAction<'a>)
        ensures
            final(self)@ == old(self)@.after(
                ChildEvent::Stream(role, DrainEvent::Chunk(chunk@)),
            ),
            action@ == old(self)@.drainer(role).action(DrainEvent::Chunk(chunk@)),
    {
        match role {
            StreamRole::Stdout => self.stdout.accept(chunk),
            StreamRole::Stderr => self.stderr.accept(chunk),
        }
    }

    /// Takes the end of the stream `role`.
    pub fn end_of_stream(&mut self, role: StreamRole)
        ensures
            final(self)@ == old(self)@.after(ChildEvent::Stream(role, DrainEvent::EndOfStream)),
    {
        match role {
            StreamRole::Stdout => self.stdout.end_of_stream(),
            StreamRole::Stderr => self.stderr.end_of_stream(),
        }
    }

    /// Takes a failed read or a failed echo on the stream `role`. It ends that
    /// stream's drain and leaves the other two sub-operations running.
    pub fn fail_stream(&mut self, role: StreamRole, error: IoError)
        ensures
            final(self)@ == old(self)@.after(
                ChildEvent::Stream(role, DrainEvent::Failure(error)),
            ),
    {
        match role {
            StreamRole::Stdout => self.stdout.fail(error),
            StreamRole::Stderr => self.stderr.fail(error),
        }
    }

    /// Takes what the exit-wait came back with.
    pub fn exit_reported(&mut self, report: Result<ExitStatus, ExitWaitError>)
        ensures
            final(self)@ == old(self)@.after(ChildEvent::Exit(report)),
    {
        if self.awaits_exit() {
            self.exit = match report {
                Ok(status) => ExitWait::Exited(status),
                Err(error) => ExitWait::Failed(error),
            };
        }
    }

    /// Ends the wait and assembles its result: the child's status and both
    /// captures, or the one failure that has priority.
    pub fn finish(self) -> (result: Result<ChildResult, ChildError>)
        requires
            self@.all_complete(),
        ensures
            result_view(result) == self@.outcome(),
    {
        let exit = match self.exit {
            ExitWait::Failed(error) => Err(error),
            ExitWait::Exited(status) => Ok(status),
            ExitWait::Pending => Ok(ExitStatus { code: None }),
        };
        join_outcomes(exit, self.stdout.finish(), self.stderr.finish())
    }

    /// Ends the wait if all three sub-operations are over, and hands the
    /// coordinator back untouched if one of them is not.
    pub fn try_finish(self) -> (result: Result<Result<ChildResult, ChildError>, ChildCoordinator>)
        ensures
            match result {
                Ok(done) => self@.all_complete() && result_view(done) == self@.outcome(),
                Err(back) => !self@.all_complete() && back@ == self@,
            },
    {
        if self.is_all_complete() {
            Ok(self.finish())
        } else {
            Err(self)
        }
    }
}

/// The three sub-operations do not wait for one another: in every state, an
/// event on a stream moves that stream's drain exactly as it would move it
/// alone, and leaves the other drain and the exit-wait as they were; an exit
/// report moves the exit-wait and leaves both drains as they were.
pub proof fn sub_operations_are_independent(state: CoordinatorView, event: ChildEvent)
    ensures
        match event {
            ChildEvent::Stream(StreamRole::Stdout, e) => {
                &&& state.after(event).stdout == state.stdout.after(e)
                &&& state.after(event).stderr == state.stderr
                &&& state.after(event).exit == state.exit
            },
            ChildEvent::Stream(StreamRole::Stderr, e) => {
                &&& state.after(event).stderr == state.stderr.after(e)
                &&& state.after(event).stdout == state.stdout
                &&& state.after(event).exit == state.exit
            },
            ChildEvent::Exit(report) => {
                &&& state.after(event).exit == state.exit.after(report)
                &&& state.after(event).stdout == state.stdout
                &&& state.after(event).stderr == state.stderr
            },
        },
{
}

/// However the events of the two streams and of the exit-wait are
/// interleaved, each sub-operation ends where its own events alone take it.
pub proof fn interleaving_does_not_matter(state: CoordinatorView, events: Seq<ChildEvent>)
    ensures
        state.run(events).stdout == state.stdout.run(stream_events(events, StreamRole::Stdout)),
        state.run(events).stderr == state.stderr.run(stream_events(events, StreamRole::Stderr)),
        state.run(events).exit == exit_reports(events).fold_left(
            state.exit,
            |wait: ExitWait, report: Result<ExitStatus, ExitWaitError>| wait.after(report),
        ),
    decreases events.len(),
{
    if events.len() > 0 {
        interleaving_does_not_matter(state, events.drop_last());
        let front_out = stream_events(events.drop_last(), StreamRole::Stdout);
        let front_err = stream_events(events.drop_last(), StreamRole::Stderr);
        let front_exit = exit_reports(events.drop_last());
        match events.last() {
            ChildEvent::Stream(StreamRole::Stdout, e) => {
                assert(front_out.push(e).drop_last() == front_out);
            },
            ChildEvent::Stream(StreamRole::Stderr, e) => {
                assert(front_err.push(e).drop_last() == front_err);
            },
            ChildEvent::Exit(report) => {
                assert(front_exit.push(report).drop_last() == front_exit);
            },
        }
    }
}

/// Once a sub-operation is over, nothing reported later changes how it ended.
pub proof fn finished_parts_stay_finished(state: CoordinatorView, events: Seq<ChildEvent>)
    ensures
        state.stdout.done() ==> state.run(events).stdout == state.stdout,
        state.stderr.done() ==> state.run(events).stderr == state.stderr,
        state.exit.done() ==> state.run(events).exit == state.exit,
    decreases events.len(),
{
    if events.len() > 0 {
        finished_parts_stay_finished(state, events.drop_last());
    }
}

/// A failed exit-wait does not end the wait for the child. The coordinator is
/// complete exactly when both drains are over as well, and what it then
/// returns is the exit-wait's error, however the drains ended.
pub proof fn exit_failure_waits_for_both_drains(
    state: CoordinatorView,
    error: ExitWaitError,
    events: Seq<ChildEvent>,
)
    requires
        !state.exit.done(),
    ensures
        state.after(ChildEvent::Exit(Err(error))).run(events).all_complete() == (state.after(
            ChildEvent::Exit(Err(error)),
        ).run(events).stdout.done() && state.after(ChildEvent::Exit(Err(error))).run(
            events,
        ).stderr.done()),
        state.after(ChildEvent::Exit(Err(error))).run(events).outcome() == Err::<
            ChildResultView,
            ChildError,
        >(ChildError::ExitWait(error)),
{
    finished_parts_stay_finished(state.after(ChildEvent::Exit(Err(error))), events);
}

/// The wait can always be brought to its end: from every state, the end of
/// both streams and one exit report complete it.
pub proof fn completion_is_always_reachable(
    state: CoordinatorView,
    report: Result<ExitStatus, ExitWaitError>,
)
    ensures
        state.after(ChildEvent::Stream(StreamRole::Stdout, DrainEvent::EndOfStream)).after(
            ChildEvent::Stream(StreamRole::Stderr, DrainEvent::EndOfStream),
        ).after(ChildEvent::Exit(report)).all_complete(),
{
}

/// A result exists only if none of the three sub-operations failed, and then
/// it holds the reported status and the two captures.
pub proof fn result_needs_three_successes(state: CoordinatorView)
    requires
        state.all_complete(),
    ensures
        state.outcome() is Ok <==> (state.exit is Exited && state.stdout.outcome() is Ok
            && state.stderr.outcome() is Ok),
        state.outcome() is Ok ==> state.outcome()->Ok_0 == (ChildResultView {
            status: state.exit->Exited_0,
            stdout: state.stdout.captured,
            stderr: state.stderr.captured,
        }),
{
}

} // verus!
