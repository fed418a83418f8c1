use vstd::prelude::*;
use crate::coordinator::ChildResultView;
use crate::error::ChildError;
use crate::coordinator::{ChildEvent, CoordinatorView, ExitWait};
use crate::drainer::{DrainEvent, DrainerView};
use crate::error::StreamRole;
use crate::policy::StdioPolicy;
use crate::status::ExitStatus;

verus! {

/// One byte that a child writes, and the stream that it writes it to.
#[derive(Clone, Copy, Debug, PartialEq, Eq)]
pub struct Write {
    pub role: StreamRole,
    pub byte: u8,
}

/// The bytes that `script` writes to the stream `role`, in order.
pub open spec fn written(script: Seq<Write>, role: StreamRole) -> Seq<u8>
    decreases script.len(),
{
    if script.len() == 0 {
        Seq::empty()
    } else if script.first().role == role {
        seq![script.first().byte] + written(script.drop_first(), role)
    } else {
        written(script.drop_first(), role)
    }
}

/// The bytes `bytes` as writes to the stream `role`.
pub open spec fn tagged(role: StreamRole, bytes: Seq<u8>) -> Seq<Write> {
    Seq::new(bytes.len(), |i: int| Write { role, byte: bytes[i] })
}

/// What one of the parties does next.
pub enum Step {
    /// The child writes its next byte, or exits when it has written all.
    Child,
    /// The driver reads what the pipe of this stream holds, or sees its end.
    Read(StreamRole),
    /// The driver collects the exit status.
    Reap,
}

/// A child, the two pipes between it and its parent, and the coordinator that
/// waits for it. A pipe holds at most `capacity` bytes: a child that writes
/// to a full pipe is blocked until the pipe is read. A stream that is not
/// connected has no pipe, and writing to it never blocks.
pub struct World {
    pub capacity: nat,
    /// Everything the child writes, from its start to its exit.
    pub script: Seq<Write>,
    /// What the child has still to write.
    pub pending: Seq<Write>,
    /// The child has written everything, closed its ends and exited.
    pub exited: bool,
    /// The status the child exits with.
    pub status: ExitStatus,
    /// The bytes in the pipe of stdout: written and not yet read.
    pub stdout: Seq<u8>,
    /// The bytes in the pipe of stderr: written and not yet read.
    pub stderr: Seq<u8>,
    /// What the parent's console has received, each byte with the stream of
    /// the child that it was echoed from.
    pub console: Seq<Write>,
    pub coordinator: CoordinatorView,
}

impl World {
    /// A child that is about to run `script`, and a coordinator that is about
    /// to wait for it.
    pub open spec fn start(
        capacity: nat,
        script: Seq<Write>,
        status: ExitStatus,
        stdout: StdioPolicy,
        stderr: StdioPolicy,
    ) -> World {
        World {
            capacity,
            script,
            pending: script,
            exited: false,
            status,
            stdout: Seq::empty(),
            stderr: Seq::empty(),
            console: Seq::empty(),
            coordinator: CoordinatorView::initial(stdout, stderr),
        }
    }

    /// The bytes in the pipe of the stream `role`.
    pub open spec fn pipe(self, role: StreamRole) -> Seq<u8> {
        match role {
            StreamRole::Stdout => self.stdout,
            StreamRole::Stderr => self.stderr,
        }
    }

    /// This world with `bytes` in the pipe of the stream `role`.
    pub open spec fn with_pipe(self, role: StreamRole, bytes: Seq<u8>) -> World {
        match role {
            StreamRole::Stdout => World { stdout: bytes, ..self },
            StreamRole::Stderr => World { stderr: bytes, ..self },
        }
    }

    /// The drain of the stream `role`.
    pub open spec fn drain(self, role: StreamRole) -> DrainerView {
        self.coordinator.drainer(role)
    }

    /// The stream `role` runs through a pipe to the coordinator.
    pub open spec fn connected(self, role: StreamRole) -> bool {
        self.drain(role).policy.connected()
    }

    /// What the console receives when `bytes` are read from the stream `role`.
    pub open spec fn echo_of(self, role: StreamRole, bytes: Seq<u8>) -> Seq<Write> {
        if self.drain(role).policy.echoes() {
            tagged(role, bytes)
        } else {
            Seq::empty()
        }
    }

    /// The child can write its next byte without waiting.
    pub open spec fn can_write(self) -> bool
        recommends
            self.pending.len() > 0,
    {
        let role = self.pending.first().role;
        !self.connected(role) || self.pipe(role).len() < self.capacity
    }

    /// What holds of the stream `role` in every world that a wait can reach.
    pub open spec fn stream_wf(self, role: StreamRole) -> bool {
        let drain = self.drain(role);
        &&& drain.wf()
        &&& !(drain.phase is Failed)
        &&& self.pipe(role).len() <= self.capacity
        &&& !self.connected(role) ==> self.pipe(role).len() == 0
        &&& written(self.console, role) == if drain.policy.echoes() {
            drain.captured
        } else {
            Seq::empty()
        }
        &&& self.connected(role) ==> {
            &&& drain.reading() || (self.exited && self.pipe(role).len() == 0)
            &&& drain.captured + self.pipe(role) + written(self.pending, role) == written(
                self.script,
                role,
            )
        }
    }

    /// What holds in every world that a wait can reach.
    pub open spec fn wf(self) -> bool {
        &&& self.capacity > 0
        &&& self.stream_wf(StreamRole::Stdout)
        &&& self.stream_wf(StreamRole::Stderr)
        &&& self.exited ==> self.pending.len() == 0
        &&& match self.coordinator.exit {
            ExitWait::Pending => true,
            ExitWait::Exited(status) => self.exited && status == self.status,
            ExitWait::Failed(_) => false,
        }
    }

    /// The party of `step` can move.
    pub open spec fn enabled(self, step: Step) -> bool {
        match step {
            Step::Child => !self.exited && (self.pending.len() == 0 || self.can_write()),
            Step::Read(role) => self.drain(role).reading() && (self.pipe(role).len() > 0
                || self.exited),
            Step::Reap => self.exited && !self.coordinator.exit.done(),
        }
    }

    /// The party of `step` can move, for a driver that drains stdout to its
    /// end before it reads stderr.
    pub open spec fn enabled_in_turn(self, step: Step) -> bool {
        self.enabled(step) && (step == Step::Read(StreamRole::Stderr)
            ==> self.coordinator.stdout.done())
    }

    /// The world after `step`.
    pub open spec fn next(self, step: Step) -> World
        recommends
            self.enabled(step),
    {
        match step {
            Step::Child => if self.pending.len() == 0 {
                World { exited: true, ..self }
            } else {
                let write = self.pending.first();
                let rest = World { pending: self.pending.drop_first(), ..self };
                if self.connected(write.role) {
                    rest.with_pipe(write.role, self.pipe(write.role).push(write.byte))
                } else {
                    rest
                }
            },
            Step::Read(role) => if self.pipe(role).len() > 0 {
                World {
                    coordinator: self.coordinator.after(
                        ChildEvent::Stream(role, DrainEvent::Chunk(self.pipe(role))),
                    ),
                    console: self.console + self.echo_of(role, self.pipe(role)),
                    ..self.with_pipe(role, Seq::empty())
                }
            } else {
                World {
                    coordinator: self.coordinator.after(
                        ChildEvent::Stream(role, DrainEvent::EndOfStream),
                    ),
                    ..self
                }
            },
            Step::Reap => World {
                coordinator: self.coordinator.after(ChildEvent::Exit(Ok(self.status))),
                ..self
            },
        }
    }

    /// The world after the child alone has moved `n` times.
    pub open spec fn after_child_steps(self, n: nat) -> World
        decreases n,
    {
        if n == 0 {
            self
        } else {
            self.after_child_steps((n - 1) as nat).next(Step::Child)
        }
    }

    /// How far the wait is from its end, counted in steps at most.
    pub open spec fn distance(self) -> nat {
        2 * self.pending.len() + self.stdout.len() + self.stderr.len() + (if self.exited {
            0nat
        } else {
            1nat
        }) + (if self.coordinator.stdout.reading() {
            1nat
        } else {
            0nat
        }) + (if self.coordinator.stderr.reading() {
            1nat
        } else {
            0nat
        }) + (if self.coordinator.exit.done() {
            0nat
        } else {
            1nat
        })
    }

    /// What the console receives of the stream `role` when the child runs its
    /// script to the end: every byte written to a stream that is echoed, and
    /// nothing of a stream that is not.
    pub open spec fn expected_echo(self, role: StreamRole) -> Seq<u8> {
        if self.drain(role).policy.echoes() {
            written(self.script, role)
        } else {
            Seq::empty()
        }
    }

    /// Both streams run through pipes, and the child writes more to stderr
    /// than the pipe of stderr holds.
    pub open spec fn overfills_stderr(self) -> bool {
        &&& self.connected(StreamRole::Stdout)
        &&& self.connected(StreamRole::Stderr)
        &&& written(self.script, StreamRole::Stderr).len() > self.capacity
    }

    /// What holds besides `wf` in every world that a wait can reach with a
    /// driver that drains stdout to its end before it reads stderr: as long
    /// as stdout has not ended, nothing of stderr was read; and stdout ends
    /// only after a child that got all it wrote to stderr into the pipe.
    pub open spec fn wf_in_turn(self) -> bool {
        &&& self.wf()
        &&& self.coordinator.stdout.reading() && self.connected(StreamRole::Stderr)
            ==> self.coordinator.stderr.captured.len() == 0
        &&& self.coordinator.stdout.done() ==> !self.overfills_stderr()
    }

    /// What the coordinator captures of the stream `role` when the child runs
    /// its script to the end: every byte written to a connected stream, and
    /// nothing of a stream that is not connected.
    pub open spec fn expected_capture(self, role: StreamRole) -> Seq<u8> {
        if self.connected(role) {
            written(self.script, role)
        } else {
            Seq::empty()
        }
    }
}

/// A script that writes `n` zero bytes to stderr and nothing to stdout.
pub open spec fn stderr_burst(n: nat) -> Seq<Write> {
    Seq::new(n, |i: int| Write { role: StreamRole::Stderr, byte: 0 })
}

/// Taking the first write off a script takes its byte off the front of what
/// the script writes to that stream, and nothing off the other stream.
pub proof fn written_unfolds(script: Seq<Write>, role: StreamRole)
    requires
        script.len() > 0,
    ensures
        written(script, role) == if script.first().role == role {
            seq![script.first().byte] + written(script.drop_first(), role)
        } else {
            written(script.drop_first(), role)
        },
{
}

/// What two scripts write to a stream one after the other is what the first
/// writes followed by what the second writes.
pub proof fn written_of_both(first: Seq<Write>, second: Seq<Write>, role: StreamRole)
    ensures
        written(first + second, role) == written(first, role) + written(second, role),
    decreases first.len(),
{
    if first.len() > 0 {
        written_of_both(first.drop_first(), second, role);
        assert((first + second).drop_first() == first.drop_first() + second);
    }
}

/// Writes to one stream write their bytes to that stream and nothing to the
/// other.
pub proof fn written_of_tagged(role: StreamRole, bytes: Seq<u8>, to: StreamRole)
    ensures
        written(tagged(role, bytes), to) == if to == role {
            bytes
        } else {
            Seq::empty()
        },
    decreases bytes.len(),
{
    if bytes.len() > 0 {
        written_of_tagged(role, bytes.drop_first(), to);
        assert(tagged(role, bytes).drop_first() == tagged(role, bytes.drop_first()));
    }
}

/// The wait starts in a well-formed world.
pub proof fn start_is_well_formed(
    capacity: nat,
    script: Seq<Write>,
    status: ExitStatus,
    stdout: StdioPolicy,
    stderr: StdioPolicy,
)
    requires
        capacity > 0,
    ensures
        World::start(capacity, script, status, stdout, stderr).wf(),
{
}

/// Every step leads from a well-formed world to a well-formed world, in which
/// the child runs the same script with the same status under the same
/// policies.
pub proof fn steps_keep_well_formed(world: World, step: Step)
    requires
        world.wf(),
        world.enabled(step),
    ensures
        world.next(step).wf(),
        world.next(step).script == world.script,
        world.next(step).status == world.status,
        world.next(step).capacity == world.capacity,
        world.next(step).coordinator.stdout.policy == world.coordinator.stdout.policy,
        world.next(step).coordinator.stderr.policy == world.coordinator.stderr.policy,
{
    match step {
        Step::Child => {
            if world.pending.len() > 0 {
                let write = world.pending.first();
                written_unfolds(world.pending, StreamRole::Stdout);
                written_unfolds(world.pending, StreamRole::Stderr);
                if world.connected(write.role) {
                    let drain = world.drain(write.role);
                    let pipe = world.pipe(write.role);
                    let rest = written(world.pending.drop_first(), write.role);
                    assert(drain.captured + pipe.push(write.byte) + rest == drain.captured + pipe
                        + (seq![write.byte] + rest));
                }
            }
        },
        Step::Read(role) => {
            let pipe = world.pipe(role);
            if pipe.len() > 0 {
                let echo = world.echo_of(role, pipe);
                written_of_both(world.console, echo, StreamRole::Stdout);
                written_of_both(world.console, echo, StreamRole::Stderr);
                written_of_tagged(role, pipe, StreamRole::Stdout);
                written_of_tagged(role, pipe, StreamRole::Stderr);
            }
        },
        Step::Reap => {},
    }
}

/// While the wait is not over, some party can move: the child, or the driver
/// on a stream that has bytes or has ended, or the driver on the exit. The
/// child is never blocked on a pipe that nobody will read.
pub proof fn concurrent_wait_is_never_stuck(world: World)
    requires
        world.wf(),
        !world.coordinator.all_complete(),
    ensures
        world.enabled(Step::Child) || world.enabled(Step::Read(StreamRole::Stdout))
            || world.enabled(Step::Read(StreamRole::Stderr)) || world.enabled(Step::Reap),
        !world.exited && world.pending.len() > 0 && !world.can_write() ==> world.enabled(
            Step::Read(world.pending.first().role),
        ),
{
}

/// Every step brings the end of the wait nearer, so no wait goes on for ever.
pub proof fn every_step_brings_the_end_nearer(world: World, step: Step)
    requires
        world.wf(),
        world.enabled(step),
    ensures
        world.next(step).distance() < world.distance(),
{
}

/// When the wait is over, the child has exited and the coordinator returns its
/// status with everything it wrote to each connected stream, in order, and an
/// empty capture for each stream that is not connected. The console has
/// received, of each stream that is echoed, the same bytes in the same order,
/// however the echoes of the two streams fell between one another, and
/// nothing of a stream that is not echoed.
pub proof fn complete_wait_returns_what_the_child_wrote(world: World)
    requires
        world.wf(),
        world.coordinator.all_complete(),
    ensures
        world.exited,
        world.coordinator.outcome() == Ok::<ChildResultView, ChildError>(
            ChildResultView {
                status: world.status,
                stdout: world.expected_capture(StreamRole::Stdout),
                stderr: world.expected_capture(StreamRole::Stderr),
            },
        ),
        written(world.console, StreamRole::Stdout) == world.expected_echo(StreamRole::Stdout),
        written(world.console, StreamRole::Stderr) == world.expected_echo(StreamRole::Stderr),
{
    if !world.connected(StreamRole::Stdout) {
        assert(world.coordinator.stdout.captured == Seq::<u8>::empty());
    }
    if !world.connected(StreamRole::Stderr) {
        assert(world.coordinator.stderr.captured == Seq::<u8>::empty());
    }
}

/// While a child that only writes to stderr has room in the pipe, it writes
/// on, and nothing else changes.
pub proof fn burst_fills_the_pipe(capacity: nat, status: ExitStatus, n: nat)
    requires
        capacity > 0,
        n <= capacity,
    ensures
        World::start(
            capacity,
            stderr_burst(capacity + 1),
            status,
            StdioPolicy::CaptureOnly,
            StdioPolicy::CaptureOnly,
        ).after_child_steps(n) == (World {
            pending: stderr_burst((capacity + 1 - n) as nat),
            stderr: Seq::new(n, |i: int| 0u8),
            ..World::start(
                capacity,
                stderr_burst(capacity + 1),
                status,
                StdioPolicy::CaptureOnly,
                StdioPolicy::CaptureOnly,
            )
        }),
        n > 0 ==> World::start(
            capacity,
            stderr_burst(capacity + 1),
            status,
            StdioPolicy::CaptureOnly,
            StdioPolicy::CaptureOnly,
        ).after_child_steps((n - 1) as nat).enabled(Step::Child),
    decreases n,
{
    let start = World::start(
        capacity,
        stderr_burst(capacity + 1),
        status,
        StdioPolicy::CaptureOnly,
        StdioPolicy::CaptureOnly,
    );
    if n == 0 {
        assert(Seq::new(0nat, |i: int| 0u8) == Seq::<u8>::empty());
    } else {
        burst_fills_the_pipe(capacity, status, (n - 1) as nat);
        let before = start.after_child_steps((n - 1) as nat);
        assert(before.pending.drop_first() == stderr_burst((capacity + 1 - n) as nat));
        assert(before.stderr.push(0u8) == Seq::new(n, |i: int| 0u8));
    }
}

/// A driver that drains stdout to its end before it reads stderr can hang: a
/// child that writes one byte more to stderr than the pipe holds fills the
/// pipe and is blocked, the driver waits for stdout, which neither yields a
/// byte nor ends, and no party can move, though the wait is not over. In the
/// same world a driver that reads whichever stream has bytes goes on.
pub proof fn draining_in_turn_can_hang(capacity: nat, status: ExitStatus)
    requires
        capacity > 0,
    ensures
        ({
            let stuck = World::start(
                capacity,
                stderr_burst(capacity + 1),
                status,
                StdioPolicy::CaptureOnly,
                StdioPolicy::CaptureOnly,
            ).after_child_steps(capacity);
            &&& stuck.wf()
            &&& !stuck.coordinator.all_complete()
            &&& forall|step: Step| !stuck.enabled_in_turn(step)
            &&& stuck.enabled(Step::Read(StreamRole::Stderr))
        }),
{
    let start = World::start(
        capacity,
        stderr_burst(capacity + 1),
        status,
        StdioPolicy::CaptureOnly,
        StdioPolicy::CaptureOnly,
    );
    let stuck = start.after_child_steps(capacity);
    burst_fills_the_pipe(capacity, status, capacity);
    child_steps_keep_well_formed(capacity, status, capacity);
    assert forall|step: Step| !stuck.enabled_in_turn(step) by {
        match step {
            Step::Child => {},
            Step::Read(role) => {},
            Step::Reap => {},
        }
    }
}

/// The worlds that the bursting child passes through are well-formed.
proof fn child_steps_keep_well_formed(capacity: nat, status: ExitStatus, n: nat)
    requires
        capacity > 0,
        n <= capacity,
    ensures
        World::start(
            capacity,
            stderr_burst(capacity + 1),
            status,
            StdioPolicy::CaptureOnly,
            StdioPolicy::CaptureOnly,
        ).after_child_steps(n).wf(),
    decreases n,
{
    let start = World::start(
        capacity,
        stderr_burst(capacity + 1),
        status,
        StdioPolicy::CaptureOnly,
        StdioPolicy::CaptureOnly,
    );
    if n == 0 {
        start_is_well_formed(
            capacity,
            stderr_burst(capacity + 1),
            status,
            StdioPolicy::CaptureOnly,
            StdioPolicy::CaptureOnly,
        );
    } else {
        child_steps_keep_well_formed(capacity, status, (n - 1) as nat);
        burst_fills_the_pipe(capacity, status, n);
        steps_keep_well_formed(start.after_child_steps((n - 1) as nat), Step::Child);
    }
}

/// A step in turn leads from a world that a driver in turn can reach to
/// another such world.
pub proof fn steps_in_turn_keep_well_formed(world: World, step: Step)
    requires
        world.wf_in_turn(),
        world.enabled_in_turn(step),
    ensures
        world.next(step).wf_in_turn(),
{
    steps_keep_well_formed(world, step);
}

/// A driver that drains stdout to its end before it reads stderr hangs
/// exactly on a child that writes more to stderr than the pipe holds while
/// both streams are connected: where no party can move in turn and the wait
/// is not over, the child is such a child; where the wait is over, it is not.
pub proof fn draining_in_turn_hangs_on_a_full_stderr(world: World)
    requires
        world.wf_in_turn(),
    ensures
        world.coordinator.all_complete() ==> !world.overfills_stderr(),
        !world.coordinator.all_complete() && (forall|step: Step| !world.enabled_in_turn(step))
            ==> world.overfills_stderr(),
{
    if !world.coordinator.all_complete() && (forall|step: Step| !world.enabled_in_turn(step)) {
        assert(!world.enabled_in_turn(Step::Child));
        assert(!world.enabled_in_turn(Step::Read(StreamRole::Stdout)));
        assert(!world.enabled_in_turn(Step::Read(StreamRole::Stderr)));
        assert(!world.enabled_in_turn(Step::Reap));
        written_unfolds(world.pending, StreamRole::Stderr);
    }
}

} // verus!
