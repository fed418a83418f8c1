use vstd::prelude::*;
use crate::coordinator::{result_view, ChildCoordinator, ChildResult, ChildResultView};
use crate::drainer::DrainAction;
use crate::error::{ChildError, StreamRole};
use crate::pipes::{
    complete_wait_returns_what_the_child_wrote, concurrent_wait_is_never_stuck,
    draining_in_turn_hangs_on_a_full_stderr, every_step_brings_the_end_nearer,
    start_is_well_formed, steps_in_turn_keep_well_formed, steps_keep_well_formed, tagged, written,
    Step, World, Write,
};
use crate::policy::StdioPolicy;
use crate::status::ExitStatus;

verus! {

/// A child process played from a script, with pipes of a given capacity
/// between it and its parent: the stand-in for a real child where a wait is
/// to be tried without one.
pub struct ScriptedChild {
    script: Vec<Write>,
    status: ExitStatus,
    capacity: usize,
    stdout: StdioPolicy,
    stderr: StdioPolicy,
}

/// Where a played wait stands: how far the child has come, what the pipes
/// hold, and the coordinator.
struct Run {
    position: usize,
    exited: bool,
    stdout: Vec<u8>,
    stderr: Vec<u8>,
    console: Vec<Write>,
    coordinator: ChildCoordinator,
}

/// What a played wait left behind.
#[derive(Debug)]
pub struct Played {
    /// What the coordinator returned.
    pub result: Result<ChildResult, ChildError>,
    /// What the parent's console received, each byte with the stream of the
    /// child that it was echoed from.
    pub console: Vec<Write>,
}

/// Hands `bytes` of the stream `role` to the console.
fn echo_to(console: &mut Vec<Write>, role: StreamRole, bytes: &[u8])
    ensures
        final(console)@ == old(console)@ + tagged(role, bytes@),
{
    let ghost before = console@;
    let mut i: usize = 0;
    while i < bytes.len()
        invariant
            i <= bytes@.len(),
            console@ == before + tagged(role, bytes@).take(i as int),
        decreases bytes@.len() - i,
    {
        console.push(Write { role, byte: bytes[i] });
        i += 1;
    }
}

impl ScriptedChild {
    #[verifier::type_invariant]
    spec fn has_room(self) -> bool {
        self.capacity > 0
    }

    /// The world in which the wait for this child starts.
    pub closed spec fn start(&self) -> World {
        World::start(self.capacity as nat, self.script@, self.status, self.stdout, self.stderr)
    }

    /// A child that writes `script` byte by byte and then exits with
    /// `status`. Each stream that its policy connects runs through a pipe
    /// that holds `capacity` bytes, and one byte where `capacity` is zero:
    /// there is no pipe without room.
    pub fn spawn(
        script: Vec<Write>,
        status: ExitStatus,
        capacity: usize,
        stdout: StdioPolicy,
        stderr: StdioPolicy,
    ) -> (child: ScriptedChild)
        ensures
            child.start() == World::start(
                if capacity == 0 {
                    1nat
                } else {
                    capacity as nat
                },
                script@,
                status,
                stdout,
                stderr,
            ),
    {
        let capacity = if capacity == 0 {
            1
        } else {
            capacity
        };
        ScriptedChild { script, status, capacity, stdout, stderr }
    }

    /// The world of a wait for this child that stands at `run`.
    spec fn world(&self, run: &Run) -> World {
        World {
            capacity: self.capacity as nat,
            script: self.script@,
            pending: self.script@.subrange(run.position as int, self.script@.len() as int),
            exited: run.exited,
            status: self.status,
            stdout: run.stdout@,
            stderr: run.stderr@,
            console: run.console@,
            coordinator: run.coordinator@,
        }
    }

    /// What holds of a wait for this child wherever it stands.
    spec fn holds(&self, run: &Run) -> bool {
        &&& run.position <= self.script@.len()
        &&& self.world(run).wf()
        &&& run.coordinator@.stdout.policy == self.stdout
        &&& run.coordinator@.stderr.policy == self.stderr
    }

    /// The wait for this child before any party has moved.
    fn begin(&self) -> (run: Run)
        ensures
            self.holds(&run),
            self.world(&run) == self.start(),
    {
        proof {
            use_type_invariant(self);
            start_is_well_formed(
                self.capacity as nat,
                self.script@,
                self.status,
                self.stdout,
                self.stderr,
            );
            assert(self.script@.subrange(0, self.script@.len() as int) == self.script@);
        }
        Run {
            position: 0,
            exited: false,
            stdout: Vec::new(),
            stderr: Vec::new(),
            console: Vec::new(),
            coordinator: ChildCoordinator::new(self.stdout, self.stderr),
        }
    }

    /// Whether the party of `step` can move.
    fn enabled(&self, run: &Run, step: Step) -> (b: bool)
        requires
            self.holds(run),
        ensures
            b == self.world(run).enabled(step),
    {
        match step {
            Step::Child => {
                if run.exited {
                    false
                } else if run.position == self.script.len() {
                    true
                } else {
                    let write = self.script[run.position];
                    let held = match write.role {
                        StreamRole::Stdout => run.stdout.len(),
                        StreamRole::Stderr => run.stderr.len(),
                    };
                    !run.coordinator.policy(write.role).is_connected() || held < self.capacity
                }
            },
            Step::Read(role) => {
                let held = match role {
                    StreamRole::Stdout => run.stdout.len(),
                    StreamRole::Stderr => run.stderr.len(),
                };
                run.coordinator.needs_read(role) && (held > 0 || run.exited)
            },
            Step::Reap => run.exited && run.coordinator.awaits_exit(),
        }
    }

    /// Whether the party of `step` can move, for a driver that drains stdout
    /// to its end before it reads stderr.
    fn enabled_in_turn(&self, run: &Run, step: Step) -> (b: bool)
        requires
            self.holds(run),
        ensures
            b == self.world(run).enabled_in_turn(step),
    {
        let waits_for_stdout = match step {
            Step::Read(StreamRole::Stderr) => run.coordinator.needs_read(StreamRole::Stdout),
            _ => false,
        };
        self.enabled(run, step) && !waits_for_stdout
    }

    /// Lets the party of `step` move.
    fn advance(&self, run: &mut Run, step: Step)
        requires
            self.holds(old(run)),
            self.world(old(run)).enabled(step),
        ensures
            self.holds(final(run)),
            self.world(final(run)) == self.world(old(run)).next(step),
    {
        let ghost before = self.world(run);
        proof {
            steps_keep_well_formed(before, step);
        }
        match step {
            Step::Child => {
                if run.position == self.script.len() {
                    run.exited = true;
                } else {
                    let write = self.script[run.position];
                    assert(before.pending.drop_first() == self.script@.subrange(
                        run.position + 1,
                        self.script@.len() as int,
                    ));
                    run.position += 1;
                    if run.coordinator.policy(write.role).is_connected() {
                        match write.role {
                            StreamRole::Stdout => run.stdout.push(write.byte),
                            StreamRole::Stderr => run.stderr.push(write.byte),
                        }
                    }
                }
            },
            Step::Read(role) => {
                let mut chunk: Vec<u8> = Vec::new();
                match role {
                    StreamRole::Stdout => core::mem::swap(&mut chunk, &mut run.stdout),
                    StreamRole::Stderr => core::mem::swap(&mut chunk, &mut run.stderr),
                }
                if chunk.len() > 0 {
                    match run.coordinator.accept(role, chunk.as_slice()) {
                        DrainAction::Forward(bytes) => echo_to(&mut run.console, role, bytes),
                        _ => {},
                    }
                } else {
                    run.coordinator.end_of_stream(role);
                    assert(self.world(run).pipe(role) == before.pipe(role));
                }
            },
            Step::Reap => {
                run.coordinator.exit_reported(Ok(self.status));
            },
        }
    }
}

/// What a wait for a child that runs its script to the end returns.
pub open spec fn expected_result(start: World) -> Result<ChildResultView, ChildError> {
    Ok(
        ChildResultView {
            status: start.status,
            stdout: start.expected_capture(StreamRole::Stdout),
            stderr: start.expected_capture(StreamRole::Stderr),
        },
    )
}

/// `played` is what a wait that came to its end leaves behind: the result
/// that is due, and on the console, of each stream, what is due to be echoed
/// of it, in order.
pub open spec fn plays_out(played: Played, start: World) -> bool {
    &&& result_view(played.result) == expected_result(start)
    &&& written(played.console@, StreamRole::Stdout) == start.expected_echo(StreamRole::Stdout)
    &&& written(played.console@, StreamRole::Stderr) == start.expected_echo(StreamRole::Stderr)
}

/// Waits for a scripted child as the coordinator is meant to be driven: the
/// driver reads whichever stream has bytes or has ended, and collects the
/// exit status when the child has exited. The wait always comes to its end,
/// however much the child writes to either stream, and returns the child's
/// status with what it wrote to each connected stream; the console has then
/// received what each echoed stream wrote.
pub fn await_child(child: &ScriptedChild) -> (played: Played)
    ensures
        plays_out(played, child.start()),
{
    let mut run = child.begin();
    while !run.coordinator.is_all_complete()
        invariant
            child.holds(&run),
        decreases child.world(&run).distance(),
    {
        let ghost before = child.world(&run);
        proof {
            concurrent_wait_is_never_stuck(before);
        }
        let step = if child.enabled(&run, Step::Read(StreamRole::Stdout)) {
            Step::Read(StreamRole::Stdout)
        } else if child.enabled(&run, Step::Read(StreamRole::Stderr)) {
            Step::Read(StreamRole::Stderr)
        } else if child.enabled(&run, Step::Child) {
            Step::Child
        } else {
            Step::Reap
        };
        child.advance(&mut run, step);
        proof {
            every_step_brings_the_end_nearer(before, step);
        }
    }
    proof {
        complete_wait_returns_what_the_child_wrote(child.world(&run));
    }
    Played { result: run.coordinator.finish(), console: run.console }
}

/// Waits for a scripted child with a driver that drains stdout to its end
/// before it reads stderr. Such a wait hangs, and `None` is returned, exactly
/// if both streams are connected and the child writes more to stderr than
/// the pipe holds; otherwise it returns what `await_child` returns.
pub fn await_child_in_turn(child: &ScriptedChild) -> (result: Option<Played>)
    ensures
        result is None <==> child.start().overfills_stderr(),
        result matches Some(played) ==> plays_out(played, child.start()),
{
    let mut run = child.begin();
    while !run.coordinator.is_all_complete()
        invariant
            child.holds(&run),
            child.world(&run).wf_in_turn(),
        decreases child.world(&run).distance(),
    {
        let ghost before = child.world(&run);
        let step = if child.enabled_in_turn(&run, Step::Read(StreamRole::Stdout)) {
            Step::Read(StreamRole::Stdout)
        } else if child.enabled_in_turn(&run, Step::Read(StreamRole::Stderr)) {
            Step::Read(StreamRole::Stderr)
        } else if child.enabled_in_turn(&run, Step::Child) {
            Step::Child
        } else if child.enabled_in_turn(&run, Step::Reap) {
            Step::Reap
        } else {
            proof {
                assert forall|step: Step| !before.enabled_in_turn(step) by {
                    match step {
                        Step::Child => {},
                        Step::Read(StreamRole::Stdout) => {},
                        Step::Read(StreamRole::Stderr) => {},
                        Step::Reap => {},
                    }
                }
                draining_in_turn_hangs_on_a_full_stderr(before);
            }
            return None;
        };
        child.advance(&mut run, step);
        proof {
            steps_in_turn_keep_well_formed(before, step);
            every_step_brings_the_end_nearer(before, step);
        }
    }
    proof {
        draining_in_turn_hangs_on_a_full_stderr(child.world(&run));
        complete_wait_returns_what_the_child_wrote(child.world(&run));
    }
    Some(Played { result: run.coordinator.finish(), console: run.console })
}

} // verus!
