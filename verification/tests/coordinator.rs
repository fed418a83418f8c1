use lune_exec::coordinator::{join_outcomes, ChildCoordinator, ChildResult};
use lune_exec::drainer::{echo_target, ConsoleStream, DrainAction, StreamDrainer};
use lune_exec::error::{ChildError, ExitWaitError, IoError, IoPhase, StreamRole};
use lune_exec::policy::StdioPolicy;
use lune_exec::status::ExitStatus;
use lune_exec::tee::{append_bytes, TeeSink};

fn read_error(cause: &str) -> IoError {
    IoError { phase: IoPhase::Read, cause: cause.to_string() }
}

fn forward_error(cause: &str) -> IoError {
    IoError { phase: IoPhase::Forward, cause: cause.to_string() }
}

fn wait_error(cause: &str) -> ExitWaitError {
    ExitWaitError { cause: cause.to_string() }
}

#[test]
fn default_policy_captures_without_echo() {
    assert_eq!(StdioPolicy::default(), StdioPolicy::CaptureOnly);
}

#[test]
fn policies_say_whether_they_read_and_echo() {
    assert!(!StdioPolicy::Discard.is_connected());
    assert!(!StdioPolicy::ForwardOnly.is_connected());
    assert!(StdioPolicy::CaptureOnly.is_connected());
    assert!(StdioPolicy::CaptureAndForward.is_connected());
    assert!(!StdioPolicy::Discard.is_echoed());
    assert!(!StdioPolicy::ForwardOnly.is_echoed());
    assert!(!StdioPolicy::CaptureOnly.is_echoed());
    assert!(StdioPolicy::CaptureAndForward.is_echoed());
}

#[test]
fn append_bytes_keeps_what_was_there() {
    let mut buffer = vec![1u8, 2];
    append_bytes(&mut buffer, &[3, 4, 5]);
    assert_eq!(buffer, vec![1u8, 2, 3, 4, 5]);
    append_bytes(&mut buffer, &[]);
    assert_eq!(buffer, vec![1u8, 2, 3, 4, 5]);
}

#[test]
fn tee_keeps_and_hands_on_every_chunk() {
    let mut tee = TeeSink::new();
    assert_eq!(tee.len(), 0);
    let mut console: Vec<u8> = Vec::new();
    for chunk in [&b"ab"[..], &b""[..], &b"cde"[..]] {
        let echo = tee.write(chunk);
        assert_eq!(echo, chunk);
        console.extend_from_slice(echo);
    }
    assert_eq!(tee.len(), 5);
    let captured = tee.into_buffer();
    assert_eq!(captured, b"abcde".to_vec());
    assert_eq!(console, captured);
}

#[test]
fn unconnected_policies_never_read() {
    for policy in [StdioPolicy::Discard, StdioPolicy::ForwardOnly] {
        let mut drainer = StreamDrainer::new(policy);
        assert_eq!(drainer.policy(), policy);
        assert!(!drainer.needs_read());
        assert!(drainer.is_done());
        assert_eq!(drainer.accept(b"ignored"), DrainAction::Done);
        drainer.fail(read_error("ignored"));
        assert_eq!(drainer.finish(), Ok(Vec::new()));
    }
}

#[test]
fn capture_only_round_trip() {
    let mut drainer = StreamDrainer::new(StdioPolicy::CaptureOnly);
    assert!(drainer.needs_read());
    assert_eq!(drainer.accept(b"hello "), DrainAction::Read);
    assert_eq!(drainer.accept(b""), DrainAction::Read);
    assert_eq!(drainer.accept(b"world\n"), DrainAction::Read);
    assert!(!drainer.is_done());
    drainer.end_of_stream();
    assert!(drainer.is_done());
    assert_eq!(drainer.finish(), Ok(b"hello world\n".to_vec()));
}

#[test]
fn capture_and_forward_echoes_each_chunk_in_order() {
    let mut drainer = StreamDrainer::new(StdioPolicy::CaptureAndForward);
    let mut console: Vec<u8> = Vec::new();
    let chunks: Vec<Vec<u8>> = vec![vec![0u8, 255, 10], vec![], vec![13, 10], vec![7; 100]];
    for chunk in &chunks {
        match drainer.accept(chunk) {
            DrainAction::Forward(bytes) => console.extend_from_slice(bytes),
            other => panic!("expected an echo, got {:?}", other),
        }
    }
    drainer.end_of_stream();
    let expected: Vec<u8> = chunks.concat();
    assert_eq!(console, expected);
    assert_eq!(drainer.finish(), Ok(expected));
}

#[test]
fn empty_stream_is_an_empty_capture() {
    for policy in [StdioPolicy::CaptureOnly, StdioPolicy::CaptureAndForward] {
        let mut drainer = StreamDrainer::new(policy);
        drainer.end_of_stream();
        assert_eq!(drainer.finish(), Ok(Vec::new()));
    }
}

#[test]
fn drain_reports_its_first_failure() {
    let mut drainer = StreamDrainer::new(StdioPolicy::CaptureAndForward);
    assert_eq!(drainer.accept(b"partial"), DrainAction::Forward(&b"partial"[..]));
    drainer.fail(forward_error("console closed"));
    assert!(drainer.is_done());
    assert!(!drainer.needs_read());
    assert_eq!(drainer.accept(b"late"), DrainAction::Done);
    drainer.fail(read_error("second"));
    drainer.end_of_stream();
    assert_eq!(drainer.finish(), Err(forward_error("console closed")));
}

#[test]
fn drain_ignores_what_follows_the_end() {
    let mut drainer = StreamDrainer::new(StdioPolicy::CaptureOnly);
    assert_eq!(drainer.accept(b"kept"), DrainAction::Read);
    drainer.end_of_stream();
    assert_eq!(drainer.accept(b"dropped"), DrainAction::Done);
    drainer.fail(read_error("late"));
    assert_eq!(drainer.finish(), Ok(b"kept".to_vec()));
}

#[test]
fn child_writes_to_both_streams_and_exits_with_zero() {
    let mut coordinator = ChildCoordinator::new(StdioPolicy::CaptureOnly, StdioPolicy::CaptureOnly);
    assert!(coordinator.needs_read(StreamRole::Stdout));
    assert!(coordinator.needs_read(StreamRole::Stderr));
    assert!(coordinator.awaits_exit());
    assert_eq!(coordinator.accept(StreamRole::Stdout, b"line1\n"), DrainAction::Read);
    assert_eq!(coordinator.accept(StreamRole::Stderr, b"err1\n"), DrainAction::Read);
    coordinator.end_of_stream(StreamRole::Stdout);
    coordinator.end_of_stream(StreamRole::Stderr);
    assert!(!coordinator.is_all_complete());
    coordinator.exit_reported(Ok(ExitStatus::from_code(0)));
    assert!(coordinator.is_all_complete());
    let result = coordinator.finish().unwrap();
    assert_eq!(result.status.code(), Some(0));
    assert!(result.status.success());
    assert_eq!(result.stdout, b"line1\n".to_vec());
    assert_eq!(result.stderr, b"err1\n".to_vec());
}

#[test]
fn silent_child_that_exits_with_one() {
    let mut coordinator = ChildCoordinator::new(StdioPolicy::CaptureOnly, StdioPolicy::CaptureOnly);
    coordinator.exit_reported(Ok(ExitStatus::from_code(1)));
    coordinator.end_of_stream(StreamRole::Stderr);
    coordinator.end_of_stream(StreamRole::Stdout);
    assert!(coordinator.is_all_complete());
    assert_eq!(
        coordinator.finish(),
        Ok(ChildResult {
            status: ExitStatus { code: Some(1) },
            stdout: Vec::new(),
            stderr: Vec::new(),
        })
    );
}

#[test]
fn streams_are_kept_apart_under_any_interleaving() {
    let mut coordinator =
        ChildCoordinator::new(StdioPolicy::CaptureOnly, StdioPolicy::CaptureAndForward);
    assert_eq!(coordinator.policy(StreamRole::Stdout), StdioPolicy::CaptureOnly);
    assert_eq!(coordinator.policy(StreamRole::Stderr), StdioPolicy::CaptureAndForward);
    let payload = vec![b'x'; 700_000];
    let mut console: Vec<u8> = Vec::new();
    for piece in payload.chunks(4096) {
        assert_eq!(coordinator.accept(StreamRole::Stdout, piece), DrainAction::Read);
        match coordinator.accept(StreamRole::Stderr, piece) {
            DrainAction::Forward(bytes) => console.extend_from_slice(bytes),
            other => panic!("expected an echo, got {:?}", other),
        }
    }
    coordinator.end_of_stream(StreamRole::Stderr);
    assert!(coordinator.needs_read(StreamRole::Stdout));
    assert!(!coordinator.needs_read(StreamRole::Stderr));
    coordinator.end_of_stream(StreamRole::Stdout);
    coordinator.exit_reported(Ok(ExitStatus::from_code(0)));
    let result = coordinator.finish().unwrap();
    assert_eq!(result.stdout, payload);
    assert_eq!(result.stderr, payload);
    assert_eq!(console, payload);
}

#[test]
fn unconnected_streams_only_wait_for_the_exit() {
    let mut coordinator = ChildCoordinator::new(StdioPolicy::Discard, StdioPolicy::ForwardOnly);
    assert!(!coordinator.needs_read(StreamRole::Stdout));
    assert!(!coordinator.needs_read(StreamRole::Stderr));
    assert!(!coordinator.is_all_complete());
    assert_eq!(coordinator.accept(StreamRole::Stdout, b"x"), DrainAction::Done);
    coordinator.exit_reported(Ok(ExitStatus { code: None }));
    assert!(coordinator.is_all_complete());
    let result = coordinator.finish().unwrap();
    assert_eq!(result.status.code(), None);
    assert!(!result.status.success());
    assert!(result.stdout.is_empty());
    assert!(result.stderr.is_empty());
}

#[test]
fn failed_exit_wait_still_waits_for_both_drains() {
    let mut coordinator = ChildCoordinator::new(StdioPolicy::CaptureOnly, StdioPolicy::CaptureOnly);
    coordinator.exit_reported(Err(wait_error("no such process")));
    assert!(!coordinator.awaits_exit());
    assert!(!coordinator.is_all_complete());
    assert_eq!(coordinator.accept(StreamRole::Stdout, b"still read"), DrainAction::Read);
    coordinator.end_of_stream(StreamRole::Stdout);
    assert!(!coordinator.is_all_complete());
    let mut coordinator = match coordinator.try_finish() {
        Err(back) => back,
        Ok(done) => panic!("finished early with {:?}", done),
    };
    coordinator.fail_stream(StreamRole::Stderr, read_error("broken pipe"));
    assert!(coordinator.is_all_complete());
    assert_eq!(coordinator.finish(), Err(ChildError::ExitWait(wait_error("no such process"))));
}

#[test]
fn first_exit_report_counts() {
    let mut coordinator = ChildCoordinator::new(StdioPolicy::Discard, StdioPolicy::Discard);
    coordinator.exit_reported(Ok(ExitStatus::from_code(3)));
    coordinator.exit_reported(Err(wait_error("late")));
    coordinator.exit_reported(Ok(ExitStatus::from_code(4)));
    match coordinator.try_finish() {
        Ok(Ok(result)) => assert_eq!(result.status, ExitStatus { code: Some(3) }),
        other => panic!("unexpected {:?}", other.is_ok()),
    }
}

#[test]
fn stdout_failure_outranks_stderr_failure() {
    let mut coordinator = ChildCoordinator::new(StdioPolicy::CaptureOnly, StdioPolicy::CaptureOnly);
    coordinator.fail_stream(StreamRole::Stderr, read_error("stderr first"));
    coordinator.fail_stream(StreamRole::Stdout, read_error("stdout second"));
    coordinator.exit_reported(Ok(ExitStatus::from_code(0)));
    assert_eq!(coordinator.finish(), Err(ChildError::Stdout(read_error("stdout second"))));
}

#[test]
fn stderr_failure_is_reported_when_it_is_the_only_one() {
    let mut coordinator =
        ChildCoordinator::new(StdioPolicy::CaptureOnly, StdioPolicy::CaptureAndForward);
    assert_eq!(coordinator.accept(StreamRole::Stderr, b"e"), DrainAction::Forward(&b"e"[..]));
    coordinator.fail_stream(StreamRole::Stderr, forward_error("console closed"));
    coordinator.end_of_stream(StreamRole::Stdout);
    coordinator.exit_reported(Ok(ExitStatus::from_code(0)));
    assert_eq!(coordinator.finish(), Err(ChildError::Stderr(forward_error("console closed"))));
}

#[test]
fn join_outcomes_orders_failures() {
    let exit_err: Result<ExitStatus, ExitWaitError> = Err(wait_error("w"));
    let exit_ok: Result<ExitStatus, ExitWaitError> = Ok(ExitStatus::from_code(2));
    assert_eq!(
        join_outcomes(exit_err.clone(), Err(read_error("o")), Err(read_error("e"))),
        Err(ChildError::ExitWait(wait_error("w")))
    );
    assert_eq!(
        join_outcomes(exit_err, Ok(vec![1]), Ok(vec![2])),
        Err(ChildError::ExitWait(wait_error("w")))
    );
    assert_eq!(
        join_outcomes(exit_ok.clone(), Err(read_error("o")), Err(read_error("e"))),
        Err(ChildError::Stdout(read_error("o")))
    );
    assert_eq!(
        join_outcomes(exit_ok.clone(), Ok(vec![1]), Err(read_error("e"))),
        Err(ChildError::Stderr(read_error("e")))
    );
    assert_eq!(
        join_outcomes(exit_ok, Ok(vec![1]), Ok(vec![2, 3])),
        Ok(ChildResult { status: ExitStatus { code: Some(2) }, stdout: vec![1], stderr: vec![2, 3] })
    );
}

#[test]
fn stream_failures_carry_their_stream() {
    assert_eq!(
        ChildError::from_stream(StreamRole::Stdout, read_error("a")),
        ChildError::Stdout(read_error("a"))
    );
    assert_eq!(
        ChildError::from_stream(StreamRole::Stderr, forward_error("b")),
        ChildError::Stderr(forward_error("b"))
    );
}

#[test]
fn child_error_gives_its_cause() {
    assert_eq!(ChildError::ExitWait(wait_error("gone")).cause(), "gone");
    assert_eq!(ChildError::Stdout(read_error("pipe")).cause(), "pipe");
    assert_eq!(ChildError::Stderr(forward_error("tty")).cause(), "tty");
}

#[test]
fn both_streams_are_echoed_to_standard_output() {
    assert_eq!(echo_target(StreamRole::Stdout), ConsoleStream::Stdout);
    assert_eq!(echo_target(StreamRole::Stderr), ConsoleStream::Stdout);
}
