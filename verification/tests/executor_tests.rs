use aiosc::executor::{
    classify_outcome, outcome_from_status, prepare_command, render_outcome, ExecutionOutcome,
    ExitStatus, PrepareResult, Relay, RelayEvent, RunPlan, TerminalGuard,
};
use aiosc::protocol::{parse_reply, DirectiveKind, ParsedReply};

fn expect_run(r: PrepareResult) -> RunPlan {
    match r {
        PrepareResult::Run(p) => p,
        PrepareResult::Rejected(m) => panic!("unexpected rejection: {}", m),
    }
}

fn expect_rejected(r: PrepareResult) -> String {
    match r {
        PrepareResult::Rejected(m) => m,
        PrepareResult::Run(_) => panic!("expected a rejection"),
    }
}

#[test]
fn cd_directive_is_rejected_without_spawning() {
    let m = expect_rejected(prepare_command("bash", "cd /tmp"));
    assert_eq!(m, "Error: 'cd' is not allowed. Use absolute or relative paths instead.");
    // Leading white space does not evade the check.
    expect_rejected(prepare_command("bash", "  cd /tmp"));
}

#[test]
fn cd_directive_is_rejected_for_both_tag_kinds() {
    // The rejection is decided by the body alone, whichever tag carried it.
    for reply in ["<cmd>cd /etc</cmd>", "<cmdctx>cd /etc</cmdctx>"] {
        match parse_reply(reply) {
            ParsedReply::Command(d) => {
                expect_rejected(prepare_command("bash", &d.body));
            }
            ParsedReply::Plain => panic!("expected a directive"),
        }
    }
}

#[test]
fn bare_cd_without_argument_is_not_rejected() {
    let p = expect_run(prepare_command("bash", "cd"));
    assert_eq!(p.script, "cd");
}

#[test]
fn posix_shells_keep_their_configured_name() {
    let p = expect_run(prepare_command("bash", "ls"));
    assert_eq!(p.interpreter, "bash");
    assert_eq!(p.flag, "-c");
    assert!(!p.fallback_warning);

    let p = expect_run(prepare_command("ZSH", "ls"));
    assert_eq!(p.interpreter, "ZSH");
    assert_eq!(p.flag, "-c");
    assert!(!p.fallback_warning);
}

#[test]
fn windows_shells_resolve_to_their_interpreters() {
    let p = expect_run(prepare_command("cmd", "dir"));
    assert_eq!(p.interpreter, "cmd.exe");
    assert_eq!(p.flag, "/c");
    assert!(!p.fallback_warning);

    let p = expect_run(prepare_command("PowerShell", "dir"));
    assert_eq!(p.interpreter, "powershell.exe");
    assert_eq!(p.flag, "-Command");
    assert!(!p.fallback_warning);
}

#[test]
fn unknown_shell_falls_back_with_a_warning() {
    let p = expect_run(prepare_command("fish", "ls"));
    assert_eq!(p.interpreter, "bash");
    assert_eq!(p.flag, "-c");
    assert!(p.fallback_warning);
}

#[test]
fn command_text_is_trimmed_before_spawning() {
    let p = expect_run(prepare_command("bash", "  echo hi  "));
    assert_eq!(p.script, "echo hi");
}

#[test]
fn exit_status_maps_to_outcomes() {
    assert!(matches!(
        classify_outcome(ExitStatus::Exited(0), false, "out".to_string()),
        ExecutionOutcome::Success
    ));
    match classify_outcome(ExitStatus::Exited(0), true, "out".to_string()) {
        ExecutionOutcome::SuccessWithOutput(o) => assert_eq!(o, "out"),
        _ => panic!("expected success with output"),
    }
    match classify_outcome(ExitStatus::Exited(3), false, "boom".to_string()) {
        ExecutionOutcome::Failure(code, o) => {
            assert_eq!(code, 3);
            assert_eq!(o, "boom");
        }
        _ => panic!("expected failure"),
    }
    match classify_outcome(ExitStatus::Signaled, true, "partial".to_string()) {
        ExecutionOutcome::Abnormal(o) => assert_eq!(o, "partial"),
        _ => panic!("expected abnormal termination"),
    }
}

#[test]
fn outcomes_render_as_the_recorded_text() {
    assert_eq!(render_outcome(ExecutionOutcome::Success, true), "");
    assert_eq!(render_outcome(ExecutionOutcome::Success, false), "Success");
    assert_eq!(
        render_outcome(ExecutionOutcome::SuccessWithOutput("hi\n".to_string()), false),
        "hi\n"
    );
    assert_eq!(
        render_outcome(ExecutionOutcome::Failure(2, "boom\n".to_string()), false),
        "Error: Exit code 2\nboom\n"
    );
    assert_eq!(
        render_outcome(ExecutionOutcome::Failure(130, String::new()), true),
        "Error: Exit code 130\n"
    );
    assert_eq!(
        render_outcome(ExecutionOutcome::Failure(-1, String::new()), false),
        "Error: Exit code -1\n"
    );
    assert_eq!(
        render_outcome(ExecutionOutcome::Abnormal("cut".to_string()), false),
        "Error: Process terminated abnormally\ncut"
    );
    assert_eq!(
        render_outcome(ExecutionOutcome::Failure(i32::MIN, String::new()), false),
        "Error: Exit code -2147483648\n"
    );
}

#[test]
fn relay_accumulates_exactly_the_pty_bytes() {
    let mut relay = Relay::start(vec![1u8, 2, 3], false, true, false);
    relay.process_events(vec![
        RelayEvent::Timeout,
        RelayEvent::PtyData(b"hi".to_vec()),
        RelayEvent::StdinData,
        RelayEvent::PtyData(b"\n".to_vec()),
        RelayEvent::PtyEof,
    ]);
    let done = relay.finish();
    assert_eq!(done.output, b"hi\n".to_vec());
    assert_eq!(done.restore, vec![1u8, 2, 3]);
}

#[test]
fn relay_stops_at_end_of_terminal_input() {
    let mut relay = Relay::start(0u64, false, true, false);
    relay.process_events(vec![RelayEvent::PtyData(b"x".to_vec()), RelayEvent::StdinEof]);
    let done = relay.finish();
    assert_eq!(done.output, b"x".to_vec());
}

#[test]
fn relay_echo_follows_the_policy() {
    // Echo when the policy shows model-command output.
    let mut relay = Relay::start((), false, true, false);
    assert!(relay.step(RelayEvent::PtyData(b"a".to_vec())));
    // Echo for a user-initiated command even with the policy off.
    let mut relay = Relay::start((), false, false, true);
    assert!(relay.step(RelayEvent::PtyData(b"a".to_vec())));
    // No echo when the policy is off and the model initiated the command.
    let mut relay = Relay::start((), false, false, false);
    assert!(!relay.step(RelayEvent::PtyData(b"a".to_vec())));
    // Silence suppresses echo regardless.
    let mut relay = Relay::start((), true, true, true);
    assert!(!relay.step(RelayEvent::PtyData(b"a".to_vec())));
}

#[test]
fn terminal_guard_round_trips_the_snapshot() {
    let g = TerminalGuard::acquire(vec![7u8, 8, 9]);
    assert_eq!(g.release(), vec![7u8, 8, 9]);
}

#[test]
fn terminal_snapshot_is_restored_on_the_error_path_too() {
    // A fatal I/O failure ends the relay early: the snapshot still comes
    // back exactly as acquired.
    let mut relay = Relay::start(vec![42u8], false, true, false);
    relay.process_events(vec![RelayEvent::PtyData(b"partial".to_vec()), RelayEvent::PollFailed]);
    let done = relay.finish();
    assert_eq!(done.restore, vec![42u8]);
    assert_eq!(done.output, b"partial".to_vec());
}

#[test]
fn concluding_an_execution_decodes_the_captured_bytes() {
    let mut relay = Relay::start(0u8, false, true, false);
    relay.process_events(vec![RelayEvent::PtyData(b"hi\n".to_vec()), RelayEvent::PtyEof]);
    let done = relay.finish();
    let outcome = outcome_from_status(ExitStatus::Exited(0), true, done.output);
    match outcome {
        ExecutionOutcome::SuccessWithOutput(o) => assert_eq!(o, "hi\n"),
        _ => panic!("expected success with output"),
    }
}

#[test]
fn invalid_bytes_are_replaced_not_fatal() {
    let mut relay = Relay::start(0u8, false, true, false);
    relay.process_events(vec![
        RelayEvent::PtyData(vec![0xff, 0xfe]),
        RelayEvent::PtyHangup,
    ]);
    let done = relay.finish();
    let outcome = outcome_from_status(ExitStatus::Exited(0), true, done.output);
    match outcome {
        ExecutionOutcome::SuccessWithOutput(o) => assert_eq!(o, "\u{FFFD}\u{FFFD}"),
        _ => panic!("expected success with output"),
    }
}

#[test]
fn contextual_echo_run_succeeds_end_to_end() {
    // End to end: a contextual directive with confirmation disabled runs
    // and yields the full captured output.
    let d = match parse_reply("<cmdctx>echo hi</cmdctx>") {
        ParsedReply::Command(d) => d,
        ParsedReply::Plain => panic!("expected a directive"),
    };
    assert!(matches!(d.kind, DirectiveKind::Contextual));
    assert!(aiosc::protocol::confirmation_decision(false, ""));
    let plan = expect_run(prepare_command("bash", &d.body));
    assert_eq!(plan.interpreter, "bash");
    assert_eq!(plan.flag, "-c");
    assert_eq!(plan.script, "echo hi");
    let mut relay = Relay::start(vec![0u8], true, false, false);
    relay.process_events(vec![RelayEvent::PtyData(b"hi\n".to_vec()), RelayEvent::PtyHangup]);
    let done = relay.finish();
    assert_eq!(done.restore, vec![0u8]);
    let outcome = outcome_from_status(ExitStatus::Exited(0), true, done.output);
    match outcome {
        ExecutionOutcome::SuccessWithOutput(o) => assert_eq!(o, "hi\n"),
        _ => panic!("expected success with output"),
    }
}

#[test]
fn failure_carries_output_for_both_request_kinds() {
    for wants_full in [false, true] {
        match classify_outcome(ExitStatus::Exited(1), wants_full, "log".to_string()) {
            ExecutionOutcome::Failure(code, o) => {
                assert_eq!(code, 1);
                assert_eq!(o, "log");
            }
            _ => panic!("expected failure"),
        }
    }
}
