//! The command executor's decision layer: interpreter resolution, the
//! rejection of directory-change directives, the terminal-mode guard, the
//! I/O relay state machine, and the mapping from exit status to outcome.
//!
//! The surrounding process performs the actual system work (spawning the
//! interpreter under a pseudo-terminal, polling descriptors, reading and
//! writing bytes) and feeds each observation back in as a [`RelayEvent`].

use vstd::prelude::*;

use crate::text::{
    eq_ignore_case, eq_ignore_case_seq, has_prefix, int_rep, lower_code, match_at,
    push_i32_dec, trim_seq, trim_str,
};

verus! {

// ---------------------------------------------------------------------------
// Shell resolution
// ---------------------------------------------------------------------------

/// The recognized shell kinds; unknown configuration falls back to a
/// distinct variant rather than a silent string default.
pub enum ShellKind {
    /// One of the recognized POSIX shells, carrying the configured name.
    Posix(String),
    /// The Windows command interpreter.
    WindowsCmd,
    /// The Windows shell with a `-Command` flag.
    WindowsPowerShell,
    /// Unrecognized configuration: fall back to the first POSIX shell.
    Fallback,
}

/// The configured shell name is one of the recognized ones, compared with
/// ASCII capitals folded.
pub open spec fn is_recognized_shell(st: Seq<char>) -> bool {
    ||| eq_ignore_case_seq(st, "bash"@)
    ||| eq_ignore_case_seq(st, "zsh"@)
    ||| eq_ignore_case_seq(st, "cmd"@)
    ||| eq_ignore_case_seq(st, "powershell"@)
}

/// The interpreter resolved from a configured shell name.
pub open spec fn interpreter_of(st: Seq<char>) -> Seq<char> {
    if eq_ignore_case_seq(st, "bash"@) || eq_ignore_case_seq(st, "zsh"@) {
        st
    } else if eq_ignore_case_seq(st, "cmd"@) {
        "cmd.exe"@
    } else if eq_ignore_case_seq(st, "powershell"@) {
        "powershell.exe"@
    } else {
        "bash"@
    }
}

/// The invocation flag resolved from a configured shell name.
pub open spec fn flag_of(st: Seq<char>) -> Seq<char> {
    if eq_ignore_case_seq(st, "bash"@) || eq_ignore_case_seq(st, "zsh"@) {
        "-c"@
    } else if eq_ignore_case_seq(st, "cmd"@) {
        "/c"@
    } else if eq_ignore_case_seq(st, "powershell"@) {
        "-Command"@
    } else {
        "-c"@
    }
}

/// Classify the configured shell name.
pub fn resolve_shell(shell_type: &str) -> (k: ShellKind)
    ensures
        match k {
            ShellKind::Posix(name) => name@ == shell_type@ && (eq_ignore_case_seq(
                shell_type@,
                "bash"@,
            ) || eq_ignore_case_seq(shell_type@, "zsh"@)),
            ShellKind::WindowsCmd => eq_ignore_case_seq(shell_type@, "cmd"@),
            ShellKind::WindowsPowerShell => eq_ignore_case_seq(shell_type@, "powershell"@),
            ShellKind::Fallback => !is_recognized_shell(shell_type@),
        },
{
    if eq_ignore_case(shell_type, "bash") || eq_ignore_case(shell_type, "zsh") {
        ShellKind::Posix(String::from_str(shell_type))
    } else if eq_ignore_case(shell_type, "cmd") {
        ShellKind::WindowsCmd
    } else if eq_ignore_case(shell_type, "powershell") {
        ShellKind::WindowsPowerShell
    } else {
        ShellKind::Fallback
    }
}

/// The interpreter and invocation flag of a shell kind.
pub fn invocation(kind: &ShellKind) -> (r: (String, String))
    ensures
        match kind {
            ShellKind::Posix(name) => r.0@ == name@ && r.1@ == "-c"@,
            ShellKind::WindowsCmd => r.0@ == "cmd.exe"@ && r.1@ == "/c"@,
            ShellKind::WindowsPowerShell => r.0@ == "powershell.exe"@ && r.1@ == "-Command"@,
            ShellKind::Fallback => r.0@ == "bash"@ && r.1@ == "-c"@,
        },
{
    match kind {
        ShellKind::Posix(name) => (name.clone(), String::from_str("-c")),
        ShellKind::WindowsCmd => (String::from_str("cmd.exe"), String::from_str("/c")),
        ShellKind::WindowsPowerShell => (
            String::from_str("powershell.exe"),
            String::from_str("-Command"),
        ),
        ShellKind::Fallback => (String::from_str("bash"), String::from_str("-c")),
    }
}

// ---------------------------------------------------------------------------
// Preparing a command
// ---------------------------------------------------------------------------

/// The command text, after trimming, begins with a directory-change
/// command.
pub open spec fn is_cd_directive(command: Seq<char>) -> bool {
    match_at(trim_seq(command), "cd "@, 0)
}

/// Everything needed to spawn one command: the resolved interpreter, its
/// invocation flag, the trimmed script text, and whether the configured
/// shell name was unrecognized (so a warning is owed unless silenced).
pub struct RunPlan {
    pub interpreter: String,
    pub flag: String,
    pub script: String,
    pub fallback_warning: bool,
}

/// The decision taken before anything is spawned.
pub enum PrepareResult {
    /// The directive is refused without invoking the executor; the payload
    /// is the user-visible error text.
    Rejected(String),
    /// The command may be spawned as described.
    Run(RunPlan),
}

proof fn lemma_shell_names_distinct(st: Seq<char>)
    ensures
        !(eq_ignore_case_seq(st, "zsh"@) && eq_ignore_case_seq(st, "cmd"@)),
        !(eq_ignore_case_seq(st, "bash"@) && eq_ignore_case_seq(st, "cmd"@)),
        !(eq_ignore_case_seq(st, "bash"@) && eq_ignore_case_seq(st, "zsh"@)),
        !(eq_ignore_case_seq(st, "powershell"@) && eq_ignore_case_seq(st, "bash"@)),
        !(eq_ignore_case_seq(st, "powershell"@) && eq_ignore_case_seq(st, "zsh"@)),
        !(eq_ignore_case_seq(st, "powershell"@) && eq_ignore_case_seq(st, "cmd"@)),
{
    reveal_strlit("bash");
    reveal_strlit("zsh");
    reveal_strlit("cmd");
    reveal_strlit("powershell");
    if eq_ignore_case_seq(st, "zsh"@) && eq_ignore_case_seq(st, "cmd"@) {
        assert(lower_code(st[0]) == lower_code("zsh"@[0]));
        assert(lower_code(st[0]) == lower_code("cmd"@[0]));
    }
}

/// Decide how to execute a command: directory-change directives are
/// rejected before anything is spawned — a `cd` in a fresh child process
/// would not persist and would mislead the model — and the configured
/// shell name is resolved to an interpreter and flag.
pub fn prepare_command(shell_type: &str, command: &str) -> (r: PrepareResult)
    ensures
        match r {
            PrepareResult::Rejected(m) => is_cd_directive(command@) && m@
                == "Error: 'cd' is not allowed. Use absolute or relative paths instead."@,
            PrepareResult::Run(p) => {
                &&& !is_cd_directive(command@)
                &&& p.interpreter@ == interpreter_of(shell_type@)
                &&& p.flag@ == flag_of(shell_type@)
                &&& p.script@ == trim_seq(command@)
                &&& p.fallback_warning == !is_recognized_shell(shell_type@)
            },
        },
{
    proof {
        reveal_strlit("bash");
        reveal_strlit("zsh");
        reveal_strlit("cmd");
        reveal_strlit("powershell");
        lemma_shell_names_distinct(shell_type@);
    }
    let script = trim_str(command);
    if has_prefix(script.as_str(), "cd ") {
        return PrepareResult::Rejected(
            String::from_str(
                "Error: 'cd' is not allowed. Use absolute or relative paths instead.",
            ),
        );
    }
    let kind = resolve_shell(shell_type);
    let fallback_warning = match &kind {
        ShellKind::Fallback => true,
        _ => false,
    };
    let (interpreter, flag) = invocation(&kind);
    PrepareResult::Run(RunPlan { interpreter, flag, script, fallback_warning })
}

// ---------------------------------------------------------------------------
// Terminal mode guard
// ---------------------------------------------------------------------------

/// Scoped ownership of the controlling terminal's attribute set: acquired
/// (snapshot taken) before the terminal is switched to raw mode, released
/// (the exact snapshot handed back for restoration) on every exit path of
/// an execution.
pub struct TerminalGuard<T> {
    pub snapshot: T,
}

impl<T> TerminalGuard<T> {
    /// Take ownership of the attributes observed before raw mode.
    pub fn acquire(snapshot: T) -> (g: TerminalGuard<T>)
        ensures
            g.snapshot == snapshot,
    {
        TerminalGuard { snapshot }
    }

    /// Hand the snapshot back, exactly as acquired, for restoration.
    pub fn release(self) -> (r: T)
        ensures
            r == self.snapshot,
    {
        self.snapshot
    }
}

// ---------------------------------------------------------------------------
// The I/O relay state machine
// ---------------------------------------------------------------------------

/// One observation made by the driver of the relay loop.
pub enum RelayEvent {
    /// The bounded readiness wait elapsed with nothing to do (also covers a
    /// read that would block).
    Timeout,
    /// Bytes arrived on the controlling terminal; the driver forwards them
    /// verbatim to the pseudo-terminal.
    StdinData,
    /// A zero-byte read from the controlling terminal: end of input.
    StdinEof,
    /// Bytes arrived from the pseudo-terminal.
    PtyData(Vec<u8>),
    /// A zero-byte read from the pseudo-terminal.
    PtyEof,
    /// A hang-up signal on the pseudo-terminal.
    PtyHangup,
    /// The readiness wait itself failed.
    PollFailed,
}

/// The event ends the relay loop.
pub open spec fn is_terminal_event(e: RelayEvent) -> bool {
    match e {
        RelayEvent::StdinEof | RelayEvent::PtyEof | RelayEvent::PtyHangup
            | RelayEvent::PollFailed => true,
        _ => false,
    }
}

/// The bytes the relay accumulates over a sequence of events: exactly the
/// pseudo-terminal payloads, in order, up to the first loop-ending event.
pub open spec fn relay_out(events: Seq<RelayEvent>) -> Seq<u8>
    decreases events.len(),
{
    if events.len() == 0 {
        Seq::empty()
    } else if is_terminal_event(events[0]) {
        Seq::empty()
    } else {
        match events[0] {
            RelayEvent::PtyData(b) => b@ + relay_out(events.drop_first()),
            _ => relay_out(events.drop_first()),
        }
    }
}

/// Some event of the sequence ends the relay loop.
pub open spec fn relay_stops(events: Seq<RelayEvent>) -> bool
    decreases events.len(),
{
    if events.len() == 0 {
        false
    } else if is_terminal_event(events[0]) {
        true
    } else {
        relay_stops(events.drop_first())
    }
}

/// The relay between the controlling terminal and the pseudo-terminal:
/// accumulates the pseudo-terminal's output, decides what is echoed, and
/// holds the terminal-mode guard for the duration of the execution.
pub struct Relay<T> {
    pub guard: TerminalGuard<T>,
    /// Suppress all echo (non-interactive quiet runs).
    pub silent: bool,
    /// Policy: echo model-issued commands' output.
    pub show_output: bool,
    /// The command was entered directly by the user.
    pub user_initiated: bool,
    /// Everything read from the pseudo-terminal so far.
    pub output: Vec<u8>,
    /// A loop-ending event has been seen.
    pub stopped: bool,
}

/// What the relay hands back when the execution is over: the accumulated
/// output together with the terminal snapshot to restore.
pub struct RelayDone<T> {
    pub output: Vec<u8>,
    pub restore: T,
}

impl<T> Relay<T> {
    /// Begin a relay: the terminal attributes observed before raw mode are
    /// taken into the guard, and the output buffer starts empty.
    pub fn start(snapshot: T, silent: bool, show_output: bool, user_initiated: bool) -> (r:
        Relay<T>)
        ensures
            r.guard.snapshot == snapshot,
            r.silent == silent,
            r.show_output == show_output,
            r.user_initiated == user_initiated,
            r.output@ == Seq::<u8>::empty(),
            !r.stopped,
    {
        Relay {
            guard: TerminalGuard::acquire(snapshot),
            silent,
            show_output,
            user_initiated,
            output: Vec::new(),
            stopped: false,
        }
    }

    /// Advance the relay by one event. Pseudo-terminal payloads are
    /// appended to the output buffer; the returned flag says whether the
    /// driver echoes the payload to the real stdout, per the echo policy.
    /// End-of-input, end-of-output, a hang-up or a failed wait stop the
    /// loop.
    pub fn step(&mut self, event: RelayEvent) -> (echo: bool)
        requires
            !old(self).stopped,
        ensures
            final(self).guard == old(self).guard,
            final(self).silent == old(self).silent,
            final(self).show_output == old(self).show_output,
            final(self).user_initiated == old(self).user_initiated,
            final(self).stopped == is_terminal_event(event),
            match event {
                RelayEvent::PtyData(b) => final(self).output@ == old(self).output@ + b@
                    && echo == (!old(self).silent && (old(self).show_output || old(
                    self,
                ).user_initiated)),
                _ => final(self).output@ == old(self).output@ && !echo,
            },
    {
        match event {
            RelayEvent::PtyData(b) => {
                let mut chunk = b;
                self.output.append(&mut chunk);
                !self.silent && (self.show_output || self.user_initiated)
            },
            RelayEvent::StdinEof | RelayEvent::PtyEof | RelayEvent::PtyHangup
                | RelayEvent::PollFailed => {
                self.stopped = true;
                false
            },
            _ => false,
        }
    }

    /// Drive the relay over a whole sequence of events, stopping at the
    /// first loop-ending one: the accumulated output is exactly the
    /// concatenation of the pseudo-terminal payloads relayed.
    pub fn process_events(&mut self, events: Vec<RelayEvent>)
        requires
            !old(self).stopped,
        ensures
            final(self).guard == old(self).guard,
            final(self).silent == old(self).silent,
            final(self).show_output == old(self).show_output,
            final(self).user_initiated == old(self).user_initiated,
            final(self).output@ == old(self).output@ + relay_out(events@),
            final(self).stopped == relay_stops(events@),
    {
        let mut evs = events;
        while evs.len() > 0
            invariant
                self.guard == old(self).guard,
                self.silent == old(self).silent,
                self.show_output == old(self).show_output,
                self.user_initiated == old(self).user_initiated,
                !self.stopped,
                old(self).output@ + relay_out(events@) == self.output@ + relay_out(evs@),
                relay_stops(events@) == relay_stops(evs@),
            decreases evs.len(),
        {
            let ghost pre = evs@;
            let e = evs.remove(0);
            let ghost rest = evs@;
            let ghost ev = e;
            proof {
                assert(rest =~= pre.drop_first());
                assert(pre[0] == ev);
            }
            let _ = self.step(e);
            if self.stopped {
                proof {
                    assert(relay_out(pre) == Seq::<u8>::empty());
                    assert(relay_stops(pre));
                }
                return;
            }
            proof {
                assert(!is_terminal_event(ev));
                match ev {
                    RelayEvent::PtyData(b) => {
                        assert(relay_out(pre) == b@ + relay_out(rest));
                        assert(self.output@ + relay_out(rest) =~= old(self).output@
                            + relay_out(events@));
                    },
                    _ => {
                        assert(relay_out(pre) == relay_out(rest));
                    },
                }
            }
        }
    }

    /// End the execution: the output buffer and the exact terminal
    /// snapshot taken at `start` are handed back, on the success path and
    /// the error path alike.
    pub fn finish(self) -> (r: RelayDone<T>)
        ensures
            r.output@ == self.output@,
            r.restore == self.guard.snapshot,
    {
        let Relay { guard, output, .. } = self;
        RelayDone { output, restore: guard.release() }
    }
}

// ---------------------------------------------------------------------------
// Exit-status classification
// ---------------------------------------------------------------------------

/// How the child process ended.
#[derive(Clone, Copy, Debug, PartialEq, Eq, Structural)]
pub enum ExitStatus {
    /// The process exited with a code.
    Exited(i32),
    /// The process was terminated abnormally (by a signal or crash).
    Signaled,
}

/// The classified result of one command execution.
pub enum ExecutionOutcome {
    /// Exit code 0 and only a coarse status was requested.
    Success,
    /// Exit code 0 with the full captured output.
    SuccessWithOutput(String),
    /// A nonzero exit code, always carrying the captured output.
    Failure(i32, String),
    /// Abnormal termination, carrying the captured output.
    Abnormal(String),
}

/// Map an exit status and the accumulated output to an outcome.
pub fn classify_outcome(status: ExitStatus, wants_full_output: bool, output: String) -> (r:
    ExecutionOutcome)
    ensures
        match status {
            ExitStatus::Exited(code) => if code == 0 && !wants_full_output {
                r == ExecutionOutcome::Success
            } else if code == 0 {
                r == ExecutionOutcome::SuccessWithOutput(output)
            } else {
                r == ExecutionOutcome::Failure(code, output)
            },
            ExitStatus::Signaled => r == ExecutionOutcome::Abnormal(output),
        },
{
    match status {
        ExitStatus::Exited(code) => {
            if code == 0 && !wants_full_output {
                ExecutionOutcome::Success
            } else if code == 0 {
                ExecutionOutcome::SuccessWithOutput(output)
            } else {
                ExecutionOutcome::Failure(code, output)
            }
        },
        ExitStatus::Signaled => ExecutionOutcome::Abnormal(output),
    }
}

/// The text a caller sees for an outcome: an empty string for a plain
/// user-initiated success, a short status token for a protocol-initiated
/// one, the output itself when it was requested, and a labeled error
/// otherwise.
pub open spec fn rendered(o: ExecutionOutcome, user_initiated: bool) -> Seq<char> {
    match o {
        ExecutionOutcome::Success => if user_initiated {
            Seq::empty()
        } else {
            "Success"@
        },
        ExecutionOutcome::SuccessWithOutput(out) => out@,
        ExecutionOutcome::Failure(code, out) => "Error: Exit code "@ + int_rep(code as int)
            + "\n"@ + out@,
        ExecutionOutcome::Abnormal(out) => "Error: Process terminated abnormally\n"@ + out@,
    }
}

/// Render an outcome as the result text recorded in the conversation.
pub fn render_outcome(outcome: ExecutionOutcome, user_initiated: bool) -> (r: String)
    ensures
        r@ == rendered(outcome, user_initiated),
{
    match outcome {
        ExecutionOutcome::Success => {
            if user_initiated {
                String::new()
            } else {
                String::from_str("Success")
            }
        },
        ExecutionOutcome::SuccessWithOutput(out) => out,
        ExecutionOutcome::Failure(code, out) => {
            let mut s = String::from_str("Error: Exit code ");
            push_i32_dec(&mut s, code);
            s.append("\n");
            s.append(out.as_str());
            s
        },
        ExecutionOutcome::Abnormal(out) => {
            let mut s = String::from_str("Error: Process terminated abnormally\n");
            s.append(out.as_str());
            s
        },
    }
}

// ---------------------------------------------------------------------------
// Decoding the captured bytes
// ---------------------------------------------------------------------------

/// The best-effort text decoding of a byte sequence: a function of the
/// bytes alone.
pub uninterp spec fn lossy_decode(bytes: Seq<u8>) -> Seq<char>;

/// Relies on `String::from_utf8_lossy`: decodes the bytes as UTF-8 with
/// invalid sequences replaced, never failing; the result depends on the
/// bytes alone, and an empty input gives an empty string.
#[verifier::external_body]
fn decode_output(bytes: &Vec<u8>) -> (r: String)
    ensures
        r@ == lossy_decode(bytes@),
        bytes@.len() == 0 ==> r@.len() == 0,
{
    String::from_utf8_lossy(bytes.as_slice()).into_owned()
}

/// Conclude one execution: decode the bytes the relay accumulated and
/// classify the exit status. The outcome's text is the best-effort
/// decoding of exactly those bytes.
pub fn outcome_from_status(status: ExitStatus, wants_full_output: bool, output: Vec<u8>) -> (r:
    ExecutionOutcome)
    ensures
        match status {
            ExitStatus::Exited(code) => if code == 0 && !wants_full_output {
                r == ExecutionOutcome::Success
            } else if code == 0 {
                r matches ExecutionOutcome::SuccessWithOutput(o) && o@ == lossy_decode(
                    output@,
                )
            } else {
                r matches ExecutionOutcome::Failure(c, o) && c == code && o@ == lossy_decode(
                    output@,
                )
            },
            ExitStatus::Signaled => r matches ExecutionOutcome::Abnormal(o) && o@
                == lossy_decode(output@),
        },
{
    let text = decode_output(&output);
    classify_outcome(status, wants_full_output, text)
}

} // verus!
