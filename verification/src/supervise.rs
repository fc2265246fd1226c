//! The supervisor's decisions: how launch outcomes are judged, how they
//! collapse into the caller-facing response strings, how a supervised
//! process moves through its states, and what the kill operation runs and
//! answers.

use vstd::prelude::*;
use crate::launch::{decimal, u32_decimal, CommandLine};

verus! {

/// Which of a process's two output streams a line came from.
#[derive(Clone, Copy, Debug, PartialEq, Eq, Structural)]
pub enum StreamKind {
    Stdout,
    Stderr,
}

/// The named channel a stream's lines are delivered on.
pub open spec fn channel_of(k: StreamKind) -> Seq<char> {
    match k {
        StreamKind::Stdout => "server-output"@,
        StreamKind::Stderr => "server-error"@,
    }
}

/// The channel name for a stream: stdout lines go to `server-output`,
/// stderr lines to `server-error`.
pub fn channel_name(k: StreamKind) -> (s: &'static str)
    ensures
        s@ == channel_of(k),
{
    match k {
        StreamKind::Stdout => "server-output",
        StreamKind::Stderr => "server-error",
    }
}

/// Why a launch failed before any stream could be attached.
#[derive(Debug)]
pub enum LaunchError {
    /// The dependency-install step failed; the server was never spawned.
    InstallFailed { os_message: String },
    /// The OS could not spawn the interpreter process.
    SpawnFailed { os_message: String },
    /// The child was already gone at the liveness probe right after the
    /// spawn: the server died immediately.
    EarlyExit { detail: String },
    /// The child's stdout was not captured as a pipe.
    StdoutNotCaptured,
    /// The child's stderr was not captured as a pipe.
    StderrNotCaptured,
}

/// The descriptive string a launch error collapses to at the caller
/// boundary.
pub open spec fn message_of(e: LaunchError) -> Seq<char> {
    match e {
        LaunchError::InstallFailed { os_message } => "Error installing node modules: "@
            + os_message@,
        LaunchError::SpawnFailed { os_message } => "Error starting server: "@ + os_message@,
        LaunchError::EarlyExit { detail } => "Error starting server: server exited immediately: "@
            + detail@,
        LaunchError::StdoutNotCaptured => "Error capturing stdout"@,
        LaunchError::StderrNotCaptured => "Error capturing stderr"@,
    }
}

/// Renders a launch error as its boundary message.
pub fn error_text(e: &LaunchError) -> (s: String)
    ensures
        s@ == message_of(*e),
{
    match e {
        LaunchError::InstallFailed { os_message } => {
            let mut s = String::from_str("Error installing node modules: ");
            s.append(os_message.as_str());
            s
        },
        LaunchError::SpawnFailed { os_message } => {
            let mut s = String::from_str("Error starting server: ");
            s.append(os_message.as_str());
            s
        },
        LaunchError::EarlyExit { detail } => {
            let mut s = String::from_str("Error starting server: server exited immediately: ");
            s.append(detail.as_str());
            s
        },
        LaunchError::StdoutNotCaptured => String::from_str("Error capturing stdout"),
        LaunchError::StderrNotCaptured => String::from_str("Error capturing stderr"),
    }
}

/// What the spawn call reported back, as plain values: the child's id if the
/// OS gave one, whether each stream came back as a pipe, and the exit status
/// text if the liveness probe found the child already gone.
#[derive(Debug)]
pub struct SpawnReport {
    pub pid: Option<u32>,
    pub stdout_piped: bool,
    pub stderr_piped: bool,
    pub early_exit: Option<String>,
}

/// Judges the dependency-install step: a failure short-circuits the launch
/// before any spawn.
pub fn assess_install(r: Result<(), String>) -> (out: Result<(), LaunchError>)
    ensures
        r is Ok ==> out is Ok,
        r matches Err(m) ==> out == Result::<(), LaunchError>::Err(
            LaunchError::InstallFailed { os_message: m },
        ),
{
    match r {
        Ok(()) => Ok(()),
        Err(m) => Err(LaunchError::InstallFailed { os_message: m }),
    }
}

/// The judgement `assess_spawn` passes on a spawn report.
pub open spec fn assessment_of(r: Result<SpawnReport, String>) -> Result<SpawnReport, LaunchError> {
    match r {
        Result::Err(m) => Result::Err(LaunchError::SpawnFailed { os_message: m }),
        Result::Ok(rep) => {
            if rep.early_exit is Some {
                Result::Err(LaunchError::EarlyExit { detail: rep.early_exit->0 })
            } else if !rep.stdout_piped {
                Result::Err(LaunchError::StdoutNotCaptured)
            } else if !rep.stderr_piped {
                Result::Err(LaunchError::StderrNotCaptured)
            } else {
                Result::Ok(rep)
            }
        },
    }
}

/// Judges a spawn: a spawn failure, an immediate exit at the probe, or a
/// stream that came back unpiped each become a launch error; only a report
/// with a live child and both streams piped passes.
pub fn assess_spawn(r: Result<SpawnReport, String>) -> (out: Result<SpawnReport, LaunchError>)
    ensures
        out == assessment_of(r),
{
    match r {
        Err(m) => Err(LaunchError::SpawnFailed { os_message: m }),
        Ok(rep) => {
            match rep.early_exit {
                Some(detail) => Err(LaunchError::EarlyExit { detail }),
                None => {
                    if !rep.stdout_piped {
                        Err(LaunchError::StdoutNotCaptured)
                    } else if !rep.stderr_piped {
                        Err(LaunchError::StderrNotCaptured)
                    } else {
                        Ok(rep)
                    }
                },
            }
        },
    }
}

/// The response text for a launch that reached the streaming stage: the
/// child's process id in decimal, or a fixed message when the OS handed no
/// id back.
pub open spec fn pid_text_of(pid: Option<u32>) -> Seq<char> {
    match pid {
        Option::Some(p) => decimal(p as nat),
        Option::None => "Error getting process ID"@,
    }
}

/// Renders the process-id response for a successful launch.
pub fn pid_response(pid: Option<u32>) -> (s: String)
    ensures
        s@ == pid_text_of(pid),
{
    match pid {
        Some(p) => u32_decimal(p),
        None => String::from_str("Error getting process ID"),
    }
}

/// What the supervisor does once a launch has been judged.
#[derive(Debug)]
pub enum LaunchDirective {
    /// Answer with this error message; no piper is attached.
    Abort { message: String },
    /// Attach one piper per captured stream, then answer at once with this
    /// process-id text, without waiting for the process to finish.
    Stream { response: String },
}

/// Collapses a judged launch into the caller-facing directive: an error
/// becomes its message, a passing report becomes the order to stream with
/// the process-id response.
pub fn direct_launch(assessed: Result<SpawnReport, LaunchError>) -> (d: LaunchDirective)
    ensures
        assessed matches Err(e) ==> d matches LaunchDirective::Abort { message } && message@
            == message_of(e),
        assessed matches Ok(rep) ==> d matches LaunchDirective::Stream { response } && response@
            == pid_text_of(rep.pid),
{
    match assessed {
        Err(e) => LaunchDirective::Abort { message: error_text(&e) },
        Ok(rep) => LaunchDirective::Stream { response: pid_response(rep.pid) },
    }
}

/// Where a supervised process stands, from spawn to its end.
#[derive(Clone, Copy, Debug, PartialEq, Eq, Structural)]
pub enum ProcessState {
    /// Spawned, liveness not yet confirmed.
    Starting,
    /// Confirmed alive; its streams are being piped.
    Running,
    /// Ended on its own.
    Exited,
    /// A kill was asked for; its outcome is not yet known.
    KillRequested,
    /// The kill signal was reported delivered.
    Killed,
    /// The kill outcome was never confirmed.
    Unknown,
}

/// What the supervisor observes about a supervised process.
#[derive(Clone, Copy, Debug, PartialEq, Eq, Structural)]
pub enum ProcessEvent {
    /// The liveness probe found the child running.
    SpawnConfirmed,
    /// The child ended on its own.
    ExitObserved,
    /// The caller asked for a kill.
    KillAsked,
    /// The kill command reported success.
    KillReportedSuccess,
    /// The kill command reported failure.
    KillReportedFailure,
}

/// The one-directional life of a supervised process: `Starting` becomes
/// `Running` once confirmed; `Running` ends at `Exited` or moves to
/// `KillRequested`; a requested kill settles at `Killed` or stays `Unknown`.
/// Any other event leaves the state as it is.
pub open spec fn next_state(s: ProcessState, e: ProcessEvent) -> ProcessState {
    match (s, e) {
        (ProcessState::Starting, ProcessEvent::SpawnConfirmed) => ProcessState::Running,
        (ProcessState::Running, ProcessEvent::ExitObserved) => ProcessState::Exited,
        (ProcessState::Running, ProcessEvent::KillAsked) => ProcessState::KillRequested,
        (ProcessState::KillRequested, ProcessEvent::KillReportedSuccess) => ProcessState::Killed,
        (ProcessState::KillRequested, ProcessEvent::KillReportedFailure) => ProcessState::Unknown,
        _ => s,
    }
}

/// Advances a supervised process's state on one observation.
pub fn step_state(s: ProcessState, e: ProcessEvent) -> (n: ProcessState)
    ensures
        n == next_state(s, e),
{
    match (s, e) {
        (ProcessState::Starting, ProcessEvent::SpawnConfirmed) => ProcessState::Running,
        (ProcessState::Running, ProcessEvent::ExitObserved) => ProcessState::Exited,
        (ProcessState::Running, ProcessEvent::KillAsked) => ProcessState::KillRequested,
        (ProcessState::KillRequested, ProcessEvent::KillReportedSuccess) => ProcessState::Killed,
        (ProcessState::KillRequested, ProcessEvent::KillReportedFailure) => ProcessState::Unknown,
        (other, _) => other,
    }
}

/// No event brings a process back to `Starting`, and `Exited` and `Killed`
/// are terminal: transitions run one way and stop there.
pub proof fn lemma_states_terminal(s: ProcessState, e: ProcessEvent)
    ensures
        next_state(s, e) is Starting ==> s is Starting,
        s is Exited ==> next_state(s, e) == s,
        s is Killed ==> next_state(s, e) == s,
{
}

/// The command that forces a process to terminate: `kill -9 <pid>`.
pub fn kill_command(pid: u32) -> (c: CommandLine)
    ensures
        c.program@ == "kill"@,
        c.args.deep_view() == seq!["-9"@, decimal(pid as nat)],
{
    let mut args: Vec<String> = Vec::new();
    args.push(String::from_str("-9"));
    args.push(u32_decimal(pid));
    proof {
        assert(args.deep_view() =~= seq!["-9"@, decimal(pid as nat)]);
    }
    CommandLine { program: String::from_str("kill"), args }
}

/// The kill operation's response: judged by the kill command's own exit
/// status alone, never by whether the target existed or terminated.
pub open spec fn kill_text_of(ok: bool) -> Seq<char> {
    if ok {
        "Server killed"@
    } else {
        "Error killing server"@
    }
}

/// Renders the kill response for the kill command's exit status.
pub fn kill_response(ok: bool) -> (s: String)
    ensures
        s@ == kill_text_of(ok),
{
    if ok {
        String::from_str("Server killed")
    } else {
        String::from_str("Error killing server")
    }
}

/// Every kill outcome, first or repeated, collapses to one of the two
/// well-formed responses: a second kill of the same pid again gets one of
/// them, never an unhandled fault.
pub proof fn lemma_kill_always_answers(ok: bool)
    ensures
        kill_text_of(ok) == "Server killed"@ || kill_text_of(ok) == "Error killing server"@,
{
}

} // verus!
