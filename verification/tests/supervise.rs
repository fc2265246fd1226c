use server_supervisor::supervise::{
    assess_install, assess_spawn, channel_name, direct_launch, error_text, kill_command,
    kill_response, pid_response, step_state, LaunchDirective, LaunchError, ProcessEvent,
    ProcessState, SpawnReport, StreamKind,
};

fn healthy_report(pid: Option<u32>) -> SpawnReport {
    SpawnReport { pid, stdout_piped: true, stderr_piped: true, early_exit: None }
}

#[test]
fn channels_are_named_by_stream() {
    assert_eq!(channel_name(StreamKind::Stdout), "server-output");
    assert_eq!(channel_name(StreamKind::Stderr), "server-error");
}

#[test]
fn install_failure_short_circuits() {
    let out = assess_install(Err("npm exploded".to_string()));
    let e = out.unwrap_err();
    assert!(matches!(&e, LaunchError::InstallFailed { .. }));
    assert_eq!(error_text(&e), "Error installing node modules: npm exploded");
    assert!(assess_install(Ok(())).is_ok());
}

#[test]
fn spawn_failure_carries_the_os_message() {
    let out = assess_spawn(Err("No such file or directory".to_string()));
    let e = out.unwrap_err();
    assert!(matches!(&e, LaunchError::SpawnFailed { .. }));
    assert_eq!(error_text(&e), "Error starting server: No such file or directory");
}

#[test]
fn early_exit_at_probe_is_a_launch_failure() {
    let mut rep = healthy_report(Some(42));
    rep.early_exit = Some("exit status: 1".to_string());
    let e = assess_spawn(Ok(rep)).unwrap_err();
    assert!(matches!(&e, LaunchError::EarlyExit { .. }));
    assert_eq!(
        error_text(&e),
        "Error starting server: server exited immediately: exit status: 1"
    );
}

#[test]
fn missing_stdout_pipe_is_reported() {
    let mut rep = healthy_report(Some(42));
    rep.stdout_piped = false;
    let e = assess_spawn(Ok(rep)).unwrap_err();
    assert!(matches!(&e, LaunchError::StdoutNotCaptured));
    assert_eq!(error_text(&e), "Error capturing stdout");
}

#[test]
fn missing_stderr_pipe_is_reported() {
    let mut rep = healthy_report(Some(42));
    rep.stderr_piped = false;
    let e = assess_spawn(Ok(rep)).unwrap_err();
    assert!(matches!(&e, LaunchError::StderrNotCaptured));
    assert_eq!(error_text(&e), "Error capturing stderr");
}

#[test]
fn healthy_spawn_streams_with_pid_text() {
    let d = direct_launch(assess_spawn(Ok(healthy_report(Some(1234)))));
    match d {
        LaunchDirective::Stream { response } => assert_eq!(response, "1234"),
        LaunchDirective::Abort { .. } => panic!("healthy spawn must stream"),
    }
}

#[test]
fn missing_pid_still_streams_with_a_message() {
    let d = direct_launch(assess_spawn(Ok(healthy_report(None))));
    match d {
        LaunchDirective::Stream { response } => {
            assert_eq!(response, "Error getting process ID")
        },
        LaunchDirective::Abort { .. } => panic!("missing pid must still stream"),
    }
}

#[test]
fn failed_launch_aborts_with_its_message() {
    let d = direct_launch(assess_spawn(Err("boom".to_string())));
    match d {
        LaunchDirective::Abort { message } => {
            assert_eq!(message, "Error starting server: boom")
        },
        LaunchDirective::Stream { .. } => panic!("failed spawn must abort"),
    }
}

#[test]
fn pid_response_renders_decimal() {
    assert_eq!(pid_response(Some(0)), "0");
    assert_eq!(pid_response(Some(4194304)), "4194304");
    assert_eq!(pid_response(None), "Error getting process ID");
}

#[test]
fn process_states_run_one_way() {
    let s = step_state(ProcessState::Starting, ProcessEvent::SpawnConfirmed);
    assert_eq!(s, ProcessState::Running);
    assert_eq!(step_state(s, ProcessEvent::ExitObserved), ProcessState::Exited);
    assert_eq!(step_state(s, ProcessEvent::KillAsked), ProcessState::KillRequested);
    let k = step_state(ProcessState::KillRequested, ProcessEvent::KillReportedSuccess);
    assert_eq!(k, ProcessState::Killed);
    assert_eq!(
        step_state(ProcessState::KillRequested, ProcessEvent::KillReportedFailure),
        ProcessState::Unknown
    );
}

#[test]
fn terminal_states_stay_put() {
    for e in [
        ProcessEvent::SpawnConfirmed,
        ProcessEvent::ExitObserved,
        ProcessEvent::KillAsked,
        ProcessEvent::KillReportedSuccess,
        ProcessEvent::KillReportedFailure,
    ] {
        assert_eq!(step_state(ProcessState::Exited, e), ProcessState::Exited);
        assert_eq!(step_state(ProcessState::Killed, e), ProcessState::Killed);
        assert_ne!(step_state(ProcessState::Running, e), ProcessState::Starting);
    }
}

#[test]
fn kill_command_is_kill_dash_nine_pid() {
    let c = kill_command(4321);
    assert_eq!(c.program, "kill");
    assert_eq!(c.args, vec!["-9".to_string(), "4321".to_string()]);
}

#[test]
fn kill_responses_are_the_two_fixed_strings() {
    assert_eq!(kill_response(true), "Server killed");
    assert_eq!(kill_response(false), "Error killing server");
}
