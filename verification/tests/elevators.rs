use tailray::elevation::command::{
    classify_direct_outcome, direct_command, CommandSpec, ProcOutcome, SpawnStage,
};
use tailray::elevation::detection::{EnvSignals, Platform, SocketProbe};
use tailray::elevation::error::ElevationError;
use tailray::elevation::linux::{
    classify_pkexec_outcome, classify_sudo_first_outcome, classify_sudo_second_outcome,
    linux_plan_for_tools, LinuxPlan, SudoVerdict,
};
use tailray::elevation::{run_with_elevation, ExecutionPlan};

fn args(words: &[&str]) -> Vec<String> {
    words.iter().map(|w| w.to_string()).collect()
}

fn exited(success: bool, code: Option<i32>, stdout: &str, stderr: &str) -> ProcOutcome {
    ProcOutcome::Exited {
        success,
        code,
        stdout: stdout.to_string(),
        stderr: stderr.to_string(),
    }
}

#[test]
fn direct_command_passes_everything_through() {
    let c = direct_command("tailscale", &args(&["status", "--json"]));
    assert_eq!(c.program, "tailscale");
    assert_eq!(c.args, args(&["status", "--json"]));
    assert!(c.env.is_empty());
}

#[test]
fn direct_success_returns_stdout() {
    let r = classify_direct_outcome("tailscale", exited(true, Some(0), "up\n", ""));
    assert_eq!(r, Ok("up\n".to_string()));
}

#[test]
fn direct_failure_carries_code_and_stderr() {
    let r = classify_direct_outcome("tailscale", exited(false, Some(2), "", "bad flag"));
    assert_eq!(
        r,
        Err(ElevationError::CommandFailed {
            program: "tailscale".to_string(),
            code: 2,
            message: "bad flag".to_string(),
        })
    );
}

#[test]
fn direct_signal_death_uses_the_sentinel_code() {
    let r = classify_direct_outcome("tailscale", exited(false, None, "", "killed"));
    assert_eq!(
        r,
        Err(ElevationError::CommandFailed {
            program: "tailscale".to_string(),
            code: -1,
            message: "killed".to_string(),
        })
    );
}

#[test]
fn direct_spawn_failure_is_execution_failed() {
    let r = classify_direct_outcome(
        "tailscale",
        ProcOutcome::Failed { stage: SpawnStage::Launch, reason: "no such file".to_string() },
    );
    assert_eq!(
        r,
        Err(ElevationError::ExecutionFailed {
            program: "tailscale".to_string(),
            reason: "no such file".to_string(),
        })
    );
}

#[test]
fn pkexec_is_preferred_when_present() {
    let r = linux_plan_for_tools("tailscale", &args(&["up"]), true, true);
    match r {
        Ok(LinuxPlan::Pkexec(c)) => {
            assert_eq!(c.program, "pkexec");
            assert_eq!(c.args, args(&["tailscale", "up"]));
            assert!(c.env.is_empty());
        }
        other => panic!("expected a pkexec plan, got {:?}", other),
    }
}

#[test]
fn sudo_plan_has_both_attempts() {
    let r = linux_plan_for_tools("tailscale", &args(&["down"]), false, true);
    match r {
        Ok(LinuxPlan::Sudo { first, second }) => {
            assert_eq!(first.program, "sudo");
            assert_eq!(first.args, args(&["-n", "tailscale", "down"]));
            assert_eq!(
                first.env,
                vec![
                    ("LC_ALL".to_string(), "C".to_string()),
                    ("LANG".to_string(), "C".to_string())
                ]
            );
            assert_eq!(second.program, "sudo");
            assert_eq!(second.args, args(&["tailscale", "down"]));
            assert_eq!(second.env, first.env);
        }
        other => panic!("expected a sudo plan, got {:?}", other),
    }
}

#[test]
fn no_tool_at_all_is_reported_with_both_names() {
    let r = linux_plan_for_tools("tailscale", &args(&["up"]), false, false);
    assert_eq!(
        r,
        Err(ElevationError::ElevationToolNotFound {
            platform: "Linux".to_string(),
            tools: vec!["pkexec".to_string(), "sudo".to_string()],
        })
    );
}

#[test]
fn pkexec_exit_126_is_exactly_elevation_denied() {
    let r = classify_pkexec_outcome("tailscale", exited(false, Some(126), "", "dismissed"));
    assert_eq!(r, Err(ElevationError::ElevationDenied));
}

#[test]
fn pkexec_other_failures_are_command_failed() {
    let r = classify_pkexec_outcome("tailscale", exited(false, Some(127), "", "not permitted"));
    assert_eq!(
        r,
        Err(ElevationError::CommandFailed {
            program: "tailscale".to_string(),
            code: 127,
            message: "not permitted".to_string(),
        })
    );
}

#[test]
fn pkexec_success_returns_stdout() {
    let r = classify_pkexec_outcome("tailscale", exited(true, Some(0), "done", ""));
    assert_eq!(r, Ok("done".to_string()));
}

#[test]
fn pkexec_launch_failure_names_pkexec() {
    let r = classify_pkexec_outcome(
        "tailscale",
        ProcOutcome::Failed { stage: SpawnStage::Launch, reason: "not found".to_string() },
    );
    assert_eq!(
        r,
        Err(ElevationError::ExecutionFailed {
            program: "pkexec".to_string(),
            reason: "not found".to_string(),
        })
    );
}

#[test]
fn pkexec_wait_failure_names_the_target() {
    let r = classify_pkexec_outcome(
        "tailscale",
        ProcOutcome::Failed { stage: SpawnStage::Wait, reason: "pipe broke".to_string() },
    );
    assert_eq!(
        r,
        Err(ElevationError::ExecutionFailed {
            program: "tailscale".to_string(),
            reason: "pipe broke".to_string(),
        })
    );
}

#[test]
fn sudo_password_required_triggers_the_interactive_retry() {
    let r = classify_sudo_first_outcome(
        "tailscale",
        exited(false, Some(1), "", "sudo: a password is required\n"),
    );
    assert_eq!(r, SudoVerdict::RetryInteractively);
}

#[test]
fn sudo_exit_one_alone_triggers_the_retry() {
    let r = classify_sudo_first_outcome("tailscale", exited(false, Some(1), "", ""));
    assert_eq!(r, SudoVerdict::RetryInteractively);
}

#[test]
fn sudo_no_tty_phrase_triggers_the_retry() {
    let r = classify_sudo_first_outcome(
        "tailscale",
        exited(false, Some(2), "", "sudo: no tty present and no askpass program specified"),
    );
    assert_eq!(r, SudoVerdict::RetryInteractively);
}

#[test]
fn sudo_unrelated_failure_is_returned_without_retry() {
    let r = classify_sudo_first_outcome(
        "tailscale",
        exited(false, Some(127), "", "sudo: tailscale: command not found"),
    );
    assert_eq!(
        r,
        SudoVerdict::Settled(Err(ElevationError::CommandFailed {
            program: "tailscale".to_string(),
            code: 127,
            message: "sudo: tailscale: command not found".to_string(),
        }))
    );
}

#[test]
fn sudo_first_success_settles_at_once() {
    let r = classify_sudo_first_outcome("tailscale", exited(true, Some(0), "ok\n", ""));
    assert_eq!(r, SudoVerdict::Settled(Ok("ok\n".to_string())));
}

#[test]
fn sudo_spawn_failure_falls_through_to_the_retry() {
    let r = classify_sudo_first_outcome(
        "tailscale",
        ProcOutcome::Failed { stage: SpawnStage::Launch, reason: "fork failed".to_string() },
    );
    assert_eq!(r, SudoVerdict::RetryInteractively);
}

#[test]
fn interactive_sudo_without_a_tty_is_denied() {
    let r = classify_sudo_second_outcome(
        "tailscale",
        exited(false, Some(1), "", "sudo: no tty present and no askpass program specified"),
    );
    assert_eq!(r, Err(ElevationError::ElevationDenied));
}

#[test]
fn interactive_sudo_failure_is_command_failed() {
    let r = classify_sudo_second_outcome("tailscale", exited(false, Some(1), "", "denied"));
    assert_eq!(
        r,
        Err(ElevationError::CommandFailed {
            program: "tailscale".to_string(),
            code: 1,
            message: "denied".to_string(),
        })
    );
}

#[test]
fn interactive_sudo_success_returns_stdout() {
    let r = classify_sudo_second_outcome("tailscale", exited(true, Some(0), "up\n", ""));
    assert_eq!(r, Ok("up\n".to_string()));
}

#[test]
fn interactive_sudo_launch_failure_names_sudo() {
    let r = classify_sudo_second_outcome(
        "tailscale",
        ProcOutcome::Failed { stage: SpawnStage::Launch, reason: "fork failed".to_string() },
    );
    assert_eq!(
        r,
        Err(ElevationError::ExecutionFailed {
            program: "sudo".to_string(),
            reason: "fork failed".to_string(),
        })
    );
}

#[test]
fn full_sudo_fallback_sequence() {
    let plan = linux_plan_for_tools("tailscale", &args(&["down"]), false, true).unwrap();
    let (first, second) = match plan {
        LinuxPlan::Sudo { first, second } => (first, second),
        other => panic!("expected a sudo plan, got {:?}", other),
    };
    assert_eq!(first.args[0], "-n");
    let verdict = classify_sudo_first_outcome(
        "tailscale",
        exited(false, Some(1), "", "sudo: a password is required"),
    );
    assert_eq!(verdict, SudoVerdict::RetryInteractively);
    assert_eq!(second.args[0], "tailscale");
    let outcome = classify_sudo_second_outcome("tailscale", exited(true, Some(0), "done\n", ""));
    assert_eq!(outcome, Ok("done\n".to_string()));
}

fn desktop_env() -> EnvSignals {
    EnvSignals {
        display: Some(":0".to_string()),
        wayland_display: None,
        session_type: None,
        invocation_id: None,
        stdin_is_terminal: false,
    }
}

#[test]
fn dispatcher_plans_a_direct_run_when_no_elevation_is_needed() {
    let r = run_with_elevation(
        "tailscale",
        &args(&["status"]),
        Platform::Linux,
        &desktop_env(),
        SocketProbe::Inaccessible,
    );
    match r {
        Ok(ExecutionPlan::Direct(c)) => {
            assert_eq!(c.program, "tailscale");
            assert_eq!(c.args, args(&["status"]));
        }
        other => panic!("expected a direct plan, got {:?}", other),
    }
}

#[test]
fn dispatcher_selects_the_linux_elevator_when_needed() {
    let r = run_with_elevation(
        "tailscale",
        &args(&["up"]),
        Platform::Linux,
        &desktop_env(),
        SocketProbe::Inaccessible,
    );
    match r {
        Ok(ExecutionPlan::Linux(LinuxPlan::Pkexec(c))) => {
            assert_eq!(c.program, "pkexec");
            assert_eq!(c.args, args(&["tailscale", "up"]));
        }
        Ok(ExecutionPlan::Linux(LinuxPlan::Sudo { first, second })) => {
            assert_eq!(first.args, args(&["-n", "tailscale", "up"]));
            assert_eq!(second.args, args(&["tailscale", "up"]));
        }
        Err(ElevationError::ElevationToolNotFound { platform, tools }) => {
            assert_eq!(platform, "Linux");
            assert_eq!(tools, vec!["pkexec".to_string(), "sudo".to_string()]);
        }
        other => panic!("expected a Linux elevation plan, got {:?}", other),
    }
}

#[test]
fn dispatcher_resolves_each_call_independently() {
    let first = run_with_elevation(
        "tailscale",
        &args(&["down"]),
        Platform::Linux,
        &desktop_env(),
        SocketProbe::Inaccessible,
    );
    let second = run_with_elevation(
        "tailscale",
        &args(&["down"]),
        Platform::Linux,
        &desktop_env(),
        SocketProbe::Inaccessible,
    );
    assert_eq!(first, second);
}

#[test]
fn dispatcher_uses_the_macos_elevator() {
    let r = run_with_elevation(
        "tailscale",
        &args(&["up"]),
        Platform::MacOS,
        &desktop_env(),
        SocketProbe::Inaccessible,
    );
    // Elevation for tailscale up is never required on macOS, so this is
    // a direct run.
    match r {
        Ok(ExecutionPlan::Direct(c)) => assert_eq!(c.program, "tailscale"),
        other => panic!("expected a direct plan, got {:?}", other),
    }
}

#[test]
fn bsd_uses_the_linux_elevator_for_non_tailscale_programs() {
    let r = run_with_elevation(
        "reboot",
        &args(&[]),
        Platform::BSD,
        &desktop_env(),
        SocketProbe::Connected,
    );
    // Elevation is not required for non-tailscale programs, so this is a
    // direct run whatever the platform.
    match r {
        Ok(ExecutionPlan::Direct(c)) => assert_eq!(c.program, "reboot"),
        other => panic!("expected a direct plan, got {:?}", other),
    }
}
