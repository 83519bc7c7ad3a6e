use tailray::elevation::command::{ProcOutcome, SpawnStage};
use tailray::elevation::error::ElevationError;
use tailray::elevation::macos::{escape_for_applescript, macos_elevation_command};
use tailray::elevation::windows::{
    classify_windows_outcome, escape_ps_arg, windows_launcher_command, windows_request,
    OutputPoll, WindowsVerdict,
};

fn args(words: &[&str]) -> Vec<String> {
    words.iter().map(|w| w.to_string()).collect()
}

#[test]
fn applescript_escaping_covers_every_special_character() {
    assert_eq!(escape_for_applescript("plain"), "\"plain\"");
    assert_eq!(escape_for_applescript("say \"hi\""), "\"say \\\"hi\\\"\"");
    assert_eq!(escape_for_applescript("a\\b"), "\"a\\\\b\"");
    assert_eq!(escape_for_applescript("l1\nl2\rl3\tl4"), "\"l1\\nl2\\rl3\\tl4\"");
    assert_eq!(escape_for_applescript(""), "\"\"");
}

#[test]
fn macos_command_quotes_and_embeds_the_target() {
    let c = macos_elevation_command("echo", &args(&["a b"])).unwrap();
    assert_eq!(c.program, "osascript");
    assert_eq!(c.args.len(), 2);
    assert_eq!(c.args[0], "-e");
    assert_eq!(
        c.args[1],
        "do shell script \"echo 'a b'\" with administrator privileges"
    );
    assert!(c.env.is_empty());
}

#[test]
fn macos_command_without_arguments() {
    let c = macos_elevation_command("true", &args(&[])).unwrap();
    assert_eq!(c.args[1], "do shell script \"true\" with administrator privileges");
}

#[test]
fn macos_rejects_words_with_nul_bytes() {
    let r = macos_elevation_command("ec\0ho", &args(&[]));
    assert_eq!(
        r,
        Err(ElevationError::ExecutionFailed {
            program: "ec\0ho".to_string(),
            reason: "Shell quoting failed: cannot shell-quote string containing nul byte"
                .to_string(),
        })
    );
    let r2 = macos_elevation_command("echo", &args(&["a\0b"]));
    assert_eq!(
        r2,
        Err(ElevationError::ExecutionFailed {
            program: "echo".to_string(),
            reason: "Shell quoting failed: cannot shell-quote string containing nul byte"
                .to_string(),
        })
    );
}

#[test]
fn powershell_escaping_doubles_single_quotes() {
    assert_eq!(escape_ps_arg("plain"), "'plain'");
    assert_eq!(escape_ps_arg("a'b"), "'a''b'");
    assert_eq!(escape_ps_arg(""), "''");
}

#[test]
fn windows_launcher_script_is_built_exactly() {
    let req = windows_request("tailscale", &args(&["up"]));
    let c = windows_launcher_command(&req, "C:\\t.txt");
    assert_eq!(c.program, "powershell");
    assert_eq!(c.args.len(), 3);
    assert_eq!(c.args[0], "-NoProfile");
    assert_eq!(c.args[1], "-Command");
    let elevated = "& 'tailscale' *>&1 | Out-File -FilePath 'C:\\t.txt' -Encoding UTF8 'up'; exit $LASTEXITCODE";
    let expected = format!(
        "Start-Process powershell -ArgumentList '-NoProfile', '-Command', {} -Verb RunAs -Wait -WindowStyle Hidden",
        format!("'{}'", elevated.replace('\'', "''"))
    );
    assert_eq!(c.args[2], expected);
}

#[test]
fn windows_launcher_without_arguments_has_only_the_redirection() {
    let req = windows_request("whoami", &args(&[]));
    let c = windows_launcher_command(&req, "t.txt");
    let elevated = "& 'whoami' *>&1 | Out-File -FilePath 't.txt' -Encoding UTF8; exit $LASTEXITCODE";
    let expected = format!(
        "Start-Process powershell -ArgumentList '-NoProfile', '-Command', {} -Verb RunAs -Wait -WindowStyle Hidden",
        format!("'{}'", elevated.replace('\'', "''"))
    );
    assert_eq!(c.args[2], expected);
}

#[test]
fn windows_success_collects_the_output() {
    let r = classify_windows_outcome(
        "tailscale",
        ProcOutcome::Exited {
            success: true,
            code: Some(0),
            stdout: String::new(),
            stderr: String::new(),
        },
        String::new(),
    );
    assert_eq!(r, WindowsVerdict::CollectOutput);
}

#[test]
fn windows_failure_prefers_the_temp_file_content() {
    let r = classify_windows_outcome(
        "tailscale",
        ProcOutcome::Exited {
            success: false,
            code: Some(5),
            stdout: String::new(),
            stderr: "launcher stderr".to_string(),
        },
        "elevated output".to_string(),
    );
    assert_eq!(
        r,
        WindowsVerdict::Failed(ElevationError::CommandFailed {
            program: "tailscale".to_string(),
            code: 5,
            message: "elevated output".to_string(),
        })
    );
}

#[test]
fn windows_failure_falls_back_to_stderr() {
    let r = classify_windows_outcome(
        "tailscale",
        ProcOutcome::Exited {
            success: false,
            code: Some(1),
            stdout: String::new(),
            stderr: "launcher stderr".to_string(),
        },
        String::new(),
    );
    assert_eq!(
        r,
        WindowsVerdict::Failed(ElevationError::CommandFailed {
            program: "tailscale".to_string(),
            code: 1,
            message: "launcher stderr".to_string(),
        })
    );
}

#[test]
fn windows_failure_with_no_output_gets_the_generic_message() {
    let r = classify_windows_outcome(
        "tailscale",
        ProcOutcome::Exited {
            success: false,
            code: None,
            stdout: String::new(),
            stderr: String::new(),
        },
        String::new(),
    );
    assert_eq!(
        r,
        WindowsVerdict::Failed(ElevationError::CommandFailed {
            program: "tailscale".to_string(),
            code: -1,
            message: "Command failed with no error output (possibly elevation denied)".to_string(),
        })
    );
}

#[test]
fn windows_spawn_failure_is_execution_failed() {
    let r = classify_windows_outcome(
        "tailscale",
        ProcOutcome::Failed { stage: SpawnStage::Launch, reason: "not found".to_string() },
        String::new(),
    );
    assert_eq!(
        r,
        WindowsVerdict::Failed(ElevationError::ExecutionFailed {
            program: "tailscale".to_string(),
            reason: "not found".to_string(),
        })
    );
}

#[test]
fn the_poll_accepts_nonempty_content_at_once() {
    let mut poll = OutputPoll::new();
    assert_eq!(poll.offer("data".to_string()), Some("data".to_string()));
}

#[test]
fn ten_empty_reads_still_succeed_with_empty_text() {
    let mut poll = OutputPoll::new();
    let mut reads = 0;
    let result = loop {
        reads += 1;
        if let Some(out) = poll.offer(String::new()) {
            break out;
        }
        assert!(reads < 10, "the poll must settle within its budget");
    };
    assert_eq!(reads, 10);
    assert_eq!(result, "");
}

#[test]
fn a_late_write_is_still_picked_up() {
    let mut poll = OutputPoll::new();
    for _ in 0..5 {
        assert_eq!(poll.offer(String::new()), None);
    }
    assert_eq!(poll.offer("late".to_string()), Some("late".to_string()));
}
