use tailray::elevation::detection::{
    check_elevation_required, check_tailscale_elevation, platform_of_family,
    tailscale_socket_path, EnvSignals, OsFamily, Platform, SocketProbe,
};
use tailray::elevation::error::ElevationError;

fn headless_env() -> EnvSignals {
    EnvSignals {
        display: None,
        wayland_display: None,
        session_type: None,
        invocation_id: None,
        stdin_is_terminal: false,
    }
}

fn desktop_env() -> EnvSignals {
    EnvSignals {
        display: Some(":0".to_string()),
        wayland_display: None,
        session_type: Some("x11".to_string()),
        invocation_id: None,
        stdin_is_terminal: false,
    }
}

fn args(words: &[&str]) -> Vec<String> {
    words.iter().map(|w| w.to_string()).collect()
}

#[test]
fn platform_detection_is_stable() {
    assert_eq!(Platform::current(), Platform::current());
}

#[test]
fn unrecognized_families_default_to_linux() {
    assert_eq!(platform_of_family(OsFamily::Other), Platform::Linux);
    assert_eq!(platform_of_family(OsFamily::Linux), Platform::Linux);
    assert_eq!(platform_of_family(OsFamily::Mac), Platform::MacOS);
    assert_eq!(platform_of_family(OsFamily::Windows), Platform::Windows);
    assert_eq!(platform_of_family(OsFamily::Bsd), Platform::BSD);
}

#[test]
fn connectable_socket_means_no_elevation() {
    let r = check_tailscale_elevation(&args(&["up"]), Platform::Linux, SocketProbe::Connected);
    assert_eq!(r, Ok(false));
    let r2 = check_elevation_required(
        "tailscale",
        &args(&["up"]),
        Platform::Linux,
        &headless_env(),
        SocketProbe::Connected,
    );
    assert_eq!(r2, Ok(false));
}

#[test]
fn missing_socket_file_means_no_elevation() {
    let r = check_tailscale_elevation(&args(&["up"]), Platform::Linux, SocketProbe::NotFound);
    assert_eq!(r, Ok(false));
    let r2 = check_tailscale_elevation(&args(&["down"]), Platform::Linux, SocketProbe::NotFound);
    assert_eq!(r2, Ok(false));
}

#[test]
fn inaccessible_socket_requires_elevation() {
    let r = check_tailscale_elevation(&args(&["up"]), Platform::Linux, SocketProbe::Inaccessible);
    assert_eq!(r, Ok(true));
    let r2 =
        check_tailscale_elevation(&args(&["down"]), Platform::Linux, SocketProbe::Inaccessible);
    assert_eq!(r2, Ok(true));
}

#[test]
fn failed_probe_assumes_elevation_needed() {
    let r = check_tailscale_elevation(&args(&["up"]), Platform::Linux, SocketProbe::ProbeFailed);
    assert_eq!(r, Ok(true));
}

#[test]
fn other_subcommands_never_need_elevation() {
    let r =
        check_tailscale_elevation(&args(&["status"]), Platform::Linux, SocketProbe::Inaccessible);
    assert_eq!(r, Ok(false));
}

#[test]
fn other_platforms_never_need_elevation() {
    for p in [Platform::MacOS, Platform::Windows, Platform::BSD] {
        let r = check_tailscale_elevation(&args(&["up"]), p, SocketProbe::Inaccessible);
        assert_eq!(r, Ok(false));
    }
}

#[test]
fn headless_linux_is_unsupported() {
    let r = check_elevation_required(
        "systemctl",
        &args(&["restart", "tailscaled"]),
        Platform::Linux,
        &headless_env(),
        SocketProbe::Connected,
    );
    assert_eq!(
        r,
        Err(ElevationError::UnsupportedEnvironment {
            platform: "Linux".to_string(),
            constraint: "headless environment without display or TTY".to_string(),
        })
    );
}

#[test]
fn headless_service_gets_the_service_constraint() {
    let mut env = headless_env();
    env.invocation_id = Some("abc123".to_string());
    let r = check_elevation_required(
        "systemctl",
        &args(&[]),
        Platform::Linux,
        &env,
        SocketProbe::Connected,
    );
    assert_eq!(
        r,
        Err(ElevationError::UnsupportedEnvironment {
            platform: "Linux".to_string(),
            constraint: "service without controlling terminal".to_string(),
        })
    );
}

#[test]
fn a_display_makes_the_session_usable() {
    let r = check_elevation_required(
        "systemctl",
        &args(&[]),
        Platform::Linux,
        &desktop_env(),
        SocketProbe::Connected,
    );
    assert_eq!(r, Ok(false));
}

#[test]
fn a_tty_session_is_usable() {
    let mut env = headless_env();
    env.session_type = Some("tty".to_string());
    let r = check_elevation_required(
        "systemctl",
        &args(&[]),
        Platform::Linux,
        &env,
        SocketProbe::Connected,
    );
    assert_eq!(r, Ok(false));
}

#[test]
fn an_interactive_stdin_is_usable() {
    let mut env = headless_env();
    env.stdin_is_terminal = true;
    let r = check_elevation_required(
        "systemctl",
        &args(&[]),
        Platform::Linux,
        &env,
        SocketProbe::Connected,
    );
    assert_eq!(r, Ok(false));
}

#[test]
fn non_linux_platforms_skip_the_session_check() {
    for p in [Platform::MacOS, Platform::Windows, Platform::BSD] {
        let r = check_elevation_required(
            "systemctl",
            &args(&[]),
            p,
            &headless_env(),
            SocketProbe::Connected,
        );
        assert_eq!(r, Ok(false));
    }
}

#[test]
fn socket_paths_match_the_platform() {
    assert_eq!(
        tailscale_socket_path(Platform::Linux),
        "/var/run/tailscale/tailscaled.sock"
    );
    assert_eq!(
        tailscale_socket_path(Platform::MacOS),
        "/var/run/tailscale/tailscaled.sock"
    );
    assert_eq!(tailscale_socket_path(Platform::BSD), "/var/run/tailscaled.sock");
}
