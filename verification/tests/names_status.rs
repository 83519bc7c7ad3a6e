use tailray::tailscale::{
    dns_or_quote_hostname, get_current, has_suffix, sanitize_hostname, set_display_name,
    status_output_ready, trim_suffix, Machine, PeerKind, Status, StatusError,
};

fn machine(dns_name: &str, hostname: &str, ips: &[&str]) -> Machine {
    Machine {
        display_name: PeerKind::default(),
        dns_name: dns_name.to_string(),
        hostname: hostname.to_string(),
        ips: ips.iter().map(|i| i.to_string()).collect(),
    }
}

#[test]
fn trim_suffix_strips_the_network_suffix() {
    assert_eq!(trim_suffix("box.tail1234.ts.net.", "tail1234.ts.net"), "box");
    assert_eq!(trim_suffix("box.tail1234.ts.net", ".tail1234.ts.net."), "box");
}

#[test]
fn trim_suffix_leaves_other_names_alone() {
    assert_eq!(trim_suffix("box.example.com.", "tail1234.ts.net"), "box.example.com");
    assert_eq!(trim_suffix("box", ""), "box");
    assert_eq!(trim_suffix("", "tail1234.ts.net"), "");
}

#[test]
fn trim_suffix_needs_the_separating_dot() {
    // The name ends in the suffix text but not in ".suffix", so nothing
    // beyond the trailing dots is removed.
    assert_eq!(trim_suffix("boxtail1234.ts.net", "tail1234.ts.net"), "boxtail1234.ts.net");
}

#[test]
fn has_suffix_requires_the_separating_dot() {
    assert!(has_suffix("host.example.com.", "example.com"));
    assert!(has_suffix("host.example.com", ".example.com."));
    assert!(!has_suffix("hostexample.com", "example.com"));
    assert!(!has_suffix("example.com", "example.com"));
}

#[test]
fn sanitize_lowercases_and_joins_with_dashes() {
    assert_eq!(sanitize_hostname("My Host.local"), "my-host");
    assert_eq!(sanitize_hostname("dev_box.lan"), "dev-box");
    assert_eq!(sanitize_hostname("server.localdomain"), "server");
}

#[test]
fn sanitize_clips_to_the_alphanumeric_window() {
    assert_eq!(sanitize_hostname("--abc--"), "abc");
    assert_eq!(sanitize_hostname("..."), "");
    assert_eq!(sanitize_hostname(""), "");
}

#[test]
fn sanitize_caps_the_label_length() {
    let long = "a".repeat(80);
    let out = sanitize_hostname(&long);
    assert_eq!(out.len(), 63);
    assert!(out.chars().all(|c| c == 'a'));
}

#[test]
fn display_name_prefers_the_dns_base() {
    let mut m = machine("box.tail1234.ts.net.", "ignored", &[]);
    set_display_name(&mut m, "tail1234.ts.net");
    match &m.display_name {
        PeerKind::HostName(s) => assert_eq!(s, "box"),
        other => panic!("expected a host name, got {:?}", other),
    }
}

#[test]
fn display_name_falls_back_to_the_sanitized_hostname() {
    let mut m = machine("", "My Laptop.local", &[]);
    dns_or_quote_hostname(&mut m, "tail1234.ts.net");
    match &m.display_name {
        PeerKind::DNSName(s) => assert_eq!(s, "my-laptop"),
        other => panic!("expected a sanitized hostname, got {:?}", other),
    }
}

#[test]
fn peer_kind_label_returns_the_text() {
    assert_eq!(PeerKind::DNSName("a".to_string()).label(), "a");
    assert_eq!(PeerKind::HostName("b".to_string()).label(), "b");
    match PeerKind::default() {
        PeerKind::HostName(s) => assert_eq!(s, "default"),
        other => panic!("expected the default host name, got {:?}", other),
    }
}

#[test]
fn resolve_marks_the_network_up_only_when_running() {
    let mut status = Status {
        tailscale_up: false,
        backend_state: "Running".to_string(),
        this_machine: machine("box.t.ts.net.", "box", &["100.1.1.1"]),
        magic_dnssuffix: "t.ts.net".to_string(),
        peers: vec![
            machine("peer1.t.ts.net.", "peer1", &["100.1.1.2"]),
            machine("", "Peer Two.local", &["100.1.1.3"]),
        ],
    };
    status.resolve();
    assert!(status.tailscale_up);
    match &status.this_machine.display_name {
        PeerKind::HostName(s) => assert_eq!(s, "box"),
        other => panic!("expected a host name, got {:?}", other),
    }
    match &status.peers[0].display_name {
        PeerKind::HostName(s) => assert_eq!(s, "peer1"),
        other => panic!("expected a host name, got {:?}", other),
    }
    match &status.peers[1].display_name {
        PeerKind::DNSName(s) => assert_eq!(s, "peer-two"),
        other => panic!("expected a sanitized hostname, got {:?}", other),
    }

    let mut stopped = Status {
        tailscale_up: true,
        backend_state: "Stopped".to_string(),
        this_machine: machine("", "", &[]),
        magic_dnssuffix: String::new(),
        peers: vec![],
    };
    stopped.resolve();
    assert!(!stopped.tailscale_up);
}

#[test]
fn get_current_rejects_a_machine_without_addresses() {
    let status = Status {
        tailscale_up: true,
        backend_state: "Running".to_string(),
        this_machine: machine("box.t.ts.net.", "box", &[]),
        magic_dnssuffix: "t.ts.net".to_string(),
        peers: vec![],
    };
    let r = get_current(status);
    match r {
        Err(StatusError::MissingData(m)) => {
            assert_eq!(m, "This machine has no IP addresses");
        }
        other => panic!("expected missing data, got {:?}", other),
    }
}

#[test]
fn get_current_takes_the_first_address() {
    let status = Status {
        tailscale_up: true,
        backend_state: "Running".to_string(),
        this_machine: machine("box.t.ts.net.", "box", &["100.1.1.1", "fd7a::1"]),
        magic_dnssuffix: "t.ts.net".to_string(),
        peers: vec![],
    };
    let ctx = get_current(status).unwrap();
    assert_eq!(ctx.ip, "100.1.1.1");
    assert_eq!(ctx.status.this_machine.hostname, "box");
}

#[test]
fn blank_status_output_is_missing_data() {
    match status_output_ready("  \n\t") {
        Err(StatusError::MissingData(m)) => assert_eq!(m, "Tailscale returned empty status"),
        other => panic!("expected missing data, got {:?}", other),
    }
    assert_eq!(status_output_ready("{}"), Ok(()));
    match status_output_ready("") {
        Err(StatusError::MissingData(_)) => {}
        other => panic!("expected missing data, got {:?}", other),
    }
}

#[test]
fn status_error_messages() {
    assert_eq!(
        StatusError::CommandFailed("boom".to_string()).to_message(),
        "Tailscale command failed: boom"
    );
    assert_eq!(
        StatusError::ParseFailed("bad json".to_string()).to_message(),
        "Failed to parse Tailscale status: bad json"
    );
    assert_eq!(
        StatusError::MissingData("no ip".to_string()).to_message(),
        "Missing data in Tailscale status: no ip"
    );
}
