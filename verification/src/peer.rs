//! Copying a peer's address to the clipboard and telling the user.
//! Address validation and the verification of what the clipboard
//! returned are verified; the clipboard and the notification daemon sit
//! behind trusted wrappers.

use vstd::prelude::*;
use vstd::string::StringExecFns;

use crate::strings::{chars_of, contains_char, spec_has_char, str_eq};

verus! {

/// Failures of the copy-and-notify flow.
#[derive(Debug, Clone, PartialEq)]
pub enum PeerError {
    /// The address is empty or not shaped like an address.
    InvalidIP(String),
    /// The clipboard could not be written or read back.
    ClipboardError(String),
    /// The desktop notification could not be shown.
    NotificationError(String),
    /// The clipboard did not return what was written to it.
    VerificationError(String),
}

/// The one-line description of `e`.
pub open spec fn spec_peer_error_message(e: PeerError) -> Seq<char> {
    match e {
        PeerError::InvalidIP(m) => "Invalid IP address: "@ + m@,
        PeerError::ClipboardError(m) => "Clipboard error: "@ + m@,
        PeerError::NotificationError(m) => "Notification error: "@ + m@,
        PeerError::VerificationError(m) => "Verification error: "@ + m@,
    }
}

impl PeerError {
    /// Renders the error as the one-line description a user sees.
    pub fn to_message(&self) -> (r: String)
        ensures
            r@ == spec_peer_error_message(*self),
    {
        let mut s = String::new();
        match self {
            PeerError::InvalidIP(m) => {
                s.append("Invalid IP address: ");
                s.append(m.as_str());
            },
            PeerError::ClipboardError(m) => {
                s.append("Clipboard error: ");
                s.append(m.as_str());
            },
            PeerError::NotificationError(m) => {
                s.append("Notification error: ");
                s.append(m.as_str());
            },
            PeerError::VerificationError(m) => {
                s.append("Verification error: ");
                s.append(m.as_str());
            },
        }
        proof {
            assert(s@ =~= spec_peer_error_message(*self));
        }
        s
    }
}

/// An address passes validation when it is non-empty and holds a dot
/// (IPv4-style) or a colon (IPv6-style).
pub open spec fn spec_valid_peer_ip(ip: Seq<char>) -> bool {
    ip.len() > 0 && (spec_has_char(ip, '.') || spec_has_char(ip, ':'))
}

/// Validates the peer address format: empty addresses and addresses
/// with neither a dot nor a colon are rejected, each with its own
/// message.
pub fn validate_peer_ip(peer_ip: &str) -> (r: Result<(), PeerError>)
    ensures
        r is Ok <==> spec_valid_peer_ip(peer_ip@),
        peer_ip@.len() == 0 ==> (r matches Err(PeerError::InvalidIP(m)) && m@
            == "IP address is empty"@),
        peer_ip@.len() > 0 && !spec_valid_peer_ip(peer_ip@) ==> (r matches Err(
            PeerError::InvalidIP(m),
        ) && m@ == "Invalid format: "@ + peer_ip@),
{
    let cs = chars_of(peer_ip);
    if cs.len() == 0 {
        return Err(PeerError::InvalidIP("IP address is empty".to_owned()));
    }
    if !contains_char(&cs, '.') && !contains_char(&cs, ':') {
        let mut m = String::new();
        m.append("Invalid format: ");
        m.append(peer_ip);
        proof {
            assert(m@ =~= "Invalid format: "@ + peer_ip@);
        }
        return Err(PeerError::InvalidIP(m));
    }
    Ok(())
}

/// Relies on `arboard::Clipboard`: opens the system clipboard, writes
/// `text` to it and reads the clipboard's text back, reporting any
/// clipboard failure's description.
#[verifier::external_body]
pub fn copy_and_get(text: &str) -> Result<String, String> {
    let mut clipboard = arboard::Clipboard::new().map_err(|e| e.to_string())?;
    clipboard.set_text(text).map_err(|e| e.to_string())?;
    clipboard.get_text().map_err(|e| e.to_string())
}

/// Relies on `notify_rust::Notification`: builds a desktop notification
/// with the given summary, body, icon and timeout in milliseconds, and
/// shows it, reporting any failure's description.
#[verifier::external_body]
fn send_notification(summary: &str, body: &str, icon: &str, timeout_ms: i32) -> Result<
    (),
    String,
> {
    notify_rust::Notification::new()
        .summary(summary)
        .body(body)
        .icon(icon)
        .timeout(timeout_ms)
        .show()
        .map(|_| ())
        .map_err(|e| e.to_string())
}

/// Judges what the clipboard returned for a written address: a
/// clipboard failure keeps its description, text differing from the
/// address is a verification failure, and the matching text is handed
/// back.
pub fn check_clip_result(expected: &str, got: Result<String, String>) -> (r: Result<
    String,
    PeerError,
>)
    ensures
        got matches Err(m) ==> (r matches Err(PeerError::ClipboardError(cm)) && cm@ == m@),
        (got matches Ok(t) && t@ != expected@) ==> (r matches Err(PeerError::VerificationError(vm))
            && vm@ == "Clipboard content doesn't match the copied IP"@),
        (got matches Ok(t) && t@ == expected@) ==> (r matches Ok(out) && out@ == expected@),
{
    match got {
        Err(m) => Err(PeerError::ClipboardError(m)),
        Ok(t) => {
            if str_eq(t.as_str(), expected) {
                Ok(t)
            } else {
                Err(
                    PeerError::VerificationError(
                        "Clipboard content doesn't match the copied IP".to_owned(),
                    ),
                )
            }
        },
    }
}

/// The notification headline for a copied address.
pub fn copy_summary(host: bool) -> (r: String)
    ensures
        host ==> r@ == "Copied host IP address"@,
        !host ==> r@ == "Copied peer IP address"@,
{
    if host {
        "Copied host IP address".to_owned()
    } else {
        "Copied peer IP address".to_owned()
    }
}

/// Copies a peer's address to the clipboard, verifies the clipboard
/// returned it unchanged, and notifies the user.  An invalid address is
/// rejected before the clipboard is touched; after that, each failing
/// step yields its own error kind, and success means the address was
/// valid, the clipboard round trip matched and the notification was
/// shown.
pub fn copy_peer_ip(peer_ip: &str, notif_body: &str, host: bool) -> (r: Result<(), PeerError>)
    ensures
        peer_ip@.len() == 0 ==> (r matches Err(PeerError::InvalidIP(m)) && m@
            == "IP address is empty"@),
        peer_ip@.len() > 0 && !spec_valid_peer_ip(peer_ip@) ==> (r matches Err(
            PeerError::InvalidIP(m),
        ) && m@ == "Invalid format: "@ + peer_ip@),
        spec_valid_peer_ip(peer_ip@) ==> !(r matches Err(e) && e is InvalidIP),
        r is Ok ==> spec_valid_peer_ip(peer_ip@),
{
    match validate_peer_ip(peer_ip) {
        Err(e) => {
            return Err(e);
        },
        Ok(()) => {},
    }
    let clip = copy_and_get(peer_ip);
    match check_clip_result(peer_ip, clip) {
        Err(e) => {
            return Err(e);
        },
        Ok(_verified) => {},
    }
    let summary = copy_summary(host);
    match send_notification(summary.as_str(), notif_body, "tailscale", 3000i32) {
        Err(m) => Err(PeerError::NotificationError(m)),
        Ok(()) => Ok(()),
    }
}

} // verus!
