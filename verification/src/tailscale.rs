//! The mesh network's view of machines: display-name derivation from
//! DNS names and hostnames, and the resolved daemon status.  Parsing the
//! daemon's JSON belongs to the application; this module works on the
//! parsed records.

use vstd::prelude::*;
use vstd::string::StringExecFns;

use crate::strings::{
    char_is_alphanumeric, chars_of, ends_with_chars, is_alphanum, lower_ascii, slice_chars,
    spec_ends_with, spec_lower_ascii, spec_trim_leading, spec_trim_trailing,
    spec_trim_trailing_pat, str_eq, string_from_chars, trim_leading_chars, trim_trailing_chars,
    trim_trailing_pattern,
};

verus! {

/// How a peer is displayed: by the base of its DNS name, or by its
/// sanitized hostname when it has no usable DNS name.
#[derive(Debug, Clone)]
pub enum PeerKind {
    /// A sanitized hostname stands in for a missing DNS name.
    DNSName(String),
    /// The base of the machine's DNS name.
    HostName(String),
}

impl Default for PeerKind {
    /// The placeholder display name used before one is derived.
    fn default() -> (r: Self)
        ensures
            r matches PeerKind::HostName(s) && s@ == "default"@,
    {
        PeerKind::HostName("default".to_owned())
    }
}

impl PeerKind {
    /// The displayed text itself, whichever kind it is.
    pub fn label(&self) -> (r: &String)
        ensures
            (self matches PeerKind::DNSName(s) ==> r@ == s@),
            (self matches PeerKind::HostName(s) ==> r@ == s@),
    {
        match self {
            PeerKind::DNSName(s) => s,
            PeerKind::HostName(s) => s,
        }
    }
}

/// One machine of the mesh network, as the daemon reports it.
#[derive(Debug)]
pub struct Machine {
    /// The name under which the machine is shown, derived from the DNS
    /// name and hostname.
    pub display_name: PeerKind,
    /// The machine's DNS name within the network.
    pub dns_name: String,
    /// The machine's own hostname.
    pub hostname: String,
    /// The machine's addresses within the network.
    pub ips: Vec<String>,
}

impl Default for Machine {
    /// A machine with no names and no addresses.
    fn default() -> (r: Self)
        ensures
            r.display_name matches PeerKind::HostName(s) && s@ == "default"@,
            r.dns_name@ == Seq::<char>::empty(),
            r.hostname@ == Seq::<char>::empty(),
            r.ips@ == Seq::<String>::empty(),
    {
        Machine {
            display_name: PeerKind::default(),
            dns_name: String::new(),
            hostname: String::new(),
            ips: Vec::new(),
        }
    }
}

/// `name`, its trailing dots removed, with one final occurrence of
/// `suffix` (its surrounding dots removed) and the dot before it taken
/// off — or unchanged (but for its trailing dots) when it does not end
/// in `.suffix`.
pub open spec fn spec_trim_suffix(name: Seq<char>, suffix: Seq<char>) -> Seq<char> {
    let n = spec_trim_trailing(name, '.');
    let su = spec_trim_leading(spec_trim_trailing(suffix, '.'), '.');
    if spec_ends_with(n, su) && n.len() > su.len() && n[n.len() - su.len() - 1] == '.' {
        n.subrange(0, n.len() - su.len() - 1)
    } else {
        n
    }
}

/// Removes the DNS suffix from a machine name: trailing dots are
/// dropped, and when the name ends in `.suffix` that whole tail goes.
pub fn trim_suffix(name: &str, suffix: &str) -> (r: String)
    ensures
        r@ == spec_trim_suffix(name@, suffix@),
{
    let name_chars = chars_of(name);
    let suffix_chars = chars_of(suffix);
    let n = trim_trailing_chars(&name_chars, '.');
    let su0 = trim_trailing_chars(&suffix_chars, '.');
    let su = trim_leading_chars(&su0, '.');
    if ends_with_chars(&n, &su) && n.len() > su.len() && n[n.len() - su.len() - 1] == '.' {
        let cut = slice_chars(&n, 0, n.len() - su.len() - 1);
        string_from_chars(&cut)
    } else {
        string_from_chars(&n)
    }
}

/// `name` ends, after the surrounding dots of both are dropped, in a
/// dot followed by one or more repetitions of `suffix`.
pub open spec fn spec_has_suffix(name: Seq<char>, suffix: Seq<char>) -> bool {
    let n = spec_trim_trailing(name, '.');
    let su = spec_trim_leading(spec_trim_trailing(suffix, '.'), '.');
    let base = spec_trim_trailing_pat(n, su);
    base.len() < n.len() && spec_ends_with(base, seq!['.'])
}

/// Whether `name` carries `suffix` as its DNS suffix: what remains of
/// the name after the trailing repetitions of the suffix must be
/// shorter and end in a dot.
pub fn has_suffix(name: &str, suffix: &str) -> (r: bool)
    ensures
        r == spec_has_suffix(name@, suffix@),
{
    let name_chars = chars_of(name);
    let suffix_chars = chars_of(suffix);
    let n = trim_trailing_chars(&name_chars, '.');
    let su0 = trim_trailing_chars(&suffix_chars, '.');
    let su = trim_leading_chars(&su0, '.');
    let base = trim_trailing_pattern(&n, &su);
    let mut dot: Vec<char> = Vec::new();
    dot.push('.');
    proof {
        assert(dot@ =~= seq!['.']);
    }
    base.len() < n.len() && ends_with_chars(&base, &dot)
}

/// The index of the first character satisfying `is_alphanum`, or the
/// length when there is none.
pub open spec fn spec_scan_first_alnum(s: Seq<char>) -> int
    decreases s.len(),
{
    if s.len() == 0 {
        0
    } else if is_alphanum(s.first()) {
        0
    } else {
        1 + spec_scan_first_alnum(s.drop_first())
    }
}

/// One past the index of the last character satisfying `is_alphanum`,
/// or zero when there is none.
pub open spec fn spec_scan_last_alnum(s: Seq<char>) -> int
    decreases s.len(),
{
    if s.len() == 0 {
        0
    } else if is_alphanum(s.last()) {
        s.len() as int
    } else {
        spec_scan_last_alnum(s.drop_last())
    }
}

proof fn lemma_scan_first_alnum(s: Seq<char>, k: int)
    requires
        0 <= k <= s.len(),
        forall|j: int| 0 <= j < k ==> !is_alphanum(s[j]),
        k < s.len() ==> is_alphanum(s[k]),
    ensures
        spec_scan_first_alnum(s) == k,
    decreases s.len(),
{
    if s.len() > 0 {
        assert(s.first() == s[0]);
        if k > 0 {
            assert(forall|j: int|
                0 <= j < s.drop_first().len() ==> s.drop_first()[j] == s[j + 1]);
            lemma_scan_first_alnum(s.drop_first(), k - 1);
        }
    }
}

proof fn lemma_scan_last_alnum(s: Seq<char>, k: int)
    requires
        0 <= k <= s.len(),
        forall|j: int| k <= j < s.len() ==> !is_alphanum(s[j]),
        k > 0 ==> is_alphanum(s[k - 1]),
    ensures
        spec_scan_last_alnum(s) == k,
    decreases s.len(),
{
    if s.len() > 0 {
        assert(s.last() == s[s.len() - 1]);
        if k < s.len() {
            assert(forall|j: int| 0 <= j < s.drop_last().len() ==> s.drop_last()[j] == s[j]);
            lemma_scan_last_alnum(s.drop_last(), k);
        }
    }
}

/// The hostname window that sanitizing keeps: from the first
/// alphanumeric character to the last.  When no alphanumeric character
/// exists, both bounds fall back to zero and the window is empty.
pub open spec fn spec_alnum_window(s: Seq<char>) -> Seq<char> {
    let st = if spec_scan_first_alnum(s) == s.len() {
        0
    } else {
        spec_scan_first_alnum(s)
    };
    let en = spec_scan_last_alnum(s);
    if st <= en {
        s.subrange(st, en)
    } else {
        Seq::empty()
    }
}

/// How one character of the kept window is sanitized: an interior
/// separator (space, dot, at sign, underscore) becomes a dash;
/// alphanumerics and dashes are lowercased; anything else stands for
/// itself.
pub open spec fn spec_sanitize_char(c: char, boundary: bool) -> char {
    if !boundary && (c == ' ' || c == '.' || c == '@' || c == '_') {
        '-'
    } else if is_alphanum(c) || c == '-' {
        spec_lower_ascii(c)
    } else {
        c
    }
}

/// The hostname with the well-known local suffixes dropped: every
/// trailing `.local`, then `.localdomain`, then `.lan`.
pub open spec fn spec_strip_local_suffixes(s: Seq<char>) -> Seq<char> {
    spec_trim_trailing_pat(
        spec_trim_trailing_pat(spec_trim_trailing_pat(s, ".local"@), ".localdomain"@),
        ".lan"@,
    )
}

/// The sanitized hostname: the local suffixes dropped, the text clipped
/// to its alphanumeric window, each character sanitized, and the result
/// capped at 63 characters — the longest label DNS allows.
pub open spec fn spec_sanitized_hostname(hostname: Seq<char>) -> Seq<char> {
    let w = spec_alnum_window(spec_strip_local_suffixes(hostname));
    let mapped = Seq::new(w.len(), |i: int| spec_sanitize_char(w[i], i == 0 || i == w.len() - 1));
    if mapped.len() > 63 {
        mapped.take(63)
    } else {
        mapped
    }
}

/// Sanitizes a hostname into a displayable DNS-label-like string.
pub fn sanitize_hostname(hostname: &str) -> (r: String)
    ensures
        r@ == spec_sanitized_hostname(hostname@),
{
    let raw = chars_of(hostname);
    let pat_local: Vec<char> = chars_of(".local");
    let pat_localdomain: Vec<char> = chars_of(".localdomain");
    let pat_lan: Vec<char> = chars_of(".lan");
    let t0 = trim_trailing_pattern(&raw, &pat_local);
    let t1 = trim_trailing_pattern(&t0, &pat_localdomain);
    let t = trim_trailing_pattern(&t1, &pat_lan);
    proof {
        assert(t@ == spec_strip_local_suffixes(hostname@));
    }

    let n = t.len();
    let mut scan: usize = 0;
    while scan < n && !char_is_alphanumeric(t[scan])
        invariant
            scan <= n,
            n == t@.len(),
            forall|j: int| 0 <= j < scan ==> !is_alphanum(t@[j]),
        decreases n - scan,
    {
        scan = scan + 1;
    }
    proof {
        lemma_scan_first_alnum(t@, scan as int);
    }
    let start: usize = if scan == n {
        0
    } else {
        scan
    };

    let mut end: usize = n;
    while end > 0 && !char_is_alphanumeric(t[end - 1])
        invariant
            end <= n,
            n == t@.len(),
            forall|j: int| end <= j < n ==> !is_alphanum(t@[j]),
        decreases end,
    {
        end = end - 1;
    }
    proof {
        lemma_scan_last_alnum(t@, end as int);
    }

    if start > end {
        proof {
            assert(spec_alnum_window(t@) =~= Seq::<char>::empty());
            assert(spec_sanitized_hostname(hostname@) =~= Seq::<char>::empty());
        }
        return String::new();
    }
    let w = slice_chars(&t, start, end);
    let ghost gw = spec_alnum_window(t@);
    proof {
        assert(w@ == gw);
    }

    let mut out: Vec<char> = Vec::new();
    let wn = w.len();
    let mut i: usize = 0;
    while i < wn
        invariant
            i <= wn,
            wn == w@.len(),
            w@ == gw,
            out@.len() == i,
            forall|j: int| 0 <= j < i ==> out@[j] == spec_sanitize_char(
                gw[j],
                j == 0 || j == gw.len() - 1,
            ),
        decreases wn - i,
    {
        let c = w[i];
        let boundary = i == 0 || i == wn - 1;
        let sep = c == ' ' || c == '.' || c == '@' || c == '_';
        let mapped = if !boundary && sep {
            '-'
        } else if char_is_alphanumeric(c) || c == '-' {
            lower_ascii(c)
        } else {
            c
        };
        out.push(mapped);
        i = i + 1;
    }

    if out.len() > 63 {
        out.truncate(63);
        proof {
            assert(out@ =~= spec_sanitized_hostname(hostname@));
        }
    } else {
        proof {
            assert(out@ =~= spec_sanitized_hostname(hostname@));
        }
    }
    string_from_chars(&out)
}

/// The display name a machine gets: the base of its DNS name with the
/// network's suffix removed, or, when nothing remains, its sanitized
/// hostname.
pub open spec fn spec_display_name_ok(
    dns_name: Seq<char>,
    hostname: Seq<char>,
    dns_suffix: Seq<char>,
    r: PeerKind,
) -> bool {
    if spec_trim_suffix(dns_name, dns_suffix).len() == 0 {
        r matches PeerKind::DNSName(s) && s@ == spec_sanitized_hostname(hostname)
    } else {
        r matches PeerKind::HostName(s) && s@ == spec_trim_suffix(dns_name, dns_suffix)
    }
}

/// Derives the display name for a machine with the given DNS name and
/// hostname, under the network's DNS suffix.
pub fn display_name_for(dns_name: &str, hostname: &str, dns_suffix: &str) -> (r: PeerKind)
    ensures
        spec_display_name_ok(dns_name@, hostname@, dns_suffix@, r),
{
    let base = trim_suffix(dns_name, dns_suffix);
    if base.as_str().is_empty() {
        PeerKind::DNSName(sanitize_hostname(hostname))
    } else {
        PeerKind::HostName(base)
    }
}

/// `new` is `old` with its display name derived under `dns_suffix` and
/// everything else unchanged.
pub open spec fn spec_named_machine(old: Machine, new: Machine, dns_suffix: Seq<char>) -> bool {
    &&& new.dns_name == old.dns_name
    &&& new.hostname == old.hostname
    &&& new.ips == old.ips
    &&& spec_display_name_ok(old.dns_name@, old.hostname@, dns_suffix, new.display_name)
}

/// Sets a machine's display name from its DNS name and hostname, under
/// the network's DNS suffix.
pub fn set_display_name(m: &mut Machine, dns_suffix: &str)
    ensures
        spec_named_machine(*old(m), *final(m), dns_suffix@),
{
    m.display_name = display_name_for(m.dns_name.as_str(), m.hostname.as_str(), dns_suffix);
}

/// Sets a machine's display name: the base of its DNS name, or its
/// sanitized (quoted) hostname when the DNS name yields nothing.
pub fn dns_or_quote_hostname(m: &mut Machine, dns_suffix: &str)
    ensures
        spec_named_machine(*old(m), *final(m), dns_suffix@),
{
    set_display_name(m, dns_suffix);
}

/// Failures when obtaining or interpreting the daemon's status.
#[derive(Debug, Clone, PartialEq)]
pub enum StatusError {
    /// The status command could not be run or reported failure.
    CommandFailed(String),
    /// The status output could not be parsed.
    ParseFailed(String),
    /// The status lacked data the tray needs.
    MissingData(String),
}

/// The one-line description of `e`.
pub open spec fn spec_status_error_message(e: StatusError) -> Seq<char> {
    match e {
        StatusError::CommandFailed(m) => "Tailscale command failed: "@ + m@,
        StatusError::ParseFailed(m) => "Failed to parse Tailscale status: "@ + m@,
        StatusError::MissingData(m) => "Missing data in Tailscale status: "@ + m@,
    }
}

impl StatusError {
    /// Renders the error as the one-line description a user sees.
    pub fn to_message(&self) -> (r: String)
        ensures
            r@ == spec_status_error_message(*self),
    {
        let mut s = String::new();
        match self {
            StatusError::CommandFailed(m) => {
                s.append("Tailscale command failed: ");
                s.append(m.as_str());
            },
            StatusError::ParseFailed(m) => {
                s.append("Failed to parse Tailscale status: ");
                s.append(m.as_str());
            },
            StatusError::MissingData(m) => {
                s.append("Missing data in Tailscale status: ");
                s.append(m.as_str());
            },
        }
        proof {
            assert(s@ =~= spec_status_error_message(*self));
        }
        s
    }
}

/// Screens the raw status text before parsing: output that is empty or
/// white space only carries no status and is rejected as missing data.
pub fn status_output_ready(s: &str) -> (r: Result<(), StatusError>)
    ensures
        r is Err <==> crate::strings::spec_all_space(s@),
        r matches Err(e) ==> e matches StatusError::MissingData(m) && m@
            == "Tailscale returned empty status"@,
{
    if crate::strings::str_is_blank(s) {
        Err(StatusError::MissingData("Tailscale returned empty status".to_owned()))
    } else {
        Ok(())
    }
}

/// The daemon's status, parsed by the application and resolved here:
/// the backend state decides whether the network is up, and every
/// machine gets its display name.
#[derive(Debug)]
pub struct Status {
    /// Whether the network is up; valid once `resolve` has run.
    pub tailscale_up: bool,
    /// The backend state string the daemon reported.
    pub backend_state: String,
    /// This machine's record.
    pub this_machine: Machine,
    /// The network's DNS suffix.
    pub magic_dnssuffix: String,
    /// The other machines of the network.
    pub peers: Vec<Machine>,
}

impl Status {
    /// Resolves a freshly parsed status: the network is up exactly when
    /// the backend state is "Running", and this machine and every peer
    /// get their display names under the network's DNS suffix.
    pub fn resolve(&mut self)
        ensures
            final(self).backend_state == old(self).backend_state,
            final(self).magic_dnssuffix == old(self).magic_dnssuffix,
            final(self).tailscale_up == (old(self).backend_state@ == "Running"@),
            spec_named_machine(
                old(self).this_machine,
                final(self).this_machine,
                old(self).magic_dnssuffix@,
            ),
            final(self).peers@.len() == old(self).peers@.len(),
            forall|i: int|
                0 <= i < old(self).peers@.len() ==> spec_named_machine(
                    old(self).peers@[i],
                    final(self).peers@[i],
                    old(self).magic_dnssuffix@,
                ),
    {
        self.tailscale_up = str_eq(self.backend_state.as_str(), "Running");
        let suffix = self.magic_dnssuffix.clone();
        set_display_name(&mut self.this_machine, suffix.as_str());

        let ghost old_peers = old(self).peers@;
        let mut work: Vec<Machine> = Vec::new();
        core::mem::swap(&mut self.peers, &mut work);
        proof {
            assert(self.peers@ =~= Seq::<Machine>::empty());
        }
        while work.len() > 0
            invariant
                suffix@ == old(self).magic_dnssuffix@,
                old_peers == old(self).peers@,
                self.backend_state == old(self).backend_state,
                self.magic_dnssuffix == old(self).magic_dnssuffix,
                self.tailscale_up == (old(self).backend_state@ == "Running"@),
                spec_named_machine(
                    old(self).this_machine,
                    self.this_machine,
                    old(self).magic_dnssuffix@,
                ),
                self.peers@.len() + work@.len() == old_peers.len(),
                forall|j: int|
                    0 <= j < work@.len() ==> work@[j] == old_peers[self.peers@.len() + j],
                forall|j: int|
                    0 <= j < self.peers@.len() ==> spec_named_machine(
                        old_peers[j],
                        self.peers@[j],
                        old(self).magic_dnssuffix@,
                    ),
            decreases work@.len(),
        {
            let mut m = work.remove(0);
            proof {
                assert(m == old_peers[self.peers@.len() as int]);
            }
            set_display_name(&mut m, suffix.as_str());
            self.peers.push(m);
        }
    }
}

/// The context the tray shows: this machine's first address and the
/// resolved status.
#[derive(Debug)]
pub struct Context {
    /// This machine's first network address.
    pub ip: String,
    /// The resolved daemon status.
    pub status: Status,
}

/// Builds the tray's context from a resolved status.  A machine without
/// any network address cannot be shown; that status is rejected as
/// missing data.
pub fn get_current(status: Status) -> (r: Result<Context, StatusError>)
    ensures
        r is Err <==> status.this_machine.ips@.len() == 0,
        r matches Err(e) ==> e matches StatusError::MissingData(m) && m@
            == "This machine has no IP addresses"@,
        r matches Ok(c) ==> c.status == status && c.ip@ == status.this_machine.ips@[0]@,
{
    if status.this_machine.ips.len() == 0 {
        return Err(StatusError::MissingData("This machine has no IP addresses".to_owned()));
    }
    let ip = status.this_machine.ips[0].clone();
    proof {
        assert(cloned(status.this_machine.ips@[0], ip));
    }
    Ok(Context { ip, status })
}

} // verus!
