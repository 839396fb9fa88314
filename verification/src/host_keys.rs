//! Trust-on-first-use host key verification for SSH and SFTP connections.
//!
//! The application keeps its own known_hosts file. First use learns a key; later connections must
//! present the same key for the same host and port.

use russh::keys::ssh_key;
use vstd::prelude::*;
use vstd::string::StringExecFns;
use vstd::string::StrSliceExecFns;

use crate::host_keys_laws;
use crate::keys;
use crate::keys::fingerprint_of;
use crate::keys::parse_entry;
use crate::keys::Entry;
use crate::keys::HostKey;
use crate::keys::HostPatterns;
use crate::keys::Marker;
use crate::text;
use crate::text::chars_of;
use crate::text::decimal;
use crate::text::find_from;
use crate::text::lines;
use crate::text::trim;

verus! {

/// The error of std's input and output. Nothing is known of what it holds.
#[verifier::external_type_specification]
#[verifier::external_body]
pub struct ExIoError(std::io::Error);

/// The error of `russh`. Nothing is known of what it holds.
#[verifier::external_type_specification]
#[verifier::external_body]
pub struct ExRusshError(russh::Error);

/// The outcome of a check that lets the connection go on.
#[derive(Debug, Clone, Copy, PartialEq, Eq, Structural)]
pub enum HostKeyStatus {
    Trusted,
    Learned,
}

/// Why a check does not let the connection go on.
#[derive(Debug)]
pub enum HostKeyError {
    KeyChanged { host_pattern: String, line: usize, expected: String, actual: String },
    Revoked { host_pattern: String, line: usize },
    Io(std::io::Error),
    SshKey(ssh_key::Error),
}

/// The contents of a [`HostKeyError`].
pub enum HostKeyErrorView {
    KeyChanged {
        host_pattern: Seq<char>,
        line: nat,
        expected: Seq<char>,
        actual: Seq<char>,
    },
    Revoked { host_pattern: Seq<char>, line: nat },
    Io(std::io::Error),
    SshKey(ssh_key::Error),
}

impl View for HostKeyError {
    type V = HostKeyErrorView;

    open spec fn view(&self) -> HostKeyErrorView {
        match self {
            HostKeyError::KeyChanged { host_pattern, line, expected, actual } =>
                HostKeyErrorView::KeyChanged {
                host_pattern: host_pattern@,
                line: *line as nat,
                expected: expected@,
                actual: actual@,
            },
            HostKeyError::Revoked { host_pattern, line } => HostKeyErrorView::Revoked {
                host_pattern: host_pattern@,
                line: *line as nat,
            },
            HostKeyError::Io(err) => HostKeyErrorView::Io(*err),
            HostKeyError::SshKey(err) => HostKeyErrorView::SshKey(*err),
        }
    }
}

/// `russh::Error::KeyChanged` with the given line.
pub uninterp spec fn russh_key_changed(line: usize) -> russh::Error;

/// `russh::Error::IO` around the given error.
pub uninterp spec fn russh_io(err: std::io::Error) -> russh::Error;

/// `russh::Error::SshKey` around the given error.
pub uninterp spec fn russh_ssh_key(err: ssh_key::Error) -> russh::Error;

/// Makes `russh::Error::KeyChanged`; what it holds is the line alone.
#[verifier::external_body]
fn key_changed_error(line: usize) -> (e: russh::Error)
    ensures
        e == russh_key_changed(line),
{
    russh::Error::KeyChanged { line }
}

/// Makes `russh::Error::IO`; what it holds is the given error alone.
#[verifier::external_body]
fn io_error(err: std::io::Error) -> (e: russh::Error)
    ensures
        e == russh_io(err),
{
    russh::Error::IO(err)
}

/// Makes `russh::Error::SshKey`; what it holds is the given error alone.
#[verifier::external_body]
fn ssh_key_error(err: ssh_key::Error) -> (e: russh::Error)
    ensures
        e == russh_ssh_key(err),
{
    russh::Error::SshKey(err)
}

/// What the error says where the words are its own. An error that only carries another one has none:
/// it says what that one says.
pub open spec fn error_message(e: HostKeyErrorView) -> Option<Seq<char>> {
    match e {
        HostKeyErrorView::KeyChanged { host_pattern, line, expected, actual } => Some(
            "host key changed for "@ + host_pattern + "; line "@ + text::decimal_of(line)
                + "; expected "@ + expected + "; got "@ + actual,
        ),
        HostKeyErrorView::Revoked { host_pattern, line } => Some(
            "host key for "@ + host_pattern + " is revoked at line "@ + text::decimal_of(line),
        ),
        HostKeyErrorView::Io(_) => None,
        HostKeyErrorView::SshKey(_) => None,
    }
}

impl HostKeyError {
    /// The error that `russh` gives up a connection with: for a key that is refused, the line that
    /// refuses it.
    pub fn into_russh_error(self) -> (e: russh::Error)
        ensures
            e == (match self {
                HostKeyError::KeyChanged { line, .. } => russh_key_changed(line),
                HostKeyError::Revoked { line, .. } => russh_key_changed(line),
                HostKeyError::Io(err) => russh_io(err),
                HostKeyError::SshKey(err) => russh_ssh_key(err),
            }),
    {
        match self {
            HostKeyError::KeyChanged { line, .. } => key_changed_error(line),
            HostKeyError::Revoked { line, .. } => key_changed_error(line),
            HostKeyError::Io(err) => io_error(err),
            HostKeyError::SshKey(err) => ssh_key_error(err),
        }
    }

    /// What the error says, where the words are its own.
    pub fn message(&self) -> (r: Option<String>)
        ensures
            error_message(self@) == (match r {
                Some(s) => Some(s@),
                None => None,
            }),
    {
        match self {
            HostKeyError::KeyChanged { host_pattern, line, expected, actual } => {
                let mut s = "host key changed for ".to_owned();
                s.append(host_pattern.as_str());
                s.append("; line ");
                s.append(decimal(*line).as_str());
                s.append("; expected ");
                s.append(expected.as_str());
                s.append("; got ");
                s.append(actual.as_str());
                Some(s)
            },
            HostKeyError::Revoked { host_pattern, line } => {
                let mut s = "host key for ".to_owned();
                s.append(host_pattern.as_str());
                s.append(" is revoked at line ");
                s.append(decimal(*line).as_str());
                Some(s)
            },
            HostKeyError::Io(_) => None,
            HostKeyError::SshKey(_) => None,
        }
    }
}

// ---------------------------------------------------------------------------
// What a known_hosts file says of a host

/// How the file names a host and port.
pub open spec fn host_pattern_of(host: Seq<char>, port: nat) -> Seq<char> {
    seq!['['] + text::trimmed(host) + seq![']', ':'] + text::decimal_of(port)
}

/// `line` up to its comment.
pub open spec fn uncommented(line: Seq<char>) -> Seq<char> {
    line.take(text::find(line, '#') as int)
}

/// The entry on a line of the file. A line that is blank, or that cannot be read, has none.
pub open spec fn entry_on(line: Seq<char>) -> Option<keys::EntryView> {
    let t = text::trimmed(uncommented(line));
    if t.len() == 0 {
        None
    } else {
        match keys::entry_of(t) {
            Ok(entry) => Some(entry),
            Err(_) => None,
        }
    }
}

/// Why a line of the file cannot be read. A blank line, or one with an entry, has no fault.
pub open spec fn fault_on(line: Seq<char>) -> Option<ssh_key::Error> {
    let t = text::trimmed(uncommented(line));
    if t.len() == 0 {
        None
    } else {
        match keys::entry_of(t) {
            Ok(_) => None,
            Err(e) => Some(e),
        }
    }
}

/// The patterns name the host as it stands. A hashed name names no host.
pub open spec fn names_host(
    patterns: keys::HostPatternsView,
    host_pattern: Seq<char>,
) -> bool {
    match patterns {
        keys::HostPatternsView::Patterns(p) => p.contains(host_pattern),
        keys::HostPatternsView::HashedName { .. } => false,
    }
}

/// The line holds an entry for the host.
pub open spec fn is_about(line: Seq<char>, host_pattern: Seq<char>) -> bool {
    entry_on(line) matches Some(entry) && names_host(entry.host_patterns, host_pattern)
}

/// The index of the first line with an entry for the host, or the number of lines where there is
/// none.
pub open spec fn first_about(lines: Seq<Seq<char>>, host_pattern: Seq<char>) -> nat
    decreases lines.len(),
{
    if lines.len() == 0 || is_about(lines[0], host_pattern) {
        0
    } else {
        1 + first_about(lines.skip(1), host_pattern)
    }
}

/// What a known_hosts file says of the key that a host presents. Lines are counted from one.
pub enum Finding {
    Trusted,
    KeyChanged { line: nat, expected: Seq<char> },
    Revoked { line: nat },
    Unknown,
}

/// What the lines of a known_hosts file say of the key: the first entry for the host decides. The key
/// is compared as a file holds it.
pub open spec fn finding(
    lines: Seq<Seq<char>>,
    host_pattern: Seq<char>,
    key: keys::KeyView,
) -> Finding {
    let n = first_about(lines, host_pattern);
    if n >= lines.len() {
        Finding::Unknown
    } else {
        let entry = entry_on(lines[n as int])->Some_0;
        if entry.marker == Some(Marker::Revoked) {
            Finding::Revoked { line: n + 1 }
        } else if entry.key == keys::as_stored(key) {
            Finding::Trusted
        } else {
            Finding::KeyChanged {
                line: n + 1,
                expected: keys::sha256_fingerprint(entry.key.data),
            }
        }
    }
}

/// The answer to a host of which the file says `found`: whether its key is trusted, or the error
/// that refuses it.
pub open spec fn answer(
    found: Finding,
    host_pattern: Seq<char>,
    key: keys::KeyView,
) -> Result<bool, HostKeyErrorView> {
    match found {
        Finding::Trusted => Ok(true),
        Finding::Unknown => Ok(false),
        Finding::Revoked { line } => Err(HostKeyErrorView::Revoked { host_pattern, line }),
        Finding::KeyChanged { line, expected } => Err(
            HostKeyErrorView::KeyChanged {
                host_pattern,
                line,
                expected,
                actual: keys::sha256_fingerprint(key.data),
            },
        ),
    }
}

/// How the known_hosts file names the host and port: the host, trimmed, in square brackets, a colon
/// and the port.
pub fn host_pattern(host: &str, port: u16) -> (s: String)
    ensures
        s@ == host_pattern_of(host@, port as nat),
{
    let mut s = String::new();
    s.push('[');
    s.append(trim(host));
    s.push(']');
    s.push(':');
    s.append(decimal(port as usize).as_str());
    assert(s@ =~= host_pattern_of(host@, port as nat));
    s
}

/// `line` without the comment that a number sign begins.
pub fn strip_comment(line: &str) -> (s: &str)
    ensures
        s@ == uncommented(line@),
{
    let v = chars_of(line);
    assert(v@.skip(0) =~= v@);
    let n = find_from(&v, '#', 0);
    assert(line@.subrange(0, n as int) =~= line@.take(n as int));
    line.substring_char(0, n)
}

/// Whether the patterns of an entry name the host.
pub fn matches_host(patterns: &HostPatterns, host_pattern: &String) -> (r: bool)
    ensures
        r == names_host(patterns@, host_pattern@),
{
    match patterns {
        HostPatterns::Patterns(p) => {
            let ghost all = text::texts(p@);
            let mut i: usize = 0;
            while i < p.len()
                invariant
                    i <= p@.len(),
                    all == text::texts(p@),
                    names_host(patterns@, host_pattern@) == all.contains(host_pattern@),
                    forall|j: int| 0 <= j < i ==> all[j] != host_pattern@,
                decreases p@.len() - i,
            {
                assert(all[i as int] == p@[i as int]@);
                if p[i] == *host_pattern {
                    return true;
                }
                i += 1;
            }
            false
        },
        HostPatterns::HashedName { .. } => false,
    }
}

/// The entry on one line of the file, if it has one, or why the line cannot be read.
fn read_line(line: &str) -> (r: Result<Option<Entry>, ssh_key::Error>)
    ensures
        match r {
            Ok(Some(entry)) => entry_on(line@) == Some(entry@) && keys::valid_key(entry.data@),
            _ => entry_on(line@) is None,
        },
        fault_on(line@) == (match r {
            Err(e) => Some(e),
            Ok(_) => None,
        }),
{
    let trimmed = trim(strip_comment(line));
    if trimmed.is_empty() {
        return Ok(None);
    }
    match parse_entry(trimmed) {
        Ok(entry) => Ok(Some(entry)),
        Err(e) => Err(e),
    }
}

/// What `first_about` returns: nothing before it is about the host, and it is unless it is the end.
pub proof fn lemma_first_about(lines: Seq<Seq<char>>, host_pattern: Seq<char>)
    ensures
        first_about(lines, host_pattern) <= lines.len(),
        forall|j: int|
            0 <= j < first_about(lines, host_pattern) ==> !is_about(#[trigger] lines[j], host_pattern),
        first_about(lines, host_pattern) < lines.len() ==> is_about(
            lines[first_about(lines, host_pattern) as int],
            host_pattern,
        ),
    decreases lines.len(),
{
    if lines.len() > 0 && !is_about(lines[0], host_pattern) {
        let t = lines.skip(1);
        lemma_first_about(t, host_pattern);
        assert forall|j: int| 0 <= j < first_about(lines, host_pattern) implies !is_about(
            #[trigger] lines[j],
            host_pattern,
        ) by {
            if j > 0 {
                assert(t[j - 1] == lines[j]);
            }
        }
    }
}

/// `first_about` is the only index with the properties of [`lemma_first_about`].
pub proof fn lemma_first_about_is(lines: Seq<Seq<char>>, host_pattern: Seq<char>, n: nat)
    requires
        n <= lines.len(),
        forall|j: int| 0 <= j < n ==> !is_about(#[trigger] lines[j], host_pattern),
        n < lines.len() ==> is_about(lines[n as int], host_pattern),
    ensures
        first_about(lines, host_pattern) == n,
{
    lemma_first_about(lines, host_pattern);
    let m = first_about(lines, host_pattern);
    if m < n {
        assert(!is_about(lines[m as int], host_pattern));
    } else if n < m {
        assert(!is_about(lines[n as int], host_pattern));
    }
}

/// Looks the host up in the text of a known_hosts file: `Ok(true)` where the file trusts the key,
/// `Ok(false)` where it has no entry for the host, and otherwise the error that refuses the key.
pub fn look_up(known_hosts: &str, host_pattern: &String, key: &HostKey) -> (r: Result<
    bool,
    HostKeyError,
>)
    ensures
        answer(
            finding(text::lines_of(known_hosts@), host_pattern@, key@),
            host_pattern@,
            key@,
        ) == (match r {
            Ok(trusted) => Ok(trusted),
            Err(e) => Err(e@),
        }),
{
    let actual = key.fingerprint();
    let all = lines(known_hosts);
    let ghost texts = text::lines_of(known_hosts@);
    let mut i: usize = 0;
    while i < all.len()
        invariant
            i <= all@.len(),
            texts == text::texts(all@),
            texts == text::lines_of(known_hosts@),
            actual@ == keys::sha256_fingerprint(key@.data),
            forall|j: int| 0 <= j < i ==> !is_about(#[trigger] texts[j], host_pattern@),
        decreases all@.len() - i,
    {
        assert(texts[i as int] == all@[i as int]@);
        if let Ok(Some(entry)) = read_line(all[i].as_str()) {
            if matches_host(&entry.host_patterns, host_pattern) {
                proof {
                    lemma_first_about_is(texts, host_pattern@, i as nat);
                }
                let line: usize = i + 1;
                if let Some(Marker::Revoked) = entry.marker {
                    return Err(
                        HostKeyError::Revoked { host_pattern: host_pattern.clone(), line },
                    );
                }
                if key.is_key_of(&entry) {
                    return Ok(true);
                }
                let expected = fingerprint_of(entry.data.as_slice());
                return Err(
                    HostKeyError::KeyChanged {
                        host_pattern: host_pattern.clone(),
                        line,
                        expected,
                        actual,
                    },
                );
            }
        }
        i += 1;
    }
    proof {
        lemma_first_about_is(texts, host_pattern@, texts.len());
    }
    Ok(false)
}

/// A line of a known_hosts file that was passed over because it cannot be read.
#[derive(Debug)]
pub struct IgnoredLine {
    /// The number of the line, counted from one.
    pub line: usize,
    pub error: ssh_key::Error,
}

/// The contents of an [`IgnoredLine`].
pub struct IgnoredLineView {
    pub line: nat,
    pub error: ssh_key::Error,
}

impl View for IgnoredLine {
    type V = IgnoredLineView;

    open spec fn view(&self) -> IgnoredLineView {
        IgnoredLineView { line: self.line as nat, error: self.error }
    }
}

/// The contents of a list of ignored lines.
pub open spec fn ignored_views(ignored: Seq<IgnoredLine>) -> Seq<IgnoredLineView> {
    ignored.map_values(|i: IgnoredLine| i@)
}

/// The lines that cannot be read, in order.
pub open spec fn faulty(lines: Seq<Seq<char>>) -> Seq<IgnoredLineView>
    decreases lines.len(),
{
    if lines.len() == 0 {
        seq![]
    } else {
        let before = faulty(lines.drop_last());
        match fault_on(lines.last()) {
            Some(error) => before.push(IgnoredLineView { line: lines.len(), error }),
            None => before,
        }
    }
}

/// The lines that are passed over as unreadable when the host is looked up: those before the entry
/// that decides.
pub open spec fn ignored_of(
    lines: Seq<Seq<char>>,
    host_pattern: Seq<char>,
) -> Seq<IgnoredLineView> {
    faulty(lines.take(first_about(lines, host_pattern) as int))
}

/// The lines of the text of a known_hosts file that [`look_up`] passes over for this host because they
/// cannot be read, with the reason of each.
pub fn ignored_lines(known_hosts: &str, host_pattern: &String) -> (r: Vec<IgnoredLine>)
    ensures
        ignored_views(r@) == ignored_of(text::lines_of(known_hosts@), host_pattern@),
{
    let all = lines(known_hosts);
    let ghost texts = text::lines_of(known_hosts@);
    let mut r: Vec<IgnoredLine> = Vec::new();
    let mut i: usize = 0;
    assert(ignored_views(r@) =~= faulty(texts.take(0)));
    while i < all.len()
        invariant
            i <= all@.len(),
            texts == text::texts(all@),
            texts == text::lines_of(known_hosts@),
            ignored_views(r@) == faulty(texts.take(i as int)),
            forall|j: int| 0 <= j < i ==> !is_about(#[trigger] texts[j], host_pattern@),
        decreases all@.len() - i,
    {
        let ghost done = r@;
        proof {
            assert(texts[i as int] == all@[i as int]@);
            assert(texts.take(i + 1).drop_last() =~= texts.take(i as int));
            assert(texts.take(i + 1).last() == texts[i as int]);
        }
        match read_line(all[i].as_str()) {
            Ok(Some(entry)) => {
                if matches_host(&entry.host_patterns, host_pattern) {
                    proof {
                        lemma_first_about_is(texts, host_pattern@, i as nat);
                    }
                    return r;
                }
            },
            Ok(None) => {},
            Err(error) => {
                let line: usize = i + 1;
                let ignored = IgnoredLine { line, error };
                r.push(ignored);
                assert(ignored_views(r@) =~= ignored_views(done).push(ignored@));
            },
        }
        i += 1;
    }
    proof {
        lemma_first_about_is(texts, host_pattern@, texts.len());
    }
    r
}

// ---------------------------------------------------------------------------
// Checking a key, and learning it

/// The name of the known_hosts file in the directory of the application's configuration.
pub const KNOWN_HOSTS_FILE: &'static str = "known_hosts";

/// The Unix permissions of the known_hosts file: its owner reads and writes it, and nobody else.
pub const KNOWN_HOSTS_MODE: u32 = 0o600;

/// What a check asks to be done to the known_hosts file.
#[derive(Debug)]
pub enum StoreAction {
    /// Find the directory of the configuration, which the file of this name is in.
    Locate { name: &'static str },
    /// Read the whole file as text.
    Read,
    /// Create the directory that the file is in.
    CreateParent,
    /// Find out whether the file exists, and open it to append to it.
    Open,
    /// Give the file these permissions, where there are any on the platform.
    Restrict { mode: u32 },
    /// Append the text to the file.
    Write(String),
    /// Nothing more: this is the outcome.
    Finish(Result<HostKeyStatus, HostKeyError>),
}

/// What came of the last action.
#[derive(Debug)]
pub enum StoreEvent {
    /// It is known where the file is.
    Located,
    /// The file holds this text.
    Text(String),
    /// There is no such file.
    Missing,
    /// The file is open; it did or did not exist before.
    Opened { existed: bool },
    /// It was done.
    Done,
    /// It failed.
    Failed(std::io::Error),
}

/// How far a check has come.
#[derive(Debug)]
enum Phase {
    Locating,
    Reading,
    CreatingParent { existing: String },
    Opening { existing: String },
    Preparing,
    Appending,
    Finished,
}

/// The contents of a [`StoreAction`].
pub enum StoreActionView {
    Locate { name: Seq<char> },
    Read,
    CreateParent,
    Open,
    Restrict { mode: u32 },
    Write(Seq<char>),
    Finish(Result<HostKeyStatus, HostKeyErrorView>),
}

/// The contents of a [`StoreEvent`].
pub enum StoreEventView {
    Located,
    Text(Seq<char>),
    Missing,
    Opened { existed: bool },
    Done,
    Failed(std::io::Error),
}

/// How far a check has come.
pub enum PhaseView {
    Locating,
    Reading,
    CreatingParent { existing: Seq<char> },
    Opening { existing: Seq<char> },
    Preparing,
    Appending,
    Finished,
}

/// A check under way: the host, the key that it presents, and how far the check has come.
pub struct CheckView {
    pub host_pattern: Seq<char>,
    pub key: keys::KeyView,
    pub phase: PhaseView,
}

impl View for StoreAction {
    type V = StoreActionView;

    open spec fn view(&self) -> StoreActionView {
        match self {
            StoreAction::Locate { name } => StoreActionView::Locate { name: name@ },
            StoreAction::Read => StoreActionView::Read,
            StoreAction::CreateParent => StoreActionView::CreateParent,
            StoreAction::Open => StoreActionView::Open,
            StoreAction::Restrict { mode } => StoreActionView::Restrict { mode: *mode },
            StoreAction::Write(text) => StoreActionView::Write(text@),
            StoreAction::Finish(Ok(status)) => StoreActionView::Finish(Ok(*status)),
            StoreAction::Finish(Err(e)) => StoreActionView::Finish(Err(e@)),
        }
    }
}

impl View for StoreEvent {
    type V = StoreEventView;

    open spec fn view(&self) -> StoreEventView {
        match self {
            StoreEvent::Located => StoreEventView::Located,
            StoreEvent::Text(text) => StoreEventView::Text(text@),
            StoreEvent::Missing => StoreEventView::Missing,
            StoreEvent::Opened { existed } => StoreEventView::Opened { existed: *existed },
            StoreEvent::Done => StoreEventView::Done,
            StoreEvent::Failed(err) => StoreEventView::Failed(*err),
        }
    }
}

impl View for Phase {
    type V = PhaseView;

    closed spec fn view(&self) -> PhaseView {
        match self {
            Phase::Locating => PhaseView::Locating,
            Phase::Reading => PhaseView::Reading,
            Phase::CreatingParent { existing } => PhaseView::CreatingParent { existing: existing@ },
            Phase::Opening { existing } => PhaseView::Opening { existing: existing@ },
            Phase::Preparing => PhaseView::Preparing,
            Phase::Appending => PhaseView::Appending,
            Phase::Finished => PhaseView::Finished,
        }
    }
}

/// The events that can follow the action of each phase. A check that has finished waits for none.
pub open spec fn expects(phase: PhaseView, event: StoreEventView) -> bool {
    match phase {
        PhaseView::Locating => event is Located || event is Failed,
        PhaseView::Reading => event is Text || event is Missing || event is Failed,
        PhaseView::CreatingParent { .. } => event is Done || event is Failed,
        PhaseView::Opening { .. } => event is Opened || event is Failed,
        PhaseView::Preparing => event is Done || event is Failed,
        PhaseView::Appending => event is Done || event is Failed,
        PhaseView::Finished => false,
    }
}

/// The check in another phase.
pub open spec fn in_phase(check: CheckView, phase: PhaseView) -> CheckView {
    CheckView { phase, ..check }
}

/// The check ends with this outcome.
pub open spec fn finishes(
    check: CheckView,
    outcome: Result<HostKeyStatus, HostKeyErrorView>,
) -> (CheckView, StoreActionView) {
    (in_phase(check, PhaseView::Finished), StoreActionView::Finish(outcome))
}

/// The file holds `existing`: its first entry for the host decides, and where there is none the key
/// is to be learned.
pub open spec fn decides(check: CheckView, existing: Seq<char>) -> (CheckView, StoreActionView) {
    let found = finding(text::lines_of(existing), check.host_pattern, check.key);
    match answer(found, check.host_pattern, check.key) {
        Ok(true) => finishes(check, Ok(HostKeyStatus::Trusted)),
        Ok(false) => (
            in_phase(check, PhaseView::CreatingParent { existing }),
            StoreActionView::CreateParent,
        ),
        Err(e) => finishes(check, Err(e)),
    }
}

/// The line that gives the key written as `text` to the host, with the line feed that ends it.
pub open spec fn learned_line(host_pattern: Seq<char>, text: Seq<char>) -> Seq<char> {
    keys::entry_line(host_pattern, text).push('\n')
}

/// The key is appended to the file.
pub open spec fn appends(check: CheckView) -> (CheckView, StoreActionView) {
    match keys::openssh_text(check.key.data, check.key.comment) {
        Ok(text) => (
            in_phase(check, PhaseView::Appending),
            StoreActionView::Write(learned_line(check.host_pattern, text)),
        ),
        Err(e) => finishes(check, Err(HostKeyErrorView::SshKey(e))),
    }
}

/// The text ends within a line.
pub open spec fn lacks_line_feed(existing: Seq<char>) -> bool {
    existing.len() > 0 && existing.last() != '\n'
}

/// How a check goes on: its next phase and what it asks for, after an event that it expects.
pub open spec fn next(check: CheckView, event: StoreEventView) -> (CheckView, StoreActionView) {
    match (check.phase, event) {
        (_, StoreEventView::Failed(err)) => finishes(check, Err(HostKeyErrorView::Io(err))),
        (PhaseView::Locating, _) => (in_phase(check, PhaseView::Reading), StoreActionView::Read),
        (PhaseView::Reading, StoreEventView::Text(existing)) => decides(check, existing),
        (PhaseView::Reading, StoreEventView::Missing) => decides(check, seq![]),
        (PhaseView::CreatingParent { existing }, _) => (
            in_phase(check, PhaseView::Opening { existing }),
            StoreActionView::Open,
        ),
        (PhaseView::Opening { existing }, StoreEventView::Opened { existed }) => if !existed {
            (
                in_phase(check, PhaseView::Preparing),
                StoreActionView::Restrict { mode: KNOWN_HOSTS_MODE },
            )
        } else if lacks_line_feed(existing) {
            (in_phase(check, PhaseView::Preparing), StoreActionView::Write(seq!['\n']))
        } else {
            appends(check)
        },
        (PhaseView::Preparing, _) => appends(check),
        (_, _) => finishes(check, Ok(HostKeyStatus::Learned)),
    }
}

/// The line that [`learned_line`] describes, for the key. Appended to a file that has no entry for
/// the host, it makes the file trust this key, and no other, for that host.
pub fn known_host_line(host_pattern: &str, key: &HostKey) -> (r: Result<String, HostKeyError>)
    ensures
        r is Ok,
        r matches Ok(line) ==> host_keys_laws::rememberable_pattern(host_pattern@)
            && host_keys_laws::rememberable_key(key@) ==> host_keys_laws::remembers(
            line@,
            host_pattern@,
            key@,
        ),
        keys::openssh_text(key@.data, key@.comment) matches Ok(text) && r matches Ok(line)
            && line@ == learned_line(host_pattern@, text),
{
    match key.to_openssh() {
        Ok(text) => {
            let mut line = host_pattern.to_owned();
            line.push(' ');
            line.append(text.as_str());
            line.push('\n');
            proof {
                if host_keys_laws::rememberable_pattern(host_pattern@)
                    && host_keys_laws::rememberable_key(key@) {
                    host_keys_laws::learned_key_is_remembered(host_pattern@, key@, text@);
                }
            }
            Ok(line)
        },
        Err(e) => Err(HostKeyError::SshKey(e)),
    }
}

/// Whether the text ends within a line.
fn needs_line_feed(existing: &str) -> (r: bool)
    ensures
        r == lacks_line_feed(existing@),
{
    let n = existing.unicode_len();
    n > 0 && existing.get_char(n - 1) != '\n'
}

/// A check of the key that a host presents.
#[derive(Debug)]
pub struct HostKeyCheck<'a> {
    host_pattern: String,
    key: &'a HostKey,
    phase: Phase,
}

impl<'a> View for HostKeyCheck<'a> {
    type V = CheckView;

    closed spec fn view(&self) -> CheckView {
        CheckView { host_pattern: self.host_pattern@, key: self.key@, phase: self.phase@ }
    }
}

/// Verifies the keys of one host and port.
#[derive(Debug, Clone)]
pub struct HostKeyVerifier {
    host: String,
    port: u16,
}

/// The host and port of a [`HostKeyVerifier`].
pub struct HostKeyVerifierView {
    pub host: Seq<char>,
    pub port: u16,
}

impl View for HostKeyVerifier {
    type V = HostKeyVerifierView;

    closed spec fn view(&self) -> HostKeyVerifierView {
        HostKeyVerifierView { host: self.host@, port: self.port }
    }
}

impl HostKeyVerifier {
    /// A verifier for the host, as it was entered, and the port.
    pub fn new(host: &str, port: u16) -> (r: HostKeyVerifier)
        ensures
            r@.host == host@,
            r@.port == port,
    {
        HostKeyVerifier { host: host.to_owned(), port }
    }

    /// Begins to check the key that the host presents: returns the check and what it asks for first.
    pub fn check<'a>(&self, key: &'a HostKey) -> (r: (HostKeyCheck<'a>, StoreAction))
        ensures
            r.0@ == (CheckView {
                host_pattern: host_pattern_of(self@.host, self@.port as nat),
                key: key@,
                phase: PhaseView::Locating,
            }),
            r.1@ == (StoreActionView::Locate { name: KNOWN_HOSTS_FILE@ }),
    {
        let host_pattern = host_pattern(self.host.as_str(), self.port);
        (
            HostKeyCheck { host_pattern, key, phase: Phase::Locating },
            StoreAction::Locate { name: KNOWN_HOSTS_FILE },
        )
    }
}

impl<'a> HostKeyCheck<'a> {
    /// Whether `event` can follow what the check asked for last.
    pub fn awaits(&self, event: &StoreEvent) -> (r: bool)
        ensures
            r == expects(self@.phase, event@),
    {
        match (&self.phase, event) {
            (Phase::Finished, _) => false,
            (_, StoreEvent::Failed(_)) => true,
            (Phase::Locating, StoreEvent::Located) => true,
            (Phase::Reading, StoreEvent::Text(_)) => true,
            (Phase::Reading, StoreEvent::Missing) => true,
            (Phase::CreatingParent { .. }, StoreEvent::Done) => true,
            (Phase::Opening { .. }, StoreEvent::Opened { .. }) => true,
            (Phase::Preparing, StoreEvent::Done) => true,
            (Phase::Appending, StoreEvent::Done) => true,
            (_, _) => false,
        }
    }

    /// The lines of the text of a known_hosts file that the check passes over because they cannot be
    /// read.
    pub fn ignored_lines(&self, known_hosts: &str) -> (r: Vec<IgnoredLine>)
        ensures
            ignored_views(r@) == ignored_of(text::lines_of(known_hosts@), self@.host_pattern),
    {
        ignored_lines(known_hosts, &self.host_pattern)
    }

    /// Goes on after `event`, the outcome of the action that the check asked for last: returns the
    /// check and what it asks for next.
    pub fn step(self, event: StoreEvent) -> (r: (HostKeyCheck<'a>, StoreAction))
        requires
            expects(self@.phase, event@),
        ensures
            (r.0@, r.1@) == next(self@, event@),
            (self@.phase is Opening || self@.phase is Preparing) && !(event@ is Failed) ==> !(
            r.1@ is Finish),
            r.0@.phase is Appending && host_keys_laws::rememberable_pattern(self@.host_pattern)
                && host_keys_laws::rememberable_key(self@.key) ==> host_keys_laws::remembers(
                r.1@->Write_0,
                self@.host_pattern,
                self@.key,
            ),
    {
        let HostKeyCheck { host_pattern, key, phase } = self;
        if let StoreEvent::Failed(err) = event {
            return (
                HostKeyCheck { host_pattern, key, phase: Phase::Finished },
                StoreAction::Finish(Err(HostKeyError::Io(err))),
            );
        }
        match phase {
            Phase::Locating => (
                HostKeyCheck { host_pattern, key, phase: Phase::Reading },
                StoreAction::Read,
            ),
            Phase::Reading => {
                let existing = match event {
                    StoreEvent::Text(text) => text,
                    _ => String::new(),
                };
                assert(existing@ =~= (match event@ {
                    StoreEventView::Text(text) => text,
                    _ => seq![],
                }));
                match look_up(existing.as_str(), &host_pattern, key) {
                    Ok(true) => (
                        HostKeyCheck { host_pattern, key, phase: Phase::Finished },
                        StoreAction::Finish(Ok(HostKeyStatus::Trusted)),
                    ),
                    Ok(false) => (
                        HostKeyCheck { host_pattern, key, phase: Phase::CreatingParent { existing } },
                        StoreAction::CreateParent,
                    ),
                    Err(e) => (
                        HostKeyCheck { host_pattern, key, phase: Phase::Finished },
                        StoreAction::Finish(Err(e)),
                    ),
                }
            },
            Phase::CreatingParent { existing } => (
                HostKeyCheck { host_pattern, key, phase: Phase::Opening { existing } },
                StoreAction::Open,
            ),
            Phase::Opening { existing } => {
                let existed = match event {
                    StoreEvent::Opened { existed } => existed,
                    _ => false,
                };
                if !existed {
                    (
                        HostKeyCheck { host_pattern, key, phase: Phase::Preparing },
                        StoreAction::Restrict { mode: KNOWN_HOSTS_MODE },
                    )
                } else if needs_line_feed(existing.as_str()) {
                    let mut line_feed = String::new();
                    line_feed.push('\n');
                    assert(line_feed@ =~= seq!['\n']);
                    (
                        HostKeyCheck { host_pattern, key, phase: Phase::Preparing },
                        StoreAction::Write(line_feed),
                    )
                } else {
                    Self::append(host_pattern, key)
                }
            },
            Phase::Preparing => Self::append(host_pattern, key),
            Phase::Appending => (
                HostKeyCheck { host_pattern, key, phase: Phase::Finished },
                StoreAction::Finish(Ok(HostKeyStatus::Learned)),
            ),
            Phase::Finished => {
                assert(false);
                (
                    HostKeyCheck { host_pattern, key, phase: Phase::Finished },
                    StoreAction::Finish(Ok(HostKeyStatus::Learned)),
                )
            },
        }
    }

    /// Appends the key to the file.
    fn append(host_pattern: String, key: &'a HostKey) -> (r: (HostKeyCheck<'a>, StoreAction))
        ensures
            forall|check: CheckView|
                check.host_pattern == host_pattern@ && check.key == key@ ==> (r.0@, r.1@)
                    == #[trigger] appends(check),
            r.0@.phase is Appending,
            host_keys_laws::rememberable_pattern(host_pattern@)
                && host_keys_laws::rememberable_key(key@) ==> host_keys_laws::remembers(
                r.1@->Write_0,
                host_pattern@,
                key@,
            ),
    {
        match known_host_line(host_pattern.as_str(), key) {
            Ok(line) => (
                HostKeyCheck { host_pattern, key, phase: Phase::Appending },
                StoreAction::Write(line),
            ),
            Err(e) => (
                HostKeyCheck { host_pattern, key, phase: Phase::Finished },
                StoreAction::Finish(Err(e)),
            ),
        }
    }
}

} // verus!
