use meatshell::host_keys::{
    host_pattern, ignored_lines, known_host_line, look_up, matches_host, strip_comment, HostKeyError,
    HostKeyCheck, HostKeyStatus, HostKeyVerifier, StoreAction, StoreEvent, KNOWN_HOSTS_FILE,
    KNOWN_HOSTS_MODE,
};
use meatshell::keys::{held_comment, HostKey, HostPatterns};
use russh::keys::ssh_key;

const SAMPLE: &str = "AAAAC3NzaC1lZDI1NTE5AAAAIB9dG4kjRhQTtWTVzd2t27+t0DEHBPW7iOD23TUiYLio";
const OTHER: &str = "AAAAC3NzaC1lZDI1NTE5AAAAILM+rvN+ot98qgEN796jTiQfZfG1KaT0PtFDJ/XFSqti";
const SAMPLE_FINGERPRINT: &str = "SHA256:bPGahMcWimQBTdksNSUoI+j8Sfbbx1OSgE7hHiSDBTg";
const OTHER_FINGERPRINT: &str = "SHA256:UCUiLr7Pjs9wFFJMDByLgc3NrtdU344OgUM45wZPcIQ";

fn host_key(raw: &str) -> HostKey {
    let key: ssh_key::PublicKey = raw.parse().unwrap();
    HostKey::from_bytes(&key.to_bytes().unwrap(), key.comment()).unwrap()
}

fn sample_key(comment: &str) -> HostKey {
    host_key(&format!("ssh-ed25519 {SAMPLE} {comment}"))
}

fn other_key() -> HostKey {
    host_key(&format!("ssh-ed25519 {OTHER} other"))
}

fn commented(comment: &str) -> HostKey {
    let raw: ssh_key::PublicKey = format!("ssh-ed25519 {SAMPLE}").parse().unwrap();
    HostKey::from_bytes(&raw.to_bytes().unwrap(), comment).unwrap()
}

/// A check of the key, at the point where it waits for the text of the file.
fn reading<'a>(host: &str, port: u16, key: &'a HostKey) -> HostKeyCheck<'a> {
    let (check, _) = HostKeyVerifier::new(host, port).check(key);
    let (check, action) = check.step(StoreEvent::Located);
    assert!(matches!(action, StoreAction::Read));
    check
}

/// A known_hosts file in memory, with a record of what was asked for.
struct Store {
    text: Option<String>,
    asked: Vec<String>,
}

impl Store {
    fn new(text: Option<&str>) -> Store {
        Store {
            text: text.map(|t| t.to_string()),
            asked: Vec::new(),
        }
    }

    fn text(&self) -> &str {
        self.text.as_deref().unwrap_or("")
    }

    fn perform(&mut self, action: &StoreAction) -> StoreEvent {
        match action {
            StoreAction::Locate { name } => {
                assert_eq!(*name, "known_hosts");
                StoreEvent::Located
            }
            StoreAction::Read => {
                self.asked.push("read".to_string());
                match &self.text {
                    Some(text) => StoreEvent::Text(text.clone()),
                    None => StoreEvent::Missing,
                }
            }
            StoreAction::CreateParent => {
                self.asked.push("create parent".to_string());
                StoreEvent::Done
            }
            StoreAction::Open => {
                self.asked.push("open".to_string());
                let existed = self.text.is_some();
                self.text.get_or_insert_with(String::new);
                StoreEvent::Opened { existed }
            }
            StoreAction::Restrict { mode } => {
                assert_eq!(*mode, 0o600);
                self.asked.push("restrict".to_string());
                StoreEvent::Done
            }
            StoreAction::Write(text) => {
                self.asked.push("write".to_string());
                self.text.as_mut().unwrap().push_str(text);
                StoreEvent::Done
            }
            StoreAction::Finish(_) => unreachable!(),
        }
    }

    fn verify(
        &mut self,
        host: &str,
        port: u16,
        key: &HostKey,
    ) -> Result<HostKeyStatus, HostKeyError> {
        let (mut check, mut action) = HostKeyVerifier::new(host, port).check(key);
        loop {
            if let StoreAction::Finish(outcome) = action {
                return outcome;
            }
            let event = self.perform(&action);
            assert!(check.awaits(&event));
            let (after, next) = check.step(event);
            check = after;
            action = next;
        }
    }
}

#[test]
fn learns_then_trusts_same_key() {
    let mut store = Store::new(None);
    let key = sample_key("server");

    assert_eq!(
        store.verify("example.com", 22, &key).unwrap(),
        HostKeyStatus::Learned
    );
    assert_eq!(
        store.verify("example.com", 22, &key).unwrap(),
        HostKeyStatus::Trusted
    );
}

#[test]
fn rejects_changed_key() {
    let mut store = Store::new(None);
    let key = sample_key("server");
    store.verify("example.com", 22, &key).unwrap();

    let err = store.verify("example.com", 22, &other_key()).unwrap_err();
    assert!(matches!(err, HostKeyError::KeyChanged { line: 1, .. }));
}

#[test]
fn a_new_file_is_one_line_for_its_owner() {
    let mut store = Store::new(None);
    store
        .verify(" example.com\t", 2222, &sample_key("server"))
        .unwrap();
    assert_eq!(
        store.text(),
        format!("[example.com]:2222 ssh-ed25519 {SAMPLE} server\n")
    );
    assert_eq!(
        store.asked,
        ["read", "create parent", "open", "restrict", "write"]
    );
}

#[test]
fn a_file_that_ends_within_a_line_gets_a_line_feed_first() {
    let mut store = Store::new(Some("# mine"));
    assert_eq!(
        store.verify("h", 22, &sample_key("")).unwrap(),
        HostKeyStatus::Learned
    );
    assert_eq!(
        store.text(),
        format!("# mine\n[h]:22 ssh-ed25519 {SAMPLE}\n")
    );
    assert_eq!(
        store.asked,
        ["read", "create parent", "open", "write", "write"]
    );
}

#[test]
fn a_file_that_ends_its_last_line_gets_none() {
    let mut store = Store::new(Some("# mine\n"));
    store.verify("h", 22, &sample_key("")).unwrap();
    assert_eq!(
        store.text(),
        format!("# mine\n[h]:22 ssh-ed25519 {SAMPLE}\n")
    );
    assert_eq!(store.asked, ["read", "create parent", "open", "write"]);

    let mut empty = Store::new(Some(""));
    empty.verify("h", 22, &sample_key("")).unwrap();
    assert_eq!(empty.text(), format!("[h]:22 ssh-ed25519 {SAMPLE}\n"));
    assert_eq!(empty.asked, ["read", "create parent", "open", "write"]);
}

#[test]
fn a_known_host_is_only_read() {
    let line = format!("[h]:22 ssh-ed25519 {SAMPLE}\n");
    let mut store = Store::new(Some(&line));
    store.verify("h", 22, &sample_key("")).unwrap();
    store.verify("h", 22, &other_key()).unwrap_err();
    assert_eq!(store.text(), line);
    assert_eq!(store.asked, ["read", "read"]);
}

#[test]
fn learning_leaves_other_hosts_and_ports() {
    let mut store = Store::new(None);
    store.verify("one", 22, &sample_key("")).unwrap();
    assert_eq!(
        store.verify("one", 23, &other_key()).unwrap(),
        HostKeyStatus::Learned
    );
    assert_eq!(
        store.verify("two", 22, &other_key()).unwrap(),
        HostKeyStatus::Learned
    );
    assert_eq!(
        store.verify("one", 22, &sample_key("")).unwrap(),
        HostKeyStatus::Trusted
    );
}

#[test]
fn the_first_entry_decides() {
    let text = format!(
        "[h]:22 ssh-ed25519 {SAMPLE}\n[h]:22 ssh-ed25519 {OTHER} other\n@revoked [h]:22 ssh-ed25519 {SAMPLE}\n"
    );
    let mut store = Store::new(Some(&text));
    assert_eq!(
        store.verify("h", 22, &sample_key("")).unwrap(),
        HostKeyStatus::Trusted
    );
    let err = store.verify("h", 22, &other_key()).unwrap_err();
    assert!(matches!(err, HostKeyError::KeyChanged { line: 1, .. }));
}

#[test]
fn a_changed_key_is_refused_with_both_fingerprints() {
    let text = format!("\n# hosts\nnonsense\n[h]:22 ssh-ed25519 {SAMPLE}\n");
    let err = look_up(&text, &host_pattern("h", 22), &other_key()).unwrap_err();
    match &err {
        HostKeyError::KeyChanged {
            host_pattern,
            line,
            expected,
            actual,
        } => {
            assert_eq!(host_pattern, "[h]:22");
            assert_eq!(*line, 4);
            assert_eq!(expected, SAMPLE_FINGERPRINT);
            assert_eq!(actual, OTHER_FINGERPRINT);
        }
        _ => panic!("{err:?}"),
    }
    assert_eq!(
        err.message().unwrap(),
        format!("host key changed for [h]:22; line 4; expected {SAMPLE_FINGERPRINT}; got {OTHER_FINGERPRINT}")
    );
    assert!(matches!(
        err.into_russh_error(),
        russh::Error::KeyChanged { line: 4 }
    ));
}

#[test]
fn a_revoked_key_is_refused_whatever_is_presented() {
    let text = format!("@revoked [h]:22 ssh-ed25519 {SAMPLE}");
    for key in [sample_key(""), other_key()] {
        let err = look_up(&text, &host_pattern("h", 22), &key).unwrap_err();
        assert!(matches!(err, HostKeyError::Revoked { line: 1, .. }));
        assert_eq!(
            err.message().unwrap(),
            "host key for [h]:22 is revoked at line 1"
        );
        assert!(matches!(
            err.into_russh_error(),
            russh::Error::KeyChanged { line: 1 }
        ));
    }
}

#[test]
fn other_markers_do_not_revoke() {
    let text = format!("@cert-authority [h]:22 ssh-ed25519 {SAMPLE}");
    assert!(look_up(&text, &host_pattern("h", 22), &sample_key("")).unwrap());
    let unknown = format!("@gibberish [h]:22 ssh-ed25519 {SAMPLE}");
    assert!(!look_up(&unknown, &host_pattern("h", 22), &sample_key("")).unwrap());
}

#[test]
fn one_of_several_patterns_is_enough() {
    let text = format!("[a]:22,[h]:22,[b]:22 ssh-ed25519 {SAMPLE}");
    assert!(look_up(&text, &host_pattern("h", 22), &sample_key("")).unwrap());
    assert!(!look_up(&text, &host_pattern("c", 22), &sample_key("")).unwrap());
}

#[test]
fn patterns_are_taken_as_they_stand() {
    let text = format!("[*]:22,!h,h ssh-ed25519 {SAMPLE}");
    assert!(!look_up(&text, &host_pattern("h", 22), &sample_key("")).unwrap());
}

#[test]
fn hashed_names_match_no_host() {
    let text = format!(
        "|1|lcY/In3lsGnkJikLENb0DM70B/I=|Qs4e9Nr7mM6avuEv02fw2uFnwQo= ssh-ed25519 {SAMPLE}"
    );
    assert!(!look_up(&text, &host_pattern("h", 22), &sample_key("")).unwrap());
    let hashed = HostPatterns::HashedName {
        salt: Vec::new(),
        hash: Vec::new(),
    };
    assert!(!matches_host(&hashed, &"".to_string()));
    let named = HostPatterns::Patterns(vec!["a".to_string(), "b".to_string()]);
    assert!(matches_host(&named, &"b".to_string()));
    assert!(!matches_host(&named, &"c".to_string()));
}

#[test]
fn blank_lines_comments_and_invalid_lines_are_ignored() {
    let text = format!("  \r\n# [h]:22 ssh-ed25519 {OTHER}\r\nbad line here\r\n\t[h]:22 ssh-ed25519 {SAMPLE} \t# kept\r\n");
    assert!(look_up(&text, &host_pattern("h", 22), &sample_key("")).unwrap());
    assert!(!look_up("", &host_pattern("h", 22), &sample_key("")).unwrap());
}

#[test]
fn the_comment_is_part_of_the_key() {
    let text = format!("[h]:22 ssh-ed25519 {SAMPLE} server");
    assert!(look_up(&text, &host_pattern("h", 22), &sample_key("server")).unwrap());
    let err = look_up(&text, &host_pattern("h", 22), &sample_key("")).unwrap_err();
    assert!(matches!(err, HostKeyError::KeyChanged { .. }));
}

#[test]
fn a_file_that_cannot_be_found_is_an_error() {
    let key = sample_key("");
    let (check, action) = HostKeyVerifier::new("h", 22).check(&key);
    assert!(matches!(
        action,
        StoreAction::Locate {
            name: KNOWN_HOSTS_FILE
        }
    ));
    let nowhere = std::io::Error::new(std::io::ErrorKind::Other, "no configuration directory");
    let (check, action) = check.step(StoreEvent::Failed(nowhere));
    match action {
        StoreAction::Finish(Err(HostKeyError::Io(err))) => {
            assert_eq!(err.to_string(), "no configuration directory")
        }
        a => panic!("{a:?}"),
    }
    assert!(!check.awaits(&StoreEvent::Missing));
}

#[test]
fn a_file_that_cannot_be_read_is_an_error() {
    let key = sample_key("");
    let check = reading("h", 22, &key);
    let denied = std::io::Error::new(std::io::ErrorKind::PermissionDenied, "denied");
    let (_, action) = check.step(StoreEvent::Failed(denied));
    match action {
        StoreAction::Finish(Err(err)) => {
            assert!(err.message().is_none());
            match err.into_russh_error() {
                russh::Error::IO(io) => {
                    assert_eq!(io.kind(), std::io::ErrorKind::PermissionDenied)
                }
                e => panic!("{e:?}"),
            }
        }
        a => panic!("{a:?}"),
    }
}

#[test]
fn a_write_that_fails_is_an_error() {
    let key = sample_key("");
    let (check, action) = reading("h", 22, &key).step(StoreEvent::Missing);
    assert!(matches!(action, StoreAction::CreateParent));
    let full = std::io::Error::new(std::io::ErrorKind::Other, "full");
    let (_, action) = check.step(StoreEvent::Failed(full));
    assert!(matches!(
        action,
        StoreAction::Finish(Err(HostKeyError::Io(_)))
    ));
}

#[test]
fn bytes_that_are_no_key_are_refused() {
    let err = HostKey::from_bytes(b"no key", "").unwrap_err();
    assert!(err.message().is_none());
    assert!(matches!(&err, HostKeyError::SshKey(_)));
    assert!(matches!(err.into_russh_error(), russh::Error::SshKey(_)));
}

#[test]
fn keys_are_held_as_they_are_written() {
    let key = sample_key("a comment");
    assert_eq!(key.fingerprint(), SAMPLE_FINGERPRINT);
    assert!(key.fingerprint().starts_with("SHA256:"));
    assert_eq!(key.fingerprint(), sample_key("another").fingerprint());
    assert_eq!(
        key.to_openssh().unwrap(),
        format!("ssh-ed25519 {SAMPLE} a comment")
    );
    // An RSA key under the name of one of its signature algorithms is written under its own name.
    let mut data: Vec<u8> = Vec::new();
    let mut modulus: Vec<u8> = vec![0];
    modulus.extend_from_slice(&[0xc3; 256]);
    for part in [b"rsa-sha2-256".as_slice(), &[1, 0, 1], &modulus] {
        data.extend_from_slice(&(part.len() as u32).to_be_bytes());
        data.extend_from_slice(part);
    }
    let text = HostKey::from_bytes(&data, "").unwrap().to_openssh().unwrap();
    assert!(text.starts_with("ssh-rsa AAAAB3NzaC1yc2E"));
}

#[test]
fn keys_are_remembered_with_any_comment() {
    let comments = [
        "", "server", "two words", " led by a space", "é@ü", "a\rb", "a#b", "#b", " #", "a\nb",
        "a\r\nb", "\n", "trailing ", "a \t# b\n", "  ",
    ];
    for comment in comments {
        let mut store = Store::new(Some("# hosts"));
        let key = commented(comment);
        assert_eq!(
            store.verify("h", 22, &key).unwrap(),
            HostKeyStatus::Learned,
            "{comment:?}"
        );
        assert_eq!(
            store.verify("h", 22, &key).unwrap(),
            HostKeyStatus::Trusted,
            "{comment:?}"
        );
        let err = store.verify("h", 22, &other_key()).unwrap_err();
        assert!(matches!(err, HostKeyError::KeyChanged { line: 2, .. }));
    }
}

#[test]
fn comments_are_held_up_to_a_number_sign_or_line_feed() {
    assert_eq!(held_comment("a#b"), "a");
    assert_eq!(held_comment("a \t#b"), "a");
    assert_eq!(held_comment(" a b\u{3000}\r\nc#"), " a b");
    assert_eq!(held_comment("#"), "");
    assert_eq!(held_comment("plain"), "plain");
}

#[test]
fn a_file_only_grows_at_its_end() {
    for before in ["", "# one", "# one\n", "nonsense\r\n"] {
        let mut store = Store::new(Some(before));
        store.verify("h", 22, &sample_key("server")).unwrap();
        assert!(store.text().starts_with(before));
        store.verify("h", 22, &other_key()).unwrap_err();
        store.verify("i", 22, &other_key()).unwrap();
        assert!(store.text().starts_with(before));
    }
}

#[test]
fn unreadable_lines_before_the_deciding_one_are_told() {
    let text = format!(
        "# fine\nbad line here\n\n[i]:22 ssh-ed25519 {SAMPLE}\nworse\n[h]:22 ssh-ed25519 {SAMPLE}\nafter\n"
    );
    let numbers = |host: &str| -> Vec<usize> {
        ignored_lines(&text, &host_pattern(host, 22))
            .iter()
            .map(|i| i.line)
            .collect()
    };
    assert_eq!(numbers("h"), [2, 5]);
    assert_eq!(numbers("i"), [2]);
    assert_eq!(numbers("unknown"), [2, 5, 7]);
    let key = sample_key("");
    let told = reading("h", 22, &key).ignored_lines(&text);
    assert_eq!(told.len(), 2);
    let error: ssh_key::Error = "worse"
        .parse::<ssh_key::known_hosts::Entry>()
        .unwrap_err();
    assert_eq!(told[1].error, error);
}

#[test]
fn a_key_of_an_unknown_algorithm_is_remembered() {
    let mut data: Vec<u8> = Vec::new();
    for part in [b"my-alg@example.com".as_slice(), b"abc"] {
        data.extend_from_slice(&(part.len() as u32).to_be_bytes());
        data.extend_from_slice(part);
    }
    let key = HostKey::from_bytes(&data, "c").unwrap();
    let mut store = Store::new(None);
    store.verify("h", 22, &key).unwrap();
    assert_eq!(
        store.verify("h", 22, &key).unwrap(),
        HostKeyStatus::Trusted
    );
}

#[test]
fn the_file_is_for_its_owner_alone() {
    assert_eq!(KNOWN_HOSTS_FILE, "known_hosts");
    assert_eq!(KNOWN_HOSTS_MODE, 0o600);
}

#[test]
fn host_patterns_hold_the_trimmed_host_and_the_port() {
    assert_eq!(host_pattern("example.com", 22), "[example.com]:22");
    assert_eq!(host_pattern(" ::1\u{3000}\n", 65535), "[::1]:65535");
    assert_eq!(host_pattern("", 0), "[]:0");
}

#[test]
fn comments_begin_at_the_first_number_sign() {
    assert_eq!(strip_comment("a # b # c"), "a ");
    assert_eq!(strip_comment("#"), "");
    assert_eq!(strip_comment("plain"), "plain");
}

#[test]
fn the_learned_line_names_the_host_and_the_key() {
    assert_eq!(
        known_host_line("[h]:22", &sample_key("server")).unwrap(),
        format!("[h]:22 ssh-ed25519 {SAMPLE} server\n")
    );
}

#[test]
fn a_check_awaits_the_outcome_of_what_it_asked_for() {
    let key = sample_key("server");
    let (check, _) = HostKeyVerifier::new("h", 22).check(&key);
    assert!(check.awaits(&StoreEvent::Located));
    assert!(!check.awaits(&StoreEvent::Missing));

    let check = reading("h", 22, &key);
    assert!(check.awaits(&StoreEvent::Missing));
    assert!(!check.awaits(&StoreEvent::Located));
    assert!(check.awaits(&StoreEvent::Text(String::new())));
    assert!(!check.awaits(&StoreEvent::Done));
    assert!(!check.awaits(&StoreEvent::Opened { existed: true }));

    let (check, _) = check.step(StoreEvent::Missing);
    assert!(check.awaits(&StoreEvent::Done));
    assert!(!check.awaits(&StoreEvent::Missing));

    let known = format!("[h]:22 ssh-ed25519 {SAMPLE} server");
    let (check, _) = reading("h", 22, &key).step(StoreEvent::Text(known));
    assert!(!check.awaits(&StoreEvent::Done));
}
