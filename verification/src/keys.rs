//! SSH public keys and the entries of a known_hosts file, as the `ssh_key` crate reads and writes
//! them.

use russh::keys::ssh_key;
use vstd::prelude::*;
use vstd::string::StrSliceExecFns;

use crate::host_keys::HostKeyError;
use crate::text;
use crate::text::chars_of;
use crate::text::find_from;
use crate::text::trim_end;

verus! {

/// The error of `ssh_key`. Nothing is known of what it holds.
#[verifier::external_type_specification]
#[verifier::external_body]
pub struct ExSshKeyError(ssh_key::Error);

/// What a public key is: the SSH wire encoding of its algorithm and parameters, and its comment.
pub struct KeyView {
    pub data: Seq<u8>,
    pub comment: Seq<char>,
}

/// The marker that an entry may begin with.
#[derive(Debug, Clone, Copy, PartialEq, Eq, Structural)]
pub enum Marker {
    CertAuthority,
    Revoked,
}

/// The hosts that an entry is for: a list of patterns, or the salted hash of one name.
#[derive(Debug)]
pub enum HostPatterns {
    Patterns(Vec<String>),
    HashedName { salt: Vec<u8>, hash: Vec<u8> },
}

/// The contents of a [`HostPatterns`].
pub enum HostPatternsView {
    Patterns(Seq<Seq<char>>),
    HashedName { salt: Seq<u8>, hash: Seq<u8> },
}

impl View for HostPatterns {
    type V = HostPatternsView;

    open spec fn view(&self) -> HostPatternsView {
        match self {
            HostPatterns::Patterns(p) => HostPatternsView::Patterns(text::texts(p@)),
            HostPatterns::HashedName { salt, hash } => HostPatternsView::HashedName {
                salt: salt@,
                hash: hash@,
            },
        }
    }
}

/// One entry of a known_hosts file.
#[derive(Debug)]
pub struct Entry {
    pub marker: Option<Marker>,
    pub host_patterns: HostPatterns,
    /// The SSH wire encoding of the entry's public key.
    pub data: Vec<u8>,
    /// The comment of the entry's public key.
    pub comment: String,
}

/// The contents of an [`Entry`].
pub struct EntryView {
    pub marker: Option<Marker>,
    pub host_patterns: HostPatternsView,
    pub key: KeyView,
}

impl View for Entry {
    type V = EntryView;

    open spec fn view(&self) -> EntryView {
        EntryView {
            marker: self.marker,
            host_patterns: self.host_patterns@,
            key: KeyView { data: self.data@, comment: self.comment@ },
        }
    }
}

// ---------------------------------------------------------------------------
// What `ssh_key` computes

/// The wire encoding of the key that `PublicKey::from_bytes` decodes from `bytes`.
pub uninterp spec fn decoded_key(bytes: Seq<u8>) -> Result<Seq<u8>, ssh_key::Error>;

/// What `PublicKey::fingerprint` with SHA-256 displays of the key encoded by `data`.
pub uninterp spec fn sha256_fingerprint(data: Seq<u8>) -> Seq<char>;

/// What `PublicKey::to_openssh` writes of the key encoded by `data`, with the given comment.
pub uninterp spec fn openssh_text(data: Seq<u8>, comment: Seq<char>) -> Result<
    Seq<char>,
    ssh_key::Error,
>;

/// What `Entry::from_str` reads from a line of a known_hosts file.
pub uninterp spec fn entry_of(line: Seq<char>) -> Result<EntryView, ssh_key::Error>;

/// `data` is the encoding that a key is written with.
pub open spec fn valid_key(data: Seq<u8>) -> bool {
    decoded_key(data) == Ok::<Seq<u8>, ssh_key::Error>(data)
}

/// The outcome of a call of `ssh_key`, with the bytes that it returned.
pub open spec fn bytes_result(r: Result<Vec<u8>, ssh_key::Error>) -> Result<
    Seq<u8>,
    ssh_key::Error,
> {
    match r {
        Ok(b) => Ok(b@),
        Err(e) => Err(e),
    }
}

/// The outcome of a call of `ssh_key`, with the text that it returned.
pub open spec fn text_result(r: Result<String, ssh_key::Error>) -> Result<
    Seq<char>,
    ssh_key::Error,
> {
    match r {
        Ok(s) => Ok(s@),
        Err(e) => Err(e),
    }
}

/// The outcome of a call of `ssh_key`, with the entry that it returned.
pub open spec fn entry_result(r: Result<Entry, ssh_key::Error>) -> Result<
    EntryView,
    ssh_key::Error,
> {
    match r {
        Ok(e) => Ok(e@),
        Err(e) => Err(e),
    }
}

/// The characters of an algorithm name, or of Base64, in the text of a key.
pub open spec fn word_char(c: char) -> bool {
    ||| 'A' <= c <= 'Z'
    ||| 'a' <= c <= 'z'
    ||| '0' <= c <= '9'
    ||| c == '+'
    ||| c == '-'
    ||| c == '/'
    ||| c == '='
    ||| c == '@'
    ||| c == '.'
}

/// The name of the algorithm that the encoding of a key begins with, after four bytes of length.
pub open spec fn algorithm_name(data: Seq<u8>) -> Seq<u8> {
    let n = ((data[0] * 256 + data[1]) * 256 + data[2]) * 256 + data[3];
    data.subrange(4, 4 + n)
}

/// The text of the key can be read again: its algorithm is named with the characters that a reader
/// takes for a name.
pub open spec fn readable_key(data: Seq<u8>) -> bool {
    let name = algorithm_name(data);
    forall|i: int| 0 <= i < name.len() ==> word_char(#[trigger] name[i] as char)
}

/// A host pattern that stands alone in an entry, with no marker before it and no second pattern.
pub open spec fn bare_pattern(hosts: Seq<char>) -> bool {
    &&& hosts.len() > 0
    &&& hosts[0] != '@'
    &&& hosts[0] != '|'
    &&& !hosts.contains(' ')
    &&& !hosts.contains(',')
}

/// The line of a known_hosts file that gives the key written as `text` to the hosts `hosts`.
pub open spec fn entry_line(hosts: Seq<char>, text: Seq<char>) -> Seq<char> {
    hosts.push(' ') + text
}

/// How the comment of a key stands at the end of the key's text.
pub open spec fn comment_part(comment: Seq<char>) -> Seq<char> {
    if comment.len() == 0 {
        seq![]
    } else {
        seq![' '] + comment
    }
}

/// The words that the text of a key begins with: its algorithm and its encoding in Base64.
pub open spec fn openssh_words(words: Seq<char>) -> bool {
    &&& words.len() > 0
    &&& words[0] != ' '
    &&& words.last() != ' '
    &&& forall|i: int| 0 <= i < words.len() ==> words[i] == ' ' || word_char(#[trigger] words[i])
}

/// Behind any single host pattern and before any comment, `words` read as the entry of the key
/// encoded by `data`; the white space that the comment ends with is dropped.
pub open spec fn reads_back(words: Seq<char>, data: Seq<u8>) -> bool {
    forall|hosts: Seq<char>, comment: Seq<char>|
        bare_pattern(hosts) ==> #[trigger] entry_of(
            entry_line(hosts, words + comment_part(comment)),
        ) == Ok::<EntryView, ssh_key::Error>(
            EntryView {
                marker: None,
                host_patterns: HostPatternsView::Patterns(seq![hosts]),
                key: KeyView { data, comment: text::trimmed_end(comment) },
            },
        )
}

/// `text` is the key in two words that read back, and then its comment.
pub open spec fn written_as(text: Seq<char>, key: KeyView) -> bool {
    exists|words: Seq<char>| #[trigger]
        openssh_words(words) && reads_back(words, key.data) && text == words + comment_part(
            key.comment,
        )
}

/// The text of a SHA-256 fingerprint begins with the name of the hash function and a colon.
pub open spec fn names_sha256(s: Seq<char>) -> bool {
    s.len() >= 7 && s.take(7) == "SHA256:"@
}

/// Decodes a key with `PublicKey::from_bytes` and returns how `PublicKey::to_bytes` writes it.
///
/// Of the result it is claimed that it depends on the bytes alone, and that what is returned
/// decodes and is written as itself.
#[verifier::external_body]
fn decode_key(bytes: &[u8]) -> (r: Result<Vec<u8>, ssh_key::Error>)
    ensures
        bytes_result(r) == decoded_key(bytes@),
        r matches Ok(data) ==> valid_key(data@),
{
    ssh_key::PublicKey::from_bytes(bytes)?.to_bytes()
}

/// The SHA-256 fingerprint of an encoded key: `PublicKey::from_bytes`, then
/// `PublicKey::fingerprint` with `HashAlg::Sha256`, as it displays.
///
/// It is claimed that the fingerprint depends on the encoding alone, that there is one for exactly
/// the bytes that decode as a key, and that it begins with `SHA256:`.
#[verifier::external_body]
fn key_fingerprint(data: &[u8]) -> (r: Result<String, ssh_key::Error>)
    ensures
        r is Ok <==> decoded_key(data@) is Ok,
        r matches Ok(s) ==> s@ == sha256_fingerprint(data@) && names_sha256(s@),
{
    let key = ssh_key::PublicKey::from_bytes(data)?;
    Ok(key.fingerprint(ssh_key::HashAlg::Sha256).to_string())
}

/// The OpenSSH text of a key: `PublicKey::from_bytes` and `PublicKey::set_comment`, then
/// `PublicKey::to_openssh`.
///
/// It is claimed that the text depends on the encoding and the comment alone; that there is one for
/// every encoding of a key; and that, for a key that [`readable_key`] admits, it is made of two
/// words and the comment. Those words read as the same key with `Entry::from_str`, whatever comment
/// follows them, and the comment reads as itself without the white space at its end.
#[verifier::external_body]
fn key_to_openssh(data: &[u8], comment: &str) -> (r: Result<String, ssh_key::Error>)
    ensures
        text_result(r) == openssh_text(data@, comment@),
        valid_key(data@) ==> r is Ok,
        r matches Ok(text) ==> valid_key(data@) && readable_key(data@) ==> written_as(
            text@,
            (KeyView { data: data@, comment: comment@ }),
        ),
{
    let mut key = ssh_key::PublicKey::from_bytes(data)?;
    key.set_comment(comment);
    key.to_openssh()
}

/// Reads one line of a known_hosts file with `Entry::from_str`; the key is taken as its bytes and
/// its comment.
///
/// It is claimed that the entry depends on the line alone, and that its key is encoded as a key is
/// written.
#[verifier::external_body]
pub(crate) fn parse_entry(line: &str) -> (r: Result<Entry, ssh_key::Error>)
    ensures
        entry_result(r) == entry_of(line@),
        r matches Ok(entry) ==> valid_key(entry.data@),
{
    let entry: ssh_key::known_hosts::Entry = line.parse()?;
    let marker = match entry.marker() {
        None => None,
        Some(ssh_key::known_hosts::Marker::CertAuthority) => Some(Marker::CertAuthority),
        Some(ssh_key::known_hosts::Marker::Revoked) => Some(Marker::Revoked),
    };
    let key = entry.public_key().clone();
    let (data, comment) = (key.to_bytes()?, key.comment().to_string());
    let host_patterns = match ssh_key::known_hosts::HostPatterns::from(entry) {
        ssh_key::known_hosts::HostPatterns::Patterns(p) => HostPatterns::Patterns(p),
        ssh_key::known_hosts::HostPatterns::HashedName { salt, hash } =>
            HostPatterns::HashedName { salt, hash: hash.to_vec() },
    };
    Ok(Entry { marker, host_patterns, data, comment })
}

// ---------------------------------------------------------------------------
// Host keys

/// How much of a comment stands on its line of a known_hosts file: what is before the first number
/// sign, which begins a comment of the file, and before the first line feed.
pub open spec fn comment_end(comment: Seq<char>) -> nat {
    let sign = text::find(comment, '#');
    let feed = text::find(comment, '\n');
    if sign < feed {
        sign
    } else {
        feed
    }
}

/// The comment of a key as a known_hosts file holds it: up to the first number sign or line feed,
/// without the white space at its end.
pub open spec fn held_comment_of(comment: Seq<char>) -> Seq<char> {
    text::trimmed_end(comment.take(comment_end(comment) as int))
}

/// The key as a known_hosts file holds it.
pub open spec fn as_stored(key: KeyView) -> KeyView {
    KeyView { data: key.data, comment: held_comment_of(key.comment) }
}

/// The comment of a key as a known_hosts file holds it.
pub fn held_comment(comment: &str) -> (s: &str)
    ensures
        s@ == held_comment_of(comment@),
{
    let v = chars_of(comment);
    assert(v@.skip(0) =~= v@);
    let sign = find_from(&v, '#', 0);
    let feed = find_from(&v, '\n', 0);
    let n: usize = if sign < feed {
        sign
    } else {
        feed
    };
    assert(comment@.subrange(0, n as int) =~= comment@.take(n as int));
    trim_end(comment.substring_char(0, n))
}

/// Whether two lists of bytes are the same.
fn same_bytes(a: &Vec<u8>, b: &Vec<u8>) -> (r: bool)
    ensures
        r == (a@ == b@),
{
    if a.len() != b.len() {
        return false;
    }
    let mut i: usize = 0;
    while i < a.len()
        invariant
            a@.len() == b@.len(),
            i <= a@.len(),
            forall|j: int| 0 <= j < i ==> a@[j] == b@[j],
        decreases a@.len() - i,
    {
        if a[i] != b[i] {
            return false;
        }
        i += 1;
    }
    assert(a@ =~= b@);
    true
}

/// The public key that a server presents.
#[derive(Debug)]
pub struct HostKey {
    data: Vec<u8>,
    comment: String,
}

impl View for HostKey {
    type V = KeyView;

    closed spec fn view(&self) -> KeyView {
        KeyView { data: self.data@, comment: self.comment@ }
    }
}

impl HostKey {
    #[verifier::type_invariant]
    spec fn well_formed(self) -> bool {
        valid_key(self.data@)
    }

    /// The key encoded by `bytes`, with the given comment.
    pub fn from_bytes(bytes: &[u8], comment: &str) -> (r: Result<HostKey, HostKeyError>)
        ensures
            match decoded_key(bytes@) {
                Ok(data) => r matches Ok(key) && key@.data == data && key@.comment == comment@,
                Err(e) => r matches Err(HostKeyError::SshKey(err)) && err == e,
            },
    {
        match decode_key(bytes) {
            Ok(data) => {
                let comment = comment.to_owned();
                Ok(HostKey { data, comment })
            },
            Err(e) => Err(HostKeyError::SshKey(e)),
        }
    }

    /// Whether the entry is for this very key, with its comment as a known_hosts file holds it.
    pub fn is_key_of(&self, entry: &Entry) -> (r: bool)
        ensures
            r == (entry@.key == as_stored(self@)),
    {
        let held = held_comment(self.comment.as_str()).to_owned();
        same_bytes(&self.data, &entry.data) && held == entry.comment
    }

    /// The SHA-256 fingerprint of the key.
    pub fn fingerprint(&self) -> (s: String)
        ensures
            s@ == sha256_fingerprint(self@.data),
            names_sha256(s@),
    {
        proof {
            use_type_invariant(self);
        }
        fingerprint_of(self.data.as_slice())
    }

    /// The key in the form in which OpenSSH writes public keys.
    pub fn to_openssh(&self) -> (r: Result<String, ssh_key::Error>)
        ensures
            r is Ok,
            text_result(r) == openssh_text(self@.data, self@.comment),
            r matches Ok(text) ==> readable_key(self@.data) ==> written_as(text@, self@),
    {
        proof {
            use_type_invariant(self);
        }
        key_to_openssh(self.data.as_slice(), self.comment.as_str())
    }
}

/// The SHA-256 fingerprint of the key encoded by `data`.
pub(crate) fn fingerprint_of(data: &[u8]) -> (s: String)
    requires
        valid_key(data@),
    ensures
        s@ == sha256_fingerprint(data@),
        names_sha256(s@),
{
    match key_fingerprint(data) {
        Ok(s) => s,
        Err(_) => {
            assert(false);
            String::new()
        },
    }
}

// ---------------------------------------------------------------------------
// What holds of keys

/// Law: a known_hosts file holds the beginning of a comment, without number signs and line feeds and
/// without white space at its end; what it does not hold begins with white space, a number sign or a
/// line feed, and is white space up to the first such sign or feed, or to the end.
pub proof fn files_hold_the_beginning_of_a_comment(comment: Seq<char>)
    ensures
        ({
            let held = held_comment_of(comment);
            &&& held.len() <= comment.len()
            &&& held == comment.take(held.len() as int)
            &&& !held.contains('#')
            &&& !held.contains('\n')
            &&& held.len() > 0 ==> !text::white_space(held.last())
            &&& forall|k: int|
                held.len() <= k < comment.len() ==> text::white_space(#[trigger] comment[k]) || exists|
                    j: int,
                |
                    held.len() <= j <= k && (#[trigger] comment[j] == '#' || comment[j] == '\n')
        }),
{
    text::lemma_find(comment, '#');
    text::lemma_find(comment, '\n');
    let n = comment_end(comment) as int;
    let cut = comment.take(n);
    let m = text::lemma_trimmed_end_bound(cut);
    let held = held_comment_of(comment);
    assert(held =~= comment.take(m));
    assert forall|k: int| held.len() <= k < comment.len() implies text::white_space(
        #[trigger] comment[k],
    ) || exists|j: int|
        held.len() <= j <= k && (#[trigger] comment[j] == '#' || comment[j] == '\n') by {
        if k < n {
            assert(cut[k] == comment[k]);
        } else {
            assert(comment[n] == '#' || comment[n] == '\n');
        }
    }
}

/// Law: a file tells keys apart by all of their data, and by their comments as it holds them.
pub proof fn files_tell_keys_apart(one: KeyView, other: KeyView)
    ensures
        as_stored(one) == as_stored(other) <==> one.data == other.data && held_comment_of(one.comment)
            == held_comment_of(other.comment),
        as_stored(one).data == one.data,
        as_stored(one).comment == held_comment_of(one.comment),
{
}

/// Law: the contents of an entry are all that it holds.
pub proof fn entries_are_seen_whole(entry: Entry)
    ensures
        entry@.marker == entry.marker,
        entry@.key.data == entry.data@,
        entry@.key.comment == entry.comment@,
        entry.host_patterns matches HostPatterns::Patterns(p) ==> entry@.host_patterns
            == HostPatternsView::Patterns(Seq::new(p@.len(), |i: int| p@[i]@)),
        entry.host_patterns matches HostPatterns::HashedName { salt, hash } ==> entry@.host_patterns
            == (HostPatternsView::HashedName { salt: salt@, hash: hash@ }),
{
    if let HostPatterns::Patterns(p) = entry.host_patterns {
        assert(text::texts(p@) =~= Seq::new(p@.len(), |i: int| p@[i]@));
    }
}

} // verus!
