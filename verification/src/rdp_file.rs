//! The `.rdp` file that points the platform's RDP client at the local end of a tunnel.

use vstd::prelude::*;
use vstd::string::StringExecFns;

use crate::session::Session;
use crate::text;
use crate::text::decimal;

verus! {

/// A character that may stand in a value: not a part of a line end.
pub open spec fn value_char(c: char) -> bool {
    c != '\r' && c != '\n'
}

/// `value` without line ends.
pub open spec fn cleaned(value: Seq<char>) -> Seq<char> {
    value.filter(|c: char| value_char(c))
}

/// `value` without the carriage returns and line feeds in it.
pub fn clean_rdp_value(value: &str) -> (s: String)
    ensures
        s@ == cleaned(value@),
{
    let mut s = String::new();
    let ghost keep = |c: char| value_char(c);
    proof {
        reveal(Seq::filter);
    }
    for c in it: value.chars()
        invariant
            it.seq() == value@,
            keep == (|c: char| value_char(c)),
            s@ == value@.take(it.index()).filter(keep),
    {
        proof {
            reveal(Seq::filter);
            let i = it.index();
            assert(value@.take(i + 1).drop_last() =~= value@.take(i));
            assert(value@.take(i + 1).last() == c);
        }
        if c != '\r' && c != '\n' {
            s.push(c);
        }
    }
    assert(value@.take(value@.len() as int) =~= value@);
    s
}

/// The lines of the file for a user and the local port of the tunnel.
pub open spec fn rdp_lines(user: Seq<char>, local_port: nat) -> Seq<Seq<char>> {
    let lines = seq![
        "screen mode id:i:2"@,
        "use multimon:i:0"@,
        "desktopwidth:i:1440"@,
        "desktopheight:i:900"@,
        "session bpp:i:32"@,
        "full address:s:127.0.0.1:"@ + text::decimal_of(local_port),
        "prompt for credentials:i:1"@,
        "promptcredentialonce:i:0"@,
        "authentication level:i:2"@,
        "redirectclipboard:i:1"@,
        "redirectprinters:i:0"@,
        "redirectsmartcards:i:0"@,
        "audiomode:i:0"@,
    ];
    let username = cleaned(user);
    if username.len() == 0 {
        lines
    } else {
        lines.push("username:s:"@ + username)
    }
}

/// The lines, each ended by a carriage return and a line feed.
pub open spec fn ended(lines: Seq<Seq<char>>) -> Seq<char>
    decreases lines.len(),
{
    if lines.len() == 0 {
        seq![]
    } else {
        ended(lines.drop_last()) + lines.last() + seq!['\r', '\n']
    }
}

/// What the file holds for a session and the local port of its tunnel.
pub open spec fn rdp_file_of(session: Session, local_port: nat) -> Seq<char> {
    ended(rdp_lines(session.user@, local_port))
}

/// Appends a line and its end.
fn push_line(body: &mut String, line: &str, Ghost(lines): Ghost<Seq<Seq<char>>>)
    requires
        old(body)@ == ended(lines),
    ensures
        final(body)@ == ended(lines.push(line@)),
{
    body.append(line);
    body.push('\r');
    body.push('\n');
    assert(lines.push(line@).drop_last() =~= lines);
    assert(body@ =~= ended(lines) + line@ + seq!['\r', '\n']);
}

/// What the `.rdp` file holds: it names the local end of the tunnel and the user, and nothing else
/// of the session.
pub fn rdp_file_body(session: &Session, local_port: u16) -> (s: String)
    ensures
        s@ == rdp_file_of(*session, local_port as nat),
{
    let username = clean_rdp_value(session.user.as_str());
    let mut address = "full address:s:127.0.0.1:".to_owned();
    address.append(decimal(local_port as usize).as_str());
    let fixed = [
        "screen mode id:i:2",
        "use multimon:i:0",
        "desktopwidth:i:1440",
        "desktopheight:i:900",
        "session bpp:i:32",
        address.as_str(),
        "prompt for credentials:i:1",
        "promptcredentialonce:i:0",
        "authentication level:i:2",
        "redirectclipboard:i:1",
        "redirectprinters:i:0",
        "redirectsmartcards:i:0",
        "audiomode:i:0",
    ];
    let ghost lines = rdp_lines(session.user@, local_port as nat).take(13);
    let mut body = String::new();
    let mut i: usize = 0;
    while i < 13
        invariant
            i <= 13,
            lines.len() == 13,
            forall|j: int| 0 <= j < 13 ==> (#[trigger] fixed@[j])@ == lines[j],
            body@ == ended(lines.take(i as int)),
        decreases 13 - i,
    {
        push_line(&mut body, fixed[i], Ghost(lines.take(i as int)));
        assert(lines.take(i as int).push(lines[i as int]) =~= lines.take(i + 1));
        i += 1;
    }
    assert(lines.take(13) =~= lines);
    if !username.as_str().is_empty() {
        let mut line = "username:s:".to_owned();
        line.append(username.as_str());
        push_line(&mut body, line.as_str(), Ghost(lines));
        assert(lines.push(line@) =~= rdp_lines(session.user@, local_port as nat));
    } else {
        assert(lines =~= rdp_lines(session.user@, local_port as nat));
    }
    body
}

/// A digit of a UUID: hexadecimal, in lower case.
pub open spec fn hex_digit(c: char) -> bool {
    '0' <= c <= '9' || 'a' <= c <= 'f'
}

/// The text of a random UUID, with hyphens.
pub open spec fn uuid_v4(s: Seq<char>) -> bool {
    &&& s.len() == 36
    &&& forall|i: int|
        0 <= i < 36 ==> if i == 8 || i == 13 || i == 18 || i == 23 {
            #[trigger] s[i] == '-'
        } else {
            hex_digit(s[i])
        }
    &&& s[14] == '4'
    &&& s[19] == '8' || s[19] == '9' || s[19] == 'a' || s[19] == 'b'
}

/// `Uuid::new_v4` of `uuid`, as it displays.
///
/// It is claimed that every outcome has the form of a random UUID. Which one it is, is left to
/// chance. The call panics where the system yields no random bytes.
#[verifier::external_body]
fn random_uuid() -> (s: String)
    ensures
        uuid_v4(s@),
{
    uuid::Uuid::new_v4().to_string()
}

/// The name of the `.rdp` file with the given identifier.
pub open spec fn rdp_file_name_of(id: Seq<char>) -> Seq<char> {
    "meatshell-rdp-"@ + id + ".rdp"@
}

/// The name of the `.rdp` file with the given identifier.
pub fn rdp_file_name(id: &str) -> (s: String)
    ensures
        s@ == rdp_file_name_of(id@),
{
    let mut s = "meatshell-rdp-".to_owned();
    s.append(id);
    s.append(".rdp");
    s
}

/// A name for a new `.rdp` file.
pub fn new_rdp_file_name() -> (s: String)
    ensures
        exists|id: Seq<char>| #[trigger] uuid_v4(id) && s@ == rdp_file_name_of(id),
{
    let id = random_uuid();
    rdp_file_name(id.as_str())
}

// ---------------------------------------------------------------------------
// What holds of the file

/// Law: a cleaned value holds no line end, and a value without line ends is left as it is.
pub proof fn cleaned_values_are_one_line(value: Seq<char>)
    ensures
        forall|i: int| 0 <= i < cleaned(value).len() ==> value_char(#[trigger] cleaned(value)[i]),
        (forall|i: int| 0 <= i < value.len() ==> value_char(#[trigger] value[i])) ==> cleaned(value)
            == value,
        cleaned(cleaned(value)) == cleaned(value),
{
    lemma_cleaned_chars(value);
    if forall|i: int| 0 <= i < value.len() ==> value_char(#[trigger] value[i]) {
        lemma_cleaned_same(value);
    }
    lemma_cleaned_same(cleaned(value));
}

proof fn lemma_cleaned_chars(value: Seq<char>)
    ensures
        forall|i: int| 0 <= i < cleaned(value).len() ==> value_char(#[trigger] cleaned(value)[i]),
    decreases value.len(),
{
    reveal(Seq::filter);
    if value.len() > 0 {
        let rest = value.drop_last();
        lemma_cleaned_chars(rest);
        assert forall|i: int| 0 <= i < cleaned(value).len() implies value_char(
            #[trigger] cleaned(value)[i],
        ) by {
            if i < cleaned(rest).len() {
                assert(cleaned(value)[i] == cleaned(rest)[i]);
            }
        }
    }
}

proof fn lemma_cleaned_same(value: Seq<char>)
    requires
        forall|i: int| 0 <= i < value.len() ==> value_char(#[trigger] value[i]),
    ensures
        cleaned(value) == value,
    decreases value.len(),
{
    reveal(Seq::filter);
    if value.len() > 0 {
        let rest = value.drop_last();
        assert forall|i: int| 0 <= i < rest.len() implies value_char(#[trigger] rest[i]) by {
            assert(rest[i] == value[i]);
        }
        lemma_cleaned_same(rest);
        assert(value_char(value[value.len() - 1]));
        assert(rest.push(value.last()) =~= value);
    }
}

/// Law: the file depends on the cleaned name of the user and the local port alone. Sessions that
/// differ in their host, port, password or protocol have the same file.
pub proof fn file_tells_only_the_user(one: Session, other: Session, local_port: nat)
    requires
        cleaned(one.user@) == cleaned(other.user@),
    ensures
        rdp_file_of(one, local_port) == rdp_file_of(other, local_port),
{
}

/// The text holds no line end.
pub open spec fn one_line(s: Seq<char>) -> bool {
    forall|i: int| 0 <= i < s.len() ==> value_char(#[trigger] s[i])
}

/// Texts without line ends are the lines of what they make when each is ended.
proof fn lemma_ended_lines(lines: Seq<Seq<char>>)
    requires
        forall|i: int| 0 <= i < lines.len() ==> one_line(#[trigger] lines[i]),
    ensures
        ended(lines).len() > 0 ==> ended(lines).last() == '\n',
        text::lines_of(ended(lines)) == lines,
    decreases lines.len(),
{
    if lines.len() == 0 {
        assert(text::lines_of(ended(lines)) =~= lines);
    } else {
        let rest = lines.drop_last();
        let last = lines.last();
        assert forall|i: int| 0 <= i < rest.len() implies one_line(#[trigger] rest[i]) by {
            assert(rest[i] == lines[i]);
        }
        lemma_ended_lines(rest);
        let line = last.push('\r');
        assert(one_line(lines[lines.len() - 1]));
        assert forall|j: int| 0 <= j < line.len() implies line[j] != '\n' by {
            if j < last.len() {
                assert(line[j] == last[j]);
            }
        }
        text::lemma_lines_of_line(line);
        assert(text::without_cr(line) =~= last);
        text::lemma_lines_of_add(ended(rest), line.push('\n'));
        assert(ended(lines) =~= ended(rest) + line.push('\n'));
        assert(rest + seq![last] =~= lines);
    }
}

/// Law: the file has exactly the lines that it is meant to have. Nothing in the name of the user
/// adds a line to it or ends one early.
pub proof fn file_has_its_lines_alone(user: Seq<char>, local_port: nat)
    ensures
        text::lines_of(ended(rdp_lines(user, local_port))) == rdp_lines(user, local_port),
{
    let lines = rdp_lines(user, local_port);
    let address = "full address:s:127.0.0.1:"@ + text::decimal_of(local_port);
    let username = "username:s:"@ + cleaned(user);
    assert(one_line(address)) by {
        let head = "full address:s:127.0.0.1:"@;
        assert(one_line(head)) by {
            reveal_strlit("full address:s:127.0.0.1:");
        }
        text::lemma_decimal_digits(local_port);
        assert forall|i: int| 0 <= i < address.len() implies value_char(#[trigger] address[i]) by {
            if i < head.len() {
                assert(address[i] == head[i]);
            } else {
                assert(address[i] == text::decimal_of(local_port)[i - head.len()]);
            }
        }
    }
    assert(one_line(username)) by {
        let head = "username:s:"@;
        assert(one_line(head)) by {
            reveal_strlit("username:s:");
        }
        lemma_cleaned_chars(user);
        assert forall|i: int| 0 <= i < username.len() implies value_char(
            #[trigger] username[i],
        ) by {
            if i < head.len() {
                assert(username[i] == head[i]);
            } else {
                assert(username[i] == cleaned(user)[i - head.len()]);
            }
        }
    }
    assert(one_line("screen mode id:i:2"@)) by {
        reveal_strlit("screen mode id:i:2");
    }
    assert(one_line("use multimon:i:0"@)) by {
        reveal_strlit("use multimon:i:0");
    }
    assert(one_line("desktopwidth:i:1440"@)) by {
        reveal_strlit("desktopwidth:i:1440");
    }
    assert(one_line("desktopheight:i:900"@)) by {
        reveal_strlit("desktopheight:i:900");
    }
    assert(one_line("session bpp:i:32"@)) by {
        reveal_strlit("session bpp:i:32");
    }
    assert(one_line("prompt for credentials:i:1"@)) by {
        reveal_strlit("prompt for credentials:i:1");
    }
    assert(one_line("promptcredentialonce:i:0"@)) by {
        reveal_strlit("promptcredentialonce:i:0");
    }
    assert(one_line("authentication level:i:2"@)) by {
        reveal_strlit("authentication level:i:2");
    }
    assert(one_line("redirectclipboard:i:1"@)) by {
        reveal_strlit("redirectclipboard:i:1");
    }
    assert(one_line("redirectprinters:i:0"@)) by {
        reveal_strlit("redirectprinters:i:0");
    }
    assert(one_line("redirectsmartcards:i:0"@)) by {
        reveal_strlit("redirectsmartcards:i:0");
    }
    assert(one_line("audiomode:i:0"@)) by {
        reveal_strlit("audiomode:i:0");
    }
    lemma_ended_lines(lines);
}

/// Law: the file sends the client to the loopback address and the local port, whatever the session.
pub proof fn file_points_to_loopback(user: Seq<char>, local_port: nat)
    ensures
        text::lines_of(ended(rdp_lines(user, local_port))).contains(
            "full address:s:127.0.0.1:"@ + text::decimal_of(local_port),
        ),
{
    file_has_its_lines_alone(user, local_port);
    assert(rdp_lines(user, local_port)[5] == "full address:s:127.0.0.1:"@ + text::decimal_of(
        local_port,
    ));
}

/// Law: the name of a new file is a plain name, of letters, digits, hyphens and dots.
pub proof fn file_names_are_plain(id: Seq<char>)
    requires
        uuid_v4(id),
    ensures
        forall|i: int|
            0 <= i < rdp_file_name_of(id).len() ==> ({
                let c = #[trigger] rdp_file_name_of(id)[i];
                'a' <= c <= 'z' || '0' <= c <= '9' || c == '-' || c == '.'
            }),
{
    reveal_strlit("meatshell-rdp-");
    reveal_strlit(".rdp");
    let name = rdp_file_name_of(id);
    assert forall|i: int| 0 <= i < name.len() implies ({
        let c = #[trigger] name[i];
        'a' <= c <= 'z' || '0' <= c <= '9' || c == '-' || c == '.'
    }) by {
        if i < 14 {
            assert(name[i] == "meatshell-rdp-"@[i]);
        } else if i < 50 {
            assert(name[i] == id[i - 14]);
        } else {
            assert(name[i] == ".rdp"@[i - 50]);
        }
    }
}

/// Law: files with different identifiers have different names.
pub proof fn file_names_differ(one: Seq<char>, other: Seq<char>)
    requires
        rdp_file_name_of(one) == rdp_file_name_of(other),
    ensures
        one == other,
{
    let name = rdp_file_name_of(one);
    let head = "meatshell-rdp-"@.len() as int;
    let tail = ".rdp"@.len() as int;
    assert(one =~= name.subrange(head, name.len() - tail));
    assert(other =~= rdp_file_name_of(other).subrange(head, name.len() - tail));
}

/// Law: cleaning takes each character on its own: a carriage return or line feed is dropped, and every
/// other character is kept, in its place.
pub proof fn cleaning_drops_line_ends_alone(before: Seq<char>, c: char, after: Seq<char>)
    ensures
        cleaned(before + after) == cleaned(before) + cleaned(after),
        c == '\r' || c == '\n' ==> cleaned(before.push(c) + after) == cleaned(before + after),
        c != '\r' && c != '\n' ==> cleaned(before.push(c) + after) == cleaned(before).push(c) + cleaned(
            after,
        ),
        cleaned(seq![]).len() == 0,
{
    let keep = |c: char| value_char(c);
    Seq::filter_distributes_over_add(before, after, keep);
    Seq::filter_distributes_over_add(before.push(c), after, keep);
    reveal(Seq::filter);
    assert(before.push(c).drop_last() =~= before);
}

/// Law: each line of the file is ended by a carriage return and a line feed, the last one too, and
/// nothing stands between the lines.
pub proof fn lines_are_ended_one_by_one(before: Seq<Seq<char>>, line: Seq<char>, after: Seq<Seq<char>>)
    ensures
        ended(before + after) == ended(before) + ended(after),
        ended(seq![line]) == line + seq!['\r', '\n'],
        ended(seq![]).len() == 0,
    decreases after.len(),
{
    let one = seq![line];
    assert(one.drop_last() =~= seq![]);
    assert(ended(one.drop_last()).len() == 0);
    assert(ended(one) =~= line + seq!['\r', '\n']);
    if after.len() == 0 {
        assert(before + after =~= before);
        assert(ended(before) + ended(after) =~= ended(before));
    } else {
        let all = before + after;
        lines_are_ended_one_by_one(before, line, after.drop_last());
        assert(all.drop_last() =~= before + after.drop_last());
        assert(all.last() == after.last());
        assert(ended(all) =~= ended(before) + ended(after));
    }
}

/// Law: the file has its settings, each on its line, whoever the user is, and the address with the
/// local port. Where the cleaned name of the user is not empty, one line follows, with the whole of
/// that name; where it is empty, none does.
pub proof fn the_file_holds_settings_address_and_user(session: Session, local_port: nat)
    ensures
        ({
            let file = rdp_file_of(session, local_port);
            let lines = text::lines_of(file);
            let name = cleaned(session.user@);
            &&& lines.len() == if name.len() > 0 {
                14nat
            } else {
                13nat
            }
            &&& name.len() > 0 ==> lines[13] == "username:s:"@ + name
            &&& lines[0] == "screen mode id:i:2"@
            &&& lines[1] == "use multimon:i:0"@
            &&& lines[2] == "desktopwidth:i:1440"@
            &&& lines[3] == "desktopheight:i:900"@
            &&& lines[4] == "session bpp:i:32"@
            &&& lines[5] == "full address:s:127.0.0.1:"@ + text::decimal_of(local_port)
            &&& lines[6] == "prompt for credentials:i:1"@
            &&& lines[7] == "promptcredentialonce:i:0"@
            &&& lines[8] == "authentication level:i:2"@
            &&& lines[9] == "redirectclipboard:i:1"@
            &&& lines[10] == "redirectprinters:i:0"@
            &&& lines[11] == "redirectsmartcards:i:0"@
            &&& lines[12] == "audiomode:i:0"@
            &&& file == ended(lines)
        }),
{
    file_has_its_lines_alone(session.user@, local_port);
}

/// Law: the name of a file is its identifier, whole, between a fixed beginning and the ending `.rdp`.
pub proof fn file_names_hold_the_identifier(id: Seq<char>)
    ensures
        ({
            let name = rdp_file_name_of(id);
            &&& name.len() == 14 + id.len() + 4
            &&& name.take(14) == "meatshell-rdp-"@
            &&& name.subrange(14, 14 + id.len() as int) == id
            &&& name.skip(14 + id.len() as int) == ".rdp"@
        }),
{
    reveal_strlit("meatshell-rdp-");
    reveal_strlit(".rdp");
    let name = rdp_file_name_of(id);
    assert(name.take(14) =~= "meatshell-rdp-"@);
    assert(name.subrange(14, 14 + id.len() as int) =~= id);
    assert(name.skip(14 + id.len() as int) =~= ".rdp"@);
}

} // verus!
