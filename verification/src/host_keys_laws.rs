//! What holds of host key checks as a whole: what is learned is remembered, and nothing else
//! changes.

use russh::keys::ssh_key;
use vstd::prelude::*;

use crate::host_keys;
use crate::keys;
use crate::text;

verus! {

/// The text of a known_hosts file after `added` was appended to it: on a line of its own, also
/// where the file ended within a line.
pub open spec fn with_added(existing: Seq<char>, added: Seq<char>) -> Seq<char> {
    if host_keys::lacks_line_feed(existing) {
        existing.push('\n') + added
    } else {
        existing + added
    }
}

/// A host pattern that can be read back from a line of the file: it stands alone in its entry, and
/// no part of it is taken for a comment, a line end or white space around the line.
pub open spec fn rememberable_pattern(host_pattern: Seq<char>) -> bool {
    &&& keys::bare_pattern(host_pattern)
    &&& !text::white_space(host_pattern[0])
    &&& !host_pattern.contains('#')
    &&& !host_pattern.contains('\n')
}

/// A key that can be read back from a line of the file, whatever its comment.
pub open spec fn rememberable_key(key: keys::KeyView) -> bool {
    keys::readable_key(key.data)
}

/// A host whose pattern can be read back: inside of it there is no space, comma, number sign or
/// line feed.
pub open spec fn rememberable_host(host: Seq<char>) -> bool {
    let h = text::trimmed(host);
    !h.contains(' ') && !h.contains(',') && !h.contains('#') && !h.contains('\n')
}

/// `line`, appended to any file without an entry for the host, makes the file trust `key`, and no
/// other key, for that host. Keys that a file holds alike count as one.
pub open spec fn remembers(
    line: Seq<char>,
    host_pattern: Seq<char>,
    key: keys::KeyView,
) -> bool {
    forall|existing: Seq<char>, presented: keys::KeyView|
        host_keys::finding(
            text::lines_of(existing),
            host_pattern,
            presented,
        ) is Unknown ==> #[trigger] host_keys::finding(
            text::lines_of(with_added(existing, line)),
            host_pattern,
            presented,
        ) == if keys::as_stored(presented) == keys::as_stored(key) {
            host_keys::Finding::Trusted
        } else {
            host_keys::Finding::KeyChanged {
                line: text::lines_of(existing).len() + 1,
                expected: keys::sha256_fingerprint(key.data),
            }
        }
}

// ---------------------------------------------------------------------------
// Lines and entries

/// A carriage return at the end of a line makes no difference to its entry.
proof fn lemma_entry_without_cr(line: Seq<char>)
    ensures
        host_keys::entry_on(text::without_cr(line)) == host_keys::entry_on(
            line,
        ),
{
    if line.len() > 0 && line.last() == '\r' {
        let p = line.drop_last();
        assert(line =~= p.push('\r'));
        text::lemma_find(p, '#');
        let n = text::find(p, '#');
        if n < p.len() {
            assert forall|j: int| 0 <= j < n implies line[j] != '#' by {
                assert(line[j] == p[j]);
            }
            text::lemma_find_is(line, '#', n);
            assert(line.take(n as int) =~= p.take(n as int));
        } else {
            assert forall|j: int| 0 <= j < line.len() implies line[j] != '#' by {
                if j < p.len() {
                    assert(line[j] == p[j]);
                }
            }
            text::lemma_find_is(line, '#', line.len());
            assert(line.take(line.len() as int) =~= line);
            assert(p.take(n as int) =~= p);
            text::lemma_trimmed_push(p, '\r');
        }
    }
}

/// Appending to a file adds the lines of what is appended, and leaves the entries as they were.
pub proof fn lemma_added_lines(existing: Seq<char>, added: Seq<char>)
    ensures
        ({
            let before = text::lines_of(existing);
            let new = text::lines_of(added);
            let after = text::lines_of(with_added(existing, added));
            &&& after.len() == before.len() + new.len()
            &&& forall|i: int|
                0 <= i < before.len() ==> host_keys::entry_on(#[trigger] after[i])
                    == host_keys::entry_on(before[i])
            &&& forall|j: int| 0 <= j < new.len() ==> after[before.len() + j] == #[trigger] new[j]
        }),
{
    let before = text::lines_of(existing);
    let new = text::lines_of(added);
    let after = text::lines_of(with_added(existing, added));
    if host_keys::lacks_line_feed(existing) {
        let ended = existing.push('\n');
        text::lemma_lines_of_end(existing);
        text::lemma_lines_of_add(ended, added);
        let lines = text::lines_of(ended);
        assert(after == lines + new);
        assert forall|i: int| 0 <= i < before.len() implies host_keys::entry_on(
            #[trigger] after[i],
        ) == host_keys::entry_on(before[i]) by {
            assert(after[i] == lines[i]);
            if i == before.len() - 1 {
                lemma_entry_without_cr(before.last());
            }
        }
    } else {
        text::lemma_lines_of_add(existing, added);
        assert(after == before + new);
    }
}

/// The text that is appended for a host and key begins with a line that is read as the entry of that
/// host and key.
proof fn lemma_learned_entry(host_pattern: Seq<char>, key: keys::KeyView, text: Seq<char>)
    requires
        rememberable_pattern(host_pattern),
        keys::written_as(text, key),
    ensures
        ({
            let new = text::lines_of(host_keys::learned_line(host_pattern, text));
            &&& new.len() > 0
            &&& host_keys::entry_on(new[0]) == Some(
                keys::EntryView {
                    marker: None,
                    host_patterns: keys::HostPatternsView::Patterns(seq![host_pattern]),
                    key: keys::as_stored(key),
                },
            )
        }),
{
    let words = choose|words: Seq<char>| #[trigger]
        keys::openssh_words(words) && keys::reads_back(words, key.data) && text == words
            + keys::comment_part(key.comment);
    let c = key.comment;
    let front = keys::entry_line(host_pattern, words);
    let s = host_keys::learned_line(host_pattern, text);
    assert(s =~= (front + keys::comment_part(c)).push('\n'));
    assert forall|j: int| 0 <= j < front.len() implies front[j] != '\n' && front[j] != '#' by {
        if j < host_pattern.len() {
            assert(front[j] == host_pattern[j]);
            assert(host_pattern.contains(front[j]));
        } else if j > host_pattern.len() {
            assert(front[j] == words[j - host_pattern.len() - 1]);
        }
    }
    assert(front[0] == host_pattern[0]);
    assert(front.last() == words.last());
    assert(!text::white_space(front.last())) by {
        assert(keys::word_char(words[words.len() - 1]));
    }
    text::lemma_find(c, '\n');
    text::lemma_find(c, '#');
    let feed = text::find(c, '\n');
    let kept = keys::comment_end(c);
    let cut = c.take(kept as int);

    // The first line goes as far as the comment has no line feed.
    let n: nat = if c.len() == 0 {
        front.len()
    } else {
        front.len() + 1 + feed
    };
    assert forall|j: int| 0 <= j < n implies s[j] != '\n' by {
        if j < front.len() {
            assert(s[j] == front[j]);
        } else if j > front.len() {
            assert(s[j] == c[j - front.len() - 1]);
        }
    }
    if c.len() > 0 && feed < c.len() {
        assert(s[n as int] == c[feed as int]);
    }
    text::lemma_find_is(s, '\n', n);
    let line = s.take(n as int);
    lemma_entry_without_cr(line);

    // Of that, what follows a number sign is not read.
    let m: nat = if c.len() == 0 {
        front.len()
    } else {
        front.len() + 1 + kept
    };
    assert forall|j: int| 0 <= j < m implies line[j] != '#' by {
        if j < front.len() {
            assert(line[j] == front[j]);
        } else if j > front.len() {
            assert(line[j] == c[j - front.len() - 1]);
        }
    }
    if m < n {
        assert(line[m as int] == c[kept as int]);
    }
    text::lemma_find_is(line, '#', m);
    let read = line.take(m as int);

    // Nor is the white space at the end.
    let j = text::lemma_trimmed_end_bound(cut);
    let held = keys::held_comment_of(c);
    let end: int = if j == 0 {
        front.len() as int
    } else {
        front.len() + 1 + j
    };
    assert forall|k: int| 0 <= k < front.len() implies read[k] == front[k] by {}
    assert forall|k: int| front.len() < k < read.len() implies read[k] == cut[k - front.len()
        - 1] by {}
    assert forall|k: int| end <= k < read.len() implies text::white_space(read[k]) by {
        if k > front.len() {
            assert(text::white_space(cut[k - front.len() - 1]));
        }
    }
    if j > 0 {
        assert(read[end - 1] == cut[j - 1]);
    }
    text::lemma_trimmed_is(read, 0, end);
    assert(read.subrange(0, end) =~= keys::entry_line(
        host_pattern,
        words + keys::comment_part(held),
    ));
    text::lemma_trimmed_end_is(held, held.len() as int);
    assert(held.take(held.len() as int) =~= held);
}

/// Law: a key that was learned for a host is remembered, whatever its comment. Once its line was
/// appended, the host is trusted when it presents that key, and refused, with the line and the
/// fingerprint of the learned key, when it presents any other.
pub proof fn learned_key_is_remembered(
    host_pattern: Seq<char>,
    key: keys::KeyView,
    text: Seq<char>,
)
    requires
        rememberable_pattern(host_pattern),
        keys::written_as(text, key),
    ensures
        remembers(host_keys::learned_line(host_pattern, text), host_pattern, key),
{
    let line = host_keys::learned_line(host_pattern, text);
    let new = text::lines_of(line);
    lemma_learned_entry(host_pattern, key, text);
    assert forall|existing: Seq<char>, presented: keys::KeyView|
        host_keys::finding(
            text::lines_of(existing),
            host_pattern,
            presented,
        ) is Unknown implies #[trigger] host_keys::finding(
        text::lines_of(with_added(existing, line)),
        host_pattern,
        presented,
    ) == if keys::as_stored(presented) == keys::as_stored(key) {
        host_keys::Finding::Trusted
    } else {
        host_keys::Finding::KeyChanged {
            line: text::lines_of(existing).len() + 1,
            expected: keys::sha256_fingerprint(key.data),
        }
    } by {
        let before = text::lines_of(existing);
        let after = text::lines_of(with_added(existing, line));
        lemma_added_lines(existing, line);
        host_keys::lemma_first_about(before, host_pattern);
        assert(after[before.len() as int] == new[0]);
        assert(seq![host_pattern][0] == host_pattern);
        assert forall|j: int| 0 <= j < before.len() implies !host_keys::is_about(
            #[trigger] after[j],
            host_pattern,
        ) by {
            assert(!host_keys::is_about(before[j], host_pattern));
        }
        host_keys::lemma_first_about_is(after, host_pattern, before.len());
    }
}

/// Law: learning a key for one host changes nothing for any other host or port. Only a comment with a
/// line feed can do so, where what follows the line feed is itself an entry for the other host.
pub proof fn learning_leaves_other_hosts(
    existing: Seq<char>,
    host_pattern: Seq<char>,
    key: keys::KeyView,
    text: Seq<char>,
    other: Seq<char>,
    presented: keys::KeyView,
)
    requires
        rememberable_pattern(host_pattern),
        keys::written_as(text, key),
        other != host_pattern,
        forall|j: int|
            1 <= j < text::lines_of(host_keys::learned_line(host_pattern, text)).len()
                ==> !host_keys::is_about(
                #[trigger] text::lines_of(host_keys::learned_line(host_pattern, text))[j],
                other,
            ),
    ensures
        host_keys::finding(
            text::lines_of(
                with_added(existing, host_keys::learned_line(host_pattern, text)),
            ),
            other,
            presented,
        ) == host_keys::finding(text::lines_of(existing), other, presented),
{
    let line = host_keys::learned_line(host_pattern, text);
    let before = text::lines_of(existing);
    let after = text::lines_of(with_added(existing, line));
    let new = text::lines_of(line);
    lemma_learned_entry(host_pattern, key, text);
    lemma_added_lines(existing, line);
    host_keys::lemma_first_about(before, other);
    let n = host_keys::first_about(before, other);
    assert forall|j: int| 0 <= j < n implies !host_keys::is_about(
        #[trigger] after[j],
        other,
    ) by {
        assert(!host_keys::is_about(before[j], other));
    }
    if n < before.len() {
        assert(host_keys::is_about(after[n as int], other));
        host_keys::lemma_first_about_is(after, other, n);
    } else {
        assert(after[before.len() as int] == new[0]);
        assert(!seq![host_pattern].contains(other));
        assert(!host_keys::is_about(after[before.len() as int], other));
        assert forall|j: int| 0 <= j < after.len() implies !host_keys::is_about(
            #[trigger] after[j],
            other,
        ) by {
            if j >= before.len() {
                assert(after[j] == new[j - before.len()]);
            }
        }
        host_keys::lemma_first_about_is(after, other, after.len());
    }
}

/// Law: what a file says of a host is settled by the first entry for it. Whatever is appended
/// later, a host that has an entry is answered as before.
pub proof fn settled_hosts_stay_settled(
    existing: Seq<char>,
    added: Seq<char>,
    host_pattern: Seq<char>,
    presented: keys::KeyView,
)
    requires
        !(host_keys::finding(
            text::lines_of(existing),
            host_pattern,
            presented,
        ) is Unknown),
    ensures
        host_keys::finding(
            text::lines_of(with_added(existing, added)),
            host_pattern,
            presented,
        ) == host_keys::finding(text::lines_of(existing), host_pattern, presented),
{
    let before = text::lines_of(existing);
    let after = text::lines_of(with_added(existing, added));
    lemma_added_lines(existing, added);
    host_keys::lemma_first_about(before, host_pattern);
    let n = host_keys::first_about(before, host_pattern);
    assert forall|j: int| 0 <= j < n implies !host_keys::is_about(
        #[trigger] after[j],
        host_pattern,
    ) by {
        assert(!host_keys::is_about(before[j], host_pattern));
    }
    assert(host_keys::is_about(after[n as int], host_pattern));
    host_keys::lemma_first_about_is(after, host_pattern, n);
}

/// Law: where the first entry for a host is revoked, the host is refused whatever key it presents.
pub proof fn revoked_for_every_key(
    lines: Seq<Seq<char>>,
    host_pattern: Seq<char>,
    one: keys::KeyView,
    other: keys::KeyView,
)
    requires
        host_keys::finding(lines, host_pattern, one) is Revoked,
    ensures
        host_keys::finding(lines, host_pattern, other) == host_keys::finding(
            lines,
            host_pattern,
            one,
        ),
{
}

// ---------------------------------------------------------------------------
// Whole checks

/// The text that an action adds to the file.
pub open spec fn written(action: host_keys::StoreActionView) -> Seq<char> {
    match action {
        host_keys::StoreActionView::Write(text) => text,
        _ => seq![],
    }
}

/// A check that learns a key, when everything that it asks for succeeds: the text of the file at
/// its end, and what it asks for last.
pub open spec fn learn(check: host_keys::CheckView, existing: Seq<char>, existed: bool) -> (
    Seq<char>,
    host_keys::StoreActionView,
) {
    let done = host_keys::StoreEventView::Done;
    let (creating, _) = host_keys::next(check, host_keys::StoreEventView::Text(existing));
    let (opening, _) = host_keys::next(creating, done);
    let (one, first) = host_keys::next(opening, host_keys::StoreEventView::Opened { existed });
    let (two, second) = host_keys::next(one, done);
    let (_, third) = host_keys::next(two, done);
    if one.phase is Appending {
        (existing + written(first), second)
    } else {
        (existing + written(first) + written(second), third)
    }
}

/// Law: first use learns. A check of a host that the file does not know, in which everything
/// succeeds, ends with the key learned; the file has then grown by the text for that key, on a line of
/// its own, and a file that did not exist is that text.
pub proof fn first_use_learns(check: host_keys::CheckView, existing: Seq<char>, existed: bool)
    requires
        check.phase is Reading,
        existed || existing.len() == 0,
        host_keys::finding(
            text::lines_of(existing),
            check.host_pattern,
            check.key,
        ) is Unknown,
    ensures
        keys::openssh_text(check.key.data, check.key.comment) matches Ok(text) ==> learn(
            check,
            existing,
            existed,
        ) == (
            with_added(existing, host_keys::learned_line(check.host_pattern, text)),
            host_keys::StoreActionView::Finish(Ok(host_keys::HostKeyStatus::Learned)),
        ),
{
    if let Ok(text) = keys::openssh_text(check.key.data, check.key.comment) {
        let line = host_keys::learned_line(check.host_pattern, text);
        let none: Seq<char> = seq![];
        assert(existing + none + line =~= existing + line);
        assert(existing + seq!['\n'] + line =~= existing.push('\n') + line);
    }
}

/// Law: later connections must present the learned key. After a check that learned a key with a
/// line that is remembered, another check of the same host, on the file that the first one left,
/// trusts that key and refuses every other one.
pub proof fn later_connections_present_the_same_key(
    check: host_keys::CheckView,
    existing: Seq<char>,
    existed: bool,
    text: Seq<char>,
    presented: keys::KeyView,
)
    requires
        check.phase is Reading,
        existed || existing.len() == 0,
        host_keys::finding(text::lines_of(existing), check.host_pattern, check.key) is Unknown,
        keys::openssh_text(check.key.data, check.key.comment) matches Ok(t) && t == text,
        remembers(
            host_keys::learned_line(check.host_pattern, text),
            check.host_pattern,
            check.key,
        ),
    ensures
        ({
            let later = host_keys::CheckView { key: presented, ..check };
            let file = learn(check, existing, existed).0;
            host_keys::next(later, host_keys::StoreEventView::Text(file)) == host_keys::finishes(
                later,
                if keys::as_stored(presented) == keys::as_stored(check.key) {
                    Ok(host_keys::HostKeyStatus::Trusted)
                } else {
                    Err(
                        host_keys::HostKeyErrorView::KeyChanged {
                            host_pattern: check.host_pattern,
                            line: text::lines_of(existing).len() + 1,
                            expected: keys::sha256_fingerprint(check.key.data),
                            actual: keys::sha256_fingerprint(presented.data),
                        },
                    )
                },
            )
        }),
{
    let lines = text::lines_of(existing);
    let line = host_keys::learned_line(check.host_pattern, text);
    first_use_learns(check, existing, existed);
    assert(host_keys::finding(lines, check.host_pattern, presented) is Unknown);
    assert(host_keys::finding(
        text::lines_of(with_added(existing, line)),
        check.host_pattern,
        presented,
    ) == if keys::as_stored(presented) == keys::as_stored(check.key) {
        host_keys::Finding::Trusted
    } else {
        host_keys::Finding::KeyChanged {
            line: lines.len() + 1,
            expected: keys::sha256_fingerprint(check.key.data),
        }
    });
}

/// Law: a host that the file already knows is answered at once; nothing is asked of the file but to
/// be read.
pub proof fn known_hosts_are_only_read(check: host_keys::CheckView, existing: Seq<char>)
    requires
        check.phase is Reading,
        !(host_keys::finding(
            text::lines_of(existing),
            check.host_pattern,
            check.key,
        ) is Unknown),
    ensures
        ({
            let (after, action) = host_keys::next(
                check,
                host_keys::StoreEventView::Text(existing),
            );
            after.phase is Finished && action is Finish
        }),
{
}

/// Law: a check first finds out where the file is. Where it is known, the file is read; where it
/// cannot be found out, that is the outcome, and no file is read or written.
pub proof fn checks_locate_their_file(check: host_keys::CheckView, err: std::io::Error)
    requires
        check.phase is Locating,
    ensures
        host_keys::next(check, host_keys::StoreEventView::Located) == (
            host_keys::in_phase(check, host_keys::PhaseView::Reading),
            host_keys::StoreActionView::Read,
        ),
        host_keys::next(check, host_keys::StoreEventView::Failed(err)) == host_keys::finishes(
            check,
            Err(host_keys::HostKeyErrorView::Io(err)),
        ),
{
}

/// A check that is told one event after the other, until it finishes: how it is then, and the text of
/// a file that held `file` at first, with everything appended that was asked for.
pub open spec fn run(
    check: host_keys::CheckView,
    file: Seq<char>,
    events: Seq<host_keys::StoreEventView>,
) -> (host_keys::CheckView, Seq<char>)
    decreases events.len(),
{
    if events.len() == 0 || check.phase is Finished {
        (check, file)
    } else {
        let (one, action) = host_keys::next(check, events[0]);
        run(one, file + written(action), events.skip(1))
    }
}

/// The text that is appended for the host and key of a check.
pub open spec fn line_of(check: host_keys::CheckView) -> Seq<char> {
    match keys::openssh_text(check.key.data, check.key.comment) {
        Ok(text) => host_keys::learned_line(check.host_pattern, text),
        Err(_) => seq![],
    }
}

/// Law: whatever a check is told, the text of the file only grows, at its end: by the text for the
/// host and key, by a line feed, by both, or by nothing. A check keeps its host and key.
pub proof fn files_only_grow(
    check: host_keys::CheckView,
    file: Seq<char>,
    events: Seq<host_keys::StoreEventView>,
)
    ensures
        ({
            let (last, after) = run(check, file, events);
            let line = line_of(check);
            &&& file.is_prefix_of(after)
            &&& {
                ||| after == file
                ||| after == file.push('\n')
                ||| after == file + line
                ||| after == file.push('\n') + line
            }
            &&& last == host_keys::in_phase(check, last.phase)
        }),
{
    lemma_run(check, file, events);
    let (_, after) = run(check, file, events);
    let line = line_of(check);
    assert(file.is_prefix_of(file.push('\n')));
    assert(file.is_prefix_of(file + line));
    assert(file.is_prefix_of(file.push('\n') + line));
}

proof fn lemma_run(
    check: host_keys::CheckView,
    file: Seq<char>,
    events: Seq<host_keys::StoreEventView>,
)
    ensures
        ({
            let (last, after) = run(check, file, events);
            let line = line_of(check);
            &&& last == host_keys::in_phase(check, last.phase)
            &&& match check.phase {
                host_keys::PhaseView::Finished => after == file,
                host_keys::PhaseView::Appending => after == file,
                host_keys::PhaseView::Preparing => after == file || after == file + line,
                _ => after == file || after == file.push('\n') || after == file + line || after
                    == file.push('\n') + line,
            }
        }),
    decreases events.len(),
{
    if events.len() > 0 && !(check.phase is Finished) {
        let (one, action) = host_keys::next(check, events[0]);
        let none: Seq<char> = seq![];
        assert(file + none =~= file);
        assert(file + seq!['\n'] =~= file.push('\n'));
        lemma_run(one, file + written(action), events.skip(1));
    }
}

// ---------------------------------------------------------------------------
// Host patterns

/// Law: a host that [`rememberable_host`] admits has a pattern that can be read back, at every
/// port.
pub proof fn rememberable_hosts_have_rememberable_patterns(host: Seq<char>, port: nat)
    requires
        rememberable_host(host),
    ensures
        rememberable_pattern(host_keys::host_pattern_of(host, port)),
{
    let h = text::trimmed(host);
    let d = text::decimal_of(port);
    let p = host_keys::host_pattern_of(host, port);
    text::lemma_decimal_digits(port);
    assert(p[0] == '[');
    assert forall|i: int| 0 <= i < p.len() implies p[i] != ' ' && p[i] != ',' && p[i] != '#' && p[i]
        != '\n' by {
        if 1 <= i < h.len() + 1 {
            assert(p[i] == h[i - 1]);
            assert(h.contains(p[i]));
        } else if i >= h.len() + 3 {
            assert(p[i] == d[i - h.len() - 3]);
        }
    }
}

/// Law: two connections have the same pattern only where host and port are the same, the host
/// without the white space around it.
pub proof fn patterns_tell_hosts_apart(host1: Seq<char>, port1: nat, host2: Seq<char>, port2: nat)
    requires
        host_keys::host_pattern_of(host1, port1) == host_keys::host_pattern_of(
            host2,
            port2,
        ),
    ensures
        text::trimmed(host1) == text::trimmed(host2),
        port1 == port2,
{
    let h1 = text::trimmed(host1);
    let h2 = text::trimmed(host2);
    let d1 = text::decimal_of(port1);
    let d2 = text::decimal_of(port2);
    let p = host_keys::host_pattern_of(host1, port1);
    text::lemma_decimal_digits(port1);
    text::lemma_decimal_digits(port2);
    let q = host_keys::host_pattern_of(host2, port2);
    assert(p[h1.len() as int + 2] == ':');
    assert(q[h2.len() as int + 2] == ':');
    assert(p.len() == h1.len() + 3 + d1.len());
    assert(q.len() == h2.len() + 3 + d2.len());
    if d1.len() < d2.len() {
        let i = h1.len() + 2;
        assert(q[i as int] == d2[i - h2.len() - 3]);
    } else if d2.len() < d1.len() {
        let i = h2.len() + 2;
        assert(p[i as int] == d1[i - h1.len() - 3]);
    }
    assert(h1.len() == h2.len());
    assert(d1 =~= p.skip(h1.len() as int + 3));
    assert(d2 =~= q.skip(h2.len() as int + 3));
    text::lemma_decimal_injective(port1, port2);
    assert(h1 =~= p.subrange(1, h1.len() as int + 1));
    assert(h2 =~= q.subrange(1, h2.len() as int + 1));
}

/// Law: the pattern of a host and port is the trimmed host in square brackets, a colon, and digits
/// that are read as the port.
pub proof fn patterns_name_the_host_and_port(host: Seq<char>, port: nat)
    ensures
        ({
            let p = host_keys::host_pattern_of(host, port);
            let h = text::trimmed(host);
            let n = h.len() as int;
            &&& p.len() > n + 3
            &&& p[0] == '['
            &&& p.subrange(1, n + 1) == h
            &&& p[n + 1] == ']'
            &&& p[n + 2] == ':'
            &&& text::number(p.skip(n + 3)) == port
            &&& p.skip(n + 3) == text::decimal_of(port)
        }),
{
    let p = host_keys::host_pattern_of(host, port);
    let n = text::trimmed(host).len() as int;
    text::numbers_read_back(port);
    text::lemma_decimal_digits(port);
    assert(p.skip(n + 3) =~= text::decimal_of(port));
    assert(p.subrange(1, n + 1) =~= text::trimmed(host));
}

// ---------------------------------------------------------------------------
// What a file says

/// Law: what follows the first number sign of a line is not read, and everything before it is.
pub proof fn number_signs_begin_comments(kept: Seq<char>, comment: Seq<char>)
    requires
        !kept.contains('#'),
    ensures
        host_keys::uncommented(kept) == kept,
        host_keys::uncommented(kept + seq!['#'] + comment) == kept,
        host_keys::entry_on(kept + seq!['#'] + comment) == host_keys::entry_on(kept),
        host_keys::fault_on(kept + seq!['#'] + comment) == host_keys::fault_on(kept),
{
    let line = kept + seq!['#'] + comment;
    assert forall|j: int| 0 <= j < kept.len() implies kept[j] != '#' && line[j] == kept[j] by {
        assert(kept.contains(kept[j]));
    }
    assert(line[kept.len() as int] == '#');
    text::lemma_find_is(kept, '#', kept.len());
    text::lemma_find_is(line, '#', kept.len());
    assert(kept.take(kept.len() as int) =~= kept);
    assert(line.take(kept.len() as int) =~= kept);
}

/// Law: a line holds what is read from it without its comment and the white space around it: an
/// entry, or a fault where it cannot be read. A blank line holds neither.
pub proof fn lines_hold_what_is_read_from_them(
    before: Seq<char>,
    line: Seq<char>,
    after: Seq<char>,
)
    requires
        !before.contains('#') && !line.contains('#') && !after.contains('#'),
        forall|i: int| 0 <= i < before.len() ==> text::white_space(#[trigger] before[i]),
        forall|i: int| 0 <= i < after.len() ==> text::white_space(#[trigger] after[i]),
        line.len() > 0 ==> !text::white_space(line[0]) && !text::white_space(line.last()),
    ensures
        ({
            let entry = host_keys::entry_on(before + line + after);
            let fault = host_keys::fault_on(before + line + after);
            &&& line.len() == 0 ==> entry is None && fault is None
            &&& line.len() > 0 && keys::entry_of(line) is Ok ==> entry == Some(
                keys::entry_of(line)->Ok_0,
            ) && fault is None
            &&& line.len() > 0 && keys::entry_of(line) is Err ==> entry is None && fault == Some(
                keys::entry_of(line)->Err_0,
            )
        }),
{
    let all = before + line + after;
    assert(!all.contains('#')) by {
        if all.contains('#') {
            let i = choose|i: int| 0 <= i < all.len() && all[i] == '#';
            if i < before.len() {
                assert(before[i] == '#');
            } else if i < before.len() + line.len() {
                assert(line[i - before.len()] == '#');
            } else {
                assert(after[i - before.len() - line.len()] == '#');
            }
        }
    }
    number_signs_begin_comments(all, seq![]);
    text::trimming_cuts_white_space(before, line, after);
}

/// Law: a list of patterns names the hosts that it lists, and no others; a hashed name names none.
pub proof fn entries_name_the_hosts_they_list(
    listed: Seq<Seq<char>>,
    salt: Seq<u8>,
    hash: Seq<u8>,
    host_pattern: Seq<char>,
)
    ensures
        host_keys::names_host(keys::HostPatternsView::Patterns(listed), host_pattern) <==> exists|
            i: int,
        |
            0 <= i < listed.len() && #[trigger] listed[i] == host_pattern,
        !host_keys::names_host(keys::HostPatternsView::HashedName { salt, hash }, host_pattern),
{
}

/// Law: the first entry for a host decides, on whatever line it stands. Where it is revoked, the host
/// is refused as revoked, with the number of that line; else the host is trusted where the entry is
/// for the key that it presents, and where it is not, it is refused with the number of that line and
/// both fingerprints.
pub proof fn the_first_entry_decides(
    lines: Seq<Seq<char>>,
    host_pattern: Seq<char>,
    key: keys::KeyView,
    n: nat,
    entry: keys::EntryView,
)
    requires
        n < lines.len(),
        host_keys::entry_on(lines[n as int]) == Some(entry),
        host_keys::names_host(entry.host_patterns, host_pattern),
        forall|j: int|
            0 <= j < n ==> (#[trigger] host_keys::entry_on(lines[j]) matches Some(earlier)
                ==> !host_keys::names_host(earlier.host_patterns, host_pattern)),
    ensures
        ({
            let found = host_keys::finding(lines, host_pattern, key);
            let said = host_keys::answer(found, host_pattern, key);
            let revoked = entry.marker == Some(keys::Marker::Revoked);
            let same = entry.key.data == key.data && entry.key.comment == keys::held_comment_of(
                key.comment,
            );
            let expected = keys::sha256_fingerprint(entry.key.data);
            let actual = keys::sha256_fingerprint(key.data);
            let line = n + 1;
            &&& revoked ==> found == (host_keys::Finding::Revoked { line })
            &&& revoked ==> said == Err::<bool, _>(
                host_keys::HostKeyErrorView::Revoked { host_pattern, line },
            )
            &&& !revoked && same ==> found is Trusted && said == Ok::<
                bool,
                host_keys::HostKeyErrorView,
            >(true)
            &&& !revoked && !same ==> found == (host_keys::Finding::KeyChanged { line, expected })
            &&& !revoked && !same ==> said == Err::<bool, _>(
                host_keys::HostKeyErrorView::KeyChanged { host_pattern, line, expected, actual },
            )
        }),
{
    assert forall|j: int| 0 <= j < n implies !host_keys::is_about(
        #[trigger] lines[j],
        host_pattern,
    ) by {
        assert(host_keys::entry_on(lines[j]) matches Some(earlier) ==> !host_keys::names_host(
            earlier.host_patterns,
            host_pattern,
        ));
    }
    host_keys::lemma_first_about_is(lines, host_pattern, n);
}

/// Law: a host for which no line has an entry is unknown, whatever key it presents: it is neither
/// trusted nor refused.
pub proof fn hosts_without_an_entry_are_unknown(
    lines: Seq<Seq<char>>,
    host_pattern: Seq<char>,
    key: keys::KeyView,
)
    requires
        forall|j: int|
            0 <= j < lines.len() ==> (#[trigger] host_keys::entry_on(lines[j]) matches Some(entry)
                ==> !host_keys::names_host(entry.host_patterns, host_pattern)),
    ensures
        host_keys::finding(lines, host_pattern, key) is Unknown,
        host_keys::answer(
            host_keys::finding(lines, host_pattern, key),
            host_pattern,
            key,
        ) == Ok::<bool, host_keys::HostKeyErrorView>(false),
{
    assert forall|j: int| 0 <= j < lines.len() implies !host_keys::is_about(
        #[trigger] lines[j],
        host_pattern,
    ) by {
        assert(host_keys::entry_on(lines[j]) matches Some(entry) ==> !host_keys::names_host(
            entry.host_patterns,
            host_pattern,
        ));
    }
    host_keys::lemma_first_about_is(lines, host_pattern, lines.len());
}

/// A line that cannot be read, for this reason, counted from one.
pub open spec fn unreadable(lines: Seq<Seq<char>>, line: nat, error: ssh_key::Error) -> bool {
    1 <= line <= lines.len() && host_keys::fault_on(lines[line - 1]) == Some(error)
}

proof fn lemma_faulty(lines: Seq<Seq<char>>)
    ensures
        forall|ignored: host_keys::IgnoredLineView| #[trigger]
            host_keys::faulty(lines).contains(ignored) <==> unreadable(
                lines,
                ignored.line,
                ignored.error,
            ),
        forall|i: int, j: int|
            0 <= i < j < host_keys::faulty(lines).len() ==> (#[trigger] host_keys::faulty(
                lines,
            )[i]).line < (#[trigger] host_keys::faulty(lines)[j]).line,
    decreases lines.len(),
{
    let all = host_keys::faulty(lines);
    if lines.len() > 0 {
        let rest = lines.drop_last();
        let before = host_keys::faulty(rest);
        lemma_faulty(rest);
        assert forall|i: int| 0 <= i < before.len() implies (#[trigger] before[i]).line
            <= rest.len() by {
            assert(before.contains(before[i]));
            assert(unreadable(rest, before[i].line, before[i].error));
        }
        assert forall|ignored: host_keys::IgnoredLineView| #[trigger]
            all.contains(ignored) <==> unreadable(lines, ignored.line, ignored.error) by {
            assert(before.contains(ignored) <==> unreadable(rest, ignored.line, ignored.error));
            if 1 <= ignored.line <= rest.len() {
                assert(rest[ignored.line - 1] == lines[ignored.line - 1]);
            }
            if all.contains(ignored) {
                let i = choose|i: int| 0 <= i < all.len() && all[i] == ignored;
                if i < before.len() {
                    assert(before[i] == ignored);
                }
            }
            if before.contains(ignored) {
                let i = choose|i: int| 0 <= i < before.len() && before[i] == ignored;
                assert(all[i] == ignored);
            }
            if unreadable(lines, ignored.line, ignored.error) && ignored.line == lines.len() {
                assert(all[all.len() - 1] == ignored);
            }
        }
        assert forall|i: int, j: int| 0 <= i < j < all.len() implies (#[trigger] all[i]).line < (
        #[trigger] all[j]).line by {
            assert(all[i] == before[i]);
            if j < before.len() {
                assert(all[j] == before[j]);
            }
        }
    }
}

/// Law: exactly the lines are told as ignored that cannot be read and that no entry for the host stands
/// before, each with its number and reason, in the order of the file.
pub proof fn unreadable_lines_are_told(
    lines: Seq<Seq<char>>,
    host_pattern: Seq<char>,
    ignored: host_keys::IgnoredLineView,
)
    ensures
        host_keys::ignored_of(lines, host_pattern).contains(ignored) <==> unreadable(
            lines,
            ignored.line,
            ignored.error,
        ) && forall|j: int|
            0 <= j < ignored.line ==> (#[trigger] host_keys::entry_on(lines[j]) matches Some(entry)
                ==> !host_keys::names_host(entry.host_patterns, host_pattern)),
        forall|i: int, j: int|
            0 <= i < j < host_keys::ignored_of(lines, host_pattern).len() ==> (
            #[trigger] host_keys::ignored_of(lines, host_pattern)[i]).line < (
            #[trigger] host_keys::ignored_of(lines, host_pattern)[j]).line,
{
    let n = host_keys::first_about(lines, host_pattern);
    let read = lines.take(n as int);
    host_keys::lemma_first_about(lines, host_pattern);
    lemma_faulty(read);
    assert(host_keys::ignored_of(lines, host_pattern).contains(ignored) <==> unreadable(
        read,
        ignored.line,
        ignored.error,
    ));
    if 1 <= ignored.line <= n {
        assert(read[ignored.line - 1] == lines[ignored.line - 1]);
        assert forall|j: int| 0 <= j < ignored.line implies (#[trigger] host_keys::entry_on(
            lines[j],
        ) matches Some(entry) ==> !host_keys::names_host(entry.host_patterns, host_pattern)) by {
            assert(!host_keys::is_about(lines[j], host_pattern));
        }
    } else if unreadable(lines, ignored.line, ignored.error) {
        assert(host_keys::is_about(lines[n as int], host_pattern));
        assert(host_keys::entry_on(lines[n as int]) is Some);
    }
}

// ---------------------------------------------------------------------------
// What a check does next

/// The check keeps its host and key.
pub open spec fn keeps(before: host_keys::CheckView, after: host_keys::CheckView) -> bool {
    after.host_pattern == before.host_pattern && after.key == before.key
}

/// Law: whatever was being done, a failure ends the check with that very error.
pub proof fn failures_end_checks(check: host_keys::CheckView, err: std::io::Error)
    ensures
        ({
            let (after, action) = host_keys::next(check, host_keys::StoreEventView::Failed(err));
            &&& keeps(check, after)
            &&& after.phase is Finished
            &&& action == host_keys::StoreActionView::Finish(
                Err(host_keys::HostKeyErrorView::Io(err)),
            )
        }),
{
}

/// Law: a check that is told that there is no file goes on exactly as with an empty one. No host is
/// known then: its key is to be learned, and it is not trusted yet.
pub proof fn missing_files_are_empty_files(check: host_keys::CheckView)
    requires
        check.phase is Reading,
    ensures
        ({
            let (after, action) = host_keys::next(check, host_keys::StoreEventView::Missing);
            let nothing: Seq<char> = seq![];
            &&& (after, action) == host_keys::next(
                check,
                host_keys::StoreEventView::Text(nothing),
            )
            &&& keeps(check, after)
            &&& after.phase == (host_keys::PhaseView::CreatingParent { existing: nothing })
            &&& action is CreateParent
        }),
{
    let nothing: Seq<char> = seq![];
    assert(!nothing.contains('\n'));
    text::texts_without_line_feeds_are_one_line(nothing);
    hosts_without_an_entry_are_unknown(text::lines_of(nothing), check.host_pattern, check.key);
}

/// Law: the text of the file settles a check, whatever its length: a trusted host ends it as trusted, a
/// refused one with the error that refuses it, and for an unknown one the key is to be learned.
pub proof fn the_text_settles_a_check(check: host_keys::CheckView, existing: Seq<char>)
    requires
        check.phase is Reading,
    ensures
        ({
            let (after, action) = host_keys::next(
                check,
                host_keys::StoreEventView::Text(existing),
            );
            let found = host_keys::finding(
                text::lines_of(existing),
                check.host_pattern,
                check.key,
            );
            let said = host_keys::answer(found, check.host_pattern, check.key);
            &&& keeps(check, after)
            &&& found is Trusted <==> action == host_keys::StoreActionView::Finish(
                Ok(host_keys::HostKeyStatus::Trusted),
            )
            &&& found is Unknown <==> action is CreateParent
            &&& found is Unknown <==> after.phase == (host_keys::PhaseView::CreatingParent {
                existing,
            })
            &&& !(found is Unknown) <==> after.phase is Finished
            &&& found is Revoked || found is KeyChanged ==> action
                == host_keys::StoreActionView::Finish(Err(said->Err_0))
        }),
{
}

/// Law: for a key that is to be learned, the directory is created, then the file is opened. A new
/// file is left to its owner alone; in one that ends within a line, that line is ended first. Only
/// then, or at once in any other file, the line of the host and key is appended.
pub proof fn keys_are_learned_in_order(
    check: host_keys::CheckView,
    existing: Seq<char>,
    text: Seq<char>,
)
    requires
        keys::openssh_text(check.key.data, check.key.comment) == Ok::<
            Seq<char>,
            ssh_key::Error,
        >(text),
    ensures
        ({
            let done = host_keys::StoreEventView::Done;
            let line = check.host_pattern + seq![' '] + text + seq!['\n'];
            let within = existing.len() > 0 && existing[existing.len() - 1] != '\n';
            let creating = host_keys::CheckView {
                phase: host_keys::PhaseView::CreatingParent { existing },
                ..check
            };
            let opening = host_keys::CheckView {
                phase: host_keys::PhaseView::Opening { existing },
                ..check
            };
            let preparing = host_keys::CheckView {
                phase: host_keys::PhaseView::Preparing,
                ..check
            };
            let appending = host_keys::CheckView {
                phase: host_keys::PhaseView::Appending,
                ..check
            };
            let finished = host_keys::CheckView {
                phase: host_keys::PhaseView::Finished,
                ..check
            };
            let new = host_keys::StoreEventView::Opened { existed: false };
            let old_file = host_keys::StoreEventView::Opened { existed: true };
            let append = host_keys::StoreActionView::Write(line);
            &&& host_keys::next(creating, done) == (opening, host_keys::StoreActionView::Open)
            &&& host_keys::next(opening, new) == (
                preparing,
                host_keys::StoreActionView::Restrict { mode: 0o600 },
            )
            &&& within ==> host_keys::next(opening, old_file) == (
                preparing,
                host_keys::StoreActionView::Write(seq!['\n']),
            )
            &&& !within ==> host_keys::next(opening, old_file) == (appending, append)
            &&& host_keys::next(preparing, done) == (appending, append)
            &&& host_keys::next(appending, done) == (
                finished,
                host_keys::StoreActionView::Finish(Ok(host_keys::HostKeyStatus::Learned)),
            )
        }),
{
    let line = check.host_pattern + seq![' '] + text + seq!['\n'];
    assert(host_keys::learned_line(check.host_pattern, text) =~= line);
}

/// Law: the line of a host and key is the host, whole, one space, the text of the key, whole, and a
/// line feed.
pub proof fn learned_lines_hold_host_and_key(host_pattern: Seq<char>, text: Seq<char>)
    ensures
        ({
            let line = host_keys::learned_line(host_pattern, text);
            let n = host_pattern.len() as int;
            &&& line.len() == n + 1 + text.len() + 1
            &&& line.take(n) == host_pattern
            &&& line[n] == ' '
            &&& line.subrange(n + 1, n + 1 + text.len()) == text
            &&& line.last() == '\n'
        }),
{
    let line = host_keys::learned_line(host_pattern, text);
    let n = host_pattern.len() as int;
    assert(line.take(n) =~= host_pattern);
    assert(line.subrange(n + 1, n + 1 + text.len()) =~= text);
}

/// Law: a key that cannot be written ends the check with that very error, and nothing is appended.
pub proof fn keys_that_cannot_be_written_are_not_learned(
    check: host_keys::CheckView,
    error: ssh_key::Error,
)
    requires
        check.phase is Preparing,
        keys::openssh_text(check.key.data, check.key.comment) == Err::<Seq<char>, ssh_key::Error>(
            error,
        ),
    ensures
        ({
            let (after, action) = host_keys::next(check, host_keys::StoreEventView::Done);
            &&& after.phase is Finished
            &&& action == host_keys::StoreActionView::Finish(
                Err(host_keys::HostKeyErrorView::SshKey(error)),
            )
        }),
{
}

/// Law: a check can be told of every outcome of what it asked for, with any contents, and of nothing
/// else; one that has finished is told nothing more.
pub proof fn checks_are_told_every_outcome(
    existing: Seq<char>,
    contents: Seq<char>,
    existed: bool,
    err: std::io::Error,
)
    ensures
        ({
            let located = host_keys::StoreEventView::Located;
            let text = host_keys::StoreEventView::Text(contents);
            let missing = host_keys::StoreEventView::Missing;
            let opened = host_keys::StoreEventView::Opened { existed };
            let done = host_keys::StoreEventView::Done;
            let failed = host_keys::StoreEventView::Failed(err);
            let told = |p: host_keys::PhaseView| (
                host_keys::expects(p, located),
                host_keys::expects(p, text),
                host_keys::expects(p, missing),
                host_keys::expects(p, opened),
                host_keys::expects(p, done),
                host_keys::expects(p, failed),
            );
            let creating = host_keys::PhaseView::CreatingParent { existing };
            let opening = host_keys::PhaseView::Opening { existing };
            &&& told(host_keys::PhaseView::Locating) == (true, false, false, false, false, true)
            &&& told(host_keys::PhaseView::Reading) == (false, true, true, false, false, true)
            &&& told(creating) == (false, false, false, false, true, true)
            &&& told(opening) == (false, false, false, true, false, true)
            &&& told(host_keys::PhaseView::Preparing) == (false, false, false, false, true, true)
            &&& told(host_keys::PhaseView::Appending) == (false, false, false, false, true, true)
            &&& told(host_keys::PhaseView::Finished) == (
                false,
                false,
                false,
                false,
                false,
                false,
            )
        }),
{
}

/// Law: the contents of what a check asks for, and is told, are all that they hold.
pub proof fn actions_and_events_are_seen_whole(
    text: String,
    name: &'static str,
    mode: u32,
    existed: bool,
    status: host_keys::HostKeyStatus,
    err: std::io::Error,
    refusal: host_keys::HostKeyError,
)
    ensures
        (host_keys::StoreAction::Locate { name })@ == (host_keys::StoreActionView::Locate {
            name: name@,
        }),
        host_keys::StoreAction::Read@ == host_keys::StoreActionView::Read,
        host_keys::StoreAction::CreateParent@ == host_keys::StoreActionView::CreateParent,
        host_keys::StoreAction::Open@ == host_keys::StoreActionView::Open,
        (host_keys::StoreAction::Restrict { mode })@ == (host_keys::StoreActionView::Restrict {
            mode,
        }),
        host_keys::StoreAction::Write(text)@ == host_keys::StoreActionView::Write(text@),
        host_keys::StoreAction::Finish(Ok(status))@ == host_keys::StoreActionView::Finish(
            Ok(status),
        ),
        host_keys::StoreAction::Finish(Err(refusal))@ == host_keys::StoreActionView::Finish(
            Err(refusal@),
        ),
        host_keys::StoreEvent::Located@ == host_keys::StoreEventView::Located,
        host_keys::StoreEvent::Text(text)@ == host_keys::StoreEventView::Text(text@),
        host_keys::StoreEvent::Missing@ == host_keys::StoreEventView::Missing,
        (host_keys::StoreEvent::Opened { existed })@ == (host_keys::StoreEventView::Opened {
            existed,
        }),
        host_keys::StoreEvent::Done@ == host_keys::StoreEventView::Done,
        host_keys::StoreEvent::Failed(err)@ == host_keys::StoreEventView::Failed(err),
{
}

/// Law: the contents of an error, and of an ignored line, are all that they hold.
pub proof fn errors_are_seen_whole(
    host_pattern: String,
    line: usize,
    expected: String,
    actual: String,
    err: std::io::Error,
    error: ssh_key::Error,
    ignored: Seq<host_keys::IgnoredLine>,
)
    ensures
        (host_keys::HostKeyError::KeyChanged { host_pattern, line, expected, actual })@ == (
        host_keys::HostKeyErrorView::KeyChanged {
            host_pattern: host_pattern@,
            line: line as nat,
            expected: expected@,
            actual: actual@,
        }),
        (host_keys::HostKeyError::Revoked { host_pattern, line })@ == (
        host_keys::HostKeyErrorView::Revoked { host_pattern: host_pattern@, line: line as nat }),
        host_keys::HostKeyError::Io(err)@ == host_keys::HostKeyErrorView::Io(err),
        host_keys::HostKeyError::SshKey(error)@ == host_keys::HostKeyErrorView::SshKey(error),
        host_keys::ignored_views(ignored).len() == ignored.len(),
        forall|i: int|
            0 <= i < ignored.len() ==> (#[trigger] host_keys::ignored_views(ignored)[i]).line
                == ignored[i].line && host_keys::ignored_views(ignored)[i].error
                == ignored[i].error,
{
}

/// Law: a refusal names the host and the line, and a changed key both fingerprints, whatever they
/// are. An error that carries another one has no words of its own.
pub proof fn refusals_say_why(
    host_pattern: Seq<char>,
    line: nat,
    expected: Seq<char>,
    actual: Seq<char>,
    err: std::io::Error,
    error: ssh_key::Error,
)
    ensures
        host_keys::error_message(
            host_keys::HostKeyErrorView::KeyChanged { host_pattern, line, expected, actual },
        ) == Some(
            "host key changed for "@ + (host_pattern + ("; line "@ + (text::decimal_of(line) + (
            "; expected "@ + (expected + ("; got "@ + actual)))))),
        ),
        host_keys::error_message(host_keys::HostKeyErrorView::Revoked { host_pattern, line })
            == Some(
            "host key for "@ + (host_pattern + (" is revoked at line "@ + text::decimal_of(line))),
        ),
        host_keys::error_message(host_keys::HostKeyErrorView::Io(err)) is None,
        host_keys::error_message(host_keys::HostKeyErrorView::SshKey(error)) is None,
{
    let changed = host_keys::error_message(
        host_keys::HostKeyErrorView::KeyChanged { host_pattern, line, expected, actual },
    )->Some_0;
    assert(changed =~= "host key changed for "@ + (host_pattern + ("; line "@ + (text::decimal_of(
        line,
    ) + ("; expected "@ + (expected + ("; got "@ + actual)))))));
    let revoked = host_keys::error_message(
        host_keys::HostKeyErrorView::Revoked { host_pattern, line },
    )->Some_0;
    assert(revoked =~= "host key for "@ + (host_pattern + (" is revoked at line "@
        + text::decimal_of(line))));
}

} // verus!
