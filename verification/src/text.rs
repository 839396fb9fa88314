//! Plain text: characters, white space, lines and decimal numbers.

use vstd::prelude::*;
use vstd::string::StrSliceExecFns;

verus! {

/// `String::push` of std: appends one character to the end of the string and changes nothing else.
pub assume_specification[ String::push ](s: &mut String, c: char)
    ensures
        final(s)@ == old(s)@.push(c),
;

/// The characters of `s`, in order.
pub fn chars_of(s: &str) -> (v: Vec<char>)
    ensures
        v@ == s@,
{
    let mut v: Vec<char> = Vec::new();
    for c in it: s.chars()
        invariant
            it.seq() == s@,
            v@ == s@.take(it.index()),
    {
        v.push(c);
    }
    v
}

/// The characters of `v` from `from` up to `to`, as a string.
pub fn string_of(v: &Vec<char>, from: usize, to: usize) -> (s: String)
    requires
        from <= to <= v@.len(),
    ensures
        s@ == v@.subrange(from as int, to as int),
{
    let mut s = String::new();
    let mut i: usize = from;
    while i < to
        invariant
            from <= i <= to <= v@.len(),
            s@ == v@.subrange(from as int, i as int),
        decreases to - i,
    {
        s.push(v[i]);
        i += 1;
    }
    s
}

// ---------------------------------------------------------------------------
// The first occurrence of a character

/// The index of the first `c` in `s`, or the length of `s` where there is none.
pub open spec fn find(s: Seq<char>, c: char) -> nat
    decreases s.len(),
{
    if s.len() == 0 || s[0] == c {
        0
    } else {
        1 + find(s.skip(1), c)
    }
}

/// What `find` returns: nothing before it is `c`, and it is a `c` unless it is the end.
pub proof fn lemma_find(s: Seq<char>, c: char)
    ensures
        find(s, c) <= s.len(),
        forall|j: int| 0 <= j < find(s, c) ==> s[j] != c,
        find(s, c) < s.len() ==> s[find(s, c) as int] == c,
    decreases s.len(),
{
    if s.len() > 0 && s[0] != c {
        let t = s.skip(1);
        lemma_find(t, c);
        assert forall|j: int| 0 <= j < find(s, c) implies s[j] != c by {
            if j > 0 {
                assert(t[j - 1] == s[j]);
            }
        }
        if find(s, c) < s.len() {
            assert(t[find(t, c) as int] == s[find(s, c) as int]);
        }
    }
}

/// `find` is the only index with the properties of [`lemma_find`].
pub proof fn lemma_find_is(s: Seq<char>, c: char, n: nat)
    requires
        n <= s.len(),
        forall|j: int| 0 <= j < n ==> s[j] != c,
        n < s.len() ==> s[n as int] == c,
    ensures
        find(s, c) == n,
{
    lemma_find(s, c);
    let m = find(s, c);
    if m < n {
        assert(s[m as int] != c);
    } else if n < m {
        assert(s[n as int] != c);
    }
}

/// The index of the first `c` in `v` at or after `from`, or the length of `v` where there is none.
pub fn find_from(v: &Vec<char>, c: char, from: usize) -> (n: usize)
    requires
        from <= v@.len(),
    ensures
        n == from + find(v@.skip(from as int), c),
        n <= v@.len(),
{
    let mut i: usize = from;
    while i < v.len() && v[i] != c
        invariant
            from <= i <= v@.len(),
            forall|j: int| from <= j < i ==> v@[j] != c,
        decreases v@.len() - i,
    {
        i += 1;
    }
    proof {
        let t = v@.skip(from as int);
        assert forall|j: int| 0 <= j < i - from implies t[j] != c by {
            assert(t[j] == v@[from + j]);
        }
        lemma_find_is(t, c, (i - from) as nat);
    }
    i
}

// ---------------------------------------------------------------------------
// White space

/// The characters with the Unicode property `White_Space`.
pub open spec fn white_space(c: char) -> bool {
    ||| '\u{9}' <= c <= '\u{d}'
    ||| c == ' '
    ||| c == '\u{85}'
    ||| c == '\u{a0}'
    ||| c == '\u{1680}'
    ||| '\u{2000}' <= c <= '\u{200a}'
    ||| c == '\u{2028}'
    ||| c == '\u{2029}'
    ||| c == '\u{202f}'
    ||| c == '\u{205f}'
    ||| c == '\u{3000}'
}

/// Whether `c` is white space.
pub fn is_white_space(c: char) -> (r: bool)
    ensures
        r == white_space(c),
{
    ('\u{9}' <= c && c <= '\u{d}') || c == ' ' || c == '\u{85}' || c == '\u{a0}' || c == '\u{1680}'
        || ('\u{2000}' <= c && c <= '\u{200a}') || c == '\u{2028}' || c == '\u{2029}' || c
        == '\u{202f}' || c == '\u{205f}' || c == '\u{3000}'
}

/// `s` without its leading white space.
pub open spec fn trimmed_start(s: Seq<char>) -> Seq<char>
    decreases s.len(),
{
    if s.len() > 0 && white_space(s[0]) {
        trimmed_start(s.skip(1))
    } else {
        s
    }
}

/// `s` without its trailing white space.
pub open spec fn trimmed_end(s: Seq<char>) -> Seq<char>
    decreases s.len(),
{
    if s.len() > 0 && white_space(s.last()) {
        trimmed_end(s.drop_last())
    } else {
        s
    }
}

/// `s` without its leading and trailing white space.
pub open spec fn trimmed(s: Seq<char>) -> Seq<char> {
    trimmed_end(trimmed_start(s))
}

proof fn lemma_trimmed_start_is(s: Seq<char>, i: int)
    requires
        0 <= i <= s.len(),
        forall|k: int| 0 <= k < i ==> white_space(s[k]),
        i < s.len() ==> !white_space(s[i]),
    ensures
        trimmed_start(s) == s.skip(i),
    decreases s.len(),
{
    if i > 0 {
        let t = s.skip(1);
        assert(white_space(s[0]));
        assert forall|k: int| 0 <= k < i - 1 implies white_space(t[k]) by {
            assert(t[k] == s[k + 1]);
        }
        lemma_trimmed_start_is(t, i - 1);
        assert(t.skip(i - 1) =~= s.skip(i));
    } else {
        assert(s.skip(0) =~= s);
    }
}

/// Trimming the end keeps what lies before the white space at the end.
pub proof fn lemma_trimmed_end_is(s: Seq<char>, j: int)
    requires
        0 <= j <= s.len(),
        forall|k: int| j <= k < s.len() ==> white_space(s[k]),
        0 < j ==> !white_space(s[j - 1]),
    ensures
        trimmed_end(s) == s.take(j),
    decreases s.len(),
{
    if j < s.len() {
        assert(white_space(s.last()));
        lemma_trimmed_end_is(s.drop_last(), j);
        assert(s.drop_last().take(j) =~= s.take(j));
    } else {
        assert(s.take(j) =~= s);
    }
}

/// Where trimming the end cuts.
pub proof fn lemma_trimmed_end_bound(s: Seq<char>) -> (j: int)
    ensures
        0 <= j <= s.len(),
        forall|k: int| j <= k < s.len() ==> white_space(s[k]),
        0 < j ==> !white_space(s[j - 1]),
        trimmed_end(s) == s.take(j),
    decreases s.len(),
{
    if s.len() > 0 && white_space(s.last()) {
        let t = s.drop_last();
        let j = lemma_trimmed_end_bound(t);
        assert forall|k: int| j <= k < s.len() implies white_space(s[k]) by {
            if k < t.len() {
                assert(t[k] == s[k]);
            }
        }
        lemma_trimmed_end_is(s, j);
        j
    } else {
        lemma_trimmed_end_is(s, s.len() as int);
        s.len() as int
    }
}

/// Trimming keeps what lies between the first and the last character that is not white space.
pub proof fn lemma_trimmed_is(s: Seq<char>, i: int, j: int)
    requires
        0 <= i <= j <= s.len(),
        forall|k: int| 0 <= k < i ==> white_space(s[k]),
        forall|k: int| j <= k < s.len() ==> white_space(s[k]),
        i < j ==> !white_space(s[i]) && !white_space(s[j - 1]),
    ensures
        trimmed(s) == s.subrange(i, j),
{
    if i < j {
        lemma_trimmed_start_is(s, i);
        let t = s.skip(i);
        assert forall|k: int| j - i <= k < t.len() implies white_space(t[k]) by {
            assert(t[k] == s[i + k]);
        }
        lemma_trimmed_end_is(t, j - i);
        assert(t.take(j - i) =~= s.subrange(i, j));
    } else {
        lemma_trimmed_start_is(s, s.len() as int);
        assert(s.skip(s.len() as int) =~= s.subrange(i, j));
    }
}

/// Text that neither begins nor ends with white space is what trimming it returns.
pub proof fn lemma_trimmed_same(s: Seq<char>)
    requires
        s.len() > 0 ==> !white_space(s[0]) && !white_space(s.last()),
    ensures
        trimmed(s) == s,
{
    lemma_trimmed_is(s, 0, s.len() as int);
    assert(s.subrange(0, s.len() as int) =~= s);
}

/// The bounds of what trimming keeps.
pub proof fn lemma_trimmed_bounds(s: Seq<char>) -> (b: (int, int))
    ensures
        0 <= b.0 <= b.1 <= s.len(),
        forall|k: int| 0 <= k < b.0 ==> white_space(s[k]),
        forall|k: int| b.1 <= k < s.len() ==> white_space(s[k]),
        b.0 < b.1 ==> !white_space(s[b.0]) && !white_space(s[b.1 - 1]),
        trimmed(s) == s.subrange(b.0, b.1),
    decreases s.len(),
{
    if s.len() == 0 {
        lemma_trimmed_is(s, 0, 0);
        (0, 0)
    } else if white_space(s.last()) {
        let t = s.drop_last();
        let (i, j) = lemma_trimmed_bounds(t);
        assert forall|k: int| j <= k < s.len() implies white_space(s[k]) by {
            if k < t.len() {
                assert(t[k] == s[k]);
            }
        }
        assert forall|k: int| 0 <= k < i implies white_space(s[k]) by {
            assert(t[k] == s[k]);
        }
        lemma_trimmed_is(s, i, j);
        (i, j)
    } else if white_space(s[0]) {
        let t = s.skip(1);
        let (i, j) = lemma_trimmed_bounds(t);
        assert(!white_space(t.last()));
        assert(j == t.len());
        assert forall|k: int| 0 <= k < i + 1 implies white_space(s[k]) by {
            if k > 0 {
                assert(t[k - 1] == s[k]);
            }
        }
        lemma_trimmed_is(s, i + 1, j + 1);
        (i + 1, j + 1)
    } else {
        lemma_trimmed_is(s, 0, s.len() as int);
        (0, s.len() as int)
    }
}

/// One more character of white space at the end changes nothing that trimming keeps.
pub proof fn lemma_trimmed_push(s: Seq<char>, c: char)
    requires
        white_space(c),
    ensures
        trimmed(s.push(c)) == trimmed(s),
{
    let (i, j) = lemma_trimmed_bounds(s);
    let t = s.push(c);
    assert forall|k: int| j <= k < t.len() implies white_space(t[k]) by {
        if k < s.len() {
            assert(t[k] == s[k]);
        }
    }
    lemma_trimmed_is(t, i, j);
    assert(t.subrange(i, j) =~= s.subrange(i, j));
}

/// `s` without its leading and trailing white space.
pub fn trim(s: &str) -> (t: &str)
    ensures
        t@ == trimmed(s@),
{
    let v = chars_of(s);
    let mut i: usize = 0;
    while i < v.len() && is_white_space(v[i])
        invariant
            i <= v@.len(),
            forall|k: int| 0 <= k < i ==> white_space(v@[k]),
        decreases v@.len() - i,
    {
        i += 1;
    }
    let mut j: usize = v.len();
    while i < j && is_white_space(v[j - 1])
        invariant
            i <= j <= v@.len(),
            forall|k: int| j <= k < v@.len() ==> white_space(v@[k]),
        decreases j,
    {
        j -= 1;
    }
    proof {
        lemma_trimmed_is(s@, i as int, j as int);
    }
    s.substring_char(i, j)
}

/// `s` without its trailing white space.
pub fn trim_end(s: &str) -> (t: &str)
    ensures
        t@ == trimmed_end(s@),
{
    let v = chars_of(s);
    let mut j: usize = v.len();
    while 0 < j && is_white_space(v[j - 1])
        invariant
            j <= v@.len(),
            forall|k: int| j <= k < v@.len() ==> white_space(v@[k]),
        decreases j,
    {
        j -= 1;
    }
    proof {
        lemma_trimmed_end_is(s@, j as int);
        assert(s@.subrange(0, j as int) =~= s@.take(j as int));
    }
    s.substring_char(0, j)
}

// ---------------------------------------------------------------------------
// Lines

/// `s` without the carriage return it ends with, if it ends with one.
pub open spec fn without_cr(s: Seq<char>) -> Seq<char> {
    if s.len() > 0 && s.last() == '\r' {
        s.drop_last()
    } else {
        s
    }
}

/// The lines of `s`: each ends with a line feed or with a carriage return and a line feed, neither
/// of which is part of the line; the last may also end with the text itself.
pub open spec fn lines_of(s: Seq<char>) -> Seq<Seq<char>>
    decreases s.len(),
{
    let n = find(s, '\n');
    if s.len() == 0 {
        seq![]
    } else if n >= s.len() {
        seq![s]
    } else {
        seq![without_cr(s.take(n as int))] + lines_of(s.skip(n as int + 1))
    }
}

/// The texts of a list of strings.
pub open spec fn texts(v: Seq<String>) -> Seq<Seq<char>> {
    v.map_values(|s: String| s@)
}

/// The lines of `s`.
pub fn lines(s: &str) -> (r: Vec<String>)
    ensures
        texts(r@) == lines_of(s@),
{
    let v = chars_of(s);
    let mut r: Vec<String> = Vec::new();
    let mut i: usize = 0;
    assert(v@.skip(0) =~= v@);
    while i < v.len()
        invariant
            i <= v@.len(),
            lines_of(v@) == texts(r@) + lines_of(v@.skip(i as int)),
        decreases v@.len() - i,
    {
        let ghost rest = v@.skip(i as int);
        let ghost done = r@;
        let n = find_from(&v, '\n', i);
        if n == v.len() {
            let line = string_of(&v, i, n);
            assert(line@ =~= rest);
            r.push(line);
            i = n;
            proof {
                assert(texts(r@) =~= texts(done) + seq![rest]);
                assert(v@.skip(i as int) =~= seq![]);
                assert(texts(r@) + lines_of(seq![]) =~= texts(done) + lines_of(rest));
            }
        } else {
            let end: usize = if n > i && v[n - 1] == '\r' {
                n - 1
            } else {
                n
            };
            let line = string_of(&v, i, end);
            assert(line@ =~= without_cr(rest.take(n - i)));
            r.push(line);
            proof {
                assert(texts(r@) =~= texts(done) + seq![line@]);
                assert(v@.skip(n + 1) =~= rest.skip(n - i + 1));
                assert(texts(r@) + lines_of(v@.skip(n + 1)) =~= texts(done) + lines_of(rest));
            }
            i = n + 1;
        }
    }
    proof {
        assert(v@.skip(i as int) =~= seq![]);
        assert(texts(r@) + lines_of(seq![]) =~= texts(r@));
    }
    r
}

/// Two texts of which the first is empty or ends its last line: their lines, one list after the
/// other, are the lines of both together.
pub proof fn lemma_lines_of_add(a: Seq<char>, b: Seq<char>)
    requires
        a.len() == 0 || a.last() == '\n',
    ensures
        lines_of(a + b) == lines_of(a) + lines_of(b),
    decreases a.len(),
{
    if a.len() == 0 {
        assert(a + b =~= b);
        assert(lines_of(a) + lines_of(b) =~= lines_of(b));
    } else {
        lemma_find(a, '\n');
        let n = find(a, '\n');
        let s = a + b;
        assert(n < a.len()) by {
            if n >= a.len() {
                assert(a[a.len() - 1] != '\n');
            }
        }
        assert forall|j: int| 0 <= j < n implies s[j] != '\n' by {
            assert(s[j] == a[j]);
        }
        lemma_find_is(s, '\n', n);
        let rest = a.skip(n as int + 1);
        assert(s.take(n as int) =~= a.take(n as int));
        assert(s.skip(n as int + 1) =~= rest + b);
        if rest.len() > 0 {
            assert(rest.last() == a.last());
        }
        lemma_lines_of_add(rest, b);
        assert(lines_of(s) =~= lines_of(a) + lines_of(b));
    }
}

/// A line feed after a text that ends within its last line: only a carriage return at the very end
/// stops being part of that line.
pub proof fn lemma_lines_of_end(a: Seq<char>)
    requires
        a.len() > 0,
        a.last() != '\n',
    ensures
        lines_of(a).len() > 0,
        lines_of(a.push('\n')) == lines_of(a).drop_last().push(without_cr(lines_of(a).last())),
    decreases a.len(),
{
    lemma_find(a, '\n');
    let n = find(a, '\n');
    let s = a.push('\n');
    if n >= a.len() {
        assert forall|j: int| 0 <= j < n implies s[j] != '\n' by {
            assert(s[j] == a[j]);
        }
        lemma_find_is(s, '\n', n);
        assert(s.take(n as int) =~= a);
        assert(s.skip(n as int + 1) =~= seq![]);
        assert(lines_of(s.skip(n as int + 1)) =~= seq![]);
        assert(lines_of(s) =~= seq![without_cr(a)]);
        assert(lines_of(a).drop_last().push(without_cr(a)) =~= seq![without_cr(a)]);
    } else {
        assert forall|j: int| 0 <= j < n implies s[j] != '\n' by {
            assert(s[j] == a[j]);
        }
        lemma_find_is(s, '\n', n);
        let rest = a.skip(n as int + 1);
        assert(rest.len() > 0);
        assert(rest.last() == a.last());
        assert(s.take(n as int) =~= a.take(n as int));
        assert(s.skip(n as int + 1) =~= rest.push('\n'));
        lemma_lines_of_end(rest);
        let head = seq![without_cr(a.take(n as int))];
        assert(lines_of(a) =~= head + lines_of(rest));
        assert(lines_of(a).last() == lines_of(rest).last());
        assert(lines_of(s) =~= lines_of(a).drop_last().push(without_cr(lines_of(a).last())));
    }
}

/// A single line and its line feed.
pub proof fn lemma_lines_of_line(line: Seq<char>)
    requires
        forall|j: int| 0 <= j < line.len() ==> line[j] != '\n',
    ensures
        lines_of(line.push('\n')) == seq![without_cr(line)],
{
    let s = line.push('\n');
    lemma_find_is(s, '\n', line.len());
    assert(s.take(line.len() as int) =~= line);
    assert(s.skip(line.len() as int + 1) =~= seq![]);
    assert(lines_of(s.skip(line.len() as int + 1)) =~= seq![]);
    assert(lines_of(s) =~= seq![without_cr(line)]);
}

// ---------------------------------------------------------------------------
// Decimal numbers

/// The decimal digit of `d`.
pub open spec fn digit(d: nat) -> char {
    (48 + d) as char
}

/// `n` in decimal, without leading zeros.
pub open spec fn decimal_of(n: nat) -> Seq<char>
    decreases n,
{
    if n < 10 {
        seq![digit(n)]
    } else {
        decimal_of(n / 10).push(digit(n % 10))
    }
}

/// `n` in decimal, without leading zeros.
pub fn decimal(n: usize) -> (s: String)
    ensures
        s@ == decimal_of(n as nat),
    decreases n,
{
    let d = (48 + (n % 10) as u8) as char;
    if n < 10 {
        let mut s = String::new();
        s.push(d);
        assert(s@ =~= seq![digit(n as nat)]);
        s
    } else {
        let mut s = decimal(n / 10);
        s.push(d);
        s
    }
}

/// A decimal number is made of digits, and of at least one.
pub proof fn lemma_decimal_digits(n: nat)
    ensures
        decimal_of(n).len() > 0,
        forall|i: int| 0 <= i < decimal_of(n).len() ==> '0' <= #[trigger] decimal_of(n)[i] <= '9',
    decreases n,
{
    if n >= 10 {
        lemma_decimal_digits(n / 10);
        let p = decimal_of(n / 10);
        assert forall|i: int| 0 <= i < decimal_of(n).len() implies '0' <= #[trigger] decimal_of(
            n,
        )[i] <= '9' by {
            if i < p.len() {
                assert(decimal_of(n)[i] == p[i]);
            }
        }
    }
}

/// Different numbers read differently.
pub proof fn lemma_decimal_injective(m: nat, n: nat)
    requires
        decimal_of(m) == decimal_of(n),
    ensures
        m == n,
    decreases m,
{
    lemma_decimal_digits(m / 10);
    lemma_decimal_digits(n / 10);
    let a = decimal_of(m);
    let b = decimal_of(n);
    assert(a.last() == digit(m % 10));
    assert(b.last() == digit(n % 10));
    assert(digit(m % 10) as int == 48 + m % 10);
    assert(digit(n % 10) as int == 48 + n % 10);
    if m >= 10 && n >= 10 {
        assert(a.drop_last() =~= decimal_of(m / 10));
        assert(b.drop_last() =~= decimal_of(n / 10));
        lemma_decimal_injective(m / 10, n / 10);
    } else if m >= 10 {
        assert(a.len() >= 2);
    } else if n >= 10 {
        assert(b.len() >= 2);
    } else {
        assert(a[0] == digit(m) && b[0] == digit(n));
    }
}

// ---------------------------------------------------------------------------
// What holds of texts

/// The number that decimal digits are read as.
pub open spec fn number(s: Seq<char>) -> nat
    decreases s.len(),
{
    if s.len() == 0 {
        0
    } else {
        number(s.drop_last()) * 10 + (s.last() as int - 48) as nat
    }
}

/// Law: a number in decimal is read as that number, and does not begin with a zero that says nothing.
pub proof fn numbers_read_back(n: nat)
    ensures
        number(decimal_of(n)) == n,
        decimal_of(n).len() > 1 ==> decimal_of(n)[0] != '0',
        forall|i: int| 0 <= i < decimal_of(n).len() ==> '0' <= #[trigger] decimal_of(n)[i] <= '9',
    decreases n,
{
    lemma_decimal_digits(n);
    if n < 10 {
        let s = decimal_of(n);
        assert(number(s.drop_last()) == 0);
        assert(s.last() as int == 48 + n);
    } else {
        let p = decimal_of(n / 10);
        numbers_read_back(n / 10);
        lemma_decimal_digits(n / 10);
        let s = decimal_of(n);
        assert(s.drop_last() =~= p);
        assert(s.last() as int == 48 + n % 10);
        assert(s[0] == p[0]);
        if p.len() == 1 {
            assert(number(p.drop_last()) == 0);
            assert(p.last() == p[0]);
        }
    }
}

/// Law: a text without a line feed is one line, as it stands, and an empty text has no line.
pub proof fn texts_without_line_feeds_are_one_line(s: Seq<char>)
    requires
        !s.contains('\n'),
    ensures
        s.len() > 0 ==> lines_of(s) == seq![s],
        s.len() == 0 ==> lines_of(s).len() == 0,
{
    assert forall|j: int| 0 <= j < s.len() implies s[j] != '\n' by {
        assert(s.contains(s[j]));
    }
    lemma_find_is(s, '\n', s.len());
}

/// Law: a line is what stands before its line feed, without the one carriage return that may end it;
/// what follows is read on its own.
pub proof fn lines_end_at_line_feeds(line: Seq<char>, rest: Seq<char>)
    requires
        !line.contains('\n'),
    ensures
        line.len() > 0 && line.last() == '\r' ==> lines_of(line + seq!['\n'] + rest) == seq![
            line.drop_last(),
        ] + lines_of(rest),
        line.len() == 0 || line.last() != '\r' ==> lines_of(line + seq!['\n'] + rest) == seq![line]
            + lines_of(rest),
{
    let s = line + seq!['\n'] + rest;
    assert forall|j: int| 0 <= j < line.len() implies s[j] != '\n' by {
        assert(line.contains(line[j]));
        assert(s[j] == line[j]);
    }
    assert(s[line.len() as int] == '\n');
    lemma_find_is(s, '\n', line.len());
    assert(s.take(line.len() as int) =~= line);
    assert(s.skip(line.len() as int + 1) =~= rest);
}

/// Law: trimming a text cuts white space off both ends, and nothing else: white space before or after
/// the text makes no difference, and a text that neither begins nor ends with it is kept whole.
pub proof fn trimming_cuts_white_space(before: Seq<char>, s: Seq<char>, after: Seq<char>)
    requires
        forall|i: int| 0 <= i < before.len() ==> white_space(#[trigger] before[i]),
        forall|i: int| 0 <= i < after.len() ==> white_space(#[trigger] after[i]),
        s.len() > 0 ==> !white_space(s[0]) && !white_space(s.last()),
    ensures
        trimmed(before + s + after) == s,
        trimmed_end(before + s + after) == if s.len() > 0 {
            before + s
        } else {
            seq![]
        },
{
    let all = before + s + after;
    let i = before.len() as int;
    let j = i + s.len();
    if s.len() > 0 {
        assert(all[i] == s[0]);
        assert(all[j - 1] == s.last());
        lemma_trimmed_end_is(all, j);
        assert(all.take(j) =~= before + s);
    } else {
        lemma_trimmed_end_is(all, 0);
        assert(all.take(0) =~= seq![]);
    }
    lemma_trimmed_is(all, i, j);
    assert(all.subrange(i, j) =~= s);
}

/// Law: the texts of a list of strings are the text of each, in order.
pub proof fn texts_are_those_of_the_strings(v: Seq<String>)
    ensures
        texts(v).len() == v.len(),
        forall|i: int| 0 <= i < v.len() ==> #[trigger] texts(v)[i] == v[i]@,
{
}

} // verus!
