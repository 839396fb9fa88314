use meatshell::text::{decimal, is_white_space, lines, trim};

#[test]
fn white_space_is_that_of_unicode() {
    for c in char::MIN..=char::MAX {
        assert_eq!(is_white_space(c), c.is_whitespace(), "{c:?}");
    }
}

#[test]
fn trimming_is_that_of_std() {
    for s in [
        "",
        " ",
        "\t\r\n",
        "a",
        " a ",
        "a b",
        "\u{a0}é \u{2003}",
        "\u{200b}x\u{feff}",
        "  two  words  ",
    ] {
        assert_eq!(trim(s), s.trim(), "{s:?}");
    }
}

#[test]
fn lines_are_those_of_std() {
    for s in [
        "", "\n", "\r\n", "\r", "a", "a\n", "a\r\n", "a\r", "a\rb", "a\n\nb", "\n\n", "a\r\r\n",
        "é\r\nü\n\r\n", "a\nb\rc\r\nd",
    ] {
        let expected: Vec<&str> = s.lines().collect();
        assert_eq!(lines(s), expected, "{s:?}");
    }
}

#[test]
fn numbers_are_decimal() {
    for n in [0, 1, 9, 10, 22, 100, 3389, 65535, usize::MAX] {
        assert_eq!(decimal(n), n.to_string());
    }
}
