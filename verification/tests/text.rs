use ssh_gatekeeper::text::{chars_of, first_word, is_whitespace, join, split_whitespace, trim};

fn strings(items: &[&str]) -> Vec<String> {
    items.iter().map(|s| s.to_string()).collect()
}

#[test]
fn white_space_is_what_std_calls_white_space() {
    for code in 0u32..=0x10FFFF {
        if let Some(c) = char::from_u32(code) {
            assert_eq!(is_whitespace(c), c.is_whitespace(), "U+{:04X}", code);
        }
    }
}

#[test]
fn chars_of_keeps_every_character() {
    assert_eq!(chars_of("a é\u{3000}z"), vec!['a', ' ', 'é', '\u{3000}', 'z']);
    assert_eq!(chars_of(""), Vec::<char>::new());
}

#[test]
fn split_whitespace_gives_the_tokens_in_order() {
    assert_eq!(
        split_whitespace("git shell-injection-attempt"),
        strings(&["git", "shell-injection-attempt"])
    );
    assert_eq!(split_whitespace("rm -rf /"), strings(&["rm", "-rf", "/"]));
    assert_eq!(split_whitespace("  ls \t -l\n\n/tmp  "), strings(&["ls", "-l", "/tmp"]));
    assert_eq!(split_whitespace("one"), strings(&["one"]));
}

#[test]
fn split_whitespace_of_blank_text_is_empty() {
    assert_eq!(split_whitespace(""), Vec::<String>::new());
    assert_eq!(split_whitespace(" \t\r\n"), Vec::<String>::new());
    assert_eq!(split_whitespace("\u{A0}\u{2003}"), Vec::<String>::new());
}

#[test]
fn split_whitespace_splits_at_every_kind_of_white_space() {
    assert_eq!(split_whitespace("a\u{A0}b\u{3000}c\u{2028}d"), strings(&["a", "b", "c", "d"]));
    assert_eq!(split_whitespace("größe\u{85}naïve"), strings(&["größe", "naïve"]));
}

#[test]
fn split_whitespace_agrees_with_std() {
    let samples = [
        "",
        " ",
        "a",
        " a",
        "a ",
        "a b",
        "a  b",
        "\ta\nb\r\nc ",
        "scp -t /srv/data",
        "git-upload-pack 'repo.git'",
        "x\u{1680}y\u{200A}z",
        "日本語 テキスト",
    ];
    for sample in samples {
        let expected: Vec<String> = sample.split_whitespace().map(|s| s.to_string()).collect();
        assert_eq!(split_whitespace(sample), expected, "{:?}", sample);
    }
}

#[test]
fn first_word_is_the_first_token_or_empty() {
    assert_eq!(first_word("192.168.1.10 54321 22"), "192.168.1.10");
    assert_eq!(first_word("  ::1\t4000 22"), "::1");
    assert_eq!(first_word("alone"), "alone");
    assert_eq!(first_word(""), "");
    assert_eq!(first_word("   "), "");
}

#[test]
fn trim_removes_white_space_at_both_ends_only() {
    assert_eq!(trim("/usr/bin/git\n"), "/usr/bin/git");
    assert_eq!(trim("  /opt/my tool/run \t\r\n"), "/opt/my tool/run");
    assert_eq!(trim("plain"), "plain");
    assert_eq!(trim(""), "");
    assert_eq!(trim(" \n\t "), "");
    assert_eq!(trim("\u{3000}x\u{A0}"), "x");
}

#[test]
fn trim_agrees_with_std() {
    let samples = ["", " ", "a", " a ", "\n/bin/rm\n", "a b", "\u{2003}é \u{2003}", "\t\t"];
    for sample in samples {
        assert_eq!(trim(sample), sample.trim(), "{:?}", sample);
    }
}

#[test]
fn join_puts_the_separator_between_neighbours() {
    assert_eq!(join(&strings(&["upload-pack", "'repo'"]), " "), "upload-pack 'repo'");
    assert_eq!(join(&strings(&["a", "b", "c"]), ", "), "a, b, c");
    assert_eq!(join(&strings(&["only"]), " "), "only");
    assert_eq!(join(&strings(&[]), " "), "");
    assert_eq!(join(&strings(&["", ""]), "-"), "-");
}

#[test]
fn join_agrees_with_std() {
    let parts = strings(&["-rf", "/", "", "x y"]);
    assert_eq!(join(&parts, " "), parts.join(" "));
    assert_eq!(join(&parts, ""), parts.join(""));
}
