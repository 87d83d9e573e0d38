use gust::text::{chars_of, has_prefix, has_substring, join, matches_at, same_text, split_lines};

fn chars(s: &str) -> Vec<char> {
    s.chars().collect()
}

fn strings(items: &[&str]) -> Vec<String> {
    items.iter().map(|s| s.to_string()).collect()
}

#[test]
fn chars_of_lists_every_character() {
    assert_eq!(chars_of(""), Vec::<char>::new());
    assert_eq!(chars_of("a\u{e9}\u{1F600}"), vec!['a', '\u{e9}', '\u{1F600}']);
}

#[test]
fn same_text_compares_characters() {
    assert!(same_text("add", "add"));
    assert!(!same_text("add", "Add"));
    assert!(!same_text("add", "adds"));
    assert!(same_text("", ""));
}

#[test]
fn split_lines_ends_lines_at_line_feeds() {
    assert_eq!(split_lines("a\nb\n"), strings(&["a", "b"]));
    assert_eq!(split_lines("a\nb"), strings(&["a", "b"]));
    assert_eq!(split_lines(""), Vec::<String>::new());
    assert_eq!(split_lines("\n"), strings(&[""]));
    assert_eq!(split_lines("a\n\nb"), strings(&["a", "", "b"]));
    assert_eq!(split_lines("\n\n"), strings(&["", ""]));
}

#[test]
fn split_lines_takes_carriage_return_before_line_feed() {
    assert_eq!(split_lines("a\r\nb\r\n"), strings(&["a", "b"]));
    assert_eq!(split_lines("a\r"), strings(&["a\r"]));
    assert_eq!(split_lines("a\rb\n"), strings(&["a\rb"]));
    assert_eq!(split_lines("a\r\r\n"), strings(&["a\r"]));
    assert_eq!(split_lines("\r\n"), strings(&[""]));
}

#[test]
fn split_lines_agrees_with_std_lines() {
    let texts =
        ["", "x", "x\n", "x\ny", "x\r\ny\r\n", "\n\nx", "d\u{e9}j\u{e0}\nvu\n", "a\r", "\r"];
    for text in texts {
        let expected: Vec<String> = text.lines().map(|l| l.to_string()).collect();
        assert_eq!(split_lines(text), expected, "for {:?}", text);
    }
}

#[test]
fn matches_at_checks_one_position() {
    assert!(matches_at(&chars("remotes/origin"), &chars("remotes/"), 0));
    assert!(matches_at(&chars("xremotes/"), &chars("remotes/"), 1));
    assert!(!matches_at(&chars("xremotes/"), &chars("remotes/"), 0));
    assert!(!matches_at(&chars("abc"), &chars("bcd"), 1));
    assert!(matches_at(&chars("abc"), &chars(""), 3));
    assert!(!matches_at(&chars("abc"), &chars(""), 4));
}

#[test]
fn has_prefix_looks_at_the_start_only() {
    assert!(has_prefix(&chars("remotes/origin/main"), &chars("remotes/")));
    assert!(!has_prefix(&chars("my/remotes/x"), &chars("remotes/")));
    assert!(!has_prefix(&chars("remote"), &chars("remotes/")));
    assert!(has_prefix(&chars(""), &chars("")));
}

#[test]
fn has_substring_looks_everywhere() {
    assert!(has_substring(&chars("  remotes/origin/HEAD -> origin/main"), &chars("HEAD")));
    assert!(has_substring(&chars("HEAD"), &chars("HEAD")));
    assert!(has_substring(&chars("xxHEAD"), &chars("HEAD")));
    assert!(!has_substring(&chars("HEA"), &chars("HEAD")));
    assert!(!has_substring(&chars("HEXAD"), &chars("HEAD")));
    assert!(has_substring(&chars(""), &chars("")));
    assert!(has_substring(&chars("abc"), &chars("")));
}

#[test]
fn join_writes_parts_one_after_the_other() {
    assert_eq!(join(&strings(&["feat", "(", "cli", ")", "!", ":", " "])), "feat(cli)!: ");
    assert_eq!(join(&Vec::new()), "");
    assert_eq!(join(&strings(&["", "a", ""])), "a");
}
