use cmdr::shell::{CommandParser, ShellError};
use cmdr::text;

fn invalid_detail(error: ShellError) -> String {
    match error {
        ShellError::InvalidCommand(detail) => detail,
        other => panic!("expected InvalidCommand, got {:?}", other),
    }
}

#[test]
fn parse_splits_on_whitespace() {
    let parts = CommandParser::parse("ls -la").unwrap();
    assert_eq!(parts, vec!["ls".to_string(), "-la".to_string()]);
}

#[test]
fn parse_rejects_empty_command() {
    assert_eq!(invalid_detail(CommandParser::parse("").unwrap_err()), "Empty command");
}

#[test]
fn parse_rejects_blank_command() {
    assert_eq!(invalid_detail(CommandParser::parse("   ").unwrap_err()), "Empty command");
    assert_eq!(invalid_detail(CommandParser::parse(" \t\n").unwrap_err()), "Empty command");
}

#[test]
fn parse_ignores_surrounding_and_repeated_whitespace() {
    let parts = CommandParser::parse("  echo   hello\tworld \n").unwrap();
    assert_eq!(parts, vec!["echo".to_string(), "hello".to_string(), "world".to_string()]);
}

#[test]
fn parse_knows_no_quoting() {
    let parts = CommandParser::parse("echo \"a b\"").unwrap();
    assert_eq!(parts, vec!["echo".to_string(), "\"a".to_string(), "b\"".to_string()]);
}

#[test]
fn parse_splits_on_unicode_whitespace() {
    let parts = CommandParser::parse("a\u{2003}b\u{a0}c").unwrap();
    assert_eq!(parts, vec!["a".to_string(), "b".to_string(), "c".to_string()]);
}

#[test]
fn parse_agrees_with_std_split_whitespace() {
    let samples = ["x", " x", "x ", "ab  cd", "\tq\r\nw e\u{3000}r", "äö ü", "a\u{85}b"];
    for sample in samples {
        let expected: Vec<String> = sample.split_whitespace().map(|t| t.to_string()).collect();
        assert_eq!(CommandParser::parse(sample).unwrap(), expected);
    }
}

#[test]
fn dangerous_commands_are_recognized() {
    assert!(CommandParser::is_dangerous("rm -rf /"));
    assert!(CommandParser::is_dangerous("rm -rf /*"));
    assert!(CommandParser::is_dangerous("dd if=/dev/zero of=/dev/sda"));
    assert!(CommandParser::is_dangerous("mkfs.ext4 /dev/sda1"));
    assert!(CommandParser::is_dangerous("sudo fdisk /dev/sda"));
    assert!(CommandParser::is_dangerous("format c:"));
}

#[test]
fn harmless_commands_pass() {
    assert!(!CommandParser::is_dangerous("ls -la"));
    assert!(!CommandParser::is_dangerous(""));
    assert!(!CommandParser::is_dangerous("rm -r ./build"));
    assert!(!CommandParser::is_dangerous("mkf"));
}

#[test]
fn danger_matching_ignores_case() {
    assert!(CommandParser::is_dangerous("RM -RF /"));
    assert!(CommandParser::is_dangerous("MkFs /dev/sdb"));
}

#[test]
fn danger_matching_is_a_plain_substring_search() {
    assert!(CommandParser::is_dangerous("echo \"rm -rf /\""));
    assert!(CommandParser::is_dangerous("cat information.txt"));
}

#[test]
fn first_denylisted_reports_the_first_entry_in_order() {
    assert_eq!(CommandParser::first_denylisted("rm -rf /*"), Some(0));
    assert_eq!(CommandParser::first_denylisted("dd if=/dev/zero | mkfs"), Some(2));
    assert_eq!(CommandParser::first_denylisted("xformat"), Some(5));
    assert_eq!(CommandParser::first_denylisted("ls"), None);
    assert_eq!(CommandParser::first_denylisted("RM -RF /"), None);
}

#[test]
fn validate_safety_rejects_dangerous_commands() {
    let error = CommandParser::validate_safety("rm -rf /").unwrap_err();
    assert_eq!(invalid_detail(error), "Command appears to be potentially dangerous");
    let error = CommandParser::validate_safety("Rm -Rf /home").unwrap_err();
    assert_eq!(
        error.message(),
        "Invalid command: Command appears to be potentially dangerous"
    );
}

#[test]
fn validate_safety_accepts_other_commands() {
    assert!(CommandParser::validate_safety("ls -la").is_ok());
    assert!(CommandParser::validate_safety("").is_ok());
}

#[test]
fn trim_removes_surrounding_whitespace() {
    assert_eq!(text::trim("  ls -la \n"), "ls -la");
    assert_eq!(text::trim("ls"), "ls");
    assert_eq!(text::trim(" \t "), "");
    assert_eq!(text::trim(""), "");
    assert_eq!(text::trim("\u{2003}é x\u{a0}"), "é x");
}

#[test]
fn contains_text_finds_substrings() {
    assert!(text::contains_text("hello world", "lo w"));
    assert!(text::contains_text("hello", ""));
    assert!(text::contains_text("", ""));
    assert!(text::contains_text("hello", "hello"));
    assert!(!text::contains_text("hello", "hello!"));
    assert!(!text::contains_text("", "a"));
    assert!(text::contains_text("aab", "ab"));
}

#[test]
fn replace_all_agrees_with_std_replace() {
    let cases = [
        ("a{{x}}b{{x}}", "{{x}}", "1"),
        ("aaa", "aa", "b"),
        ("abc", "abcd", "x"),
        ("abc", "c", ""),
        ("", "a", "b"),
        ("ababab", "ab", "ba"),
        ("äxö", "x", "ü"),
    ];
    for (s, from, to) in cases {
        assert_eq!(text::replace_all(s, from, to), s.replace(from, to));
    }
}

#[test]
fn replace_all_leaves_text_alone_for_an_empty_pattern() {
    assert_eq!(text::replace_all("abc", "", "x"), "abc");
}

#[test]
fn blank_recognizes_whitespace_only_text() {
    assert!(text::blank(""));
    assert!(text::blank(" \t\r\n"));
    assert!(!text::blank(" a "));
}
