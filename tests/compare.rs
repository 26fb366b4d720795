use rustycoding::outcome::{judge_output, FileRead};
use rustycoding::text::outputs_match;
use rustycoding::types::StatusCodes;

#[test]
fn identical_canonical_output_is_accepted() {
    for a in ["7", "", "hello world", "a\nb\nc", "ünïcode"] {
        assert!(outputs_match(a, a));
    }
}

#[test]
fn surrounding_white_space_is_ignored() {
    assert!(outputs_match("7\n", "7"));
    assert!(outputs_match("  7 \t\r\n\n", "7"));
    assert!(outputs_match("\n\n1 2\n3\n", "1 2\n3"));
    assert!(outputs_match("7\u{a0}\u{3000}", "7"));
    assert!(outputs_match("\n", ""));
}

#[test]
fn other_differences_are_wrong_answers() {
    assert!(!outputs_match("7", "8"));
    assert!(!outputs_match("a b", "a  b"));
    assert!(!outputs_match("1\n2", "1 2"));
    assert!(!outputs_match("7", ""));
    assert!(!outputs_match("", "7"));
    assert!(!outputs_match("77", "7"));
}

#[test]
fn expected_output_is_not_trimmed() {
    assert!(!outputs_match("7\n", "7\n"));
    assert!(!outputs_match(" 7", " 7"));
}

#[test]
fn judging_read_back_files() {
    let ok = judge_output(&FileRead::Text("7\n".to_string()), &FileRead::Text("7".to_string()));
    assert_eq!(ok.status, StatusCodes::Accepted);
    assert_eq!(ok.error, None);
    let wrong = judge_output(&FileRead::Text("7\n".to_string()), &FileRead::Text("8".to_string()));
    assert_eq!(wrong.status, StatusCodes::WrongAnswer);
    assert_eq!(wrong.error.as_deref(), Some("Wrong Answer"));
    let missing = judge_output(&FileRead::Missing, &FileRead::Text("8".to_string()));
    assert_eq!(missing.status, StatusCodes::FileNotFound);
    let bad = judge_output(&FileRead::Text("8".to_string()), &FileRead::Unreadable);
    assert_eq!(bad.status, StatusCodes::InternalServerError);
}
