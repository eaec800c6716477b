use notype::error::AppError;
use notype::text::cleanup_text;
use notype::text::is_whitespace_char;
use notype::text::u64_to_string;

#[test]
fn cleanup_joins_trimmed_lines_with_single_spaces() {
    let r = cleanup_text(String::from("  認識結果 \n二行目です \n\n"));
    assert_eq!(r, "認識結果 二行目です");
}

#[test]
fn cleanup_drops_blank_lines_and_keeps_inner_spacing() {
    assert_eq!(cleanup_text(String::from(" a  b \n\n z ")), "a  b z");
    assert_eq!(cleanup_text(String::new()), "");
    assert_eq!(cleanup_text(String::from("   \n \t \n")), "");
    assert_eq!(cleanup_text(String::from("one")), "one");
}

#[test]
fn cleanup_trims_fullwidth_spaces_and_carriage_returns() {
    assert_eq!(cleanup_text(String::from("\u{3000}こんにちは\u{3000}\r\nせかい\r\n")), "こんにちは せかい");
}

#[test]
fn whitespace_test_matches_the_documented_set() {
    for c in [' ', '\t', '\n', '\r', '\u{00A0}', '\u{2003}', '\u{3000}'] {
        assert!(is_whitespace_char(c));
        assert!(c.is_whitespace());
    }
    for c in ['a', '0', '、', '録', '\u{200B}'] {
        assert!(!is_whitespace_char(c));
        assert!(!c.is_whitespace());
    }
}

#[test]
fn decimal_rendering_matches_the_standard_formatter() {
    for n in [0u64, 1, 9, 10, 61, 999, 1000, 65_535, u64::MAX] {
        assert_eq!(u64_to_string(n), n.to_string());
    }
}

#[test]
fn error_describe_renders_message_and_details() {
    let e = AppError::new("処理に失敗しました", "exit status 1");
    assert_eq!(e.describe(), "処理に失敗しました (exit status 1)");
}
