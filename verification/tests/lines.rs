use commentize::lines::split_lines;

fn std_lines(text: &str) -> Vec<String> {
    text.lines().map(|s| s.to_string()).collect()
}

#[test]
fn empty_text_has_no_line() {
    assert_eq!(split_lines(""), Vec::<String>::new());
}

#[test]
fn lines_end_at_line_feeds() {
    assert_eq!(split_lines("a\nbc\n"), vec!["a".to_string(), "bc".to_string()]);
    assert_eq!(split_lines("a\nbc"), vec!["a".to_string(), "bc".to_string()]);
    assert_eq!(split_lines("\n"), vec![String::new()]);
    assert_eq!(split_lines("\n\nx"), vec![String::new(), String::new(), "x".to_string()]);
}

#[test]
fn carriage_return_before_a_line_feed_is_dropped() {
    assert_eq!(split_lines("a\r\nb\r\n"), vec!["a".to_string(), "b".to_string()]);
    assert_eq!(split_lines("a\r\r\nb"), vec!["a\r".to_string(), "b".to_string()]);
    assert_eq!(split_lines("a\rb\n"), vec!["a\rb".to_string()]);
}

#[test]
fn carriage_return_at_the_very_end_stays() {
    assert_eq!(split_lines("a\nb\r"), vec!["a".to_string(), "b\r".to_string()]);
    assert_eq!(split_lines("\r"), vec!["\r".to_string()]);
}

#[test]
fn lines_agree_with_the_standard_library() {
    let cases = [
        "", "\n", "\r", "\r\n", "a", "a\n", "a\r\n", "a\r", "a\n\nb", "é\nß\r\nz", "x\r\ry\r\n\r\n",
        "foo\nbar\n\r\nbaz\r", "\n\r", "one line", "tail \n",
    ];
    for c in cases {
        assert_eq!(split_lines(c), std_lines(c), "{:?}", c);
    }
}
