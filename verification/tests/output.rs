use ccwc::content::Content;
use ccwc::options::Options;
use ccwc::report::render_output;

fn content_of(s: &str) -> Content {
    Content::from_text(s.to_string())
}

#[test]
fn default_rule_enables_bytes_lines_words() {
    let o = Options::resolve(false, false, false, false, None);
    assert!(o.count_bytes);
    assert!(o.count_lines);
    assert!(o.count_words);
    assert!(!o.count_chars);
}

#[test]
fn explicit_switches_are_kept() {
    let o = Options::resolve(false, false, false, true, None);
    assert!(!o.count_bytes);
    assert!(!o.count_lines);
    assert!(!o.count_words);
    assert!(o.count_chars);
    let o = Options::resolve(true, true, true, true, None);
    assert!(o.count_bytes && o.count_lines && o.count_words && o.count_chars);
}

#[test]
fn hello_world_with_default_flags() {
    // "hello world\n": byte count 12, line count 1, word count 2.
    let c = content_of("hello world\n");
    let o = Options::resolve(false, false, false, false, Some("test.txt".to_string()));
    assert_eq!(render_output(&c, &o), "12\t1\t2\ttest.txt");
}

#[test]
fn three_lines_without_trailing_newline() {
    let c = content_of("line1\nline2\nline3");
    assert_eq!(c.line_count(), 3);
    let o = Options::resolve(false, true, false, false, Some("test.txt".to_string()));
    assert_eq!(render_output(&c, &o), "3\ttest.txt");
}

#[test]
fn empty_input_with_word_switch() {
    let c = content_of("");
    assert_eq!(c.word_count(), 0);
    let o = Options::resolve(false, false, true, false, Some("test.txt".to_string()));
    assert_eq!(render_output(&c, &o), "0\ttest.txt");
}

#[test]
fn stdin_output_has_no_filename() {
    let c = content_of("hello world\n");
    let o = Options::resolve(true, false, false, false, None);
    assert_eq!(render_output(&c, &o), "12\t");
}

#[test]
fn all_switches_in_fixed_order() {
    let c = content_of("h\u{e9}llo world\n");
    let o = Options::resolve(true, true, true, true, Some("in.txt".to_string()));
    assert_eq!(render_output(&c, &o), "13\t1\t2\t12\tin.txt");
}

#[test]
fn multi_digit_counts_render_in_decimal() {
    let text = "a".repeat(1024);
    let c = content_of(&text);
    let o = Options::resolve(true, false, false, false, None);
    assert_eq!(render_output(&c, &o), "1024\t");
    assert_eq!(content_of("").byte_count(), 0);
    let o = Options::resolve(true, false, false, false, None);
    assert_eq!(render_output(&content_of(""), &o), "0\t");
}
