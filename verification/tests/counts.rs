use ccwc::content::Content;

fn content_of(s: &str) -> Content {
    Content::from_text(s.to_string())
}

#[test]
fn byte_count_ascii() {
    assert_eq!(content_of("hello world\n").byte_count(), 12);
    assert_eq!(content_of("").byte_count(), 0);
}

#[test]
fn byte_count_multibyte() {
    // Two-byte encoding: the byte count exceeds the character count.
    let c = content_of("h\u{e9}llo");
    assert_eq!(c.byte_count(), 6);
    assert_eq!(c.character_count(), 5);
}

#[test]
fn byte_count_equals_character_count_when_ascii() {
    let c = content_of("hello");
    assert_eq!(c.byte_count(), c.character_count());
}

#[test]
fn character_count_basic() {
    assert_eq!(content_of("").character_count(), 0);
    assert_eq!(content_of("hello world\n").character_count(), 12);
    assert_eq!(content_of("\u{1f600}").character_count(), 1);
    assert_eq!(content_of("\u{1f600}").byte_count(), 4);
}

#[test]
fn line_count_trailing_fragment() {
    // A final fragment without a terminator still counts as a line.
    assert_eq!(content_of("a\nb").line_count(), 2);
    assert_eq!(content_of("a\nb\n").line_count(), 2);
}

#[test]
fn line_count_edges() {
    assert_eq!(content_of("").line_count(), 0);
    assert_eq!(content_of("\n").line_count(), 1);
    assert_eq!(content_of("a\n\nb").line_count(), 3);
    assert_eq!(content_of("a\r\nb").line_count(), 2);
}

#[test]
fn word_count_basic() {
    assert_eq!(content_of("hello world\n").word_count(), 2);
    assert_eq!(content_of("x").word_count(), 1);
    assert_eq!(content_of("  leading and   repeated\tspace \n").word_count(), 4);
}

#[test]
fn word_count_zero_iff_all_whitespace() {
    assert_eq!(content_of("").word_count(), 0);
    assert_eq!(content_of(" \t\r\n").word_count(), 0);
    assert_eq!(content_of("\u{a0}\u{2003}").word_count(), 0);
    assert_ne!(content_of(".").word_count(), 0);
}

#[test]
fn word_count_unicode_whitespace_separates() {
    // No-break space and em space both separate words.
    assert_eq!(content_of("a\u{a0}b").word_count(), 2);
    assert_eq!(content_of("a\u{2003}b").word_count(), 2);
}

#[test]
fn metrics_are_idempotent() {
    let c = content_of("one two\nthree\n");
    assert_eq!(c.byte_count(), c.byte_count());
    assert_eq!(c.line_count(), c.line_count());
    assert_eq!(c.word_count(), c.word_count());
    assert_eq!(c.character_count(), c.character_count());
}
