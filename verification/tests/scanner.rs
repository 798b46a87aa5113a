use wordcount::counts::no_flags_present;
use wordcount::counts::FileObjects;
use wordcount::counts::FlagSet;
use wordcount::scan::count_words_str;
use wordcount::scan::scan_file;

fn flags(c: bool, l: bool, w: bool) -> FlagSet {
    FlagSet { count_chars: c, count_lines: l, count_words: w }
}

fn lines(texts: &[&str]) -> Vec<String> {
    texts.iter().map(|t| t.to_string()).collect()
}

#[test]
fn new_starts_zeroed() {
    let o = FileObjects::new();
    assert_eq!(o.chars, 0);
    assert_eq!(o.lines, 0);
    assert_eq!(o.words, 0);
}

#[test]
fn add_sums_fieldwise() {
    let mut a = FileObjects::new();
    a.add(FileObjects { chars: 16, lines: 2, words: 3 });
    a.add(FileObjects { chars: 4, lines: 1, words: 1 });
    assert_eq!(a.chars, 20);
    assert_eq!(a.lines, 3);
    assert_eq!(a.words, 4);
}

#[test]
fn no_flags_present_detects_flags() {
    assert!(no_flags_present(&flags(false, false, false)));
    assert!(!no_flags_present(&flags(true, false, false)));
    assert!(!no_flags_present(&flags(false, true, false)));
    assert!(!no_flags_present(&flags(false, false, true)));
}

#[test]
fn count_words_basic() {
    assert_eq!(count_words_str("hello world"), 2);
    assert_eq!(count_words_str("foo"), 1);
    assert_eq!(count_words_str(""), 0);
}

#[test]
fn count_words_collapses_whitespace_runs() {
    assert_eq!(count_words_str("  a  b  "), 2);
    assert_eq!(count_words_str("\ta\tb\t"), 2);
    assert_eq!(count_words_str("   "), 0);
}

#[test]
fn count_words_splits_on_unicode_whitespace() {
    assert_eq!(count_words_str("a\u{A0}b"), 2);
    assert_eq!(count_words_str("a\u{2003}b c"), 3);
}

#[test]
fn no_flags_counts_words_only() {
    let f = lines(&["hello world", "foo"]);
    let o = scan_file(&f, &flags(false, false, false));
    assert_eq!(o.words, 3);
    assert_eq!(o.chars, 0);
    assert_eq!(o.lines, 0);
}

#[test]
fn word_flag_matches_default() {
    let f = lines(&["hello world", "foo"]);
    let with_flag = scan_file(&f, &flags(false, false, true));
    let without = scan_file(&f, &flags(false, false, false));
    assert_eq!(with_flag.words, without.words);
}

#[test]
fn line_flag_counts_iterations() {
    let f = lines(&["hello world", "foo"]);
    let o = scan_file(&f, &flags(false, true, false));
    assert_eq!(o.lines, 2);
    assert_eq!(o.words, 0);
    assert_eq!(o.chars, 0);
}

#[test]
fn char_flag_counts_bytes_plus_newline() {
    let f = lines(&["hello world", "foo"]);
    let o = scan_file(&f, &flags(true, false, false));
    assert_eq!(o.chars, 16);
}

#[test]
fn all_flags_combined() {
    let f = lines(&["hello world", "foo"]);
    let o = scan_file(&f, &flags(true, true, true));
    assert_eq!(o.chars, 16);
    assert_eq!(o.lines, 2);
    assert_eq!(o.words, 3);
}

#[test]
fn empty_file_yields_zero_counts() {
    let f = lines(&[]);
    let o = scan_file(&f, &flags(true, true, true));
    assert_eq!(o.chars, 0);
    assert_eq!(o.lines, 0);
    assert_eq!(o.words, 0);
}

#[test]
fn last_line_still_pays_for_terminator() {
    let f = lines(&["foo"]);
    let o = scan_file(&f, &flags(true, true, false));
    assert_eq!(o.chars, 4);
    assert_eq!(o.lines, 1);
}

#[test]
fn multibyte_text_counts_bytes_not_chars() {
    let f = lines(&["h\u{E9}llo"]);
    let o = scan_file(&f, &flags(true, false, true));
    assert_eq!(o.chars, 7);
    assert_eq!(o.words, 1);
}
