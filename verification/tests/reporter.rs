use wordcount::counts::FlagSet;
use wordcount::report::report;
use wordcount::scan::scan_file;

fn flags(c: bool, l: bool, w: bool) -> FlagSet {
    FlagSet { count_chars: c, count_lines: l, count_words: w }
}

fn lines(texts: &[&str]) -> Vec<String> {
    texts.iter().map(|t| t.to_string()).collect()
}

fn paths(names: &[&str]) -> Vec<String> {
    names.iter().map(|n| n.to_string()).collect()
}

fn rendered(out: &[Vec<char>]) -> Vec<String> {
    out.iter().map(|l| l.iter().collect()).collect()
}

#[test]
fn single_file_no_flags_output() {
    let out = report(
        &paths(&["f.txt"]),
        &vec![Some(lines(&["hello world", "foo"]))],
        &flags(false, false, false),
    );
    assert_eq!(rendered(&out), vec![" 3 f.txt".to_string()]);
}

#[test]
fn empty_file_no_flags_output() {
    let out = report(&paths(&["f.txt"]), &vec![Some(lines(&[]))], &flags(false, false, false));
    assert_eq!(rendered(&out), vec![" 0 f.txt".to_string()]);
}

#[test]
fn single_file_line_flag_output() {
    let out = report(
        &paths(&["f.txt"]),
        &vec![Some(lines(&["hello world", "foo"]))],
        &flags(false, true, false),
    );
    assert_eq!(rendered(&out), vec![" 2 f.txt".to_string()]);
}

#[test]
fn single_file_char_flag_output() {
    let out = report(
        &paths(&["f.txt"]),
        &vec![Some(lines(&["hello world", "foo"]))],
        &flags(true, false, false),
    );
    assert_eq!(rendered(&out), vec![" 16 f.txt".to_string()]);
}

#[test]
fn two_files_all_flags_with_total() {
    let file = || Some(lines(&["hello world", "foo"]));
    let out = report(
        &paths(&["a.txt", "b.txt"]),
        &vec![file(), file()],
        &flags(true, true, true),
    );
    assert_eq!(
        rendered(&out),
        vec![
            " 2 3 16 a.txt".to_string(),
            " 2 3 16 b.txt".to_string(),
            " 4 6 32 total".to_string(),
        ]
    );
}

#[test]
fn missing_file_gets_error_line_in_position() {
    let out = report(
        &paths(&["gone.txt", "real.txt"]),
        &vec![None, Some(lines(&["one two"]))],
        &flags(false, false, false),
    );
    let r = rendered(&out);
    assert_eq!(r.len(), 3);
    assert_eq!(r[0], "gone.txt: No such file or directory");
    assert_eq!(r[1], " 2 real.txt");
}

#[test]
fn missing_file_excluded_from_total() {
    let out = report(
        &paths(&["real.txt", "gone.txt"]),
        &vec![Some(lines(&["hello world", "foo"])), None],
        &flags(true, true, true),
    );
    assert_eq!(
        rendered(&out),
        vec![
            " 2 3 16 real.txt".to_string(),
            "gone.txt: No such file or directory".to_string(),
            " 2 3 16 total".to_string(),
        ]
    );
}

#[test]
fn total_appears_iff_more_than_one_path() {
    let one = report(&paths(&["a"]), &vec![Some(lines(&["x"]))], &flags(false, false, false));
    assert_eq!(rendered(&one), vec![" 1 a".to_string()]);
    let two_both_missing = report(
        &paths(&["a", "b"]),
        &vec![None, None],
        &flags(false, false, false),
    );
    let r = rendered(&two_both_missing);
    assert_eq!(r.len(), 3);
    assert_eq!(r[2], " 0 total");
}

#[test]
fn output_order_matches_input_order() {
    let out = report(
        &paths(&["b.txt", "a.txt"]),
        &vec![Some(lines(&["x"])), Some(lines(&["y y"]))],
        &flags(false, false, false),
    );
    assert_eq!(
        rendered(&out),
        vec![" 1 b.txt".to_string(), " 2 a.txt".to_string(), " 3 total".to_string()]
    );
}

#[test]
fn multi_digit_counts_render_fully() {
    let many: Vec<String> = (0..12).map(|_| "w".to_string()).collect();
    let out = report(&paths(&["f"]), &vec![Some(many)], &flags(false, true, false));
    assert_eq!(rendered(&out), vec![" 12 f".to_string()]);
}

#[test]
fn concatenation_across_final_line_is_not_additive() {
    // The final line of the first file pays for a newline it never had, so
    // tallying two files separately need not match tallying the file made by
    // joining their bytes: the two counts below disagree on purpose.
    let fl = flags(true, false, true);
    let first = scan_file(&lines(&["hello world", "foo"]), &fl);
    let second = scan_file(&lines(&["bar"]), &fl);
    let joined = scan_file(&lines(&["hello world", "foobar"]), &fl);
    assert_eq!(first.chars + second.chars, 20);
    assert_eq!(joined.chars, 19);
    assert_eq!(first.words + second.words, 4);
    assert_eq!(joined.words, 3);
}
