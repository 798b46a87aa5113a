//! Rendering of result lines: decimal numbers, the per-file and total
//! lines, and the message printed for an unreadable path.

use vstd::prelude::*;
use vstd::string::StrSliceExecFns;

use crate::counts::no_flags_present;
use crate::counts::spec_no_flags;
use crate::counts::counts_of;
use crate::counts::FileObjects;
use crate::counts::FlagSet;
use crate::counts::SpecCounts;

verus! {

/// The digit character for one decimal digit value.
pub open spec fn digit_of(d: nat) -> char {
    if d == 0 {
        '0'
    } else if d == 1 {
        '1'
    } else if d == 2 {
        '2'
    } else if d == 3 {
        '3'
    } else if d == 4 {
        '4'
    } else if d == 5 {
        '5'
    } else if d == 6 {
        '6'
    } else if d == 7 {
        '7'
    } else if d == 8 {
        '8'
    } else {
        '9'
    }
}

/// The decimal rendering of `n`, most significant digit first, with no
/// leading zeroes (`0` itself is the single digit `0`).
pub open spec fn dec_digits(n: nat) -> Seq<char>
    decreases n,
{
    if n < 10 {
        seq![digit_of(n)]
    } else {
        dec_digits(n / 10).push(digit_of(n % 10))
    }
}

fn digit_char(d: u64) -> (c: char)
    requires
        d < 10,
    ensures
        c == digit_of(d as nat),
{
    if d == 0 {
        '0'
    } else if d == 1 {
        '1'
    } else if d == 2 {
        '2'
    } else if d == 3 {
        '3'
    } else if d == 4 {
        '4'
    } else if d == 5 {
        '5'
    } else if d == 6 {
        '6'
    } else if d == 7 {
        '7'
    } else if d == 8 {
        '8'
    } else {
        '9'
    }
}

/// Appends the decimal rendering of `n` to `out`.
fn push_decimal(out: &mut Vec<char>, n: u64)
    ensures
        final(out)@ == old(out)@ + dec_digits(n as nat),
    decreases n,
{
    if n < 10 {
        out.push(digit_char(n));
        assert(out@ =~= old(out)@ + dec_digits(n as nat));
    } else {
        push_decimal(out, n / 10);
        out.push(digit_char(n % 10));
        assert(out@ =~= old(out)@ + dec_digits(n as nat));
    }
}

/// Appends the characters of `s` to `out`.
fn push_str_chars(out: &mut Vec<char>, s: &str)
    ensures
        final(out)@ == old(out)@ + s@,
{
    let ulen = s.unicode_len();
    let mut i: usize = 0;
    while i < ulen
        invariant
            ulen == s@.len(),
            i <= ulen,
            out@ == old(out)@ + s@.take(i as int),
        decreases ulen - i,
    {
        out.push(s.get_char(i));
        i = i + 1;
        assert(out@ =~= old(out)@ + s@.take(i as int));
    }
    assert(out@ =~= old(out)@ + s@);
}

/// The space-prefixed number fields of one result line, in fixed order:
/// the line count when lines are requested, the word count when words are
/// requested or no flag was given, the byte count when characters are
/// requested.
pub open spec fn fields_text(c: SpecCounts, flags: FlagSet) -> Seq<char> {
    (if flags.count_lines {
        seq![' '] + dec_digits(c.lines)
    } else {
        Seq::<char>::empty()
    }) + (if flags.count_words || spec_no_flags(flags) {
        seq![' '] + dec_digits(c.words)
    } else {
        Seq::<char>::empty()
    }) + (if flags.count_chars {
        seq![' '] + dec_digits(c.chars)
    } else {
        Seq::<char>::empty()
    })
}

/// The result line for one successfully scanned file: its selected counts,
/// then a space and the file's path.
pub open spec fn data_line_text(c: SpecCounts, flags: FlagSet, path: Seq<char>) -> Seq<char> {
    fields_text(c, flags) + seq![' '] + path
}

/// The aggregate line printed after several paths: the selected counts of
/// the running total, then the literal label ` total`.
pub open spec fn total_line_text(c: SpecCounts, flags: FlagSet) -> Seq<char> {
    fields_text(c, flags) + " total"@
}

/// The message printed for a path whose file could not be read.
pub open spec fn error_line_text(path: Seq<char>) -> Seq<char> {
    path + ": No such file or directory"@
}

/// Appends the selected number fields of `o` to `out`.
fn push_fields(out: &mut Vec<char>, o: &FileObjects, flags: &FlagSet)
    ensures
        final(out)@ == old(out)@ + fields_text(counts_of(*o), *flags),
{
    if flags.count_lines {
        out.push(' ');
        push_decimal(out, o.lines);
    }
    if flags.count_words || no_flags_present(flags) {
        out.push(' ');
        push_decimal(out, o.words);
    }
    if flags.count_chars {
        out.push(' ');
        push_decimal(out, o.chars);
    }
    assert(out@ =~= old(out)@ + fields_text(counts_of(*o), *flags));
}

/// Builds the result line for one scanned file.
pub fn data_line(o: &FileObjects, flags: &FlagSet, path: &str) -> (l: Vec<char>)
    ensures
        l@ == data_line_text(counts_of(*o), *flags, path@),
{
    let mut l: Vec<char> = Vec::new();
    push_fields(&mut l, o, flags);
    l.push(' ');
    push_str_chars(&mut l, path);
    assert(l@ =~= data_line_text(counts_of(*o), *flags, path@));
    l
}

/// Builds the aggregate `total` line.
pub fn total_line(o: &FileObjects, flags: &FlagSet) -> (l: Vec<char>)
    ensures
        l@ == total_line_text(counts_of(*o), *flags),
{
    let mut l: Vec<char> = Vec::new();
    push_fields(&mut l, o, flags);
    push_str_chars(&mut l, " total");
    assert(l@ =~= total_line_text(counts_of(*o), *flags));
    l
}

/// Builds the message for a path whose file could not be read.
pub fn error_line(path: &str) -> (l: Vec<char>)
    ensures
        l@ == error_line_text(path@),
{
    let mut l: Vec<char> = Vec::new();
    push_str_chars(&mut l, path);
    push_str_chars(&mut l, ": No such file or directory");
    assert(l@ =~= error_line_text(path@));
    l
}

} // verus!
