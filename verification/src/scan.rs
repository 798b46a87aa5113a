//! The scanner: word, line and byte tallies over the lines of one file.

use vstd::prelude::*;
use vstd::string::StrSliceExecFns;
use vstd::utf8::encode_utf8;

use crate::counts::no_flags_present;
use crate::counts::spec_no_flags;
use crate::counts::counts_of;
use crate::counts::FileObjects;
use crate::counts::FlagSet;
use crate::counts::SpecCounts;

verus! {

/// The code points that delimit words: the Unicode `White_Space` set, the
/// one `char::is_whitespace` (and so `str::split_whitespace`) goes by.
pub open spec fn is_space(c: char) -> bool {
    let u = c as u32;
    ||| u == 0x20
    ||| (0x09 <= u && u <= 0x0D)
    ||| u == 0x85
    ||| u == 0xA0
    ||| u == 0x1680
    ||| (0x2000 <= u && u <= 0x200A)
    ||| u == 0x2028
    ||| u == 0x2029
    ||| u == 0x202F
    ||| u == 0x205F
    ||| u == 0x3000
}

/// Executable twin of [`is_space`].
fn is_space_char(c: char) -> (r: bool)
    ensures
        r == is_space(c),
{
    let u = c as u32;
    u == 0x20 || (0x09 <= u && u <= 0x0D) || u == 0x85 || u == 0xA0 || u == 0x1680 || (0x2000 <= u
        && u <= 0x200A) || u == 0x2028 || u == 0x2029 || u == 0x202F || u == 0x205F || u == 0x3000
}

/// The words that begin at or after position `i` of `s`, where `prev_space`
/// says whether the character before `i` (or the start of the line) was
/// whitespace: a word begins at every non-whitespace character that follows
/// whitespace, so maximal runs of non-whitespace are counted once each.
pub open spec fn words_from(s: Seq<char>, i: int, prev_space: bool) -> nat
    decreases s.len() - i,
{
    if i < 0 || i >= s.len() {
        0
    } else if !is_space(s[i]) && prev_space {
        1 + words_from(s, i + 1, is_space(s[i]))
    } else {
        words_from(s, i + 1, is_space(s[i]))
    }
}

/// The number of words in one line: maximal runs of non-whitespace
/// characters, so leading, trailing and repeated whitespace yield nothing.
pub open spec fn word_count(s: Seq<char>) -> nat {
    words_from(s, 0, true)
}

proof fn lemma_words_from_le(s: Seq<char>, i: int, prev_space: bool)
    requires
        0 <= i <= s.len(),
    ensures
        words_from(s, i, prev_space) <= s.len() - i,
    decreases s.len() - i,
{
    if i < s.len() {
        lemma_words_from_le(s, i + 1, is_space(s[i]));
    }
}

/// A line holds no more words than characters.
pub proof fn lemma_word_count_le_len(s: Seq<char>)
    ensures
        word_count(s) <= s.len(),
{
    lemma_words_from_le(s, 0, true);
}

/// Counts the words of one line of text.
pub fn count_words_str(line: &str) -> (n: u64)
    ensures
        n == word_count(line@),
{
    let ulen = line.unicode_len();
    let mut n: u64 = 0;
    let mut prev_space: bool = true;
    let mut i: usize = 0;
    while i < ulen
        invariant
            ulen == line@.len(),
            i <= ulen,
            n <= i,
            word_count(line@) == n + words_from(line@, i as int, prev_space),
        decreases ulen - i,
    {
        let c = line.get_char(i);
        let sp = is_space_char(c);
        if !sp && prev_space {
            n = n + 1;
        }
        prev_space = sp;
        i = i + 1;
    }
    n
}

/// The bytes one line adds to the character tally: the UTF-8 length of its
/// text plus one for the newline the line reader stripped. The final line
/// pays for a terminator whether or not it actually ended in one; that
/// quirk of the tool is kept, not corrected.
pub open spec fn line_chars(s: Seq<char>) -> nat {
    encode_utf8(s).len() + 1
}

/// Character-tally bytes of the lines of `f` from position `i` on.
pub open spec fn file_chars_from(f: Seq<Seq<char>>, i: int) -> nat
    decreases f.len() - i,
{
    if i < 0 || i >= f.len() {
        0
    } else {
        line_chars(f[i]) + file_chars_from(f, i + 1)
    }
}

/// Character-tally bytes of a whole file, line by line.
pub open spec fn file_chars(f: Seq<Seq<char>>) -> nat {
    file_chars_from(f, 0)
}

/// Words of the lines of `f` from position `i` on.
pub open spec fn file_words_from(f: Seq<Seq<char>>, i: int) -> nat
    decreases f.len() - i,
{
    if i < 0 || i >= f.len() {
        0
    } else {
        word_count(f[i]) + file_words_from(f, i + 1)
    }
}

/// Words of a whole file, line by line.
pub open spec fn file_words(f: Seq<Seq<char>>) -> nat {
    file_words_from(f, 0)
}

/// What a scan of the file `f` under `flags` tallies: bytes-plus-newline
/// per line when characters are requested, one per line when lines are
/// requested, and the word count when words are requested or no flag at all
/// was given. A metric whose flag is off stays zero.
pub open spec fn counted(f: Seq<Seq<char>>, flags: FlagSet) -> SpecCounts {
    SpecCounts {
        chars: if flags.count_chars {
            file_chars(f)
        } else {
            0
        },
        lines: if flags.count_lines {
            f.len()
        } else {
            0
        },
        words: if flags.count_words || spec_no_flags(flags) {
            file_words(f)
        } else {
            0
        },
    }
}

/// The text of one line fits in a single allocation, as any line actually
/// read from a file does.
pub open spec fn line_fits(s: Seq<char>) -> bool {
    encode_utf8(s).len() <= usize::MAX
}

/// Every line of the file fits in a single allocation.
pub open spec fn file_fits(f: Seq<Seq<char>>) -> bool {
    forall|j: int| 0 <= j < f.len() ==> line_fits(#[trigger] f[j])
}

/// Scans one file, given as the sequence of its newline-stripped lines, and
/// tallies whatever `flags` ask for (words too when no flag was given).
pub fn scan_file(lines: &Vec<String>, flags: &FlagSet) -> (r: FileObjects)
    requires
        file_fits(lines.deep_view()),
        counted(lines.deep_view(), *flags).chars <= u64::MAX,
        counted(lines.deep_view(), *flags).words <= u64::MAX,
    ensures
        counts_of(r) == counted(lines.deep_view(), *flags),
{
    let ghost f = lines.deep_view();
    let mut objects = FileObjects::new();
    let want_words = flags.count_words || no_flags_present(flags);
    let mut i: usize = 0;
    while i < lines.len()
        invariant
            f == lines.deep_view(),
            f.len() == lines@.len(),
            i <= lines@.len(),
            file_fits(f),
            counted(f, *flags).chars <= u64::MAX,
            counted(f, *flags).words <= u64::MAX,
            want_words == (flags.count_words || spec_no_flags(*flags)),
            flags.count_chars ==> objects.chars + file_chars_from(f, i as int) == file_chars(f),
            !flags.count_chars ==> objects.chars == 0,
            flags.count_lines ==> objects.lines == i,
            !flags.count_lines ==> objects.lines == 0,
            want_words ==> objects.words + file_words_from(f, i as int) == file_words(f),
            !want_words ==> objects.words == 0,
        decreases lines@.len() - i,
    {
        proof {
            assert(f[i as int] == lines@[i as int]@);
        }
        let line: &String = &lines[i];
        if flags.count_chars {
            let len = line.as_str().len();
            objects.chars = objects.chars + len as u64 + 1;
        }
        if flags.count_lines {
            objects.lines = objects.lines + 1;
        }
        if want_words {
            let w = count_words_str(line.as_str());
            objects.words = objects.words + w;
        }
        i = i + 1;
    }
    objects
}

} // verus!
