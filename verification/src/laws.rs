//! Laws of the scanner and the reporter, stated and proved once and for
//! all inputs.

use vstd::prelude::*;

use crate::counts::spec_no_flags;
use crate::counts::FlagSet;
use crate::format::error_line_text;
use crate::format::total_line_text;
use crate::report::contribution;
use crate::report::line_text_at;
use crate::report::report_text;
use crate::report::totals;
use crate::scan::counted;
use crate::scan::file_words;

verus! {

/// With no flag at all, a scan counts words exactly as a scan asked only
/// for words would, and tallies no characters and no lines.
pub proof fn lemma_no_flags_counts_words(f: Seq<Seq<char>>, flags: FlagSet)
    requires
        spec_no_flags(flags),
    ensures
        counted(f, flags).words == counted(
            f,
            (FlagSet { count_chars: false, count_lines: false, count_words: true }),
        ).words,
        counted(f, flags).words == file_words(f),
        counted(f, flags).chars == 0,
        counted(f, flags).lines == 0,
{
}

/// A scan that counts lines counts exactly one per line read, however the
/// file's final line ended.
pub proof fn lemma_lines_count_iterations(f: Seq<Seq<char>>, flags: FlagSet)
    requires
        flags.count_lines,
    ensures
        counted(f, flags).lines == f.len(),
{
}

/// The `total` line stands at the end of the output exactly when more than
/// one path was supplied, whatever mix of readable and unreadable files the
/// run met; every other output line is the line owed to one path, in input
/// order.
pub proof fn lemma_total_line_iff_many_paths(
    paths: Seq<Seq<char>>,
    files: Seq<Option<Seq<Seq<char>>>>,
    flags: FlagSet,
)
    ensures
        report_text(paths, files, flags).len() == paths.len() + (if paths.len() > 1 {
            1int
        } else {
            0int
        }),
        forall|i: int|
            0 <= i < paths.len() ==> report_text(paths, files, flags)[i] == line_text_at(
                paths,
                files,
                flags,
                i,
            ),
        paths.len() > 1 ==> report_text(paths, files, flags).last() == total_line_text(
            totals(files, flags),
            flags,
        ),
{
}

proof fn lemma_totals_remove_none(files: Seq<Option<Seq<Seq<char>>>>, flags: FlagSet, i: int)
    requires
        0 <= i < files.len(),
        files[i] is None,
    ensures
        totals(files, flags) == totals(files.remove(i), flags),
    decreases i,
{
    if i == 0 {
        assert(files.remove(0) =~= files.drop_first());
    } else {
        assert(files.remove(i).drop_first() =~= files.drop_first().remove(i - 1));
        assert(files.drop_first()[i - 1] == files[i]);
        lemma_totals_remove_none(files.drop_first(), flags, i - 1);
        assert(files.remove(i)[0] == files[0]);
    }
}

/// A path whose file could not be read is answered by exactly the error
/// message, standing in that path's own position among the output lines,
/// and its file contributes nothing to the running total: dropping the
/// entry leaves the total unchanged.
pub proof fn lemma_missing_file_inert(
    paths: Seq<Seq<char>>,
    files: Seq<Option<Seq<Seq<char>>>>,
    flags: FlagSet,
    i: int,
)
    requires
        files.len() == paths.len(),
        0 <= i < files.len(),
        files[i] is None,
    ensures
        report_text(paths, files, flags)[i] == error_line_text(paths[i]),
        contribution(files[i], flags).chars == 0,
        contribution(files[i], flags).lines == 0,
        contribution(files[i], flags).words == 0,
        totals(files, flags) == totals(files.remove(i), flags),
{
    lemma_totals_remove_none(files, flags, i);
}

} // verus!
