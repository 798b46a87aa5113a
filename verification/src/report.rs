//! The aggregator and reporter: scans each path's file in input order,
//! folds every successful tally into a running total, and yields the full
//! output of one run as a sequence of lines.

use vstd::prelude::*;

use crate::counts::counts_of;
use crate::counts::spec_add_counts;
use crate::counts::spec_zero_counts;
use crate::counts::FileObjects;
use crate::counts::FlagSet;
use crate::counts::SpecCounts;
use crate::format::data_line;
use crate::format::data_line_text;
use crate::format::error_line;
use crate::format::error_line_text;
use crate::format::total_line;
use crate::format::total_line_text;
use crate::scan::counted;
use crate::scan::file_fits;
use crate::scan::scan_file;

verus! {

/// What one path contributes to the running total: nothing when its file
/// could not be read, the file's selected counts otherwise.
pub open spec fn contribution(file: Option<Seq<Seq<char>>>, flags: FlagSet) -> SpecCounts {
    match file {
        Option::None => spec_zero_counts(),
        Option::Some(f) => counted(f, flags),
    }
}

/// The running total over all supplied paths: the field-wise sum of every
/// contribution, an unreadable file contributing nothing.
pub open spec fn totals(files: Seq<Option<Seq<Seq<char>>>>, flags: FlagSet) -> SpecCounts
    decreases files.len(),
{
    if files.len() == 0 {
        spec_zero_counts()
    } else {
        spec_add_counts(contribution(files[0], flags), totals(files.drop_first(), flags))
    }
}

/// The output line owed to the path at position `i`: the error message when
/// its file could not be read, its result line otherwise.
pub open spec fn line_text_at(
    paths: Seq<Seq<char>>,
    files: Seq<Option<Seq<Seq<char>>>>,
    flags: FlagSet,
    i: int,
) -> Seq<char> {
    match files[i] {
        Option::None => error_line_text(paths[i]),
        Option::Some(f) => data_line_text(counted(f, flags), flags, paths[i]),
    }
}

/// The whole output of one run: one line per path, in input order, followed
/// by the `total` line exactly when more than one path was supplied.
pub open spec fn report_text(
    paths: Seq<Seq<char>>,
    files: Seq<Option<Seq<Seq<char>>>>,
    flags: FlagSet,
) -> Seq<Seq<char>> {
    Seq::new(paths.len(), |i: int| line_text_at(paths, files, flags, i)) + (if paths.len() > 1 {
        seq![total_line_text(totals(files, flags), flags)]
    } else {
        Seq::<Seq<char>>::empty()
    })
}

/// Every line of every readable file fits in a single allocation.
pub open spec fn files_fit(files: Seq<Option<Seq<Seq<char>>>>) -> bool {
    forall|i: int|
        0 <= i < files.len() ==> ((#[trigger] files[i]) matches Option::Some(f) ==> file_fits(f))
}

/// Runs the whole tool on the already-read inputs: `files[i]` holds the
/// lines of the file at `paths[i]`, or nothing when that file could not be
/// read. Returns the output lines of the run, in order: one line per path
/// (an error message for an unreadable file, the selected counts otherwise)
/// and, when more than one path was supplied, the final `total` line.
pub fn report(paths: &Vec<String>, files: &Vec<Option<Vec<String>>>, flags: &FlagSet) -> (out:
    Vec<Vec<char>>)
    requires
        paths@.len() == files@.len(),
        files_fit(files.deep_view()),
        totals(files.deep_view(), *flags).chars <= u64::MAX,
        totals(files.deep_view(), *flags).lines <= u64::MAX,
        totals(files.deep_view(), *flags).words <= u64::MAX,
    ensures
        out.deep_view() == report_text(paths.deep_view(), files.deep_view(), *flags),
{
    let ghost pm = paths.deep_view();
    let ghost fm = files.deep_view();
    let mut out: Vec<Vec<char>> = Vec::new();
    let mut total = FileObjects::new();
    let mut i: usize = 0;
    proof {
        assert(fm.skip(0) =~= fm);
    }
    while i < paths.len()
        invariant
            pm == paths.deep_view(),
            fm == files.deep_view(),
            paths@.len() == files@.len(),
            pm.len() == paths@.len(),
            fm.len() == files@.len(),
            i <= paths@.len(),
            files_fit(fm),
            totals(fm, *flags).chars <= u64::MAX,
            totals(fm, *flags).lines <= u64::MAX,
            totals(fm, *flags).words <= u64::MAX,
            spec_add_counts(counts_of(total), totals(fm.skip(i as int), *flags)) == totals(
                fm,
                *flags,
            ),
            out@.len() == i,
            forall|k: int| 0 <= k < i ==> (#[trigger] out@[k])@ == line_text_at(pm, fm, *flags, k),
        decreases paths@.len() - i,
    {
        proof {
            assert(pm[i as int] == paths@[i as int]@);
            assert(fm[i as int] == files@[i as int].deep_view());
            assert(fm.skip(i as int)[0] == fm[i as int]);
            assert(fm.skip(i as int).drop_first() =~= fm.skip(i as int + 1));
        }
        let path: &String = &paths[i];
        let l: Vec<char> = match &files[i] {
            Option::None => error_line(path.as_str()),
            Option::Some(file_lines) => {
                proof {
                    assert(fm[i as int] == Option::Some(file_lines.deep_view()));
                    assert(contribution(fm[i as int], *flags) == counted(
                        file_lines.deep_view(),
                        *flags,
                    ));
                }
                let o = scan_file(file_lines, flags);
                let l = data_line(&o, flags, path.as_str());
                total.add(o);
                l
            },
        };
        proof {
            assert(l@ == line_text_at(pm, fm, *flags, i as int));
        }
        out.push(l);
        i = i + 1;
    }
    proof {
        assert(fm.skip(i as int) =~= Seq::<Option<Seq<Seq<char>>>>::empty());
        assert(counts_of(total) == totals(fm, *flags));
    }
    if paths.len() > 1 {
        let l = total_line(&total, flags);
        out.push(l);
    }
    proof {
        let r = report_text(pm, fm, *flags);
        assert(out@.len() == r.len());
        assert forall|j: int| 0 <= j < out@.len() implies out.deep_view()[j] == r[j] by {
            assert(out.deep_view()[j] == out@[j].deep_view());
            assert(out@[j].deep_view() =~= out@[j]@);
        }
        assert(out.deep_view() =~= r);
    }
    out
}

} // verus!
