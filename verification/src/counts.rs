//! The per-file tally and the flag selection it is driven by.

use vstd::prelude::*;

verus! {

/// Which metrics were requested on the command line. The three flags are
/// independent and combinable; when none of them is set, word counting is
/// the default behaviour.
#[derive(Clone, Copy, PartialEq, Eq, Structural, Debug)]
pub struct FlagSet {
    pub count_chars: bool,
    pub count_lines: bool,
    pub count_words: bool,
}

/// True when no metric at all was requested; the scanner and the reporter
/// then fall back to counting words.
pub open spec fn spec_no_flags(flags: FlagSet) -> bool {
    !flags.count_words && !flags.count_lines && !flags.count_chars
}

/// Returns true if none of the three flags is set.
pub fn no_flags_present(flags: &FlagSet) -> (r: bool)
    ensures
        r == spec_no_flags(*flags),
{
    !flags.count_words && !flags.count_lines && !flags.count_chars
}

/// The tally of one file (or the running total over several): bytes,
/// lines and words, each counted only while its flag asks for it.
#[derive(Clone, Copy, PartialEq, Eq, Structural, Debug)]
pub struct FileObjects {
    pub chars: u64,
    pub lines: u64,
    pub words: u64,
}

/// The mathematical shadow of [`FileObjects`]: the same three counters as
/// unbounded naturals, used by every contract of this crate.
pub struct SpecCounts {
    pub chars: nat,
    pub lines: nat,
    pub words: nat,
}

/// The counters of `o`, read back as unbounded naturals.
pub open spec fn counts_of(o: FileObjects) -> SpecCounts {
    SpecCounts { chars: o.chars as nat, lines: o.lines as nat, words: o.words as nat }
}

/// The all-zero tally.
pub open spec fn spec_zero_counts() -> SpecCounts {
    SpecCounts { chars: 0, lines: 0, words: 0 }
}

/// Field-wise sum of two tallies.
pub open spec fn spec_add_counts(a: SpecCounts, b: SpecCounts) -> SpecCounts {
    SpecCounts { chars: a.chars + b.chars, lines: a.lines + b.lines, words: a.words + b.words }
}

impl FileObjects {
    /// A fresh tally, zeroed before a scan begins.
    pub fn new() -> (r: FileObjects)
        ensures
            counts_of(r) == spec_zero_counts(),
    {
        FileObjects { chars: 0, lines: 0, words: 0 }
    }

    /// Adds `summand` field-wise into `self`; this is how each finished
    /// file's tally is folded into the running total.
    pub fn add(&mut self, summand: FileObjects)
        requires
            old(self).chars + summand.chars <= u64::MAX,
            old(self).lines + summand.lines <= u64::MAX,
            old(self).words + summand.words <= u64::MAX,
        ensures
            counts_of(*final(self)) == spec_add_counts(counts_of(*old(self)), counts_of(summand)),
    {
        self.chars = self.chars + summand.chars;
        self.lines = self.lines + summand.lines;
        self.words = self.words + summand.words;
    }
}

} // verus!
