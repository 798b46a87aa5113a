//! A verified core for a classic word-count utility: it tallies lines, words
//! and bytes over the lines of each named file, selects which tallies to show
//! from a set of boolean flags, and renders one result line per file plus an
//! aggregate `total` line when several paths were given.

pub mod counts;
pub mod format;
pub mod laws;
pub mod report;
pub mod scan;
