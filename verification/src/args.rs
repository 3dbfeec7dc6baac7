//! The one command-line parameter: how many lines to watch.

use vstd::prelude::*;
use crate::bank::{valid_line_count, LINES_PER_ROW};

verus! {

/// The number of lines watched when none is asked for.
pub const DEFAULT_COUNT: usize = 256;

/// The least positive multiple of the row length that is at least `count`.
pub open spec fn rounded_line_count(count: nat) -> nat {
    if count == 0 {
        LINES_PER_ROW as nat
    } else if count % (LINES_PER_ROW as nat) == 0 {
        count
    } else {
        (count + (LINES_PER_ROW - count % (LINES_PER_ROW as nat))) as nat
    }
}

/// The rounded count is a valid line count, holds at least `count` lines, and
/// no smaller valid line count does.
pub proof fn lemma_rounded_line_count_is_least(count: nat)
    ensures
        valid_line_count(rounded_line_count(count)),
        rounded_line_count(count) >= count,
        forall|n: nat| valid_line_count(n) && n >= count ==> n >= rounded_line_count(count),
{
}

/// A count that already fills whole rows is kept.
pub proof fn lemma_rounded_line_count_keeps_valid(count: nat)
    requires
        valid_line_count(count),
    ensures
        rounded_line_count(count) == count,
{
}

/// The command-line arguments.
#[derive(Clone, Copy, Debug)]
pub struct Args {
    count: usize,
}

impl Args {
    /// The number of lines asked for.
    pub closed spec fn line_count(&self) -> usize {
        self.count
    }

    /// Arguments that ask for `count` lines.
    pub fn new(count: usize) -> (args: Args)
        ensures
            args.line_count() == count,
    {
        Args { count }
    }

    /// The number of lines asked for.
    pub fn count(&self) -> (count: usize)
        ensures
            count == self.line_count(),
    {
        self.count
    }

    /// The arguments with the count rounded up to whole rows, at least one row.
    ///
    /// Returns `None` if the rounded count does not fit in a `usize`.
    pub fn normalized(&self) -> (rounded: Option<Args>)
        ensures
            rounded.is_some() <==> rounded_line_count(self.line_count() as nat) <= usize::MAX,
            rounded matches Some(args) ==> args.line_count() == rounded_line_count(
                self.line_count() as nat,
            ),
    {
        let remainder = self.count % LINES_PER_ROW;
        if self.count == 0 {
            Some(Args { count: LINES_PER_ROW })
        } else if remainder == 0 {
            Some(Args { count: self.count })
        } else {
            match self.count.checked_add(LINES_PER_ROW - remainder) {
                Some(count) => Some(Args { count }),
                None => None,
            }
        }
    }
}

impl Default for Args {
    /// The default arguments ask for `DEFAULT_COUNT` lines.
    fn default() -> (args: Args)
        ensures
            args.line_count() == DEFAULT_COUNT,
    {
        Args { count: DEFAULT_COUNT }
    }
}

} // verus!
