//! The sticky latch that remembers a level change until it is acknowledged.

use vstd::prelude::*;
use crate::level::Level;

verus! {

/// Whether two consecutive samples of one line count as a change.
///
/// Written out case by case: two readable samples change when they differ, a
/// sample that appears or disappears is a change, and a line that stays
/// unreadable has not changed.
pub open spec fn level_changed(previous: Level, current: Level) -> bool {
    match (previous, current) {
        (Level::Unavailable, Level::Unavailable) => false,
        (Level::Unavailable, _) => true,
        (_, Level::Unavailable) => true,
        (Level::High, Level::High) => false,
        (Level::Low, Level::Low) => false,
        (Level::High, Level::Low) => true,
        (Level::Low, Level::High) => true,
    }
}

/// A change is exactly a difference between the two levels.
pub proof fn lemma_level_changed_is_difference(previous: Level, current: Level)
    ensures
        level_changed(previous, current) <==> previous != current,
{
}

/// A latch that a detected change raises and only `clear` lowers.
#[derive(Clone, Copy, Debug)]
pub struct ChangeLatch {
    raised: bool,
}

impl ChangeLatch {
    /// Whether the latch is raised.
    pub closed spec fn raised(self) -> bool {
        self.raised
    }

    /// A lowered latch.
    pub fn new() -> (latch: ChangeLatch)
        ensures
            !latch.raised(),
    {
        ChangeLatch { raised: false }
    }

    /// Reads the latch.
    pub fn is_raised(&self) -> (raised: bool)
        ensures
            raised == self.raised(),
    {
        self.raised
    }

    /// Raises the latch if `current` is a change from `previous`; a raised latch
    /// stays raised.
    pub fn raise_if_differs(&mut self, previous: Level, current: Level)
        ensures
            final(self).raised() == (old(self).raised() || level_changed(previous, current)),
    {
        if previous != current {
            self.raised = true;
        }
    }

    /// Lowers the latch.
    pub fn clear(&mut self)
        ensures
            !final(self).raised(),
    {
        self.raised = false;
    }
}

} // verus!
