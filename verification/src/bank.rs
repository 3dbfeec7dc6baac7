//! The bank of lines: sampled levels, sticky change flags and blocked status.

use vstd::prelude::*;
use crate::latch::{level_changed, ChangeLatch};
use crate::level::Level;

verus! {

/// The number of lines in one row of the grid.
pub const LINES_PER_ROW: usize = 8;

/// One line of a bank, as the contracts of the bank's operations see it.
#[derive(Clone, Copy, Debug, PartialEq, Eq)]
pub struct Line {
    /// The level at the latest poll.
    pub current: Level,
    /// The level that the latest poll recorded for the next one to compare with.
    pub previous: Level,
    /// Raised by a poll that saw the level change while the line was not
    /// blocked, lowered by acknowledging.
    pub changed: bool,
    /// Once set, the line is never read or compared again.
    pub blocked: bool,
    /// What the line is read through; absent if it was never configured or is
    /// blocked.
    pub handle: Option<u64>,
}

/// A bank has a positive number of lines that fills whole rows.
pub open spec fn valid_line_count(n: nat) -> bool {
    n > 0 && n % (LINES_PER_ROW as nat) == 0
}

/// What every bank's lines satisfy: they fill whole rows, and a blocked line
/// has no handle.
pub open spec fn valid_lines(lines: Seq<Line>) -> bool {
    &&& valid_line_count(lines.len())
    &&& forall|i: int| 0 <= i < lines.len() && #[trigger] lines[i].blocked ==> lines[i].handle.is_none()
}

/// A freshly configured line: nothing sampled yet, nothing changed, not blocked.
pub open spec fn initial_line(handle: Option<u64>) -> Line {
    Line {
        current: Level::Unavailable,
        previous: Level::Unavailable,
        changed: false,
        blocked: false,
        handle,
    }
}

/// The lines of a bank right after configuration.
pub open spec fn initial_lines(handles: Seq<Option<u64>>) -> Seq<Line> {
    Seq::new(handles.len(), |i: int| initial_line(handles[i]))
}

/// The level that a poll takes for line `i`: what was read for it, or
/// `Unavailable` if the line is blocked, has no handle, or nothing was read
/// for it.
pub open spec fn effective_reading(line: Line, readings: Seq<Level>, i: int) -> Level {
    if !line.blocked && line.handle.is_some() && 0 <= i < readings.len() {
        readings[i]
    } else {
        Level::Unavailable
    }
}

/// One line after a poll that took `reading` for it: both levels become
/// `reading`, and the flag of a line that is not blocked is raised if
/// `reading` is a change from the level recorded before. A blocked line is
/// not compared: its flag stays as it is.
pub open spec fn sampled_line(line: Line, reading: Level) -> Line {
    Line {
        current: reading,
        previous: reading,
        changed: line.changed || (!line.blocked && level_changed(line.previous, reading)),
        blocked: line.blocked,
        handle: line.handle,
    }
}

/// The lines after a poll. A blocked line reports `Unavailable` in both of
/// its levels and keeps its flag.
pub open spec fn sampled(lines: Seq<Line>, readings: Seq<Level>) -> Seq<Line> {
    Seq::new(
        lines.len(),
        |i: int| sampled_line(lines[i], effective_reading(lines[i], readings, i)),
    )
}

/// One line after its levels were set to `reading` without change detection.
pub open spec fn primed_line(line: Line, reading: Level) -> Line {
    Line {
        current: reading,
        previous: reading,
        changed: line.changed,
        blocked: line.blocked,
        handle: line.handle,
    }
}

/// The lines after the first read at startup, which sets the levels that the
/// first poll compares with.
pub open spec fn primed(lines: Seq<Line>, readings: Seq<Level>) -> Seq<Line> {
    Seq::new(
        lines.len(),
        |i: int| primed_line(lines[i], effective_reading(lines[i], readings, i)),
    )
}

/// One line after its change flag was acknowledged.
pub open spec fn acknowledged_line(line: Line) -> Line {
    Line {
        current: line.current,
        previous: line.previous,
        changed: false,
        blocked: line.blocked,
        handle: line.handle,
    }
}

/// The lines after every change flag was acknowledged.
pub open spec fn acknowledged(lines: Seq<Line>) -> Seq<Line> {
    Seq::new(lines.len(), |i: int| acknowledged_line(lines[i]))
}

/// One line after the changed lines were blocked: a changed line is blocked and
/// loses its handle, any other line is as before.
pub open spec fn blocked_line(line: Line) -> Line {
    if line.changed {
        Line {
            current: line.current,
            previous: line.previous,
            changed: line.changed,
            blocked: true,
            handle: None,
        }
    } else {
        line
    }
}

/// The lines after every changed line was blocked.
pub open spec fn with_changed_blocked(lines: Seq<Line>) -> Seq<Line> {
    Seq::new(lines.len(), |i: int| blocked_line(lines[i]))
}

/// The time between a poll at `last_poll` and `now`, zero if `now` is earlier.
pub open spec fn elapsed_between(last_poll: u64, now: u64) -> u64 {
    if now >= last_poll {
        (now - last_poll) as u64
    } else {
        0
    }
}

/// The lines of the bank, held as one sequence per attribute, and the time of
/// the latest poll.
pub struct LineBank {
    current: Vec<Level>,
    previous: Vec<Level>,
    changed: Vec<ChangeLatch>,
    blocked: Vec<bool>,
    handles: Vec<Option<u64>>,
    last_poll: u64,
}

impl View for LineBank {
    type V = Seq<Line>;

    closed spec fn view(&self) -> Seq<Line> {
        Seq::new(
            self.current.len() as nat,
            |i: int|
                Line {
                    current: self.current[i],
                    previous: self.previous[i],
                    changed: self.changed[i].raised(),
                    blocked: self.blocked[i],
                    handle: self.handles[i],
                },
        )
    }
}

impl LineBank {
    /// All attribute sequences have the same length, and the lines are valid.
    pub closed spec fn wf(&self) -> bool {
        &&& self.previous.len() == self.current.len()
        &&& self.changed.len() == self.current.len()
        &&& self.blocked.len() == self.current.len()
        &&& self.handles.len() == self.current.len()
        &&& valid_lines(self@)
    }

    /// The time of the latest poll, in microseconds on the caller's clock.
    pub closed spec fn last_poll(&self) -> u64 {
        self.last_poll
    }

    /// A well-formed bank's lines are valid, and their number fits in a `usize`.
    pub proof fn lemma_wf_valid(&self)
        requires
            self.wf(),
        ensures
            valid_lines(self@),
            self@.len() <= usize::MAX,
    {
    }

    /// Creates the bank from the outcome of configuring each line: `handles[i]`
    /// is the handle of line `i`, or `None` where configuration failed.
    ///
    /// Returns `None` unless the number of lines is a positive multiple of the
    /// row length.
    pub fn new(handles: Vec<Option<u64>>, now: u64) -> (bank: Option<LineBank>)
        ensures
            bank.is_some() <==> valid_line_count(handles@.len()),
            bank matches Some(b) ==> {
                &&& b.wf()
                &&& b@ == initial_lines(handles@)
                &&& b.last_poll() == now
            },
    {
        let n = handles.len();
        if n == 0 || n % LINES_PER_ROW != 0 {
            return None;
        }
        let mut current: Vec<Level> = Vec::new();
        let mut previous: Vec<Level> = Vec::new();
        let mut changed: Vec<ChangeLatch> = Vec::new();
        let mut blocked: Vec<bool> = Vec::new();
        let mut i: usize = 0;
        while i < n
            invariant
                i <= n,
                current.len() == i,
                previous.len() == i,
                changed.len() == i,
                blocked.len() == i,
                forall|j: int| 0 <= j < i ==> current[j] == Level::Unavailable,
                forall|j: int| 0 <= j < i ==> previous[j] == Level::Unavailable,
                forall|j: int| 0 <= j < i ==> !(#[trigger] changed[j]).raised(),
                forall|j: int| 0 <= j < i ==> !blocked[j],
            decreases n - i,
        {
            current.push(Level::Unavailable);
            previous.push(Level::Unavailable);
            changed.push(ChangeLatch::new());
            blocked.push(false);
            i = i + 1;
        }
        let bank = LineBank { current, previous, changed, blocked, handles, last_poll: now };
        assert(bank@ =~= initial_lines(handles@));
        Some(bank)
    }

    /// The number of lines.
    pub fn len(&self) -> (n: usize)
        requires
            self.wf(),
        ensures
            n == self@.len(),
            valid_line_count(n as nat),
    {
        self.current.len()
    }

    /// The number of grid rows that the lines fill.
    pub fn rows(&self) -> (rows: usize)
        requires
            self.wf(),
        ensures
            rows * LINES_PER_ROW == self@.len(),
            rows > 0,
    {
        self.current.len() / LINES_PER_ROW
    }

    /// Line `index`, or `None` if the bank has no such line.
    pub fn line(&self, index: usize) -> (line: Option<Line>)
        requires
            self.wf(),
        ensures
            line == if index < self@.len() {
                Some(self@[index as int])
            } else {
                None
            },
    {
        if index < self.current.len() {
            Some(
                Line {
                    current: self.current[index],
                    previous: self.previous[index],
                    changed: self.changed[index].is_raised(),
                    blocked: self.blocked[index],
                    handle: self.handles[index],
                },
            )
        } else {
            None
        }
    }

    /// The handle of each line: what a poll has to read, line by line. A line
    /// without a handle is not read.
    pub fn handles(&self) -> (handles: Vec<Option<u64>>)
        requires
            self.wf(),
        ensures
            handles@.len() == self@.len(),
            forall|i: int| 0 <= i < self@.len() ==> handles@[i] == self@[i].handle,
    {
        let handles = self.handles.clone();
        assert(handles@ =~= self.handles@);
        handles
    }

    /// One poll: every line takes the level that was read for it, or
    /// `Unavailable` if it is blocked, has no handle, or `readings` holds
    /// nothing for it. A line that is not blocked has its flag raised if its
    /// level changed since the poll before; a blocked line keeps its flag.
    pub fn sample_all(&mut self, readings: &Vec<Level>, now: u64)
        requires
            old(self).wf(),
        ensures
            final(self).wf(),
            final(self)@ == sampled(old(self)@, readings@),
            final(self).last_poll() == now,
    {
        let n = self.current.len();
        let mut i: usize = 0;
        while i < n
            invariant
                i <= n,
                self.current.len() == n,
                self.previous.len() == n,
                self.changed.len() == n,
                self.blocked.len() == n,
                self.handles.len() == n,
                old(self).wf(),
                self.blocked@ == old(self).blocked@,
                self.handles@ == old(self).handles@,
                self.last_poll == old(self).last_poll,
                forall|j: int|
                    0 <= j < i ==> self@[j] == #[trigger] sampled(old(self)@, readings@)[j],
                forall|j: int| i <= j < n ==> #[trigger] self@[j] == old(self)@[j],
            decreases n - i,
        {
            let blocked = self.blocked[i];
            let reading = if !blocked && self.handles[i].is_some() && i < readings.len() {
                readings[i]
            } else {
                Level::Unavailable
            };
            let ghost before = self@;
            assert(before[i as int] == old(self)@[i as int]);
            if !blocked {
                let mut latch = self.changed[i];
                latch.raise_if_differs(self.previous[i], reading);
                self.changed.set(i, latch);
            }
            self.previous.set(i, reading);
            self.current.set(i, reading);
            assert(self@[i as int] == sampled(old(self)@, readings@)[i as int]);
            assert forall|j: int| 0 <= j < i implies self@[j] == #[trigger] sampled(
                old(self)@,
                readings@,
            )[j] by {
                assert(self@[j] == before[j]);
            }
            assert forall|j: int| i < j < n implies #[trigger] self@[j] == old(self)@[j] by {
                assert(self@[j] == before[j]);
            }
            i = i + 1;
        }
        self.last_poll = now;
        assert(self@ =~= sampled(old(self)@, readings@));
    }

    /// The first read at startup: sets the levels that the first poll compares
    /// with, and raises no flag.
    pub fn prime(&mut self, readings: &Vec<Level>, now: u64)
        requires
            old(self).wf(),
        ensures
            final(self).wf(),
            final(self)@ == primed(old(self)@, readings@),
            final(self).last_poll() == now,
    {
        let n = self.current.len();
        let mut i: usize = 0;
        while i < n
            invariant
                i <= n,
                self.current.len() == n,
                self.previous.len() == n,
                self.changed.len() == n,
                self.blocked.len() == n,
                self.handles.len() == n,
                old(self).wf(),
                self.changed@ == old(self).changed@,
                self.blocked@ == old(self).blocked@,
                self.handles@ == old(self).handles@,
                self.last_poll == old(self).last_poll,
                forall|j: int|
                    0 <= j < i ==> self@[j] == #[trigger] primed(old(self)@, readings@)[j],
                forall|j: int| i <= j < n ==> #[trigger] self@[j] == old(self)@[j],
            decreases n - i,
        {
            let reading = if !self.blocked[i] && self.handles[i].is_some() && i < readings.len() {
                readings[i]
            } else {
                Level::Unavailable
            };
            let ghost before = self@;
            assert(before[i as int] == old(self)@[i as int]);
            self.previous.set(i, reading);
            self.current.set(i, reading);
            assert(self@[i as int] == primed(old(self)@, readings@)[i as int]);
            assert forall|j: int| 0 <= j < i implies self@[j] == #[trigger] primed(
                old(self)@,
                readings@,
            )[j] by {
                assert(self@[j] == before[j]);
            }
            assert forall|j: int| i < j < n implies #[trigger] self@[j] == old(self)@[j] by {
                assert(self@[j] == before[j]);
            }
            i = i + 1;
        }
        self.last_poll = now;
        assert(self@ =~= primed(old(self)@, readings@));
    }

    /// Lowers every change flag; levels, blocked status and handles stay.
    pub fn acknowledge_all(&mut self)
        requires
            old(self).wf(),
        ensures
            final(self).wf(),
            final(self)@ == acknowledged(old(self)@),
            final(self).last_poll() == old(self).last_poll(),
    {
        let n = self.current.len();
        let mut i: usize = 0;
        while i < n
            invariant
                i <= n,
                self.current.len() == n,
                self.previous.len() == n,
                self.changed.len() == n,
                self.blocked.len() == n,
                self.handles.len() == n,
                old(self).wf(),
                self.current@ == old(self).current@,
                self.previous@ == old(self).previous@,
                self.blocked@ == old(self).blocked@,
                self.handles@ == old(self).handles@,
                self.last_poll == old(self).last_poll,
                forall|j: int| 0 <= j < i ==> !(#[trigger] self.changed[j]).raised(),
            decreases n - i,
        {
            let mut latch = self.changed[i];
            latch.clear();
            self.changed.set(i, latch);
            i = i + 1;
        }
        assert(self@ =~= acknowledged(old(self)@));
    }

    /// Blocks every line whose change flag is raised: it loses its handle and is
    /// never read again. Its flag stays raised until it is acknowledged.
    pub fn block_changed(&mut self)
        requires
            old(self).wf(),
        ensures
            final(self).wf(),
            final(self)@ == with_changed_blocked(old(self)@),
            final(self).last_poll() == old(self).last_poll(),
    {
        let n = self.current.len();
        let mut i: usize = 0;
        while i < n
            invariant
                i <= n,
                self.current.len() == n,
                self.previous.len() == n,
                self.changed.len() == n,
                self.blocked.len() == n,
                self.handles.len() == n,
                old(self).wf(),
                self.current@ == old(self).current@,
                self.previous@ == old(self).previous@,
                self.changed@ == old(self).changed@,
                self.last_poll == old(self).last_poll,
                forall|j: int|
                    0 <= j < i ==> self@[j] == #[trigger] with_changed_blocked(old(self)@)[j],
                forall|j: int| i <= j < n ==> #[trigger] self@[j] == old(self)@[j],
            decreases n - i,
        {
            let ghost before = self@;
            assert(before[i as int] == old(self)@[i as int]);
            if self.changed[i].is_raised() {
                self.blocked.set(i, true);
                self.handles.set(i, None);
            }
            assert(self@[i as int] == with_changed_blocked(old(self)@)[i as int]);
            assert forall|j: int| 0 <= j < i implies self@[j] == #[trigger] with_changed_blocked(
                old(self)@,
            )[j] by {
                assert(self@[j] == before[j]);
            }
            assert forall|j: int| i < j < n implies #[trigger] self@[j] == old(self)@[j] by {
                assert(self@[j] == before[j]);
            }
            i = i + 1;
        }
        assert(self@ =~= with_changed_blocked(old(self)@));
    }

    /// A copy of the whole bank, for rendering while polling goes on.
    pub fn snapshot(&self) -> (copy: LineBank)
        requires
            self.wf(),
        ensures
            copy.wf(),
            copy@ == self@,
            copy.last_poll() == self.last_poll(),
    {
        let current = self.current.clone();
        let previous = self.previous.clone();
        let changed = self.changed.clone();
        let blocked = self.blocked.clone();
        let handles = self.handles.clone();
        assert(current@ =~= self.current@);
        assert(previous@ =~= self.previous@);
        assert(changed@ =~= self.changed@);
        assert(blocked@ =~= self.blocked@);
        assert(handles@ =~= self.handles@);
        let copy = LineBank { current, previous, changed, blocked, handles, last_poll: self.last_poll };
        assert(copy@ =~= self@);
        copy
    }

    /// The time of the latest poll.
    pub fn last_poll_time(&self) -> (time: u64)
        ensures
            time == self.last_poll(),
    {
        self.last_poll
    }

    /// How long ago the latest poll was, seen from `now`.
    pub fn elapsed_since_poll(&self, now: u64) -> (elapsed: u64)
        ensures
            elapsed == elapsed_between(self.last_poll(), now),
    {
        if now >= self.last_poll {
            now - self.last_poll
        } else {
            0
        }
    }
}

} // verus!
