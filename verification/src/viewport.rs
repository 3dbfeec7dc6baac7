//! The scroll position over the rows of the grid.

use vstd::prelude::*;

verus! {

/// One scroll step.
#[derive(Clone, Copy, Debug, PartialEq, Eq, Structural)]
pub enum Scroll {
    /// One row towards the first row.
    Up,
    /// One row towards the last row.
    Down,
}

/// The position one row down from `position`, held at the last of `rows` rows.
pub open spec fn scrolled_down(position: nat, rows: nat) -> nat {
    if position + 1 < rows {
        position + 1
    } else {
        position
    }
}

/// The position one row up from `position`, held at the first row.
pub open spec fn scrolled_up(position: nat) -> nat {
    if position > 0 {
        (position - 1) as nat
    } else {
        0
    }
}

/// The position after one scroll step.
pub open spec fn scrolled(position: nat, rows: nat, step: Scroll) -> nat {
    match step {
        Scroll::Up => scrolled_up(position),
        Scroll::Down => scrolled_down(position, rows),
    }
}

/// The position after a run of scroll steps, the first of `steps` first.
pub open spec fn scrolled_all(position: nat, rows: nat, steps: Seq<Scroll>) -> nat
    decreases steps.len(),
{
    if steps.len() == 0 {
        position
    } else {
        scrolled(scrolled_all(position, rows, steps.drop_last()), rows, steps.last())
    }
}

/// Whatever the scroll steps, a position that starts on one of the rows stays
/// on one of the rows.
pub proof fn lemma_scroll_stays_on_rows(position: nat, rows: nat, steps: Seq<Scroll>)
    requires
        position < rows,
    ensures
        scrolled_all(position, rows, steps) < rows,
    decreases steps.len(),
{
    if steps.len() > 0 {
        lemma_scroll_stays_on_rows(position, rows, steps.drop_last());
    }
}

/// The selected row of a grid with a fixed number of rows.
#[derive(Clone, Copy, Debug)]
pub struct ViewportState {
    position: usize,
    rows: usize,
}

impl ViewportState {
    /// The selected row.
    pub closed spec fn position(&self) -> nat {
        self.position as nat
    }

    /// The number of rows that the position moves over.
    pub closed spec fn rows(&self) -> nat {
        self.rows as nat
    }

    /// The position is on one of the rows.
    pub open spec fn wf(&self) -> bool {
        self.position() < self.rows()
    }

    /// A viewport on the first of `rows` rows, or `None` if there is no row.
    pub fn new(rows: usize) -> (viewport: Option<ViewportState>)
        ensures
            viewport.is_some() <==> rows > 0,
            viewport matches Some(v) ==> v.wf() && v.position() == 0 && v.rows() == rows,
    {
        if rows == 0 {
            None
        } else {
            Some(ViewportState { position: 0, rows })
        }
    }

    /// The selected row.
    pub fn selected(&self) -> (position: usize)
        ensures
            position == self.position(),
    {
        self.position
    }

    /// The number of rows.
    pub fn row_count(&self) -> (rows: usize)
        ensures
            rows == self.rows(),
    {
        self.rows
    }

    /// Moves one row down, and stays on the last row.
    pub fn scroll_down(&mut self)
        requires
            old(self).wf(),
        ensures
            final(self).wf(),
            final(self).rows() == old(self).rows(),
            final(self).position() == scrolled_down(old(self).position(), old(self).rows()),
    {
        if self.position < self.rows - 1 {
            self.position = self.position + 1;
        }
    }

    /// Moves one row up, and stays on the first row.
    pub fn scroll_up(&mut self)
        requires
            old(self).wf(),
        ensures
            final(self).wf(),
            final(self).rows() == old(self).rows(),
            final(self).position() == scrolled_up(old(self).position()),
    {
        if self.position > 0 {
            self.position = self.position - 1;
        }
    }

    /// Moves one row in the direction of `step`.
    pub fn scroll(&mut self, step: Scroll)
        requires
            old(self).wf(),
        ensures
            final(self).wf(),
            final(self).rows() == old(self).rows(),
            final(self).position() == scrolled(old(self).position(), old(self).rows(), step),
    {
        match step {
            Scroll::Up => self.scroll_up(),
            Scroll::Down => self.scroll_down(),
        }
    }
}

} // verus!
