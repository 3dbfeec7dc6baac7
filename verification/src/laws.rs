//! What holds of the bank's operations, whatever the lines and the readings.

use vstd::prelude::*;
use crate::bank::{
    acknowledged, effective_reading, primed, sampled, valid_lines, with_changed_blocked, Line,
};
use crate::level::Level;

verus! {

/// One operation on a bank.
pub enum Operation {
    /// A poll that read the given levels.
    Sample(Seq<Level>),
    /// The first read at startup.
    Prime(Seq<Level>),
    /// Acknowledging every change flag.
    Acknowledge,
    /// Blocking every changed line.
    BlockChanged,
}

/// The lines after one operation.
pub open spec fn apply(lines: Seq<Line>, operation: Operation) -> Seq<Line> {
    match operation {
        Operation::Sample(readings) => sampled(lines, readings),
        Operation::Prime(readings) => primed(lines, readings),
        Operation::Acknowledge => acknowledged(lines),
        Operation::BlockChanged => with_changed_blocked(lines),
    }
}

/// The lines after a run of operations, the first of `operations` first.
pub open spec fn apply_all(lines: Seq<Line>, operations: Seq<Operation>) -> Seq<Line>
    decreases operations.len(),
{
    if operations.len() == 0 {
        lines
    } else {
        apply(apply_all(lines, operations.drop_last()), operations.last())
    }
}

/// A poll sets both levels of a line to what was read for it. If the line is
/// not blocked, its flag is raised afterwards exactly if it was raised before
/// or the level read differs from the one recorded by the poll before.
pub proof fn lemma_poll_raises_on_difference(lines: Seq<Line>, readings: Seq<Level>, i: int)
    requires
        0 <= i < lines.len(),
        !lines[i].blocked,
    ensures
        sampled(lines, readings)[i].current == effective_reading(lines[i], readings, i),
        sampled(lines, readings)[i].previous == effective_reading(lines[i], readings, i),
        sampled(lines, readings)[i].changed <==> lines[i].changed || effective_reading(
            lines[i],
            readings,
            i,
        ) != lines[i].previous,
        !sampled(lines, readings)[i].blocked,
        sampled(lines, readings)[i].handle == lines[i].handle,
{
}

/// A poll leaves the flag of a blocked line as it is, whatever is read, and
/// reports the line `Unavailable` in both of its levels.
pub proof fn lemma_poll_spares_blocked_flag(lines: Seq<Line>, readings: Seq<Level>, i: int)
    requires
        0 <= i < lines.len(),
        lines[i].blocked,
    ensures
        sampled(lines, readings)[i].changed == lines[i].changed,
        sampled(lines, readings)[i].current == Level::Unavailable,
        sampled(lines, readings)[i].previous == Level::Unavailable,
        sampled(lines, readings)[i].blocked,
        sampled(lines, readings)[i].handle == lines[i].handle,
{
}

/// A line that has a handle and is not blocked takes the level that was read
/// for it.
pub proof fn lemma_poll_takes_reading(lines: Seq<Line>, readings: Seq<Level>, i: int)
    requires
        0 <= i < lines.len(),
        i < readings.len(),
        lines[i].handle.is_some(),
        !lines[i].blocked,
    ensures
        sampled(lines, readings)[i].current == readings[i],
{
}

/// Acknowledging lowers every flag and leaves levels, blocked status and
/// handles as they were.
pub proof fn lemma_acknowledge_clears_flags_only(lines: Seq<Line>)
    ensures
        acknowledged(lines).len() == lines.len(),
        forall|i: int|
            0 <= i < lines.len() ==> {
                let after = #[trigger] acknowledged(lines)[i];
                &&& !after.changed
                &&& after.current == lines[i].current
                &&& after.previous == lines[i].previous
                &&& after.blocked == lines[i].blocked
                &&& after.handle == lines[i].handle
            },
{
}

/// Acknowledging twice is acknowledging once.
pub proof fn lemma_acknowledge_idempotent(lines: Seq<Line>)
    ensures
        acknowledged(acknowledged(lines)) == acknowledged(lines),
{
    assert(acknowledged(acknowledged(lines)) =~= acknowledged(lines));
}

/// Blocking the changed lines blocks each of them, and the next poll reports
/// it `Unavailable` whatever is read.
pub proof fn lemma_block_silences_changed_line(lines: Seq<Line>, readings: Seq<Level>, i: int)
    requires
        0 <= i < lines.len(),
        lines[i].changed,
    ensures
        with_changed_blocked(lines)[i].blocked,
        with_changed_blocked(lines)[i].handle.is_none(),
        sampled(with_changed_blocked(lines), readings)[i].current == Level::Unavailable,
{
}

/// Blocking the changed lines leaves every unchanged line as it was, and no
/// line's levels or flag are touched.
pub proof fn lemma_block_spares_unchanged_lines(lines: Seq<Line>)
    ensures
        with_changed_blocked(lines).len() == lines.len(),
        forall|i: int|
            0 <= i < lines.len() && !lines[i].changed ==> #[trigger] with_changed_blocked(
                lines,
            )[i] == lines[i],
        forall|i: int|
            0 <= i < lines.len() ==> {
                let after = #[trigger] with_changed_blocked(lines)[i];
                &&& after.changed == lines[i].changed
                &&& after.current == lines[i].current
                &&& after.previous == lines[i].previous
            },
{
}

/// Blocking when no line is changed does nothing.
pub proof fn lemma_block_without_changes(lines: Seq<Line>)
    requires
        forall|i: int| 0 <= i < lines.len() ==> !(#[trigger] lines[i]).changed,
    ensures
        with_changed_blocked(lines) == lines,
{
    assert(with_changed_blocked(lines) =~= lines);
}

/// Blocking twice is blocking once.
pub proof fn lemma_block_idempotent(lines: Seq<Line>)
    ensures
        with_changed_blocked(with_changed_blocked(lines)) == with_changed_blocked(lines),
{
    assert(with_changed_blocked(with_changed_blocked(lines)) =~= with_changed_blocked(lines));
}

/// No operation changes the number of lines or breaks their validity.
pub proof fn lemma_operation_keeps_validity(lines: Seq<Line>, operation: Operation)
    requires
        valid_lines(lines),
    ensures
        apply(lines, operation).len() == lines.len(),
        valid_lines(apply(lines, operation)),
{
}

/// No run of operations changes the number of lines or breaks their validity.
pub proof fn lemma_operations_keep_validity(lines: Seq<Line>, operations: Seq<Operation>)
    requires
        valid_lines(lines),
    ensures
        apply_all(lines, operations).len() == lines.len(),
        valid_lines(apply_all(lines, operations)),
    decreases operations.len(),
{
    if operations.len() > 0 {
        lemma_operations_keep_validity(lines, operations.drop_last());
        lemma_operation_keeps_validity(
            apply_all(lines, operations.drop_last()),
            operations.last(),
        );
    }
}

/// A blocked line stays blocked and without a handle, whatever happens to the
/// bank afterwards.
pub proof fn lemma_blocked_is_absorbing(lines: Seq<Line>, operations: Seq<Operation>, i: int)
    requires
        valid_lines(lines),
        0 <= i < lines.len(),
        lines[i].blocked,
    ensures
        apply_all(lines, operations).len() == lines.len(),
        apply_all(lines, operations)[i].blocked,
        apply_all(lines, operations)[i].handle.is_none(),
    decreases operations.len(),
{
    if operations.len() > 0 {
        lemma_blocked_is_absorbing(lines, operations.drop_last(), i);
    }
}

/// Every poll after a line was blocked reports it `Unavailable`, whatever is
/// read and whatever happened in between.
pub proof fn lemma_blocked_line_reads_unavailable(
    lines: Seq<Line>,
    operations: Seq<Operation>,
    readings: Seq<Level>,
    i: int,
)
    requires
        valid_lines(lines),
        0 <= i < lines.len(),
        lines[i].blocked,
    ensures
        sampled(apply_all(lines, operations), readings)[i].current == Level::Unavailable,
{
    lemma_blocked_is_absorbing(lines, operations, i);
}

/// A raised flag stays raised through any run of operations that holds no
/// acknowledgement: a poll never lowers it.
pub proof fn lemma_only_acknowledge_lowers(lines: Seq<Line>, operations: Seq<Operation>, i: int)
    requires
        0 <= i < lines.len(),
        lines[i].changed,
        forall|k: int| 0 <= k < operations.len() ==> !(#[trigger] operations[k] is Acknowledge),
    ensures
        apply_all(lines, operations).len() == lines.len(),
        apply_all(lines, operations)[i].changed,
    decreases operations.len(),
{
    if operations.len() > 0 {
        lemma_only_acknowledge_lowers(lines, operations.drop_last(), i);
        assert(!(operations[operations.len() - 1] is Acknowledge));
    }
}

/// A lowered flag stays lowered through any run of operations that holds no
/// poll: only a poll raises it.
pub proof fn lemma_only_poll_raises(lines: Seq<Line>, operations: Seq<Operation>, i: int)
    requires
        0 <= i < lines.len(),
        !lines[i].changed,
        forall|k: int| 0 <= k < operations.len() ==> !(#[trigger] operations[k] is Sample),
    ensures
        apply_all(lines, operations).len() == lines.len(),
        !apply_all(lines, operations)[i].changed,
    decreases operations.len(),
{
    if operations.len() > 0 {
        lemma_only_poll_raises(lines, operations.drop_last(), i);
        assert(!(operations[operations.len() - 1] is Sample));
    }
}

/// Once a blocked line's flag is lowered it stays lowered, whatever happens to
/// the bank afterwards: no poll raises the flag of a blocked line.
pub proof fn lemma_blocked_flag_stays_lowered(
    lines: Seq<Line>,
    operations: Seq<Operation>,
    i: int,
)
    requires
        0 <= i < lines.len(),
        lines[i].blocked,
        !lines[i].changed,
    ensures
        apply_all(lines, operations).len() == lines.len(),
        apply_all(lines, operations)[i].blocked,
        !apply_all(lines, operations)[i].changed,
    decreases operations.len(),
{
    if operations.len() > 0 {
        lemma_blocked_flag_stays_lowered(lines, operations.drop_last(), i);
    }
}

/// A line that was blocked and then acknowledged has its flag lowered after
/// the next poll, whatever level it held and whatever is read.
pub proof fn lemma_blocked_acknowledged_line_stays_quiet(
    lines: Seq<Line>,
    readings: Seq<Level>,
    i: int,
)
    requires
        0 <= i < lines.len(),
        lines[i].changed,
    ensures
        !sampled(acknowledged(with_changed_blocked(lines)), readings)[i].changed,
        sampled(acknowledged(with_changed_blocked(lines)), readings)[i].blocked,
        sampled(acknowledged(with_changed_blocked(lines)), readings)[i].current
            == Level::Unavailable,
{
}

} // verus!
