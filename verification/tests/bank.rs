use gpio_locator::app::{perform, Action};
use gpio_locator::bank::{Line, LineBank, LINES_PER_ROW};
use gpio_locator::latch::ChangeLatch;
use gpio_locator::level::Level;

fn configured(count: u64) -> LineBank {
    let handles: Vec<Option<u64>> = (0..count).map(Some).collect();
    LineBank::new(handles, 0).expect("a positive multiple of eight")
}

fn lines(bank: &LineBank) -> Vec<Line> {
    (0..bank.len()).map(|i| bank.line(i).unwrap()).collect()
}

#[test]
fn new_bank_starts_unavailable_and_unchanged() {
    let bank = LineBank::new(vec![Some(0), None, Some(2), None, None, None, None, Some(7)], 42)
        .unwrap();
    assert_eq!(bank.len(), 8);
    assert_eq!(bank.rows(), 1);
    assert_eq!(bank.last_poll_time(), 42);
    for i in 0..8 {
        let line = bank.line(i).unwrap();
        assert_eq!(line.current, Level::Unavailable);
        assert_eq!(line.previous, Level::Unavailable);
        assert!(!line.changed);
        assert!(!line.blocked);
    }
    assert_eq!(bank.line(0).unwrap().handle, Some(0));
    assert_eq!(bank.line(1).unwrap().handle, None);
    assert_eq!(bank.line(7).unwrap().handle, Some(7));
    assert_eq!(bank.line(8), None);
    assert_eq!(
        bank.handles(),
        vec![Some(0), None, Some(2), None, None, None, None, Some(7)]
    );
}

#[test]
fn new_bank_needs_whole_rows() {
    assert!(LineBank::new(Vec::new(), 0).is_none());
    assert!(LineBank::new(vec![None; 1], 0).is_none());
    assert!(LineBank::new(vec![None; 7], 0).is_none());
    assert!(LineBank::new(vec![None; 9], 0).is_none());
    assert!(LineBank::new(vec![None; 8], 0).is_some());
    assert!(LineBank::new(vec![None; 256], 0).is_some());
    assert_eq!(LineBank::new(vec![None; 264], 0).unwrap().rows(), 33);
    assert_eq!(LINES_PER_ROW, 8);
}

#[test]
fn poll_follows_the_transition_matrix() {
    let all = [Level::High, Level::Low, Level::Unavailable];
    for previous in all {
        for current in all {
            let mut bank = configured(8);
            bank.prime(&vec![previous; 8], 1);
            bank.sample_all(&vec![current; 8], 2);
            let line = bank.line(5).unwrap();
            assert_eq!(line.current, current);
            assert_eq!(line.previous, current);
            assert_eq!(line.changed, previous != current);
        }
    }
}

#[test]
fn poll_transitions_one_by_one() {
    let mut bank = configured(8);
    bank.sample_all(&vec![Level::Unavailable; 8], 1);
    assert!(!bank.line(0).unwrap().changed);
    bank.sample_all(&vec![Level::Low; 8], 2);
    assert!(bank.line(0).unwrap().changed);
    bank.acknowledge_all();
    bank.sample_all(&vec![Level::Low; 8], 3);
    assert!(!bank.line(0).unwrap().changed);
    bank.sample_all(&vec![Level::High; 8], 4);
    assert!(bank.line(0).unwrap().changed);
    bank.acknowledge_all();
    bank.sample_all(&vec![Level::High; 8], 5);
    assert!(!bank.line(0).unwrap().changed);
    bank.sample_all(&vec![Level::Unavailable; 8], 6);
    assert!(bank.line(0).unwrap().changed);
    assert_eq!(bank.last_poll_time(), 6);
}

#[test]
fn raised_flag_survives_polls() {
    let mut bank = configured(8);
    bank.sample_all(&vec![Level::High; 8], 1);
    assert!(bank.line(2).unwrap().changed);
    for tick in 2..10 {
        bank.sample_all(&vec![Level::High; 8], tick);
        assert!(bank.line(2).unwrap().changed);
    }
}

#[test]
fn poll_without_handle_reads_unavailable() {
    let mut bank = LineBank::new(vec![None; 8], 0).unwrap();
    bank.sample_all(&vec![Level::High; 8], 1);
    for line in lines(&bank) {
        assert_eq!(line.current, Level::Unavailable);
        assert!(!line.changed);
    }
}

#[test]
fn poll_with_missing_readings_reads_unavailable() {
    let mut bank = configured(8);
    bank.sample_all(&vec![Level::High; 3], 1);
    assert_eq!(bank.line(2).unwrap().current, Level::High);
    assert!(bank.line(2).unwrap().changed);
    assert_eq!(bank.line(3).unwrap().current, Level::Unavailable);
    assert!(!bank.line(3).unwrap().changed);
    bank.sample_all(&Vec::new(), 2);
    assert_eq!(bank.line(2).unwrap().current, Level::Unavailable);
}

#[test]
fn prime_sets_levels_and_raises_nothing() {
    let mut bank = configured(8);
    let mut readings = vec![Level::Low; 8];
    readings[1] = Level::High;
    bank.prime(&readings, 9);
    assert_eq!(bank.last_poll_time(), 9);
    let line = bank.line(1).unwrap();
    assert_eq!(line.current, Level::High);
    assert_eq!(line.previous, Level::High);
    assert!(!line.changed);
    bank.sample_all(&readings, 10);
    assert!(lines(&bank).iter().all(|line| !line.changed));
}

#[test]
fn acknowledge_clears_flags_only() {
    let mut bank = configured(16);
    let mut readings = vec![Level::Low; 16];
    readings[4] = Level::High;
    readings[9] = Level::Unavailable;
    bank.sample_all(&readings, 1);
    bank.block_changed();
    let before = lines(&bank);
    assert!(before[4].changed && before[4].blocked);
    bank.acknowledge_all();
    let after = lines(&bank);
    for i in 0..16 {
        assert!(!after[i].changed);
        assert_eq!(after[i].current, before[i].current);
        assert_eq!(after[i].previous, before[i].previous);
        assert_eq!(after[i].blocked, before[i].blocked);
        assert_eq!(after[i].handle, before[i].handle);
    }
    assert_eq!(bank.last_poll_time(), 1);
}

#[test]
fn acknowledge_twice_is_acknowledge_once() {
    let mut bank = configured(8);
    bank.sample_all(&vec![Level::High; 8], 1);
    bank.acknowledge_all();
    let once = lines(&bank);
    bank.acknowledge_all();
    assert_eq!(lines(&bank), once);
}

#[test]
fn block_changed_blocks_exactly_the_changed_lines() {
    let mut bank = configured(8);
    bank.prime(&vec![Level::Low; 8], 0);
    let mut readings = vec![Level::Low; 8];
    readings[2] = Level::High;
    readings[6] = Level::Unavailable;
    bank.sample_all(&readings, 1);
    let before = lines(&bank);
    bank.block_changed();
    let after = lines(&bank);
    for i in 0..8 {
        if i == 2 || i == 6 {
            assert!(after[i].blocked);
            assert_eq!(after[i].handle, None);
            assert!(after[i].changed);
            assert_eq!(after[i].current, before[i].current);
        } else {
            assert_eq!(after[i], before[i]);
        }
    }
    bank.sample_all(&vec![Level::High; 8], 2);
    assert_eq!(bank.line(2).unwrap().current, Level::Unavailable);
    assert_eq!(bank.line(6).unwrap().current, Level::Unavailable);
    assert_eq!(bank.line(0).unwrap().current, Level::High);
    assert_eq!(bank.handles()[2], None);
    assert_eq!(bank.handles()[0], Some(0));
}

#[test]
fn block_changed_without_changes_mutates_nothing() {
    let mut bank = configured(8);
    bank.prime(&vec![Level::High; 8], 0);
    bank.sample_all(&vec![Level::High; 8], 1);
    let before = lines(&bank);
    bank.block_changed();
    assert_eq!(lines(&bank), before);
    assert_eq!(bank.last_poll_time(), 1);
}

#[test]
fn block_changed_twice_is_block_changed_once() {
    let mut bank = configured(8);
    bank.sample_all(&vec![Level::High; 4], 1);
    bank.block_changed();
    let once = lines(&bank);
    bank.block_changed();
    assert_eq!(lines(&bank), once);
}

#[test]
fn blocked_line_stays_blocked() {
    let mut bank = configured(8);
    bank.sample_all(&vec![Level::High; 1], 1);
    bank.block_changed();
    bank.acknowledge_all();
    bank.sample_all(&vec![Level::High; 8], 2);
    bank.prime(&vec![Level::Low; 8], 3);
    bank.block_changed();
    bank.acknowledge_all();
    for tick in 4..8 {
        bank.sample_all(&vec![Level::High; 8], tick);
        let line = bank.line(0).unwrap();
        assert!(line.blocked);
        assert_eq!(line.handle, None);
        assert_eq!(line.current, Level::Unavailable);
    }
}

#[test]
fn scenario_one_line_becomes_readable() {
    let mut bank = configured(8);
    bank.sample_all(&vec![Level::Unavailable; 8], 1);
    assert!(lines(&bank).iter().all(|line| !line.changed));
    assert!(lines(&bank).iter().all(|line| line.current == Level::Unavailable));

    let mut readings = vec![Level::Unavailable; 8];
    readings[3] = Level::High;
    bank.sample_all(&readings, 2);
    for (i, line) in lines(&bank).iter().enumerate() {
        assert_eq!(line.changed, i == 3);
        assert_eq!(line.current, if i == 3 { Level::High } else { Level::Unavailable });
    }

    let mut acknowledged = bank.snapshot();
    perform(&mut acknowledged, Action::AcknowledgeAll);
    assert!(lines(&acknowledged).iter().all(|line| !line.changed));
    assert_eq!(acknowledged.line(3).unwrap().current, Level::High);

    perform(&mut bank, Action::BlockChanged);
    for (i, line) in lines(&bank).iter().enumerate() {
        assert_eq!(line.blocked, i == 3);
    }
    for tick in 3..6 {
        bank.sample_all(&vec![Level::High; 8], tick);
        assert_eq!(bank.line(3).unwrap().current, Level::Unavailable);
    }
    bank.sample_all(&vec![Level::Low; 8], 6);
    assert_eq!(bank.line(3).unwrap().current, Level::Unavailable);
    assert_eq!(bank.line(4).unwrap().current, Level::Low);
}

#[test]
fn snapshot_is_an_independent_copy() {
    let mut bank = configured(8);
    bank.sample_all(&vec![Level::High; 8], 7);
    let copy = bank.snapshot();
    bank.acknowledge_all();
    bank.sample_all(&vec![Level::Low; 8], 8);
    assert_eq!(copy.last_poll_time(), 7);
    assert_eq!(copy.len(), 8);
    for line in lines(&copy) {
        assert_eq!(line.current, Level::High);
        assert!(line.changed);
    }
}

#[test]
fn elapsed_time_since_poll() {
    let mut bank = configured(8);
    bank.sample_all(&Vec::new(), 1_000);
    assert_eq!(bank.elapsed_since_poll(1_000), 0);
    assert_eq!(bank.elapsed_since_poll(1_250), 250);
    assert_eq!(bank.elapsed_since_poll(999), 0);
    assert_eq!(bank.elapsed_since_poll(u64::MAX), u64::MAX - 1_000);
}

#[test]
fn perform_leaves_the_bank_alone_for_other_actions() {
    let mut bank = configured(8);
    bank.sample_all(&vec![Level::High; 8], 1);
    let before = lines(&bank);
    perform(&mut bank, Action::Draw);
    perform(&mut bank, Action::Quit);
    perform(&mut bank, Action::Nothing);
    assert_eq!(lines(&bank), before);
}

#[test]
fn levels_from_reads() {
    assert_eq!(Level::from_reading(Some(true)), Level::High);
    assert_eq!(Level::from_reading(Some(false)), Level::Low);
    assert_eq!(Level::from_reading(None), Level::Unavailable);
    assert_eq!(Level::from_value(Some(1)), Level::High);
    assert_eq!(Level::from_value(Some(255)), Level::High);
    assert_eq!(Level::from_value(Some(0)), Level::Low);
    assert_eq!(Level::from_value(None), Level::Unavailable);
    assert!(Level::High.is_available());
    assert!(Level::Low.is_available());
    assert!(!Level::Unavailable.is_available());
}

#[test]
fn latch_is_sticky_until_cleared() {
    let mut latch = ChangeLatch::new();
    assert!(!latch.is_raised());
    latch.raise_if_differs(Level::Low, Level::Low);
    assert!(!latch.is_raised());
    latch.raise_if_differs(Level::Unavailable, Level::Unavailable);
    assert!(!latch.is_raised());
    latch.raise_if_differs(Level::Low, Level::High);
    assert!(latch.is_raised());
    latch.raise_if_differs(Level::High, Level::High);
    assert!(latch.is_raised());
    latch.clear();
    assert!(!latch.is_raised());
    latch.raise_if_differs(Level::Unavailable, Level::Low);
    assert!(latch.is_raised());
    latch.clear();
    latch.raise_if_differs(Level::High, Level::Unavailable);
    assert!(latch.is_raised());
}

#[test]
fn poll_does_not_raise_the_flag_of_a_blocked_line() {
    let mut bank = configured(8);
    let mut readings = vec![Level::Unavailable; 8];
    readings[0] = Level::High;
    bank.sample_all(&readings, 1);
    assert!(bank.line(0).unwrap().changed);
    assert_eq!(bank.line(0).unwrap().current, Level::High);
    bank.block_changed();
    bank.acknowledge_all();
    let line = bank.line(0).unwrap();
    assert!(line.blocked);
    assert!(!line.changed);
    assert_eq!(line.current, Level::High);
    assert_eq!(line.previous, Level::High);

    bank.sample_all(&readings, 2);
    for (i, line) in lines(&bank).iter().enumerate() {
        assert!(!line.changed);
        assert_eq!(line.current, Level::Unavailable);
        assert_eq!(line.previous, Level::Unavailable);
        assert_eq!(line.blocked, i == 0);
    }
    for tick in 3..8 {
        bank.sample_all(&vec![Level::Low; 8], tick);
        bank.acknowledge_all();
        bank.sample_all(&vec![Level::High; 8], tick);
        let line = bank.line(0).unwrap();
        assert!(!line.changed);
        assert_eq!(line.current, Level::Unavailable);
        assert!(bank.line(1).unwrap().changed);
        bank.acknowledge_all();
    }
}

#[test]
fn poll_keeps_the_raised_flag_of_a_blocked_line() {
    let mut bank = configured(8);
    bank.sample_all(&vec![Level::Low; 8], 1);
    bank.block_changed();
    bank.sample_all(&vec![Level::Low; 8], 2);
    for line in lines(&bank) {
        assert!(line.blocked);
        assert!(line.changed);
        assert_eq!(line.current, Level::Unavailable);
        assert_eq!(line.previous, Level::Unavailable);
    }
    bank.acknowledge_all();
    bank.sample_all(&vec![Level::High; 8], 3);
    assert!(lines(&bank).iter().all(|line| !line.changed));
}

#[test]
fn prime_reports_a_blocked_line_unavailable() {
    let mut bank = configured(8);
    bank.sample_all(&vec![Level::High; 1], 1);
    bank.block_changed();
    bank.prime(&vec![Level::Low; 8], 2);
    assert_eq!(bank.line(0).unwrap().current, Level::Unavailable);
    assert_eq!(bank.line(0).unwrap().previous, Level::Unavailable);
    assert!(bank.line(0).unwrap().changed);
    assert_eq!(bank.line(1).unwrap().current, Level::Low);
}
