//! The three-valued level of a digital input line.

use vstd::prelude::*;

verus! {

/// What one sample of a line can yield.
#[derive(Clone, Copy, Debug, PartialEq, Eq, Structural)]
pub enum Level {
    /// The line was read and is driven high.
    High,
    /// The line was read and is driven low.
    Low,
    /// The line could not be read: unconfigured, blocked, or the read failed.
    Unavailable,
}

impl Level {
    /// The level that a read stands for: `None` is a read that failed.
    pub open spec fn of_reading(reading: Option<bool>) -> Level {
        match reading {
            Some(true) => Level::High,
            Some(false) => Level::Low,
            None => Level::Unavailable,
        }
    }

    /// The level that a raw value file content stands for: zero is low, any
    /// other value is high, and `None` is a read that failed.
    pub open spec fn of_value(value: Option<u8>) -> Level {
        match value {
            Some(v) => if v != 0 { Level::High } else { Level::Low },
            None => Level::Unavailable,
        }
    }

    /// Turns the outcome of a read into a level.
    pub fn from_reading(reading: Option<bool>) -> (level: Level)
        ensures
            level == Level::of_reading(reading),
    {
        match reading {
            Some(true) => Level::High,
            Some(false) => Level::Low,
            None => Level::Unavailable,
        }
    }

    /// Turns the outcome of a raw read into a level.
    pub fn from_value(value: Option<u8>) -> (level: Level)
        ensures
            level == Level::of_value(value),
    {
        match value {
            Some(v) => if v != 0 { Level::High } else { Level::Low },
            None => Level::Unavailable,
        }
    }

    /// Whether the line was read at all.
    pub fn is_available(&self) -> (available: bool)
        ensures
            available == (*self != Level::Unavailable),
    {
        match self {
            Level::Unavailable => false,
            _ => true,
        }
    }
}

} // verus!
