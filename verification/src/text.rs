//! The texts on the screen: cell labels, the header and the key legend.

use vstd::prelude::*;
use vstd::string::StringExecFns;

verus! {

/// The character of one decimal digit.
pub open spec fn digit_char(digit: nat) -> char {
    if digit == 0 {
        '0'
    } else if digit == 1 {
        '1'
    } else if digit == 2 {
        '2'
    } else if digit == 3 {
        '3'
    } else if digit == 4 {
        '4'
    } else if digit == 5 {
        '5'
    } else if digit == 6 {
        '6'
    } else if digit == 7 {
        '7'
    } else if digit == 8 {
        '8'
    } else {
        '9'
    }
}

/// The decimal digits of `n`, most significant first, without leading zeros.
pub open spec fn decimal(n: nat) -> Seq<char>
    decreases n,
{
    if n < 10 {
        seq![digit_char(n)]
    } else {
        decimal(n / 10).push(digit_char(n % 10))
    }
}

/// What a cell label starts with.
pub open spec fn label_prefix() -> Seq<char> {
    seq!['P', 'i', 'n']
}

/// The label of the cell of line `index`.
pub open spec fn label_text(index: nat) -> Seq<char> {
    label_prefix() + decimal(index)
}

/// What the header starts with.
pub open spec fn header_prefix() -> Seq<char> {
    seq!['D', 'e', 'l', 'a', 'y', ' ']
}

/// The unit that the header ends with.
pub open spec fn header_unit() -> Seq<char> {
    seq!['μ', 's']
}

/// The header for a bank whose latest poll was `micros` microseconds ago.
pub open spec fn header_text(micros: nat) -> Seq<char> {
    header_prefix() + decimal(micros) + header_unit()
}

fn digit_str(digit: u64) -> (s: &'static str)
    requires
        digit < 10,
    ensures
        s@ == seq![digit_char(digit as nat)],
{
    proof {
        reveal_strlit("0");
        reveal_strlit("1");
        reveal_strlit("2");
        reveal_strlit("3");
        reveal_strlit("4");
        reveal_strlit("5");
        reveal_strlit("6");
        reveal_strlit("7");
        reveal_strlit("8");
        reveal_strlit("9");
    }
    let s = match digit {
        0 => "0",
        1 => "1",
        2 => "2",
        3 => "3",
        4 => "4",
        5 => "5",
        6 => "6",
        7 => "7",
        8 => "8",
        _ => "9",
    };
    assert(s@ =~= seq![digit_char(digit as nat)]);
    s
}

/// Writes `n` in decimal.
pub fn decimal_string(n: u64) -> (s: String)
    ensures
        s@ == decimal(n as nat),
    decreases n,
{
    if n < 10 {
        String::from_str(digit_str(n))
    } else {
        let mut s = decimal_string(n / 10);
        s.append(digit_str(n % 10));
        assert(s@ =~= decimal(n as nat));
        s
    }
}

/// The label of the cell of line `index`.
pub fn line_label(index: usize) -> (label: String)
    ensures
        label@ == label_text(index as nat),
{
    proof {
        reveal_strlit("Pin");
    }
    let mut label = String::from_str("Pin");
    assert(label@ =~= label_prefix());
    let digits = decimal_string(index as u64);
    label.append(digits.as_str());
    label
}

/// The header line: how long ago the latest poll was.
pub fn header_line(micros: u64) -> (header: String)
    ensures
        header@ == header_text(micros as nat),
{
    proof {
        reveal_strlit("Delay ");
        reveal_strlit("μs");
    }
    let mut header = String::from_str("Delay ");
    assert(header@ =~= header_prefix());
    let digits = decimal_string(micros);
    header.append(digits.as_str());
    header.append("μs");
    assert("μs"@ =~= header_unit());
    header
}

/// The title above the grid.
pub open spec fn title_text() -> Seq<char> {
    "GPIO line locator"@
}

/// The key legend below the grid.
pub open spec fn legend_text() -> Seq<char> {
    "q to quit, r to refresh, j/k to scroll, b to block changed pins"@
}

/// The title above the grid.
pub fn title() -> (title: String)
    ensures
        title@ == title_text(),
{
    String::from_str("GPIO line locator")
}

/// The key legend below the grid.
pub fn legend() -> (legend: String)
    ensures
        legend@ == legend_text(),
{
    String::from_str("q to quit, r to refresh, j/k to scroll, b to block changed pins")
}

} // verus!
