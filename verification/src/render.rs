//! From a snapshot of the bank to the grid of styled cells that is drawn.

use vstd::prelude::*;
use crate::bank::{elapsed_between, Line, LineBank, LINES_PER_ROW};
use crate::level::Level;
use crate::text::{
    header_line, header_text, label_text, legend, legend_text, line_label, title, title_text,
};
use crate::viewport::ViewportState;

verus! {

/// How a cell is drawn.
#[derive(Clone, Copy, Debug, PartialEq, Eq, Structural)]
pub enum CellStyle {
    /// The line changed and was not acknowledged yet.
    Attention,
    /// The line is steadily high.
    StableHigh,
    /// The line is steadily low.
    StableLow,
    /// The line cannot be read.
    Unavailable,
}

/// The style of a line's cell: a raised change flag wins over the level.
pub open spec fn style_of(line: Line) -> CellStyle {
    if line.changed {
        CellStyle::Attention
    } else {
        match line.current {
            Level::High => CellStyle::StableHigh,
            Level::Low => CellStyle::StableLow,
            Level::Unavailable => CellStyle::Unavailable,
        }
    }
}

/// One cell of the grid.
#[derive(Debug)]
pub struct Cell {
    /// The index of the line that the cell shows.
    pub index: usize,
    /// The text in the cell.
    pub label: String,
    /// How the cell is drawn.
    pub style: CellStyle,
}

/// What a cell shows.
pub struct CellView {
    /// The index of the line that the cell shows.
    pub index: nat,
    /// The text in the cell.
    pub label: Seq<char>,
    /// How the cell is drawn.
    pub style: CellStyle,
}

impl View for Cell {
    type V = CellView;

    open spec fn view(&self) -> CellView {
        CellView { index: self.index as nat, label: self.label@, style: self.style }
    }
}

/// The cell of line `index`.
pub open spec fn cell_of(lines: Seq<Line>, index: int) -> CellView {
    CellView { index: index as nat, label: label_text(index as nat), style: style_of(lines[index]) }
}

/// The row of the grid that line `index` is shown in.
pub open spec fn row_of(index: int) -> int {
    index / (LINES_PER_ROW as int)
}

/// The column of the grid that line `index` is shown in.
pub open spec fn column_of(index: int) -> int {
    index % (LINES_PER_ROW as int)
}

/// The number of rows that `count` lines need.
pub open spec fn rows_needed(count: nat) -> nat {
    (count + LINES_PER_ROW - 1) as nat / (LINES_PER_ROW as nat)
}

/// Whether `cells` is row `row` of the grid of `lines`.
pub open spec fn is_row_of(cells: Seq<Cell>, lines: Seq<Line>, row: int) -> bool {
    &&& cells.len() == LINES_PER_ROW
    &&& forall|column: int|
        0 <= column < LINES_PER_ROW ==> (#[trigger] cells[column])@ == cell_of(
            lines,
            row * LINES_PER_ROW + column,
        )
}

/// The cells of the grid, row by row.
#[derive(Debug)]
pub struct Grid {
    /// The rows, each a full row of cells.
    pub rows: Vec<Vec<Cell>>,
}

impl Grid {
    /// The number of rows.
    pub open spec fn row_count(&self) -> nat {
        self.rows@.len()
    }

    /// What the cell in row `row` and column `column` shows.
    pub open spec fn cell(&self, row: int, column: int) -> CellView {
        self.rows@[row]@[column]@
    }

    /// The grid shows `lines`: the rows hold all the lines, eight to a row, and
    /// the cell in row `r` and column `c` is that of line `8 * r + c`.
    pub open spec fn shows(&self, lines: Seq<Line>) -> bool {
        &&& self.row_count() * LINES_PER_ROW == lines.len()
        &&& forall|row: int|
            0 <= row < self.row_count() ==> is_row_of((#[trigger] self.rows@[row])@, lines, row)
    }

    /// In a grid that shows `lines`, the cell of line `index` stands in row
    /// `index / 8` and column `index % 8`.
    pub proof fn lemma_cell_of_line(&self, lines: Seq<Line>, index: int)
        requires
            self.shows(lines),
            0 <= index < lines.len(),
        ensures
            0 <= row_of(index) < self.row_count(),
            0 <= column_of(index) < LINES_PER_ROW,
            self.cell(row_of(index), column_of(index)) == cell_of(lines, index),
    {
        let row = index / 8;
        let column = index % 8;
        assert(is_row_of(self.rows@[row]@, lines, row));
        assert(self.rows@[row]@[column]@ == cell_of(lines, row * LINES_PER_ROW + column));
    }
}

/// The style of a line's cell.
pub fn cell_style(line: &Line) -> (style: CellStyle)
    ensures
        style == style_of(*line),
{
    if line.changed {
        CellStyle::Attention
    } else {
        match line.current {
            Level::High => CellStyle::StableHigh,
            Level::Low => CellStyle::StableLow,
            Level::Unavailable => CellStyle::Unavailable,
        }
    }
}

/// One row of the grid.
pub fn render_row(bank: &LineBank, row: usize) -> (cells: Vec<Cell>)
    requires
        bank.wf(),
        row < rows_needed(bank@.len()),
    ensures
        is_row_of(cells@, bank@, row as int),
{
    proof {
        bank.lemma_wf_valid();
        assert(row * 8 + 8 <= bank@.len());
    }
    let first = row * LINES_PER_ROW;
    let mut cells: Vec<Cell> = Vec::new();
    let mut column: usize = 0;
    while column < LINES_PER_ROW
        invariant
            bank.wf(),
            first == row * 8,
            first + 8 <= bank@.len(),
            column <= 8,
            cells@.len() == column,
            forall|c: int| 0 <= c < column ==> (#[trigger] cells@[c])@ == cell_of(bank@, first + c),
        decreases 8 - column,
    {
        let index = first + column;
        if let Some(line) = bank.line(index) {
            cells.push(Cell { index, label: line_label(index), style: cell_style(&line) });
        }
        column = column + 1;
    }
    cells
}

/// The whole grid: one cell per line, eight to a row, in index order.
pub fn render_grid(bank: &LineBank) -> (grid: Grid)
    requires
        bank.wf(),
    ensures
        grid.shows(bank@),
        grid.row_count() == rows_needed(bank@.len()),
{
    proof {
        bank.lemma_wf_valid();
    }
    let rows = bank.rows();
    let mut cells: Vec<Vec<Cell>> = Vec::new();
    let mut row: usize = 0;
    while row < rows
        invariant
            bank.wf(),
            rows * 8 == bank@.len(),
            row <= rows,
            cells@.len() == row,
            forall|r: int| 0 <= r < row ==> is_row_of((#[trigger] cells@[r])@, bank@, r),
        decreases rows - row,
    {
        let line = render_row(bank, row);
        cells.push(line);
        row = row + 1;
    }
    Grid { rows: cells }
}

/// The row that is highlighted: the viewport's position, held on the grid.
pub open spec fn highlighted_row(position: nat, rows: nat) -> nat {
    if position < rows {
        position
    } else {
        (rows - 1) as nat
    }
}

/// Everything that one frame shows.
#[derive(Debug)]
pub struct Screen {
    /// The title above the grid.
    pub title: String,
    /// The header: how stale the levels are.
    pub header: String,
    /// The key legend below the grid.
    pub footer: String,
    /// The cells.
    pub grid: Grid,
    /// The highlighted row.
    pub selected_row: usize,
}

/// One frame: the grid of the bank as it was at its latest poll, the header
/// with the time since that poll, and the row that the viewport selects.
pub fn render(bank: &LineBank, viewport: &ViewportState, now: u64) -> (screen: Screen)
    requires
        bank.wf(),
    ensures
        screen.title@ == title_text(),
        screen.header@ == header_text(elapsed_between(bank.last_poll(), now) as nat),
        screen.footer@ == legend_text(),
        screen.grid.shows(bank@),
        screen.grid.row_count() == rows_needed(bank@.len()),
        screen.selected_row == highlighted_row(viewport.position(), screen.grid.row_count()),
        screen.selected_row < screen.grid.row_count(),
{
    let rows = bank.rows();
    let position = viewport.selected();
    let selected_row = if position < rows {
        position
    } else {
        rows - 1
    };
    Screen {
        title: title(),
        header: header_line(bank.elapsed_since_poll(now)),
        footer: legend(),
        grid: render_grid(bank),
        selected_row,
    }
}

} // verus!
