//! Grid geometry and the pixel-space to cell-grid mapping.

use vstd::prelude::*;
use crate::types::{Size, Point, Side};

verus! {

/// The negotiated grid geometry of one terminal session.
#[derive(Clone, Copy, Debug)]
pub struct TerminalSize {
    pub cell_width: u16,
    pub cell_height: u16,
    pub num_cols: u16,
    pub num_lines: u16,
    pub layout_size: Size,
}

impl TerminalSize {
    /// A usable geometry has at least one cell, and cells occupy at
    /// least one pixel in each direction.
    pub open spec fn wf(self) -> bool {
        &&& self.cell_width >= 1
        &&& self.cell_height >= 1
        &&& self.num_cols >= 1
        &&& self.num_lines >= 1
    }

    pub open spec fn spec_columns(self) -> usize {
        self.num_cols as usize
    }

    pub fn columns(&self) -> (r: usize)
        ensures
            r == self.spec_columns(),
    {
        self.num_cols as usize
    }

    pub open spec fn spec_screen_lines(self) -> usize {
        self.num_lines as usize
    }

    pub fn screen_lines(&self) -> (r: usize)
        ensures
            r == self.spec_screen_lines(),
    {
        self.num_lines as usize
    }

    /// The adapter keeps no scrollback of its own, so the total line
    /// count equals the screen line count.
    pub fn total_lines(&self) -> (r: usize)
        ensures
            r == self.spec_screen_lines(),
    {
        self.num_lines as usize
    }

    pub fn last_column(&self) -> (r: usize)
        requires
            self.wf(),
        ensures
            r == self.spec_columns() - 1,
    {
        self.num_cols as usize - 1
    }

    pub fn bottommost_line(&self) -> (r: i32)
        requires
            self.wf(),
        ensures
            r == self.spec_screen_lines() - 1,
    {
        self.num_lines as i32 - 1
    }
}

impl Default for TerminalSize {
    /// A fresh session starts at an 80 by 50 grid of 1 by 1 pixel
    /// cells until the first resize negotiation runs.
    fn default() -> (r: TerminalSize)
        ensures
            r.cell_width == 1u16,
            r.cell_height == 1u16,
            r.num_cols == 80u16,
            r.num_lines == 50u16,
            r.layout_size == (Size { width: 0, height: 0 }),
            r.wf(),
    {
        TerminalSize {
            cell_width: 1,
            cell_height: 1,
            num_cols: 80,
            num_lines: 50,
            layout_size: Size { width: 0, height: 0 },
        }
    }
}

/// A viewport-relative cell position translated to a buffer point:
/// scrolling back by `display_offset` lines shifts the visible rows
/// that far up into the buffer.
pub open spec fn spec_viewport_to_point(display_offset: usize, line: usize, column: usize) -> Point {
    Point { line: (line - display_offset) as i32, column }
}

/// The buffer point under a pixel position.
///
/// Pixel coordinates floor-divide by the cell size and clamp to the
/// grid, then the viewport row is translated to a buffer line.
pub open spec fn spec_selection_point(
    x: usize,
    y: usize,
    terminal_size: TerminalSize,
    display_offset: usize,
) -> Point {
    let col = vstd::math::min(
        x as int / (terminal_size.cell_width as int),
        terminal_size.spec_columns() - 1,
    );
    let line = vstd::math::min(
        y as int / (terminal_size.cell_height as int),
        terminal_size.spec_screen_lines() - 1,
    );
    Point { line: (line - display_offset) as i32, column: col as usize }
}

/// Map a pixel position to the buffer point of the cell under it.
///
/// The column and line are clamped to the grid bounds before the
/// display offset moves the line into buffer coordinates.
pub fn selection_point(
    x: usize,
    y: usize,
    terminal_size: &TerminalSize,
    display_offset: usize,
) -> (r: Point)
    requires
        terminal_size.wf(),
        display_offset <= i32::MAX,
    ensures
        r == spec_selection_point(x, y, *terminal_size, display_offset),
        0 <= r.column < terminal_size.spec_columns(),
        -(display_offset as int) <= r.line < terminal_size.spec_screen_lines() - display_offset,
{
    let mut col: usize = x / (terminal_size.cell_width as usize);
    let max_col: usize = terminal_size.num_cols as usize - 1;
    if col > max_col {
        col = max_col;
    }

    let mut line: usize = y / (terminal_size.cell_height as usize);
    let max_line: usize = terminal_size.num_lines as usize - 1;
    if line > max_line {
        line = max_line;
    }

    Point { line: line as i32 - display_offset as i32, column: col }
}

/// Every pixel position within one cell maps to the same grid point:
/// the result depends only on which cell the position falls in.
pub proof fn lemma_selection_point_uniform(
    x1: usize,
    y1: usize,
    x2: usize,
    y2: usize,
    terminal_size: TerminalSize,
    display_offset: usize,
)
    requires
        terminal_size.wf(),
        x1 / (terminal_size.cell_width as usize) == x2 / (terminal_size.cell_width as usize),
        y1 / (terminal_size.cell_height as usize) == y2 / (terminal_size.cell_height as usize),
    ensures
        spec_selection_point(x1, y1, terminal_size, display_offset) == spec_selection_point(
            x2,
            y2,
            terminal_size,
            display_offset,
        ),
{
}

/// `selection_point` clamps to the grid: the column lies in
/// `[0, num_cols - 1]` and the viewport row in `[0, num_lines - 1]`.
pub proof fn lemma_selection_point_clamped(
    x: usize,
    y: usize,
    terminal_size: TerminalSize,
    display_offset: usize,
)
    requires
        terminal_size.wf(),
        display_offset <= i32::MAX,
    ensures
        spec_selection_point(x, y, terminal_size, display_offset).column <= terminal_size.spec_columns() - 1,
        spec_selection_point(x, y, terminal_size, display_offset).line + display_offset
            <= terminal_size.spec_screen_lines() - 1,
        spec_selection_point(x, y, terminal_size, display_offset).line + display_offset >= 0,
{
}

/// Which half of its cell a pixel column falls in; positions past the
/// cell midpoint bias right.
pub open spec fn spec_selection_side(x: usize, cell_width: u16) -> Side {
    if x % (cell_width as usize) > (cell_width as usize) / 2 {
        Side::Right
    } else {
        Side::Left
    }
}

pub fn selection_side(x: usize, cell_width: u16) -> (r: Side)
    requires
        cell_width >= 1,
    ensures
        r == spec_selection_side(x, cell_width),
{
    let cell_x: usize = x % (cell_width as usize);
    let half_cell_width: usize = (cell_width as usize) / 2;

    if cell_x > half_cell_width {
        Side::Right
    } else {
        Side::Left
    }
}

} // verus!
