//! The per-frame render snapshot: an immutable copy of the renderable
//! engine state, and the read-only queries that run against it.

use vstd::prelude::*;
use crate::types::Point;
use crate::mode::TermMode;
use crate::geometry::TerminalSize;
use crate::theme::{Color, NamedColor};

verus! {

/// One character cell of the snapshot grid, with the flags the
/// renderer reads.
#[derive(Clone, Copy, Debug, PartialEq, Eq, Structural)]
pub struct Cell {
    pub c: char,
    pub fg: Color,
    pub bg: Color,
    /// The cell holds a wide character occupying two columns.
    pub wide: bool,
    /// The cell is the spacer following a wide character.
    pub wide_spacer: bool,
    /// Foreground and background are swapped.
    pub inverse: bool,
    /// The dim attribute (alone or with bold) is set.
    pub dim: bool,
}

impl Default for Cell {
    fn default() -> (r: Cell)
        ensures
            r == Cell::spec_default(),
    {
        Cell {
            c: ' ',
            fg: Color::Named(NamedColor::Foreground),
            bg: Color::Named(NamedColor::Background),
            wide: false,
            wide_spacer: false,
            inverse: false,
            dim: false,
        }
    }
}

impl Cell {
    pub open spec fn spec_default() -> Cell {
        Cell {
            c: ' ',
            fg: Color::Named(NamedColor::Foreground),
            bg: Color::Named(NamedColor::Background),
            wide: false,
            wide_spacer: false,
            inverse: false,
            dim: false,
        }
    }
}

/// A copy of a contiguous band of the engine grid, spanning at least
/// the visible viewport.
///
/// Rows are stored top to bottom, each `columns` cells wide.  Row 0
/// holds buffer line `top_line`; the visible viewport starts at buffer
/// line `-display_offset` and is `screen_rows` tall.
#[derive(Clone, Debug)]
pub struct GridSnapshot {
    pub columns: usize,
    pub top_line: i32,
    pub rows: usize,
    pub display_offset: usize,
    pub screen_rows: usize,
    pub cells: Vec<Cell>,
}

impl GridSnapshot {
    /// The stored band is consistent: the cell vector holds exactly
    /// `rows` rows, the dimensions stay within the engine's 16-bit
    /// grid limits, and the visible viewport lies inside the band.
    pub open spec fn wf(self) -> bool {
        &&& self.cells.len() == self.rows * self.columns
        &&& self.columns <= 0xffff
        &&& self.rows <= 0xffff
        &&& self.display_offset <= i32::MAX
        &&& self.top_line <= -(self.display_offset as int)
        &&& -(self.display_offset as int) + self.screen_rows <= self.top_line + self.rows
    }

    /// The buffer line of the top of the visible viewport.
    pub open spec fn spec_viewport_top(self) -> int {
        -(self.display_offset as int)
    }

    /// The buffer line of the bottom of the visible viewport.
    pub open spec fn spec_viewport_bottom(self) -> int {
        self.spec_viewport_top() + self.screen_rows - 1
    }

    /// Whether the stored band holds the given buffer line.
    pub open spec fn spec_contains_line(self, line: int) -> bool {
        self.top_line <= line < self.top_line + self.rows
    }

    /// The flat index of a buffer point in the stored band.
    pub open spec fn spec_flat_index(self, p: Point) -> int {
        (p.line - self.top_line) * self.columns + p.column
    }

    /// Whether a buffer point addresses a cell of the stored band.
    pub open spec fn spec_contains_point(self, p: Point) -> bool {
        self.spec_contains_line(p.line as int) && p.column < self.columns
    }

    /// The cell at a buffer point of the stored band.
    pub open spec fn spec_cell(self, p: Point) -> Cell {
        self.cells[self.spec_flat_index(p)]
    }

    /// The flat index where the visible viewport starts in `cells`.
    pub open spec fn spec_visible_start(self) -> int {
        (self.spec_viewport_top() - self.top_line) * self.columns
    }

    /// The number of visible cells.
    pub open spec fn spec_visible_len(self) -> int {
        self.screen_rows * self.columns
    }

    /// The buffer point of the `k`-th visible cell in display order.
    pub open spec fn spec_visible_point(self, k: int) -> Point {
        Point {
            line: (self.spec_viewport_top() + k / (self.columns as int)) as i32,
            column: (k % (self.columns as int)) as usize,
        }
    }

    /// The `k`-th visible cell in display order.
    pub open spec fn spec_visible_cell(self, k: int) -> Cell {
        self.cells[self.spec_visible_start() + k]
    }

    pub fn cell_at(&self, p: Point) -> (r: &Cell)
        requires
            self.wf(),
            self.spec_contains_point(p),
        ensures
            *r == self.spec_cell(p),
    {
        proof {
            lemma_flat_in_band(
                p.line - self.top_line,
                p.column as int,
                self.rows as int,
                self.columns as int,
            );
        }
        let row: usize = (p.line - self.top_line) as usize;
        &self.cells[row * self.columns + p.column]
    }
}

impl Default for GridSnapshot {
    fn default() -> (r: GridSnapshot)
        ensures
            r.wf(),
            r.columns == 0usize,
            r.rows == 0usize,
            r.screen_rows == 0usize,
            r.display_offset == 0usize,
            r.top_line == 0i32,
    {
        GridSnapshot {
            columns: 0,
            top_line: 0,
            rows: 0,
            display_offset: 0,
            screen_rows: 0,
            cells: Vec::new(),
        }
    }
}

/// A row lying inside a band of `rows` rows keeps its flat indices
/// inside the band.
pub(crate) proof fn lemma_flat_in_band(row: int, col: int, rows: int, columns: int)
    requires
        0 <= row < rows,
        0 <= col < columns,
    ensures
        0 <= row * columns + col < rows * columns,
    decreases rows,
{
    if row + 1 < rows {
        lemma_flat_in_band(row, col, rows - 1, columns);
        assert((rows - 1) * columns <= rows * columns) by (nonlinear_arith)
            requires
                columns >= 0,
        ;
    } else {
        assert(row * columns + col < rows * columns) by (nonlinear_arith)
            requires
                row == rows - 1,
                0 <= col < columns,
        ;
        assert(0 <= row * columns) by (nonlinear_arith)
            requires
                row >= 0,
                columns >= 0,
        ;
    }
}

/// The engine's selection range: `start` is the top-left point,
/// `end` the bottom-right, with a flag for rectangular block
/// selections.
#[derive(Clone, Copy, Debug, PartialEq, Eq, Structural)]
pub struct SelectionRange {
    pub start: Point,
    pub end: Point,
    pub is_block: bool,
}

impl SelectionRange {
    /// A point lies in the selection when its line is inside the line
    /// span and its column is not cut off: a block selection bounds
    /// the column on every line, a plain one only on the first and
    /// last line.
    pub open spec fn spec_contains(self, point: Point) -> bool {
        &&& self.start.line <= point.line
        &&& self.end.line >= point.line
        &&& (self.start.column <= point.column || (self.start.line != point.line && !self.is_block))
        &&& (self.end.column >= point.column || (self.end.line != point.line && !self.is_block))
    }

    pub fn contains(&self, point: Point) -> (r: bool)
        ensures
            r == self.spec_contains(point),
    {
        self.start.line <= point.line && self.end.line >= point.line && (self.start.column
            <= point.column || (self.start.line != point.line && !self.is_block)) && (self.end.column
            >= point.column || (self.end.line != point.line && !self.is_block))
    }
}

/// An inclusive span of grid points holding a matched hyperlink.
#[derive(Clone, Copy, Debug, PartialEq, Eq, Structural)]
pub struct HyperlinkRange {
    pub start: Point,
    pub end: Point,
}

impl HyperlinkRange {
    /// Containment in reading order: the point lies at or after
    /// `start` and at or before `end`.
    pub open spec fn spec_contains(self, point: Point) -> bool {
        self.start.spec_le(point) && point.spec_le(self.end)
    }

    pub fn contains(&self, point: Point) -> (r: bool)
        ensures
            r == self.spec_contains(point),
    {
        self.start.le(&point) && point.le(&self.end)
    }
}

/// The immutable-per-frame copy of renderable terminal state.
#[derive(Clone, Debug)]
pub struct RenderableContent {
    pub grid: GridSnapshot,
    pub hovered_hyperlink: Option<HyperlinkRange>,
    pub selectable_range: Option<SelectionRange>,
    pub cursor: Cell,
    pub cursor_point: Point,
    pub terminal_mode: TermMode,
    pub terminal_size: TerminalSize,
}

impl RenderableContent {
    pub open spec fn wf(self) -> bool {
        self.grid.wf() && self.terminal_size.wf()
    }
}

impl Default for RenderableContent {
    fn default() -> (r: RenderableContent)
        ensures
            r.wf(),
            r.hovered_hyperlink is None,
            r.selectable_range is None,
            r.cursor == Cell::spec_default(),
            r.terminal_mode.bits == 0u32,
    {
        RenderableContent {
            grid: GridSnapshot::default(),
            hovered_hyperlink: None,
            selectable_range: None,
            cursor: Cell::default(),
            cursor_point: Point { line: 0, column: 0 },
            terminal_mode: TermMode::empty(),
            terminal_size: TerminalSize::default(),
        }
    }
}

/// The characters of the first `k` visible cells that fall inside the
/// selection, in display order.
pub open spec fn spec_selected_prefix(g: GridSnapshot, range: SelectionRange, k: int) -> Seq<char>
    decreases k,
{
    if k <= 0 {
        Seq::empty()
    } else {
        spec_selected_prefix(g, range, k - 1) + (if range.spec_contains(
            g.spec_visible_point(k - 1),
        ) {
            seq![g.spec_visible_cell(k - 1).c]
        } else {
            Seq::empty()
        })
    }
}

/// The text a selection covers: every visible character whose point
/// falls inside the range, in display order; empty without a
/// selection.
pub open spec fn spec_selectable_content(content: RenderableContent) -> Seq<char> {
    match content.selectable_range {
        Some(range) => spec_selected_prefix(
            content.grid,
            range,
            content.grid.spec_visible_len(),
        ),
        None => Seq::empty(),
    }
}

impl RenderableContent {
    /// Collect the text the current selection covers.
    pub fn selectable_content(&self) -> (r: String)
        requires
            self.wf(),
        ensures
            r@ == spec_selectable_content(*self),
    {
        let mut result = String::new();
        let range = match &self.selectable_range {
            Some(range) => *range,
            None => {
                return result;
            },
        };
        let g = &self.grid;
        if g.columns == 0 {
            assert(g.spec_visible_len() == 0);
            return result;
        }
        let vr0: usize = ((-(g.display_offset as i64)) - g.top_line as i64) as usize;
        let mut row: usize = 0;
        proof {
            lemma_vis_row_mul(g.screen_rows as int, g.columns as int, 0);
        }
        while row < g.screen_rows
            invariant
                self.wf(),
                self.selectable_range == Some(range),
                g == &self.grid,
                g.columns >= 1,
                vr0 == g.spec_viewport_top() - g.top_line,
                row <= g.screen_rows,
                result@ == spec_selected_prefix(*g, range, row * g.columns),
            decreases g.screen_rows - row,
        {
            let mut col: usize = 0;
            while col < g.columns
                invariant
                    self.wf(),
                    self.selectable_range == Some(range),
                    g == &self.grid,
                    g.columns >= 1,
                    vr0 == g.spec_viewport_top() - g.top_line,
                    row < g.screen_rows,
                    col <= g.columns,
                    result@ == spec_selected_prefix(*g, range, row * g.columns + col),
                decreases g.columns - col,
            {
                let ghost k = row * g.columns + col;
                proof {
                    lemma_vis_index(*g, row as int, col as int);
                }
                let point = Point {
                    line: (row as i64 - g.display_offset as i64) as i32,
                    column: col,
                };
                assert(point == g.spec_visible_point(k));
                let idx: usize = (vr0 + row) * g.columns + col;
                assert(idx == g.spec_visible_start() + k);
                assert(0 <= idx < g.cells.len());
                let cell_char = g.cells[idx].c;
                if range.contains(point) {
                    crate::strutil::push_char(&mut result, cell_char);
                }
                col = col + 1;
                assert(result@ =~= spec_selected_prefix(*g, range, row * g.columns + col));
            }
            row = row + 1;
            proof {
                lemma_vis_row_mul(g.screen_rows as int, g.columns as int, row as int);
                assert((row - 1) * g.columns + g.columns == row * g.columns) by (nonlinear_arith);
            }
        }
        proof {
            lemma_vis_row_mul(g.screen_rows as int, g.columns as int, g.screen_rows as int);
        }
        result
    }
}

/// Multiplying a row count within the screen keeps the product within
/// the visible length.
pub(crate) proof fn lemma_vis_row_mul(screen_rows: int, columns: int, row: int)
    requires
        columns >= 0,
        0 <= row <= screen_rows,
    ensures
        row * columns <= screen_rows * columns,
{
    assert(row * columns <= screen_rows * columns) by (nonlinear_arith)
        requires
            columns >= 0,
            row <= screen_rows,
    ;
}

/// Facts tying the row/column walk of the visible region to the flat
/// visible index: the index stays in bounds, and the point and cell it
/// addresses are the ones the walk is at.
pub(crate) proof fn lemma_vis_index(g: GridSnapshot, row: int, col: int)
    requires
        g.wf(),
        g.columns >= 1,
        0 <= row < g.screen_rows,
        0 <= col < g.columns,
    ensures
        0 <= row * g.columns + col < g.spec_visible_len(),
        (row * g.columns + col) / (g.columns as int) == row,
        (row * g.columns + col) % (g.columns as int) == col,
        g.spec_visible_start() + row * g.columns + col == (g.spec_viewport_top() - g.top_line + row)
            * g.columns + col,
        0 <= g.spec_visible_start() + row * g.columns + col < g.cells.len(),
{
    let c = g.columns as int;
    lemma_flat_in_band(row, col, g.screen_rows as int, c);
    assert((row * c + col) / c == row && (row * c + col) % c == col) by (nonlinear_arith)
        requires
            c >= 1,
            0 <= col < c,
            0 <= row,
    ;
    let vr0 = g.spec_viewport_top() - g.top_line;
    assert(vr0 * c + (row * c + col) == (vr0 + row) * c + col) by (nonlinear_arith);
    lemma_flat_in_band(vr0 + row, col, g.rows as int, c);
    assert(vr0 + row < g.rows);
}

/// The hyperlink span under a hovered point.
///
/// Matches arrive ordered as the scan produced them: a leading run of
/// spans ending above the viewport is skipped, the walk stops at the
/// first span starting below it, and the first remaining span that
/// contains the point wins.
pub open spec fn spec_hover_scan(
    matches: Seq<HyperlinkRange>,
    point: Point,
    viewport_end: int,
    i: int,
) -> Option<HyperlinkRange>
    decreases matches.len() - i,
{
    if i < 0 || i >= matches.len() {
        None
    } else if matches[i].start.line > viewport_end {
        None
    } else if matches[i].spec_contains(point) {
        Some(matches[i])
    } else {
        spec_hover_scan(matches, point, viewport_end, i + 1)
    }
}

pub open spec fn spec_hover_skip(
    matches: Seq<HyperlinkRange>,
    point: Point,
    viewport_start: int,
    viewport_end: int,
    i: int,
) -> Option<HyperlinkRange>
    decreases matches.len() - i,
{
    if i < 0 || i >= matches.len() {
        None
    } else if matches[i].end.line < viewport_start {
        spec_hover_skip(matches, point, viewport_start, viewport_end, i + 1)
    } else {
        spec_hover_scan(matches, point, viewport_end, i)
    }
}

pub open spec fn spec_hover_lookup(
    matches: Seq<HyperlinkRange>,
    point: Point,
    viewport_start: int,
    viewport_end: int,
) -> Option<HyperlinkRange> {
    spec_hover_skip(matches, point, viewport_start, viewport_end, 0)
}

/// Find the hyperlink span containing the hovered point among the
/// scan's matches, viewport-scoped as the scan iterator is.
pub fn hover_lookup(
    matches: &Vec<HyperlinkRange>,
    point: Point,
    viewport_start: i32,
    viewport_end: i32,
) -> (r: Option<HyperlinkRange>)
    ensures
        r == spec_hover_lookup(matches@, point, viewport_start as int, viewport_end as int),
{
    let n = matches.len();
    let mut i: usize = 0;
    while i < n && matches[i].end.line < viewport_start
        invariant
            n == matches@.len(),
            i <= n,
            spec_hover_skip(matches@, point, viewport_start as int, viewport_end as int, 0)
                == spec_hover_skip(matches@, point, viewport_start as int, viewport_end as int, i as int),
        decreases n - i,
    {
        i = i + 1;
    }
    while i < n && matches[i].start.line <= viewport_end
        invariant
            n == matches@.len(),
            i <= n,
            spec_hover_skip(matches@, point, viewport_start as int, viewport_end as int, 0)
                == spec_hover_scan(matches@, point, viewport_end as int, i as int),
        decreases n - i,
    {
        let m = matches[i];
        if m.contains(point) {
            return Some(m);
        }
        i = i + 1;
    }
    None
}

/// A hover query outside the scanned margin finds nothing: when every
/// match the scan can produce lies within the clamped line band, a
/// point beyond that band is contained in none of them.
pub proof fn lemma_hover_outside_margin(
    matches: Seq<HyperlinkRange>,
    point: Point,
    viewport_start: int,
    viewport_end: int,
    lo: int,
    hi: int,
)
    requires
        forall|j: int|
            0 <= j < matches.len() ==> lo <= #[trigger] matches[j].start.line
                && matches[j].end.line <= hi,
        point.line < lo || point.line > hi,
    ensures
        spec_hover_lookup(matches, point, viewport_start, viewport_end) is None,
{
    lemma_hover_scan_outside(matches, point, viewport_end, lo, hi, 0);
    lemma_hover_skip_outside(matches, point, viewport_start, viewport_end, lo, hi, 0);
}

proof fn lemma_hover_scan_outside(
    matches: Seq<HyperlinkRange>,
    point: Point,
    viewport_end: int,
    lo: int,
    hi: int,
    i: int,
)
    requires
        forall|j: int|
            0 <= j < matches.len() ==> lo <= #[trigger] matches[j].start.line
                && matches[j].end.line <= hi,
        point.line < lo || point.line > hi,
    ensures
        spec_hover_scan(matches, point, viewport_end, i) is None,
    decreases matches.len() - i,
{
    if 0 <= i < matches.len() {
        lemma_hover_scan_outside(matches, point, viewport_end, lo, hi, i + 1);
    }
}

proof fn lemma_hover_skip_outside(
    matches: Seq<HyperlinkRange>,
    point: Point,
    viewport_start: int,
    viewport_end: int,
    lo: int,
    hi: int,
    i: int,
)
    requires
        forall|j: int|
            0 <= j < matches.len() ==> lo <= #[trigger] matches[j].start.line
                && matches[j].end.line <= hi,
        point.line < lo || point.line > hi,
    ensures
        spec_hover_skip(matches, point, viewport_start, viewport_end, i) is None,
    decreases matches.len() - i,
{
    if 0 <= i < matches.len() {
        lemma_hover_skip_outside(matches, point, viewport_start, viewport_end, lo, hi, i + 1);
        lemma_hover_scan_outside(matches, point, viewport_end, lo, hi, i);
    }
}

/// The scan band: the raw wrapped-line search bounds clamped to 100
/// lines above and below the viewport, so scan cost stays independent
/// of scrollback depth.
pub fn clamp_scan_bounds(
    raw_start: Point,
    raw_end: Point,
    viewport_start: i32,
    viewport_end: i32,
) -> (r: (Point, Point))
    requires
        viewport_start >= i32::MIN + 100,
        viewport_end <= i32::MAX - 100,
    ensures
        r.0.line == vstd::math::max(raw_start.line as int, viewport_start - 100),
        r.0.column == raw_start.column,
        r.1.line == vstd::math::min(raw_end.line as int, viewport_end + 100),
        r.1.column == raw_end.column,
        viewport_start - 100 <= r.0.line,
        r.1.line <= viewport_end + 100,
{
    let lo: i32 = viewport_start - 100;
    let hi: i32 = viewport_end + 100;
    let start_line: i32 = if raw_start.line < lo {
        lo
    } else {
        raw_start.line
    };
    let end_line: i32 = if raw_end.line > hi {
        hi
    } else {
        raw_end.line
    };
    (
        Point { line: start_line, column: raw_start.column },
        Point { line: end_line, column: raw_end.column },
    )
}

/// The characters of the stored band from one flat index to another,
/// inclusive.
pub open spec fn spec_link_chars(g: GridSnapshot, lo: int, hi: int) -> Seq<char> {
    Seq::new((hi + 1 - lo) as nat, |j: int| g.cells[lo + j].c)
}

/// Whether a hyperlink span can be read back out of the stored band.
pub open spec fn spec_link_readable(g: GridSnapshot, range: HyperlinkRange) -> bool {
    &&& g.spec_contains_point(range.start)
    &&& g.spec_contains_point(range.end)
    &&& g.spec_flat_index(range.start) <= g.spec_flat_index(range.end)
}

/// Reconstruct the text of a hyperlink span by walking the stored
/// band from its start to its end point in reading order.  Returns
/// `None` when the span does not lie in the band.
pub fn link_url(g: &GridSnapshot, range: &HyperlinkRange) -> (r: Option<String>)
    requires
        g.wf(),
    ensures
        match r {
            Some(s) => spec_link_readable(*g, *range) && s@ == spec_link_chars(
                *g,
                g.spec_flat_index(range.start),
                g.spec_flat_index(range.end),
            ),
            None => !spec_link_readable(*g, *range),
        },
{
    let start = range.start;
    let end = range.end;
    let in_band = start.line >= g.top_line && (start.line as i64 - g.top_line as i64) < g.rows as i64
        && start.column < g.columns && end.line >= g.top_line && (end.line as i64
        - g.top_line as i64) < g.rows as i64 && end.column < g.columns;
    if !in_band {
        return None;
    }
    proof {
        lemma_flat_in_band(
            start.line - g.top_line,
            start.column as int,
            g.rows as int,
            g.columns as int,
        );
        lemma_flat_in_band(
            end.line - g.top_line,
            end.column as int,
            g.rows as int,
            g.columns as int,
        );
    }
    let lo: usize = ((start.line - g.top_line) as usize) * g.columns + start.column;
    let hi: usize = ((end.line - g.top_line) as usize) * g.columns + end.column;
    if lo > hi {
        return None;
    }
    let mut url = String::new();
    let mut j: usize = lo;
    while j <= hi
        invariant
            g.wf(),
            lo <= j <= hi + 1,
            hi < g.cells.len(),
            url@ == spec_link_chars(*g, lo as int, j - 1),
        decreases hi + 1 - j,
    {
        crate::strutil::push_char(&mut url, g.cells[j].c);
        j = j + 1;
        assert(url@ =~= spec_link_chars(*g, lo as int, j - 1));
    }
    assert(url@ =~= spec_link_chars(*g, lo as int, hi as int));
    Some(url)
}

} // verus!
