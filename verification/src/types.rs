//! Plain value types shared across the adapter: pixel sizes, grid
//! points, cell sides and keyboard modifier sets.

use vstd::prelude::*;

verus! {

/// A size in whole pixels.
///
/// Layout and cell sizes reach the adapter as font-metric
/// measurements; the adapter works on their integer pixel values.
#[derive(Clone, Copy, Debug, PartialEq, Eq, Structural)]
pub struct Size {
    pub width: u32,
    pub height: u32,
}

impl Size {
    pub fn new(width: u32, height: u32) -> (r: Size)
        ensures
            r == (Size { width, height }),
    {
        Size { width, height }
    }
}

impl Default for Size {
    fn default() -> (r: Size)
        ensures
            r == (Size { width: 0, height: 0 }),
    {
        Size { width: 0, height: 0 }
    }
}

/// A cell position in the terminal buffer.
///
/// `line` 0 is the top of the screen; negative lines reach into
/// scrollback.  `column` 0 is the leftmost cell.
#[derive(Clone, Copy, Debug, PartialEq, Eq, Structural)]
pub struct Point {
    pub line: i32,
    pub column: usize,
}

impl Point {
    pub fn new(line: i32, column: usize) -> (r: Point)
        ensures
            r == (Point { line, column }),
    {
        Point { line, column }
    }

    /// Buffer points order first by line, then by column.
    pub open spec fn spec_le(self, other: Point) -> bool {
        self.line < other.line || (self.line == other.line && self.column <= other.column)
    }

    pub fn le(&self, other: &Point) -> (r: bool)
        ensures
            r == self.spec_le(*other),
    {
        self.line < other.line || (self.line == other.line && self.column <= other.column)
    }
}

/// Which half of a cell a pixel position falls in; selections are
/// anchored to a side so a drag can bias to the nearer cell edge.
#[derive(Clone, Copy, Debug, PartialEq, Eq, Structural)]
pub enum Side {
    Left,
    Right,
}

/// The keyboard modifiers held during an input event.
#[derive(Clone, Copy, Debug, PartialEq, Eq, Structural)]
pub struct Modifiers {
    pub shift: bool,
    pub ctrl: bool,
    pub alt: bool,
    /// The primary command modifier of the platform.
    pub command: bool,
}

impl Modifiers {
    pub open spec fn spec_is_none(self) -> bool {
        !self.shift && !self.ctrl && !self.alt && !self.command
    }

    pub fn is_none(&self) -> (r: bool)
        ensures
            r == self.spec_is_none(),
    {
        !self.shift && !self.ctrl && !self.alt && !self.command
    }

    /// True when the command modifier is held alone.
    pub open spec fn spec_command_only(self) -> bool {
        self.command && !self.shift && !self.ctrl && !self.alt
    }

    pub fn command_only(&self) -> (r: bool)
        ensures
            r == self.spec_command_only(),
    {
        self.command && !self.shift && !self.ctrl && !self.alt
    }

    /// True when both the command and shift modifiers are held.
    pub open spec fn spec_command_and_shift(self) -> bool {
        self.command && self.shift
    }

    pub fn command_and_shift(&self) -> (r: bool)
        ensures
            r == self.spec_command_and_shift(),
    {
        self.command && self.shift
    }

    pub fn none() -> (r: Modifiers)
        ensures
            r.spec_is_none(),
    {
        Modifiers { shift: false, ctrl: false, alt: false, command: false }
    }
}

impl Default for Modifiers {
    fn default() -> (r: Modifiers)
        ensures
            r.spec_is_none(),
    {
        Modifiers { shift: false, ctrl: false, alt: false, command: false }
    }
}

} // verus!
