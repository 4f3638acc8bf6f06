//! The terminal mode bitmask.
//!
//! The engine negotiates modes with the application running in the
//! terminal; the adapter only reads the flags that change how input is
//! translated and how the grid is drawn.

use vstd::prelude::*;

verus! {

/// Application cursor keys: arrow keys send `SS3`-prefixed sequences.
pub const MODE_APP_CURSOR: u32 = 0x2;

/// Mouse press/release reporting.
pub const MODE_MOUSE_REPORT_CLICK: u32 = 0x8;

/// SGR extended mouse reporting: coordinates as decimal text.
pub const MODE_SGR_MOUSE: u32 = 0x20;

/// Mouse motion reporting.
pub const MODE_MOUSE_MOTION: u32 = 0x40;

/// The alternate screen buffer is active.
pub const MODE_ALT_SCREEN: u32 = 0x1000;

/// Mouse drag reporting.
pub const MODE_MOUSE_DRAG: u32 = 0x2000;

/// UTF-8 mouse coordinate extension for the legacy protocol.
pub const MODE_UTF8_MOUSE: u32 = 0x4000;

/// Scrolling on the alternate screen sends cursor keys instead.
pub const MODE_ALTERNATE_SCROLL: u32 = 0x8000;

/// Any mouse reporting flag.
pub const MODE_MOUSE_MODE: u32 = MODE_MOUSE_REPORT_CLICK | MODE_MOUSE_MOTION | MODE_MOUSE_DRAG;

/// A set of terminal mode flags.
#[derive(Clone, Copy, Debug, PartialEq, Eq, Structural)]
pub struct TermMode {
    pub bits: u32,
}

impl TermMode {
    pub fn empty() -> (r: TermMode)
        ensures
            r.bits == 0u32,
    {
        TermMode { bits: 0 }
    }

    pub fn new(bits: u32) -> (r: TermMode)
        ensures
            r.bits == bits,
    {
        TermMode { bits }
    }

    /// All of the given flags are set.
    pub open spec fn spec_contains(self, flags: u32) -> bool {
        self.bits & flags == flags
    }

    pub fn contains(&self, flags: u32) -> (r: bool)
        ensures
            r == self.spec_contains(flags),
    {
        self.bits & flags == flags
    }

    /// At least one of the given flags is set.
    pub open spec fn spec_intersects(self, flags: u32) -> bool {
        self.bits & flags != 0
    }

    pub fn intersects(&self, flags: u32) -> (r: bool)
        ensures
            r == self.spec_intersects(flags),
    {
        self.bits & flags != 0
    }
}

impl Default for TermMode {
    fn default() -> (r: TermMode)
        ensures
            r.bits == 0u32,
    {
        TermMode { bits: 0 }
    }
}

} // verus!
