//! Verified core of a terminal-emulator display/input adapter.
//!
//! The crate models the adapter layer that sits between a terminal
//! emulation engine and an immediate-mode GUI toolkit: translating
//! pixel-space input into engine commands and raw escape bytes,
//! maintaining a per-frame render snapshot, encoding terminal
//! mouse-reporting protocols, scanning the viewport for hyperlinks,
//! mapping between pixel space and the character grid, and negotiating
//! grid resizes against font metrics.  All decisions are pure functions
//! over plain values; the process, thread and paint plumbing that the
//! engine and toolkit require lives outside this crate.

use vstd::prelude::*;

mod types;
mod mode;
mod geometry;
mod mouse;
mod theme;
mod snapshot;
mod strutil;
mod session;
mod bindings;
mod input;
mod render;
mod chars;
mod settings;

pub use types::{Size, Point, Side, Modifiers};
pub use mode::TermMode;
pub use geometry::{TerminalSize, selection_point, selection_side, lemma_selection_point_uniform, lemma_selection_point_clamped};
pub use mouse::{MouseButton, MouseMode, sgr_mouse_report, normal_mouse_report, lemma_sgr_press_release_roundtrip};
pub use theme::{Rgb, NamedColor, Color, ColorPalette, TerminalTheme, ThemeError, hex_to_color, ansi256_color};
pub use snapshot::{Cell, GridSnapshot, SelectionRange, HyperlinkRange, RenderableContent, hover_lookup, clamp_scan_bounds, link_url, lemma_hover_outside_margin};
pub use session::{SelectionType, LinkAction, BackendCommand, EngineState, EngineOp, SessionCore, scroll_escape, lemma_resize_idempotent};
pub use bindings::{Key, PointerButton, InputKind, BindingAction, Binding, KeyboardBinding, BindingsLayout};
pub use input::{InputAction, TerminalViewState, key_from_name, process_text_event, process_keyboard_key, process_copy_event, process_paste_event, wheel_scroll_action, process_button_click, process_mouse_move};
pub use render::{PaintColor, RenderShape, project};
pub use theme::{spec_palette_wf, palette_ok};
pub use chars::is_cjk;
pub use settings::BackendSettings;
pub use mode::{
    MODE_APP_CURSOR, MODE_MOUSE_REPORT_CLICK, MODE_SGR_MOUSE, MODE_MOUSE_MOTION,
    MODE_ALT_SCREEN, MODE_MOUSE_DRAG, MODE_UTF8_MOUSE, MODE_ALTERNATE_SCROLL,
    MODE_MOUSE_MODE,
};

verus! {

/// The terminal mode bitmask as callers of the adapter see it.
pub type TerminalMode = TermMode;

} // verus!
