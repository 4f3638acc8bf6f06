//! The session adapter core: a command-based state machine that turns
//! UI-side commands into engine operations and raw escape bytes.
//!
//! The engine itself (grid, pseudo-terminal, event loop) runs outside
//! this crate; the core decides, the caller performs.  Each dispatch
//! takes the command and a small view of the live engine state and
//! returns the exact operations to perform on the engine.

use vstd::prelude::*;
use crate::types::{Size, Point, Side, Modifiers};
use crate::mode::{TermMode, MODE_ALT_SCREEN, MODE_ALTERNATE_SCROLL};
use crate::geometry::{
    TerminalSize, selection_point, selection_side, spec_selection_point, spec_selection_side,
};
use crate::mouse::{
    MouseButton, MouseMode, modifier_code, spec_modifier_code, sgr_mouse_report,
    spec_sgr_mouse_report, normal_mouse_report, spec_normal_mouse_report,
};
use crate::snapshot::{
    Cell, GridSnapshot, SelectionRange, HyperlinkRange, RenderableContent, hover_lookup,
    spec_hover_lookup, link_url, spec_link_readable, spec_link_chars,
};

verus! {

/// How a new selection grows from its anchor.
#[derive(Clone, Copy, Debug, PartialEq, Eq, Structural)]
pub enum SelectionType {
    Simple,
    Semantic,
    Lines,
    Block,
}

/// What to do about hyperlinks at a grid point.
#[derive(Clone, Copy, Debug, PartialEq, Eq, Structural)]
pub enum LinkAction {
    Clear,
    Hover,
    Open,
}

/// A command dispatched to the session adapter.
#[derive(Debug, Clone)]
pub enum BackendCommand {
    /// Forward bytes to the process and snap the view to the bottom.
    Write(Vec<u8>),
    /// Scroll the view by whole lines.
    Scroll(i32),
    /// Negotiate the grid size against the layout and cell size.
    Resize(Size, Size),
    /// Begin a selection at a pixel position.
    SelectStart(SelectionType, usize, usize),
    /// Extend the active selection to a pixel position.
    SelectUpdate(usize, usize),
    /// Hover, clear or open a hyperlink at a grid point.
    ProcessLink(LinkAction, Point),
    /// Report a mouse event in the negotiated protocol.
    MouseReport(MouseButton, Modifiers, Point, bool),
}

/// The slice of live engine state a dispatch reads.
#[derive(Clone, Copy, Debug)]
pub struct EngineState {
    pub display_offset: usize,
    pub mode: TermMode,
    pub selection_active: bool,
}

/// One operation the caller must perform on the engine, in order.
#[derive(Debug, Clone)]
pub enum EngineOp {
    /// Hand bytes to the process input.
    WriteBytes(Vec<u8>),
    /// Cancel any scrollback offset.
    ScrollToBottom,
    /// Move the scrollback viewport by a line delta.
    ScrollDelta(i32),
    /// Begin a selection at a buffer point.
    StartSelection(SelectionType, Point, Side),
    /// Extend the selection to a buffer point.
    UpdateSelection(Point, Side),
    /// Resize the engine grid to the given columns and lines.
    ResizeGrid(u16, u16),
    /// Tell the process side the window size changed.
    NotifyWindowSize(TerminalSize),
    /// Run the viewport hyperlink scan for a hovered point and hand
    /// the matches back through `apply_hover`.
    ScanLinks(Point),
    /// Open a reconstructed URL with the system opener.
    OpenUrl(String),
}

/// Clamp a pixel measure to the engine's 16-bit cell metrics.
pub open spec fn spec_clamp_u16(v: u32) -> u16 {
    if v > 0xffff {
        0xffffu16
    } else {
        v as u16
    }
}

fn clamp_u16(v: u32) -> (r: u16)
    ensures
        r == spec_clamp_u16(v),
{
    if v > 0xffff {
        0xffff
    } else {
        v as u16
    }
}

/// The geometry a resize negotiation settles on, or `None` when the
/// inputs match the current geometry (the per-frame no-op), a cell
/// dimension is zero, or the layout holds less than one full cell.
pub open spec fn spec_resize_result(cur: TerminalSize, layout: Size, font: Size) -> Option<
    TerminalSize,
> {
    if layout == cur.layout_size && spec_clamp_u16(font.width) == cur.cell_width && spec_clamp_u16(
        font.height,
    ) == cur.cell_height {
        None
    } else if font.width == 0 || font.height == 0 {
        None
    } else {
        let lines = spec_clamp_u16((layout.height / font.height) as u32);
        let cols = spec_clamp_u16((layout.width / font.width) as u32);
        if lines > 0 && cols > 0 {
            Some(
                TerminalSize {
                    cell_width: spec_clamp_u16(font.width),
                    cell_height: spec_clamp_u16(font.height),
                    num_cols: cols,
                    num_lines: lines,
                    layout_size: layout,
                },
            )
        } else {
            None
        }
    }
}

/// Resize is idempotent: once a negotiation has applied, repeating it
/// with the same layout and cell size changes nothing and notifies
/// nobody.
pub proof fn lemma_resize_idempotent(cur: TerminalSize, layout: Size, font: Size)
    ensures
        match spec_resize_result(cur, layout, font) {
            Some(applied) => spec_resize_result(applied, layout, font) is None,
            None => true,
        },
{
}

/// The escape bytes a scroll turns into on the alternate screen: one
/// application cursor-key sequence per line, `ESC O A` scrolling up
/// and `ESC O B` scrolling down.
pub open spec fn spec_scroll_escape(delta: int) -> Seq<u8>
    decreases
            (if delta >= 0 {
                delta
            } else {
                -delta
            }),
{
    if delta == 0 {
        Seq::empty()
    } else if delta > 0 {
        spec_scroll_escape(delta - 1) + seq![0x1bu8, 0x4fu8, 0x41u8]
    } else {
        spec_scroll_escape(delta + 1) + seq![0x1bu8, 0x4fu8, 0x42u8]
    }
}

/// Build the cursor-key escape bytes for a scroll delta.
pub fn scroll_escape(delta: i32) -> (r: Vec<u8>)
    requires
        delta > i32::MIN,
    ensures
        r@ == spec_scroll_escape(delta as int),
{
    let line_cmd: u8 = if delta > 0 {
        0x41
    } else {
        0x42
    };
    let count: u32 = if delta >= 0 {
        delta as u32
    } else {
        (-(delta as i64)) as u32
    };
    let mut content: Vec<u8> = Vec::new();
    let mut i: u32 = 0;
    while i < count
        invariant
            i <= count,
            count == (if delta >= 0 {
                delta as int
            } else {
                -(delta as int)
            }),
            line_cmd == (if delta > 0 {
                0x41u8
            } else {
                0x42u8
            }),
            content@ == spec_scroll_escape(
                if delta >= 0 {
                    i as int
                } else {
                    -(i as int)
                },
            ),
        decreases count - i,
    {
        content.push(0x1b);
        content.push(0x4f);
        content.push(line_cmd);
        i = i + 1;
        assert(content@ =~= spec_scroll_escape(
            if delta >= 0 {
                i as int
            } else {
                -(i as int)
            },
        ));
    }
    content
}

/// What one dispatch does: the exact state change and the exact
/// operation list, for every command.
pub open spec fn spec_dispatch_ok(
    pre: SessionCore,
    cmd: BackendCommand,
    engine: EngineState,
    post: SessionCore,
    ops: Seq<EngineOp>,
) -> bool {
    match cmd {
        BackendCommand::Write(bytes) => {
            &&& post == pre
            &&& ops.len() == 2
            &&& (ops[0] matches EngineOp::WriteBytes(b) && b@ == bytes@)
            &&& ops[1] == EngineOp::ScrollToBottom
        },
        BackendCommand::Scroll(delta) => {
            &&& post == pre
            &&& if delta == 0 {
                ops.len() == 0
            } else if engine.mode.spec_contains(MODE_ALTERNATE_SCROLL | MODE_ALT_SCREEN) {
                ops.len() == 1 && (ops[0] matches EngineOp::WriteBytes(b) && b@
                    == spec_scroll_escape(delta as int))
            } else {
                ops =~= seq![EngineOp::ScrollDelta(delta)]
            }
        },
        BackendCommand::Resize(layout, font) => match spec_resize_result(pre.size, layout, font) {
            Some(applied) => {
                &&& post == SessionCore { size: applied, ..pre }
                &&& ops =~= seq![
                    EngineOp::NotifyWindowSize(applied),
                    EngineOp::ResizeGrid(applied.num_cols, applied.num_lines),
                ]
            },
            None => post == pre && ops.len() == 0,
        },
        BackendCommand::SelectStart(ty, x, y) => {
            &&& post == pre
            &&& ops =~= seq![
                EngineOp::StartSelection(
                    ty,
                    spec_selection_point(x, y, pre.size, engine.display_offset),
                    spec_selection_side(x, pre.size.cell_width),
                ),
            ]
        },
        BackendCommand::SelectUpdate(x, y) => {
            &&& post == pre
            &&& if engine.selection_active {
                ops =~= seq![
                    EngineOp::UpdateSelection(
                        spec_selection_point(x, y, pre.size, engine.display_offset),
                        spec_selection_side(x, pre.size.cell_width),
                    ),
                ]
            } else {
                ops.len() == 0
            }
        },
        BackendCommand::ProcessLink(action, point) => match action {
            LinkAction::Clear => {
                &&& post == SessionCore {
                    last_content: RenderableContent {
                        hovered_hyperlink: None,
                        ..pre.last_content
                    },
                    ..pre
                }
                &&& ops.len() == 0
            },
            LinkAction::Hover => post == pre && ops =~= seq![EngineOp::ScanLinks(point)],
            LinkAction::Open => {
                &&& post == pre
                &&& match pre.last_content.hovered_hyperlink {
                    Some(range) => if spec_link_readable(pre.last_content.grid, range) {
                        ops.len() == 1 && (ops[0] matches EngineOp::OpenUrl(url) && url@
                            == spec_link_chars(
                            pre.last_content.grid,
                            pre.last_content.grid.spec_flat_index(range.start),
                            pre.last_content.grid.spec_flat_index(range.end),
                        ))
                    } else {
                        ops.len() == 0
                    },
                    None => ops.len() == 0,
                }
            },
        },
        BackendCommand::MouseReport(button, modifiers, point, pressed) => {
            &&& post == pre
            &&& {
                let code = (button.spec_code() + spec_modifier_code(modifiers)) as u8;
                match MouseMode::spec_from_mode(pre.last_content.terminal_mode) {
                    MouseMode::Sgr => ops.len() == 1 && (ops[0] matches EngineOp::WriteBytes(b)
                        && b@ == spec_sgr_mouse_report(point, code, pressed)),
                    MouseMode::Normal(is_utf8) => {
                        let report_code = if pressed {
                            code
                        } else {
                            (3 + spec_modifier_code(modifiers)) as u8
                        };
                        match spec_normal_mouse_report(point, report_code, is_utf8) {
                            Some(b) => ops.len() == 1 && (ops[0] matches EngineOp::WriteBytes(bb)
                                && bb@ == b),
                            None => ops.len() == 0,
                        }
                    },
                }
            }
        },
    }
}

/// The UI-side state of one terminal session: its identity, the
/// negotiated geometry and the last synchronized render snapshot.
#[derive(Debug, Clone)]
pub struct SessionCore {
    pub id: u64,
    pub size: TerminalSize,
    pub last_content: RenderableContent,
}

impl SessionCore {
    pub open spec fn wf(self) -> bool {
        self.size.wf() && self.last_content.wf()
    }

    /// A fresh session: default geometry, empty snapshot.
    pub fn new(id: u64) -> (r: SessionCore)
        ensures
            r.wf(),
            r.id == id,
            r.size.num_cols == 80u16,
            r.size.num_lines == 50u16,
            r.size.cell_width == 1u16,
            r.size.cell_height == 1u16,
            r.last_content.hovered_hyperlink is None,
            r.last_content.selectable_range is None,
    {
        SessionCore {
            id,
            size: TerminalSize::default(),
            last_content: RenderableContent::default(),
        }
    }

    pub fn id(&self) -> (r: u64)
        ensures
            r == self.id,
    {
        self.id
    }

    pub fn last_content(&self) -> (r: &RenderableContent)
        ensures
            r == &self.last_content,
    {
        &self.last_content
    }

    /// Collect the text the current selection covers, from the last
    /// synchronized snapshot.
    pub fn selectable_content(&self) -> (r: String)
        requires
            self.wf(),
        ensures
            r@ == crate::snapshot::spec_selectable_content(self.last_content),
    {
        self.last_content.selectable_content()
    }

    /// Install the state copied out of the engine as the new render
    /// snapshot.  The hovered hyperlink is kept: it changes only
    /// through hover and clear actions.
    pub fn apply_sync(
        &mut self,
        grid: GridSnapshot,
        cursor: Cell,
        cursor_point: Point,
        mode: TermMode,
        selectable_range: Option<SelectionRange>,
    )
        requires
            old(self).wf(),
            grid.wf(),
        ensures
            final(self).wf(),
            *final(self) == (SessionCore {
                last_content: RenderableContent {
                    grid,
                    cursor,
                    cursor_point,
                    terminal_mode: mode,
                    selectable_range,
                    terminal_size: old(self).size,
                    hovered_hyperlink: old(self).last_content.hovered_hyperlink,
                },
                ..*old(self)
            }),
    {
        self.last_content = RenderableContent {
            grid,
            cursor,
            cursor_point,
            terminal_mode: mode,
            selectable_range,
            terminal_size: self.size,
            hovered_hyperlink: self.last_content.hovered_hyperlink,
        };
    }

    /// Install the outcome of a hyperlink scan: the first match under
    /// the hovered point within the viewport scope, or nothing.
    pub fn apply_hover(&mut self, matches: &Vec<HyperlinkRange>, point: Point)
        requires
            old(self).wf(),
        ensures
            final(self).wf(),
            *final(self) == (SessionCore {
                last_content: RenderableContent {
                    hovered_hyperlink: spec_hover_lookup(
                        matches@,
                        point,
                        old(self).last_content.grid.spec_viewport_top(),
                        old(self).last_content.grid.spec_viewport_bottom(),
                    ),
                    ..old(self).last_content
                },
                ..*old(self)
            }),
    {
        let g = &self.last_content.grid;
        let viewport_start: i32 = (-(g.display_offset as i64)) as i32;
        let viewport_end: i32 = (viewport_start as i64 + g.screen_rows as i64 - 1) as i32;
        let hovered = hover_lookup(matches, point, viewport_start, viewport_end);
        self.last_content.hovered_hyperlink = hovered;
    }

    /// Dispatch one command: decide the engine operations it requires
    /// and update the session state.
    ///
    /// Mouse report points are viewport points, so their line is
    /// nonnegative; the coordinate bounds keep the one-based encoding
    /// from wrapping.
    pub fn dispatch(&mut self, cmd: BackendCommand, engine: &EngineState) -> (ops: Vec<EngineOp>)
        requires
            old(self).wf(),
            engine.display_offset <= i32::MAX,
            (match cmd {
                BackendCommand::Scroll(delta) => delta > i32::MIN,
                BackendCommand::MouseReport(_, _, point, _) => 0 <= point.line < i32::MAX
                    && point.column < usize::MAX,
                _ => true,
            }),
        ensures
            final(self).wf(),
            spec_dispatch_ok(*old(self), cmd, *engine, *final(self), ops@),
    {
        let ghost cmd0 = cmd;
        let mut ops: Vec<EngineOp> = Vec::new();
        match cmd {
            BackendCommand::Write(bytes) => {
                ops.push(EngineOp::WriteBytes(bytes));
                ops.push(EngineOp::ScrollToBottom);
            },
            BackendCommand::Scroll(delta) => {
                if delta != 0 {
                    if engine.mode.contains(MODE_ALTERNATE_SCROLL | MODE_ALT_SCREEN) {
                        ops.push(EngineOp::WriteBytes(scroll_escape(delta)));
                    } else {
                        ops.push(EngineOp::ScrollDelta(delta));
                        assert(ops@ =~= seq![EngineOp::ScrollDelta(delta)]);
                    }
                }
            },
            BackendCommand::Resize(layout, font) => {
                let applied = self.resize(layout, font);
                match applied {
                    Some(new_size) => {
                        ops.push(EngineOp::NotifyWindowSize(new_size));
                        ops.push(EngineOp::ResizeGrid(new_size.num_cols, new_size.num_lines));
                        assert(ops@ =~= seq![
                            EngineOp::NotifyWindowSize(new_size),
                            EngineOp::ResizeGrid(new_size.num_cols, new_size.num_lines),
                        ]);
                    },
                    None => {},
                }
            },
            BackendCommand::SelectStart(ty, x, y) => {
                let location = selection_point(x, y, &self.size, engine.display_offset);
                let side = selection_side(x, self.size.cell_width);
                ops.push(EngineOp::StartSelection(ty, location, side));
                assert(ops@ =~= seq![EngineOp::StartSelection(ty, location, side)]);
            },
            BackendCommand::SelectUpdate(x, y) => {
                if engine.selection_active {
                    let location = selection_point(x, y, &self.size, engine.display_offset);
                    let side = selection_side(x, self.size.cell_width);
                    ops.push(EngineOp::UpdateSelection(location, side));
                    assert(ops@ =~= seq![EngineOp::UpdateSelection(location, side)]);
                }
            },
            BackendCommand::ProcessLink(action, point) => match action {
                LinkAction::Clear => {
                    self.last_content.hovered_hyperlink = None;
                },
                LinkAction::Hover => {
                    ops.push(EngineOp::ScanLinks(point));
                    assert(ops@ =~= seq![EngineOp::ScanLinks(point)]);
                },
                LinkAction::Open => {
                    match &self.last_content.hovered_hyperlink {
                        Some(range) => {
                            match link_url(&self.last_content.grid, range) {
                                Some(url) => {
                                    ops.push(EngineOp::OpenUrl(url));
                                },
                                None => {},
                            }
                        },
                        None => {},
                    }
                },
            },
            BackendCommand::MouseReport(button, modifiers, point, pressed) => {
                let code: u8 = button.code() + modifier_code(&modifiers);
                match MouseMode::from(self.last_content.terminal_mode) {
                    MouseMode::Sgr => {
                        ops.push(EngineOp::WriteBytes(sgr_mouse_report(point, code, pressed)));
                    },
                    MouseMode::Normal(is_utf8) => {
                        let report_code: u8 = if pressed {
                            code
                        } else {
                            3 + modifier_code(&modifiers)
                        };
                        match normal_mouse_report(point, report_code, is_utf8) {
                            Some(bytes) => {
                                ops.push(EngineOp::WriteBytes(bytes));
                            },
                            None => {},
                        }
                    },
                }
            },
        }
        ops
    }

    /// Negotiate the grid size against the current layout and font
    /// metrics, updating the stored geometry when anything changed
    /// and both grid dimensions stay positive.
    fn resize(&mut self, layout: Size, font: Size) -> (r: Option<TerminalSize>)
        requires
            old(self).wf(),
        ensures
            final(self).wf(),
            r == spec_resize_result(old(self).size, layout, font),
            (match r {
                Some(applied) => *final(self) == (SessionCore { size: applied, ..*old(self) }),
                None => *final(self) == *old(self),
            }),
    {
        let noop = layout == self.size.layout_size && clamp_u16(font.width) == self.size.cell_width
            && clamp_u16(font.height) == self.size.cell_height;
        if noop {
            return None;
        }
        if font.width == 0 || font.height == 0 {
            return None;
        }
        let lines: u16 = clamp_u16(layout.height / font.height);
        let cols: u16 = clamp_u16(layout.width / font.width);
        if lines > 0 && cols > 0 {
            let new_size = TerminalSize {
                cell_width: clamp_u16(font.width),
                cell_height: clamp_u16(font.height),
                num_cols: cols,
                num_lines: lines,
                layout_size: layout,
            };
            self.size = new_size;
            Some(new_size)
        } else {
            None
        }
    }
}

} // verus!
