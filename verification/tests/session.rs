use egui_term::{
    BackendCommand, Cell, Color, EngineOp, EngineState, GridSnapshot, HyperlinkRange, LinkAction,
    Modifiers, MouseButton, NamedColor, Point, SelectionRange, SelectionType, SessionCore, Side,
    TermMode, hover_lookup, MODE_ALTERNATE_SCROLL, MODE_ALT_SCREEN, MODE_SGR_MOUSE,
};

fn plain_cell(c: char) -> Cell {
    Cell {
        c,
        fg: Color::Named(NamedColor::Foreground),
        bg: Color::Named(NamedColor::Background),
        wide: false,
        wide_spacer: false,
        inverse: false,
        dim: false,
    }
}

/// A band of `rows` text rows starting at buffer line `top_line`,
/// showing `screen_rows` rows with the given scrollback offset.
fn grid_from_rows(rows: &[&str], top_line: i32, display_offset: usize, screen_rows: usize)
    -> GridSnapshot {
    let columns = rows[0].chars().count();
    let mut cells = Vec::new();
    for row in rows {
        for c in row.chars() {
            cells.push(plain_cell(c));
        }
    }
    GridSnapshot {
        columns,
        top_line,
        rows: rows.len(),
        display_offset,
        screen_rows,
        cells,
    }
}

fn engine_with(mode: TermMode, display_offset: usize, selection_active: bool) -> EngineState {
    EngineState { display_offset, mode, selection_active }
}

#[test]
fn fresh_resize_computes_grid_from_cell_size() {
    let mut core = SessionCore::new(7);
    assert_eq!(core.size.num_cols, 80);
    assert_eq!(core.size.num_lines, 50);
    let engine = engine_with(TermMode::empty(), 0, false);
    core.dispatch(
        BackendCommand::Resize(
            egui_term::Size { width: 800, height: 600 },
            egui_term::Size { width: 10, height: 20 },
        ),
        &engine,
    );
    assert_eq!(core.size.num_cols, 80);
    assert_eq!(core.size.num_lines, 30);
    assert_eq!(core.size.cell_width, 10);
    assert_eq!(core.size.cell_height, 20);
}

#[test]
fn write_forwards_bytes_and_snaps_to_bottom() {
    let mut core = SessionCore::new(1);
    let engine = engine_with(TermMode::empty(), 0, false);
    let ops = core.dispatch(BackendCommand::Write(vec![b'l', b's', b'\n']), &engine);
    assert_eq!(ops.len(), 2);
    match &ops[0] {
        EngineOp::WriteBytes(bytes) => assert_eq!(bytes, &vec![b'l', b's', b'\n']),
        other => panic!("expected WriteBytes, got {:?}", other),
    }
    assert!(matches!(ops[1], EngineOp::ScrollToBottom));
}

#[test]
fn alternate_scroll_writes_cursor_keys_instead_of_scrolling() {
    let mut core = SessionCore::new(1);
    let engine = engine_with(TermMode::new(MODE_ALTERNATE_SCROLL | MODE_ALT_SCREEN), 0, false);
    let ops = core.dispatch(BackendCommand::Scroll(3), &engine);
    assert_eq!(ops.len(), 1);
    match &ops[0] {
        EngineOp::WriteBytes(bytes) => {
            assert_eq!(bytes, &b"\x1bOA\x1bOA\x1bOA".to_vec());
        },
        other => panic!("expected WriteBytes, got {:?}", other),
    }
    // No ScrollDelta op: the scrollback offset stays untouched.
    assert!(!ops.iter().any(|op| matches!(op, EngineOp::ScrollDelta(_))));
}

#[test]
fn scroll_down_uses_the_b_cursor_key() {
    let mut core = SessionCore::new(1);
    let engine = engine_with(TermMode::new(MODE_ALTERNATE_SCROLL | MODE_ALT_SCREEN), 0, false);
    let ops = core.dispatch(BackendCommand::Scroll(-2), &engine);
    match &ops[0] {
        EngineOp::WriteBytes(bytes) => assert_eq!(bytes, &b"\x1bOB\x1bOB".to_vec()),
        other => panic!("expected WriteBytes, got {:?}", other),
    }
}

#[test]
fn plain_scroll_moves_the_viewport() {
    let mut core = SessionCore::new(1);
    let engine = engine_with(TermMode::empty(), 0, false);
    let ops = core.dispatch(BackendCommand::Scroll(5), &engine);
    assert_eq!(ops.len(), 1);
    assert!(matches!(ops[0], EngineOp::ScrollDelta(5)));
    let none = core.dispatch(BackendCommand::Scroll(0), &engine);
    assert_eq!(none.len(), 0);
}

#[test]
fn select_start_converts_pixels_and_sides() {
    let mut core = SessionCore::new(1);
    let engine = engine_with(TermMode::empty(), 0, false);
    core.dispatch(
        BackendCommand::Resize(
            egui_term::Size { width: 800, height: 600 },
            egui_term::Size { width: 10, height: 20 },
        ),
        &engine,
    );
    let ops = core.dispatch(BackendCommand::SelectStart(SelectionType::Simple, 37, 45), &engine);
    assert_eq!(ops.len(), 1);
    match &ops[0] {
        EngineOp::StartSelection(ty, point, side) => {
            assert!(matches!(ty, SelectionType::Simple));
            assert_eq!(*point, Point { line: 2, column: 3 });
            assert_eq!(*side, Side::Right);
        },
        other => panic!("expected StartSelection, got {:?}", other),
    }
}

#[test]
fn select_update_needs_an_active_selection() {
    let mut core = SessionCore::new(1);
    let idle = engine_with(TermMode::empty(), 0, false);
    assert_eq!(core.dispatch(BackendCommand::SelectUpdate(5, 5), &idle).len(), 0);
    let active = engine_with(TermMode::empty(), 0, true);
    let ops = core.dispatch(BackendCommand::SelectUpdate(5, 5), &active);
    assert_eq!(ops.len(), 1);
    assert!(matches!(ops[0], EngineOp::UpdateSelection(_, _)));
}

#[test]
fn selection_range_text_in_display_order() {
    let mut core = SessionCore::new(1);
    let engine = engine_with(TermMode::empty(), 0, false);
    // Start a selection, extend it to a later point.
    let start_ops = core.dispatch(
        BackendCommand::SelectStart(SelectionType::Simple, 1, 0),
        &engine,
    );
    let start = match &start_ops[0] {
        EngineOp::StartSelection(_, p, _) => *p,
        other => panic!("expected StartSelection, got {:?}", other),
    };
    let update_ops = core.dispatch(
        BackendCommand::SelectUpdate(3, 1),
        &engine_with(TermMode::empty(), 0, true),
    );
    let end = match &update_ops[0] {
        EngineOp::UpdateSelection(p, _) => *p,
        other => panic!("expected UpdateSelection, got {:?}", other),
    };
    assert_eq!(start, Point { line: 0, column: 1 });
    assert_eq!(end, Point { line: 1, column: 3 });

    // The engine resolves that range; hand the snapshot back.
    let grid = grid_from_rows(&["abcde", "fghij", "klmno"], 0, 0, 3);
    let range = SelectionRange { start, end, is_block: false };
    core.apply_sync(grid, plain_cell(' '), Point { line: 0, column: 0 }, TermMode::empty(),
        Some(range));
    assert_eq!(core.selectable_content(), "bcdefghi");
}

#[test]
fn selectable_text_is_empty_without_a_selection() {
    let mut core = SessionCore::new(1);
    let grid = grid_from_rows(&["abc"], 0, 0, 1);
    core.apply_sync(grid, plain_cell(' '), Point { line: 0, column: 0 }, TermMode::empty(), None);
    assert_eq!(core.selectable_content(), "");
}

#[test]
fn block_selection_bounds_columns_on_every_line() {
    let mut core = SessionCore::new(1);
    let grid = grid_from_rows(&["abcde", "fghij", "klmno"], 0, 0, 3);
    let range = SelectionRange {
        start: Point { line: 0, column: 1 },
        end: Point { line: 2, column: 2 },
        is_block: true,
    };
    core.apply_sync(grid, plain_cell(' '), Point { line: 0, column: 0 }, TermMode::empty(),
        Some(range));
    assert_eq!(core.selectable_content(), "bcghlm");
}

#[test]
fn hover_finds_the_span_under_the_point() {
    let mut core = SessionCore::new(1);
    let grid = grid_from_rows(&["http://x.y ", "           "], 0, 0, 2);
    core.apply_sync(grid, plain_cell(' '), Point { line: 0, column: 0 }, TermMode::empty(), None);
    let ops = core.dispatch(
        BackendCommand::ProcessLink(LinkAction::Hover, Point { line: 0, column: 4 }),
        &engine_with(TermMode::empty(), 0, false),
    );
    assert_eq!(ops.len(), 1);
    let query = match &ops[0] {
        EngineOp::ScanLinks(p) => *p,
        other => panic!("expected ScanLinks, got {:?}", other),
    };
    let matches = vec![HyperlinkRange {
        start: Point { line: 0, column: 0 },
        end: Point { line: 0, column: 9 },
    }];
    core.apply_hover(&matches, query);
    assert_eq!(
        core.last_content().hovered_hyperlink,
        Some(HyperlinkRange {
            start: Point { line: 0, column: 0 },
            end: Point { line: 0, column: 9 },
        })
    );
}

#[test]
fn hover_outside_the_scan_margin_finds_nothing() {
    // A match exists deep in scrollback, but the hovered point lies
    // outside the viewport band the scan is scoped to.
    let matches = vec![HyperlinkRange {
        start: Point { line: -400, column: 0 },
        end: Point { line: -400, column: 9 },
    }];
    let hovered = hover_lookup(&matches, Point { line: -400, column: 4 }, 0, 23);
    assert_eq!(hovered, None);
    // The same span is found when the viewport reaches it.
    let hovered = hover_lookup(&matches, Point { line: -400, column: 4 }, -410, -380);
    assert!(hovered.is_some());
}

#[test]
fn clear_link_drops_the_hovered_span() {
    let mut core = SessionCore::new(1);
    let grid = grid_from_rows(&["abc"], 0, 0, 1);
    core.apply_sync(grid, plain_cell(' '), Point { line: 0, column: 0 }, TermMode::empty(), None);
    let matches = vec![HyperlinkRange {
        start: Point { line: 0, column: 0 },
        end: Point { line: 0, column: 2 },
    }];
    core.apply_hover(&matches, Point { line: 0, column: 1 });
    assert!(core.last_content().hovered_hyperlink.is_some());
    let ops = core.dispatch(
        BackendCommand::ProcessLink(LinkAction::Clear, Point { line: 0, column: 0 }),
        &engine_with(TermMode::empty(), 0, false),
    );
    assert_eq!(ops.len(), 0);
    assert!(core.last_content().hovered_hyperlink.is_none());
}

#[test]
fn open_link_reconstructs_the_url_from_the_grid() {
    let mut core = SessionCore::new(1);
    let grid = grid_from_rows(&["http://x.y ", "           "], 0, 0, 2);
    core.apply_sync(grid, plain_cell(' '), Point { line: 0, column: 0 }, TermMode::empty(), None);
    let matches = vec![HyperlinkRange {
        start: Point { line: 0, column: 0 },
        end: Point { line: 0, column: 9 },
    }];
    core.apply_hover(&matches, Point { line: 0, column: 4 });
    let ops = core.dispatch(
        BackendCommand::ProcessLink(LinkAction::Open, Point { line: 0, column: 4 }),
        &engine_with(TermMode::empty(), 0, false),
    );
    assert_eq!(ops.len(), 1);
    match &ops[0] {
        EngineOp::OpenUrl(url) => assert_eq!(url, "http://x.y"),
        other => panic!("expected OpenUrl, got {:?}", other),
    }
}

#[test]
fn open_without_a_hovered_link_does_nothing() {
    let mut core = SessionCore::new(1);
    let ops = core.dispatch(
        BackendCommand::ProcessLink(LinkAction::Open, Point { line: 0, column: 0 }),
        &engine_with(TermMode::empty(), 0, false),
    );
    assert_eq!(ops.len(), 0);
}

#[test]
fn mouse_report_uses_the_synced_mode() {
    let mut core = SessionCore::new(1);
    let grid = grid_from_rows(&["abc"], 0, 0, 1);
    core.apply_sync(grid, plain_cell(' '), Point { line: 0, column: 0 },
        TermMode::new(MODE_SGR_MOUSE), None);
    let ops = core.dispatch(
        BackendCommand::MouseReport(
            MouseButton::LeftButton,
            Modifiers::default(),
            Point { line: 2, column: 3 },
            true,
        ),
        &engine_with(TermMode::empty(), 0, false),
    );
    assert_eq!(ops.len(), 1);
    match &ops[0] {
        EngineOp::WriteBytes(bytes) => assert_eq!(bytes, &b"\x1b[<0;4;3M".to_vec()),
        other => panic!("expected WriteBytes, got {:?}", other),
    }
}

#[test]
fn legacy_mouse_release_reports_button_three() {
    let mut core = SessionCore::new(1);
    let ops = core.dispatch(
        BackendCommand::MouseReport(
            MouseButton::LeftButton,
            Modifiers::default(),
            Point { line: 0, column: 0 },
            false,
        ),
        &engine_with(TermMode::empty(), 0, false),
    );
    assert_eq!(ops.len(), 1);
    match &ops[0] {
        EngineOp::WriteBytes(bytes) => {
            assert_eq!(bytes, &vec![0x1b, b'[', b'M', 32 + 3, 33, 33]);
        },
        other => panic!("expected WriteBytes, got {:?}", other),
    }
}

#[test]
fn out_of_range_legacy_report_is_suppressed_by_dispatch() {
    let mut core = SessionCore::new(1);
    let ops = core.dispatch(
        BackendCommand::MouseReport(
            MouseButton::LeftButton,
            Modifiers::default(),
            Point { line: 500, column: 0 },
            true,
        ),
        &engine_with(TermMode::empty(), 0, false),
    );
    assert_eq!(ops.len(), 0);
}

#[test]
fn sync_keeps_the_hovered_span_and_stamps_the_geometry() {
    let mut core = SessionCore::new(1);
    let grid = grid_from_rows(&["ab", "cd"], 0, 0, 2);
    core.apply_sync(grid, plain_cell(' '), Point { line: 0, column: 0 }, TermMode::empty(), None);
    let matches = vec![HyperlinkRange {
        start: Point { line: 0, column: 0 },
        end: Point { line: 0, column: 1 },
    }];
    core.apply_hover(&matches, Point { line: 0, column: 0 });
    assert!(core.last_content().hovered_hyperlink.is_some());
    let grid2 = grid_from_rows(&["xy", "zw"], 0, 0, 2);
    core.apply_sync(grid2, plain_cell('x'), Point { line: 1, column: 1 }, TermMode::empty(), None);
    assert!(core.last_content().hovered_hyperlink.is_some());
    assert_eq!(core.last_content().terminal_size.num_cols, core.size.num_cols);
    assert_eq!(core.last_content().cursor_point, Point { line: 1, column: 1 });
    assert_eq!(core.id(), 1);
}

#[test]
fn scrollback_view_selects_from_the_band() {
    // Band holds lines -2..1; the viewport shows lines -2 and -1.
    let mut core = SessionCore::new(1);
    let grid = grid_from_rows(&["old1", "old2", "live"], -2, 2, 2);
    let range = SelectionRange {
        start: Point { line: -2, column: 0 },
        end: Point { line: -1, column: 3 },
        is_block: false,
    };
    core.apply_sync(grid, plain_cell(' '), Point { line: 0, column: 0 }, TermMode::empty(),
        Some(range));
    assert_eq!(core.selectable_content(), "old1old2");
}
