use egui_term::{
    selection_point, selection_side, clamp_scan_bounds, Point, Side, Size, TerminalSize,
    SessionCore, BackendCommand, EngineState, EngineOp, TermMode,
};

fn geometry(cell_width: u16, cell_height: u16, cols: u16, lines: u16) -> TerminalSize {
    TerminalSize {
        cell_width,
        cell_height,
        num_cols: cols,
        num_lines: lines,
        layout_size: Size { width: 0, height: 0 },
    }
}

fn quiet_engine() -> EngineState {
    EngineState {
        display_offset: 0,
        mode: TermMode::empty(),
        selection_active: false,
    }
}

#[test]
fn selection_point_is_uniform_within_a_cell() {
    let ts = geometry(10, 20, 80, 30);
    // Every pixel of the cell at column 3, row 2 maps to the same point.
    let expect = selection_point(30, 40, &ts, 0);
    for dx in 0..10 {
        for dy in 0..20 {
            let p = selection_point(30 + dx, 40 + dy, &ts, 0);
            assert_eq!(p, expect);
        }
    }
    assert_eq!(expect, Point { line: 2, column: 3 });
}

#[test]
fn selection_point_clamps_to_grid() {
    let ts = geometry(10, 20, 80, 30);
    let p = selection_point(100_000, 100_000, &ts, 0);
    assert_eq!(p, Point { line: 29, column: 79 });
    let p0 = selection_point(0, 0, &ts, 0);
    assert_eq!(p0, Point { line: 0, column: 0 });
}

#[test]
fn selection_point_translates_by_display_offset() {
    let ts = geometry(10, 20, 80, 30);
    let p = selection_point(5, 5, &ts, 7);
    assert_eq!(p, Point { line: -7, column: 0 });
}

#[test]
fn selection_side_biases_right_past_midpoint() {
    assert_eq!(selection_side(0, 10), Side::Left);
    assert_eq!(selection_side(5, 10), Side::Left);
    assert_eq!(selection_side(6, 10), Side::Right);
    assert_eq!(selection_side(9, 10), Side::Right);
    assert_eq!(selection_side(15, 10), Side::Left);
}

#[test]
fn resize_is_idempotent() {
    let mut core = SessionCore::new(1);
    let engine = quiet_engine();
    let layout = Size { width: 800, height: 600 };
    let font = Size { width: 10, height: 20 };
    let first = core.dispatch(BackendCommand::Resize(layout, font), &engine);
    assert_eq!(first.len(), 2);
    let size_after_first = (core.size.num_cols, core.size.num_lines, core.size.cell_width,
        core.size.cell_height);
    let second = core.dispatch(BackendCommand::Resize(layout, font), &engine);
    assert_eq!(second.len(), 0);
    let size_after_second = (core.size.num_cols, core.size.num_lines, core.size.cell_width,
        core.size.cell_height);
    assert_eq!(size_after_first, size_after_second);
}

#[test]
fn resize_with_zero_cell_dimension_is_ignored() {
    let mut core = SessionCore::new(1);
    let engine = quiet_engine();
    let ops = core.dispatch(
        BackendCommand::Resize(Size { width: 800, height: 600 }, Size { width: 0, height: 20 }),
        &engine,
    );
    assert_eq!(ops.len(), 0);
    assert_eq!(core.size.num_cols, 80);
    assert_eq!(core.size.num_lines, 50);
}

#[test]
fn resize_too_small_for_one_cell_is_ignored() {
    let mut core = SessionCore::new(1);
    let engine = quiet_engine();
    let ops = core.dispatch(
        BackendCommand::Resize(Size { width: 5, height: 600 }, Size { width: 10, height: 20 }),
        &engine,
    );
    assert_eq!(ops.len(), 0);
    assert_eq!(core.size.num_cols, 80);
}

#[test]
fn resize_notifies_engine_of_new_geometry() {
    let mut core = SessionCore::new(1);
    let engine = quiet_engine();
    let ops = core.dispatch(
        BackendCommand::Resize(Size { width: 640, height: 480 }, Size { width: 8, height: 16 }),
        &engine,
    );
    assert_eq!(ops.len(), 2);
    match &ops[0] {
        EngineOp::NotifyWindowSize(size) => {
            assert_eq!(size.num_cols, 80);
            assert_eq!(size.num_lines, 30);
            assert_eq!(size.cell_width, 8);
            assert_eq!(size.cell_height, 16);
        },
        other => panic!("expected NotifyWindowSize, got {:?}", other),
    }
    match &ops[1] {
        EngineOp::ResizeGrid(cols, lines) => {
            assert_eq!(*cols, 80);
            assert_eq!(*lines, 30);
        },
        other => panic!("expected ResizeGrid, got {:?}", other),
    }
}

#[test]
fn scan_bounds_clamp_to_margin() {
    let (start, end) = clamp_scan_bounds(
        Point { line: -5000, column: 2 },
        Point { line: 5000, column: 7 },
        -10,
        19,
    );
    assert_eq!(start, Point { line: -110, column: 2 });
    assert_eq!(end, Point { line: 119, column: 7 });

    let (start2, end2) = clamp_scan_bounds(
        Point { line: -3, column: 0 },
        Point { line: 25, column: 0 },
        -10,
        19,
    );
    assert_eq!(start2.line, -3);
    assert_eq!(end2.line, 25);
}
