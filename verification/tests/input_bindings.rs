use egui_term::{
    Binding, BindingAction, BindingsLayout, InputKind, Key, Modifiers, PointerButton, TermMode,
    TerminalViewState, BackendCommand, InputAction, MouseButton, LinkAction, SelectionType,
    process_text_event, process_keyboard_key, process_copy_event, process_paste_event,
    wheel_scroll_action, process_button_click, process_mouse_move, key_from_name, is_cjk,
    SessionCore, MODE_APP_CURSOR, MODE_MOUSE_MODE, MODE_MOUSE_MOTION, MODE_MOUSE_REPORT_CLICK,
    Point,
};

fn no_mods() -> Modifiers {
    Modifiers { shift: false, ctrl: false, alt: false, command: false }
}

fn binding(key: Key, modifiers: Modifiers, on: u32, off: u32) -> Binding {
    Binding {
        target: InputKind::KeyCode(key),
        modifiers,
        terminal_mode_include: on,
        terminal_mode_exclude: off,
    }
}

#[test]
fn arrow_keys_follow_application_cursor_mode() {
    let layout = BindingsLayout::new();
    let plain = layout.get_action(
        InputKind::KeyCode(Key::ArrowUp),
        no_mods(),
        TermMode::empty(),
    );
    assert_eq!(plain, BindingAction::Esc(String::from("\x1b[A")));
    let app = layout.get_action(
        InputKind::KeyCode(Key::ArrowUp),
        no_mods(),
        TermMode::new(MODE_APP_CURSOR),
    );
    assert_eq!(app, BindingAction::Esc(String::from("\x1bOA")));
}

#[test]
fn unbound_input_is_ignored() {
    let layout = BindingsLayout::new();
    let action = layout.get_action(InputKind::KeyCode(Key::A), no_mods(), TermMode::empty());
    assert_eq!(action, BindingAction::Ignore);
}

#[test]
fn later_bindings_override_earlier_ones_on_the_same_key() {
    let mut layout = BindingsLayout::new();
    let b = binding(Key::K, no_mods(), 0, 0);
    layout.add_bindings(vec![(b, BindingAction::Char('1'))]);
    assert_eq!(
        layout.get_action(InputKind::KeyCode(Key::K), no_mods(), TermMode::empty()),
        BindingAction::Char('1')
    );
    let before = layout.layout.len();
    layout.add_bindings(vec![(b, BindingAction::Char('2'))]);
    assert_eq!(layout.layout.len(), before);
    assert_eq!(
        layout.get_action(InputKind::KeyCode(Key::K), no_mods(), TermMode::empty()),
        BindingAction::Char('2')
    );
}

#[test]
fn exact_modifier_match_is_required() {
    let mut layout = BindingsLayout::new();
    let shift = Modifiers { shift: true, ctrl: false, alt: false, command: false };
    layout.add_bindings(vec![(binding(Key::A, shift, 0, 0), BindingAction::Char('B'))]);
    assert_eq!(
        layout.get_action(InputKind::KeyCode(Key::A), shift, TermMode::empty()),
        BindingAction::Char('B')
    );
    let shift_ctrl = Modifiers { shift: true, ctrl: true, alt: false, command: false };
    assert_eq!(
        layout.get_action(InputKind::KeyCode(Key::A), shift_ctrl, TermMode::empty()),
        BindingAction::Ignore
    );
}

#[test]
fn text_event_forwards_unbound_text() {
    let layout = BindingsLayout::new();
    let action = process_text_event("hi", no_mods(), TermMode::empty(), &layout);
    match action {
        InputAction::BackendCall(BackendCommand::Write(bytes)) => {
            assert_eq!(bytes, b"hi".to_vec());
        },
        other => panic!("expected Write, got {:?}", other),
    }
}

#[test]
fn text_event_is_suppressed_when_its_key_is_bound() {
    let mut layout = BindingsLayout::new();
    layout.add_bindings(vec![(binding(Key::A, no_mods(), 0, 0), BindingAction::Char('B'))]);
    let action = process_text_event("a", no_mods(), TermMode::empty(), &layout);
    assert!(matches!(action, InputAction::Ignore));
    // A bound key under other modifiers still types normally.
    let action = process_text_event("b", no_mods(), TermMode::empty(), &layout);
    assert!(matches!(action, InputAction::BackendCall(BackendCommand::Write(_))));
}

#[test]
fn key_press_writes_the_bound_sequence() {
    let layout = BindingsLayout::new();
    let action = process_keyboard_key(Key::Enter, no_mods(), true, TermMode::empty(), &layout);
    match action {
        InputAction::BackendCall(BackendCommand::Write(bytes)) => {
            assert_eq!(bytes, b"\r".to_vec());
        },
        other => panic!("expected Write, got {:?}", other),
    }
    let release = process_keyboard_key(Key::Enter, no_mods(), false, TermMode::empty(), &layout);
    assert!(matches!(release, InputAction::Ignore));
    let unbound = process_keyboard_key(Key::Q, no_mods(), true, TermMode::empty(), &layout);
    assert!(matches!(unbound, InputAction::Ignore));
}

#[test]
fn bound_char_is_written_as_utf8() {
    let mut layout = BindingsLayout::new();
    layout.add_bindings(vec![(binding(Key::E, no_mods(), 0, 0), BindingAction::Char('\u{e9}'))]);
    let action = process_keyboard_key(Key::E, no_mods(), true, TermMode::empty(), &layout);
    match action {
        InputAction::BackendCall(BackendCommand::Write(bytes)) => {
            assert_eq!(bytes, vec![0xc3, 0xa9]);
        },
        other => panic!("expected Write, got {:?}", other),
    }
}

#[test]
fn copy_event_copies_or_sends_etx() {
    let core = SessionCore::new(1);
    let chord = Modifiers { shift: true, ctrl: false, alt: false, command: true };
    match process_copy_event(chord, &core) {
        InputAction::WriteToClipboard(s) => assert_eq!(s, ""),
        other => panic!("expected WriteToClipboard, got {:?}", other),
    }
    match process_copy_event(no_mods(), &core) {
        InputAction::BackendCall(BackendCommand::Write(bytes)) => assert_eq!(bytes, vec![0x3]),
        other => panic!("expected Write, got {:?}", other),
    }
}

#[test]
fn paste_event_pastes_or_sends_syn() {
    let chord = Modifiers { shift: true, ctrl: false, alt: false, command: true };
    match process_paste_event("echo", chord) {
        InputAction::BackendCall(BackendCommand::Write(bytes)) => {
            assert_eq!(bytes, b"echo".to_vec());
        },
        other => panic!("expected Write, got {:?}", other),
    }
    match process_paste_event("echo", no_mods()) {
        InputAction::BackendCall(BackendCommand::Write(bytes)) => assert_eq!(bytes, vec![0x16]),
        other => panic!("expected Write, got {:?}", other),
    }
}

#[test]
fn wheel_lines_scroll_or_do_nothing() {
    assert!(matches!(
        wheel_scroll_action(3),
        InputAction::BackendCall(BackendCommand::Scroll(3))
    ));
    assert!(matches!(wheel_scroll_action(0), InputAction::Ignore));
}

#[test]
fn primary_press_starts_a_drag_selection() {
    let layout = BindingsLayout::new();
    let mut state = TerminalViewState::default();
    let action = process_button_click(
        &mut state,
        TermMode::empty(),
        &layout,
        PointerButton::Primary,
        31,
        45,
        no_mods(),
        true,
        false,
        false,
    );
    assert!(state.is_dragged);
    match action {
        InputAction::BackendCall(BackendCommand::SelectStart(ty, x, y)) => {
            assert!(matches!(ty, SelectionType::Simple));
            assert_eq!((x, y), (31, 45));
        },
        other => panic!("expected SelectStart, got {:?}", other),
    }
    let release = process_button_click(
        &mut state,
        TermMode::empty(),
        &layout,
        PointerButton::Primary,
        31,
        45,
        no_mods(),
        false,
        false,
        false,
    );
    assert!(!state.is_dragged);
    assert!(matches!(release, InputAction::Ignore));
}

#[test]
fn double_click_selects_semantically() {
    let layout = BindingsLayout::new();
    let mut state = TerminalViewState::default();
    let action = process_button_click(
        &mut state,
        TermMode::empty(),
        &layout,
        PointerButton::Primary,
        0,
        0,
        no_mods(),
        true,
        true,
        false,
    );
    assert!(matches!(
        action,
        InputAction::BackendCall(BackendCommand::SelectStart(SelectionType::Semantic, _, _))
    ));
}

#[test]
fn click_in_mouse_mode_is_reported_not_selected() {
    let layout = BindingsLayout::new();
    let mut state = TerminalViewState::default();
    state.current_mouse_position_on_grid = Point { line: 4, column: 7 };
    let action = process_button_click(
        &mut state,
        TermMode::new(MODE_MOUSE_REPORT_CLICK),
        &layout,
        PointerButton::Primary,
        0,
        0,
        no_mods(),
        true,
        false,
        false,
    );
    assert!(!state.is_dragged);
    match action {
        InputAction::BackendCall(BackendCommand::MouseReport(button, _, point, pressed)) => {
            assert!(matches!(button, MouseButton::LeftButton));
            assert_eq!(point, Point { line: 4, column: 7 });
            assert!(pressed);
        },
        other => panic!("expected MouseReport, got {:?}", other),
    }
}

#[test]
fn command_release_follows_the_link_binding() {
    let layout = BindingsLayout::new();
    let mut state = TerminalViewState::default();
    state.current_mouse_position_on_grid = Point { line: 1, column: 2 };
    let command = Modifiers { shift: false, ctrl: false, alt: false, command: true };
    let action = process_button_click(
        &mut state,
        TermMode::empty(),
        &layout,
        PointerButton::Primary,
        0,
        0,
        command,
        false,
        false,
        false,
    );
    match action {
        InputAction::BackendCall(BackendCommand::ProcessLink(LinkAction::Open, point)) => {
            assert_eq!(point, Point { line: 1, column: 2 });
        },
        other => panic!("expected ProcessLink(Open), got {:?}", other),
    }
}

#[test]
fn secondary_button_is_ignored() {
    let layout = BindingsLayout::new();
    let mut state = TerminalViewState::default();
    let action = process_button_click(
        &mut state,
        TermMode::empty(),
        &layout,
        PointerButton::Secondary,
        0,
        0,
        no_mods(),
        true,
        false,
        false,
    );
    assert!(matches!(action, InputAction::Ignore));
    assert!(!state.is_dragged);
}

#[test]
fn mouse_move_tracks_the_cell_and_updates_a_drag() {
    let mut core = SessionCore::new(1);
    core.dispatch(
        BackendCommand::Resize(
            egui_term::Size { width: 40, height: 40 },
            egui_term::Size { width: 10, height: 20 },
        ),
        &egui_term::EngineState {
            display_offset: 0,
            mode: TermMode::empty(),
            selection_active: false,
        },
    );
    let grid = egui_term::GridSnapshot {
        columns: 4,
        top_line: 0,
        rows: 2,
        display_offset: 0,
        screen_rows: 2,
        cells: vec![
            egui_term::Cell {
                c: ' ',
                fg: egui_term::Color::Named(egui_term::NamedColor::Foreground),
                bg: egui_term::Color::Named(egui_term::NamedColor::Background),
                wide: false,
                wide_spacer: false,
                inverse: false,
                dim: false,
            };
            8
        ],
    };
    core.apply_sync(grid, egui_term::Cell {
        c: ' ',
        fg: egui_term::Color::Named(egui_term::NamedColor::Foreground),
        bg: egui_term::Color::Named(egui_term::NamedColor::Background),
        wide: false,
        wide_spacer: false,
        inverse: false,
        dim: false,
    }, Point { line: 0, column: 0 }, TermMode::empty(), None);

    let mut state = TerminalViewState::default();
    state.is_dragged = true;
    let actions = process_mouse_move(&mut state, core.last_content(), 25, 30, no_mods());
    assert_eq!(state.current_mouse_position_on_grid, Point { line: 1, column: 2 });
    assert_eq!(actions.len(), 1);
    assert!(matches!(
        actions[0],
        InputAction::BackendCall(BackendCommand::SelectUpdate(25, 30))
    ));
}

#[test]
fn mouse_move_reports_motion_when_the_terminal_asks() {
    let core = SessionCore::new(1);
    let mut content = core.last_content().clone();
    content.terminal_mode = TermMode::new(MODE_MOUSE_MOTION | MODE_MOUSE_MODE);
    let mut state = TerminalViewState::default();
    state.is_dragged = true;
    let actions = process_mouse_move(&mut state, &content, 0, 0, no_mods());
    assert_eq!(actions.len(), 1);
    assert!(matches!(
        actions[0],
        InputAction::BackendCall(BackendCommand::MouseReport(MouseButton::LeftMove, _, _, true))
    ));
}

#[test]
fn command_hover_queries_the_link_under_the_pointer() {
    let core = SessionCore::new(1);
    let command = Modifiers { shift: false, ctrl: false, alt: false, command: true };
    let mut state = TerminalViewState::default();
    let actions = process_mouse_move(&mut state, core.last_content(), 7, 3, command);
    assert_eq!(actions.len(), 1);
    match &actions[0] {
        InputAction::BackendCall(BackendCommand::ProcessLink(LinkAction::Hover, point)) => {
            assert_eq!(*point, state.current_mouse_position_on_grid);
        },
        other => panic!("expected ProcessLink(Hover), got {:?}", other),
    }
}

#[test]
fn key_names_resolve_for_single_characters() {
    assert_eq!(key_from_name("a"), Some(Key::A));
    assert_eq!(key_from_name("Z"), Some(Key::Z));
    assert_eq!(key_from_name("7"), Some(Key::Num7));
    assert_eq!(key_from_name(" "), Some(Key::Space));
    assert_eq!(key_from_name("ab"), None);
    assert_eq!(key_from_name("!"), None);
    assert_eq!(key_from_name(""), None);
}

#[test]
fn cjk_classification() {
    assert!(is_cjk('\u{4e2d}'));
    assert!(is_cjk('\u{3400}'));
    assert!(is_cjk('\u{2a6df}'));
    assert!(!is_cjk('a'));
    assert!(!is_cjk('\u{33ff}'));
    assert!(!is_cjk('\u{e9}'));
}
