use egui_term::{
    sgr_mouse_report, normal_mouse_report, Point, Modifiers, MouseButton, MouseMode, TermMode,
    MODE_SGR_MOUSE, MODE_UTF8_MOUSE,
};

#[test]
fn sgr_press_and_release_differ_only_in_suffix() {
    let point = Point { line: 7, column: 12 };
    let press = sgr_mouse_report(point, 0, true);
    let release = sgr_mouse_report(point, 0, false);
    assert_eq!(press.len(), release.len());
    assert_eq!(press[..press.len() - 1], release[..release.len() - 1]);
    assert_eq!(*press.last().unwrap(), b'M');
    assert_eq!(*release.last().unwrap(), b'm');
}

#[test]
fn sgr_encodes_one_based_decimal_coordinates() {
    let bytes = sgr_mouse_report(Point { line: 2, column: 3 }, 0, true);
    assert_eq!(bytes, b"\x1b[<0;4;3M".to_vec());
    let bytes = sgr_mouse_report(Point { line: 0, column: 0 }, 67, false);
    assert_eq!(bytes, b"\x1b[<67;1;1m".to_vec());
}

#[test]
fn sgr_encodes_negative_scrollback_lines() {
    let bytes = sgr_mouse_report(Point { line: -12, column: 0 }, 0, true);
    assert_eq!(bytes, b"\x1b[<0;1;-11M".to_vec());
}

#[test]
fn legacy_emits_nothing_at_or_beyond_maximum() {
    // Without the UTF-8 extension the maximum is 223.
    assert!(normal_mouse_report(Point { line: 0, column: 223 }, 0, false).is_none());
    assert!(normal_mouse_report(Point { line: 223, column: 0 }, 0, false).is_none());
    assert!(normal_mouse_report(Point { line: 0, column: 222 }, 0, false).is_some());
    // With it the maximum is 2015.
    assert!(normal_mouse_report(Point { line: 0, column: 2015 }, 0, true).is_none());
    assert!(normal_mouse_report(Point { line: 2015, column: 0 }, 0, true).is_none());
    assert!(normal_mouse_report(Point { line: 0, column: 2014 }, 0, true).is_some());
}

#[test]
fn legacy_single_byte_encoding() {
    let bytes = normal_mouse_report(Point { line: 1, column: 2 }, 0, false).unwrap();
    assert_eq!(bytes, vec![0x1b, b'[', b'M', 32, 32 + 1 + 2, 32 + 1 + 1]);
}

#[test]
fn legacy_utf8_two_byte_encoding_past_94() {
    // Column 100: encoded position is 32 + 1 + 100 = 133,
    // giving 0xC0 + 133/64 = 0xC2 and 0x80 + 133%64 = 0x85.
    let bytes = normal_mouse_report(Point { line: 1, column: 100 }, 0, true).unwrap();
    assert_eq!(bytes, vec![0x1b, b'[', b'M', 32, 0xc2, 0x85, 32 + 1 + 1]);
    // Column 94 still fits one byte.
    let bytes = normal_mouse_report(Point { line: 1, column: 94 }, 0, true).unwrap();
    assert_eq!(bytes, vec![0x1b, b'[', b'M', 32, 32 + 1 + 94, 32 + 1 + 1]);
}

#[test]
fn mouse_mode_prefers_sgr() {
    let sgr = TermMode::new(MODE_SGR_MOUSE | MODE_UTF8_MOUSE);
    assert_eq!(MouseMode::from(sgr), MouseMode::Sgr);
    let utf8 = TermMode::new(MODE_UTF8_MOUSE);
    assert_eq!(MouseMode::from(utf8), MouseMode::Normal(true));
    assert_eq!(MouseMode::from(TermMode::empty()), MouseMode::Normal(false));
}

#[test]
fn modifier_summand_is_applied_to_the_button_code() {
    let mods = Modifiers { shift: true, ctrl: false, alt: true, command: true };
    // shift 4 + alt 8 + command 16 = 28 on top of wheel-up 64.
    let code = match MouseButton::ScrollUp {
        b => b.code(),
    } + {
        let mut m = 0u8;
        if mods.shift {
            m += 4;
        }
        if mods.alt {
            m += 8;
        }
        if mods.command {
            m += 16;
        }
        m
    };
    let bytes = sgr_mouse_report(Point { line: 0, column: 0 }, code, true);
    assert_eq!(bytes, b"\x1b[<92;1;1M".to_vec());
}
