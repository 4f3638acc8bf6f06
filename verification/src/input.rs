//! The input translator: maps UI input events, the keybinding table
//! and the current terminal mode to adapter commands or clipboard
//! actions.
//!
//! Platform convention: the command+shift chord copies and pastes
//! through the clipboard, while a bare copy or paste event sends the
//! terminal's own control bytes.

use vstd::prelude::*;
use vstd::string::StringSliceAdditionalSpecFns;
use crate::types::{Point, Modifiers};
use crate::mode::{TermMode, MODE_MOUSE_MODE, MODE_MOUSE_MOTION};
use crate::mouse::MouseButton;
use crate::session::{BackendCommand, LinkAction, SelectionType, SessionCore};
use crate::snapshot::RenderableContent;
use crate::bindings::{Key, PointerButton, InputKind, BindingAction, BindingsLayout, spec_get_action};
use crate::geometry::spec_selection_point;
use crate::strutil::push_char;

verus! {

/// What one input event translates to.
#[derive(Debug, Clone)]
pub enum InputAction {
    BackendCall(BackendCommand),
    WriteToClipboard(String),
    Ignore,
}

/// The small per-widget state that survives between frames.
#[derive(Clone, Copy, Debug, PartialEq, Eq, Structural)]
pub struct TerminalViewState {
    pub is_dragged: bool,
    pub current_mouse_position_on_grid: Point,
}

impl Default for TerminalViewState {
    fn default() -> (r: TerminalViewState)
        ensures
            !r.is_dragged,
            r.current_mouse_position_on_grid == (Point { line: 0, column: 0 }),
    {
        TerminalViewState {
            is_dragged: false,
            current_mouse_position_on_grid: Point { line: 0, column: 0 },
        }
    }
}

/// The key a one-character text event names, if any.
pub open spec fn spec_key_from_char(c: char) -> Option<Key> {
    match c {
        'a' | 'A' => Some(Key::A),
        'b' | 'B' => Some(Key::B),
        'c' | 'C' => Some(Key::C),
        'd' | 'D' => Some(Key::D),
        'e' | 'E' => Some(Key::E),
        'f' | 'F' => Some(Key::F),
        'g' | 'G' => Some(Key::G),
        'h' | 'H' => Some(Key::H),
        'i' | 'I' => Some(Key::I),
        'j' | 'J' => Some(Key::J),
        'k' | 'K' => Some(Key::K),
        'l' | 'L' => Some(Key::L),
        'm' | 'M' => Some(Key::M),
        'n' | 'N' => Some(Key::N),
        'o' | 'O' => Some(Key::O),
        'p' | 'P' => Some(Key::P),
        'q' | 'Q' => Some(Key::Q),
        'r' | 'R' => Some(Key::R),
        's' | 'S' => Some(Key::S),
        't' | 'T' => Some(Key::T),
        'u' | 'U' => Some(Key::U),
        'v' | 'V' => Some(Key::V),
        'w' | 'W' => Some(Key::W),
        'x' | 'X' => Some(Key::X),
        'y' | 'Y' => Some(Key::Y),
        'z' | 'Z' => Some(Key::Z),
        '0' => Some(Key::Num0),
        '1' => Some(Key::Num1),
        '2' => Some(Key::Num2),
        '3' => Some(Key::Num3),
        '4' => Some(Key::Num4),
        '5' => Some(Key::Num5),
        '6' => Some(Key::Num6),
        '7' => Some(Key::Num7),
        '8' => Some(Key::Num8),
        '9' => Some(Key::Num9),
        ' ' => Some(Key::Space),
        _ => None,
    }
}

/// The key a text event names: single characters with a key of their
/// own resolve, everything else is plain text.
pub open spec fn spec_key_from_name(s: Seq<char>) -> Option<Key> {
    if s.len() == 1 {
        spec_key_from_char(s[0])
    } else {
        None
    }
}

pub fn key_from_name(text: &str) -> (r: Option<Key>)
    ensures
        r == spec_key_from_name(text@),
{
    if text.unicode_len() != 1 {
        return None;
    }
    match text.get_char(0) {
        'a' | 'A' => Some(Key::A),
        'b' | 'B' => Some(Key::B),
        'c' | 'C' => Some(Key::C),
        'd' | 'D' => Some(Key::D),
        'e' | 'E' => Some(Key::E),
        'f' | 'F' => Some(Key::F),
        'g' | 'G' => Some(Key::G),
        'h' | 'H' => Some(Key::H),
        'i' | 'I' => Some(Key::I),
        'j' | 'J' => Some(Key::J),
        'k' | 'K' => Some(Key::K),
        'l' | 'L' => Some(Key::L),
        'm' | 'M' => Some(Key::M),
        'n' | 'N' => Some(Key::N),
        'o' | 'O' => Some(Key::O),
        'p' | 'P' => Some(Key::P),
        'q' | 'Q' => Some(Key::Q),
        'r' | 'R' => Some(Key::R),
        's' | 'S' => Some(Key::S),
        't' | 'T' => Some(Key::T),
        'u' | 'U' => Some(Key::U),
        'v' | 'V' => Some(Key::V),
        'w' | 'W' => Some(Key::W),
        'x' | 'X' => Some(Key::X),
        'y' | 'Y' => Some(Key::Y),
        'z' | 'Z' => Some(Key::Z),
        '0' => Some(Key::Num0),
        '1' => Some(Key::Num1),
        '2' => Some(Key::Num2),
        '3' => Some(Key::Num3),
        '4' => Some(Key::Num4),
        '5' => Some(Key::Num5),
        '6' => Some(Key::Num6),
        '7' => Some(Key::Num7),
        '8' => Some(Key::Num8),
        '9' => Some(Key::Num9),
        ' ' => Some(Key::Space),
        _ => None,
    }
}

/// A text event: suppressed when its key has a binding under the
/// current modifiers and mode, forwarded verbatim as UTF-8 bytes
/// otherwise.
pub fn process_text_event(
    text: &str,
    modifiers: Modifiers,
    terminal_mode: TermMode,
    bindings_layout: &BindingsLayout,
) -> (r: InputAction)
    ensures
        ({
            let forward = match spec_key_from_name(text@) {
                Some(key) => spec_get_action(
                    bindings_layout.layout@,
                    InputKind::KeyCode(key),
                    modifiers,
                    terminal_mode,
                ) == BindingAction::Ignore,
                None => true,
            };
            if forward {
                r matches InputAction::BackendCall(BackendCommand::Write(b)) && b@
                    == text.spec_bytes()
            } else {
                r matches InputAction::Ignore
            }
        }),
{
    let forward = match key_from_name(text) {
        Some(key) => {
            let action = bindings_layout.get_action(
                InputKind::KeyCode(key),
                modifiers,
                terminal_mode,
            );
            match action {
                BindingAction::Ignore => true,
                _ => false,
            }
        },
        None => true,
    };
    if forward {
        InputAction::BackendCall(BackendCommand::Write(text.as_bytes_vec()))
    } else {
        InputAction::Ignore
    }
}

/// A key press: a bound character or escape sequence is written to
/// the process; everything else is left to the text event stream.
/// Releases are ignored.
pub fn process_keyboard_key(
    key: Key,
    modifiers: Modifiers,
    pressed: bool,
    terminal_mode: TermMode,
    bindings_layout: &BindingsLayout,
) -> (r: InputAction)
    ensures
        !pressed ==> (r matches InputAction::Ignore),
        pressed ==> ({
            let action = spec_get_action(
                bindings_layout.layout@,
                InputKind::KeyCode(key),
                modifiers,
                terminal_mode,
            );
            match action {
                BindingAction::Char(c) => r matches InputAction::BackendCall(
                    BackendCommand::Write(b),
                ) && b@ == vstd::utf8::encode_utf8(seq![c]),
                BindingAction::Esc(s) => r matches InputAction::BackendCall(
                    BackendCommand::Write(b),
                ) && b@ == vstd::utf8::encode_utf8(s@),
                _ => r matches InputAction::Ignore,
            }
        }),
{
    if !pressed {
        return InputAction::Ignore;
    }
    let action = bindings_layout.get_action(InputKind::KeyCode(key), modifiers, terminal_mode);
    match action {
        BindingAction::Char(c) => {
            let mut buf = String::new();
            push_char(&mut buf, c);
            assert(buf@ =~= seq![c]);
            InputAction::BackendCall(BackendCommand::Write(buf.as_str().as_bytes_vec()))
        },
        BindingAction::Esc(seq) => {
            InputAction::BackendCall(BackendCommand::Write(seq.as_str().as_bytes_vec()))
        },
        _ => InputAction::Ignore,
    }
}

/// A copy event: with the command+shift chord the selection goes to
/// the clipboard; bare, the terminal receives an ETX byte instead.
pub fn process_copy_event(modifiers: Modifiers, session: &SessionCore) -> (r: InputAction)
    requires
        session.wf(),
    ensures
        if modifiers.spec_command_and_shift() {
            r matches InputAction::WriteToClipboard(s) && s@
                == crate::snapshot::spec_selectable_content(session.last_content)
        } else {
            r matches InputAction::BackendCall(BackendCommand::Write(b)) && b@ =~= seq![0x3u8]
        },
{
    if modifiers.command_and_shift() {
        InputAction::WriteToClipboard(session.selectable_content())
    } else {
        let mut b: Vec<u8> = Vec::new();
        b.push(0x3);
        InputAction::BackendCall(BackendCommand::Write(b))
    }
}

/// A paste event: with the command+shift chord the text is written to
/// the process verbatim; bare, the terminal receives a SYN byte.
pub fn process_paste_event(text: &str, modifiers: Modifiers) -> (r: InputAction)
    ensures
        if modifiers.spec_command_and_shift() {
            r matches InputAction::BackendCall(BackendCommand::Write(b)) && b@
                == text.spec_bytes()
        } else {
            r matches InputAction::BackendCall(BackendCommand::Write(b)) && b@ =~= seq![0x16u8]
        },
{
    if modifiers.command_and_shift() {
        InputAction::BackendCall(BackendCommand::Write(text.as_bytes_vec()))
    } else {
        let mut b: Vec<u8> = Vec::new();
        b.push(0x16);
        InputAction::BackendCall(BackendCommand::Write(b))
    }
}

/// A wheel movement already reduced to whole lines: zero lines is
/// nothing, anything else scrolls.  Convention: positive lines move
/// the view up into scrollback, negative lines move it back down.
pub fn wheel_scroll_action(lines: i32) -> (r: InputAction)
    ensures
        if lines == 0 {
            r matches InputAction::Ignore
        } else {
            r matches InputAction::BackendCall(BackendCommand::Scroll(d)) && d == lines
        },
{
    if lines != 0 {
        InputAction::BackendCall(BackendCommand::Scroll(lines))
    } else {
        InputAction::Ignore
    }
}

/// The selection kind a click starts: double-click selects
/// semantically, triple-click by lines, a plain click by characters.
pub open spec fn spec_click_selection_type(double_clicked: bool, triple_clicked: bool)
    -> SelectionType {
    if double_clicked {
        SelectionType::Semantic
    } else if triple_clicked {
        SelectionType::Lines
    } else {
        SelectionType::Simple
    }
}

/// What a primary-button event translates to.
pub open spec fn spec_left_button_action(
    pre: TerminalViewState,
    terminal_mode: TermMode,
    layout: Seq<(crate::bindings::Binding, BindingAction)>,
    x: usize,
    y: usize,
    modifiers: Modifiers,
    pressed: bool,
    double_clicked: bool,
    triple_clicked: bool,
) -> InputAction {
    if terminal_mode.spec_intersects(MODE_MOUSE_MODE) {
        InputAction::BackendCall(
            BackendCommand::MouseReport(
                MouseButton::LeftButton,
                modifiers,
                pre.current_mouse_position_on_grid,
                pressed,
            ),
        )
    } else if pressed {
        InputAction::BackendCall(
            BackendCommand::SelectStart(
                spec_click_selection_type(double_clicked, triple_clicked),
                x,
                y,
            ),
        )
    } else if double_clicked || triple_clicked {
        InputAction::BackendCall(
            BackendCommand::SelectStart(
                spec_click_selection_type(double_clicked, triple_clicked),
                x,
                y,
            ),
        )
    } else if spec_get_action(
        layout,
        InputKind::Mouse(PointerButton::Primary),
        modifiers,
        terminal_mode,
    ) == BindingAction::LinkOpen {
        InputAction::BackendCall(
            BackendCommand::ProcessLink(LinkAction::Open, pre.current_mouse_position_on_grid),
        )
    } else {
        InputAction::Ignore
    }
}

/// Whether the drag flag is set after a primary-button event.
pub open spec fn spec_left_button_dragged(
    pre: TerminalViewState,
    terminal_mode: TermMode,
    pressed: bool,
) -> bool {
    if terminal_mode.spec_intersects(MODE_MOUSE_MODE) {
        pre.is_dragged
    } else {
        pressed
    }
}

/// A pointer-button event.  Only the primary button means anything;
/// with mouse reporting active it is reported, otherwise a press
/// starts a selection drag and a release either restarts a repeated
/// click's selection or follows a link binding.
pub fn process_button_click(
    state: &mut TerminalViewState,
    terminal_mode: TermMode,
    bindings_layout: &BindingsLayout,
    button: PointerButton,
    x: usize,
    y: usize,
    modifiers: Modifiers,
    pressed: bool,
    double_clicked: bool,
    triple_clicked: bool,
) -> (r: InputAction)
    ensures
        final(state).current_mouse_position_on_grid
            == old(state).current_mouse_position_on_grid,
        (match button {
            PointerButton::Primary => {
                &&& r == spec_left_button_action(
                    *old(state),
                    terminal_mode,
                    bindings_layout.layout@,
                    x,
                    y,
                    modifiers,
                    pressed,
                    double_clicked,
                    triple_clicked,
                )
                &&& final(state).is_dragged == spec_left_button_dragged(
                    *old(state),
                    terminal_mode,
                    pressed,
                )
            },
            _ => r matches InputAction::Ignore && *final(state) == *old(state),
        }),
{
    match button {
        PointerButton::Primary => {},
        _ => {
            return InputAction::Ignore;
        },
    }
    if terminal_mode.intersects(MODE_MOUSE_MODE) {
        InputAction::BackendCall(
            BackendCommand::MouseReport(
                MouseButton::LeftButton,
                modifiers,
                state.current_mouse_position_on_grid,
                pressed,
            ),
        )
    } else if pressed {
        state.is_dragged = true;
        InputAction::BackendCall(
            BackendCommand::SelectStart(click_selection_type(double_clicked, triple_clicked), x, y),
        )
    } else {
        state.is_dragged = false;
        if double_clicked || triple_clicked {
            InputAction::BackendCall(
                BackendCommand::SelectStart(
                    click_selection_type(double_clicked, triple_clicked),
                    x,
                    y,
                ),
            )
        } else {
            let action = bindings_layout.get_action(
                InputKind::Mouse(PointerButton::Primary),
                modifiers,
                terminal_mode,
            );
            match action {
                BindingAction::LinkOpen => InputAction::BackendCall(
                    BackendCommand::ProcessLink(
                        LinkAction::Open,
                        state.current_mouse_position_on_grid,
                    ),
                ),
                _ => InputAction::Ignore,
            }
        }
    }
}

fn click_selection_type(double_clicked: bool, triple_clicked: bool) -> (r: SelectionType)
    ensures
        r == spec_click_selection_type(double_clicked, triple_clicked),
{
    if double_clicked {
        SelectionType::Semantic
    } else if triple_clicked {
        SelectionType::Lines
    } else {
        SelectionType::Simple
    }
}

/// The actions a pointer movement produces: while dragging, either a
/// motion report (when the terminal wants motion events and no
/// modifier is held) or a selection update; and a hover query while
/// the command modifier is held alone.
pub open spec fn spec_mouse_move_actions(
    content: RenderableContent,
    dragged: bool,
    new_position: Point,
    x: usize,
    y: usize,
    modifiers: Modifiers,
) -> Seq<InputAction> {
    let drag_part: Seq<InputAction> = if dragged {
        if content.terminal_mode.spec_contains(MODE_MOUSE_MOTION) && modifiers.spec_is_none() {
            seq![
                InputAction::BackendCall(
                    BackendCommand::MouseReport(
                        MouseButton::LeftMove,
                        modifiers,
                        new_position,
                        true,
                    ),
                ),
            ]
        } else {
            seq![InputAction::BackendCall(BackendCommand::SelectUpdate(x, y))]
        }
    } else {
        Seq::empty()
    };
    let hover_part: Seq<InputAction> = if modifiers.spec_command_only() {
        seq![
            InputAction::BackendCall(
                BackendCommand::ProcessLink(LinkAction::Hover, new_position),
            ),
        ]
    } else {
        Seq::empty()
    };
    drag_part + hover_part
}

/// A pointer movement: track the grid cell under the pointer, then
/// derive the drag and hover actions from it.
pub fn process_mouse_move(
    state: &mut TerminalViewState,
    content: &RenderableContent,
    x: usize,
    y: usize,
    modifiers: Modifiers,
) -> (r: Vec<InputAction>)
    requires
        content.wf(),
    ensures
        final(state).is_dragged == old(state).is_dragged,
        final(state).current_mouse_position_on_grid == spec_selection_point(
            x,
            y,
            content.terminal_size,
            content.grid.display_offset,
        ),
        r@ == spec_mouse_move_actions(
            *content,
            old(state).is_dragged,
            final(state).current_mouse_position_on_grid,
            x,
            y,
            modifiers,
        ),
{
    let new_position = crate::geometry::selection_point(
        x,
        y,
        &content.terminal_size,
        content.grid.display_offset,
    );
    state.current_mouse_position_on_grid = new_position;

    let mut actions: Vec<InputAction> = Vec::new();
    if state.is_dragged {
        if content.terminal_mode.contains(MODE_MOUSE_MOTION) && modifiers.is_none() {
            actions.push(
                InputAction::BackendCall(
                    BackendCommand::MouseReport(
                        MouseButton::LeftMove,
                        modifiers,
                        new_position,
                        true,
                    ),
                ),
            );
        } else {
            actions.push(InputAction::BackendCall(BackendCommand::SelectUpdate(x, y)));
        }
    }
    if modifiers.command_only() {
        actions.push(
            InputAction::BackendCall(BackendCommand::ProcessLink(LinkAction::Hover, new_position)),
        );
    }
    assert(actions@ =~= spec_mouse_move_actions(
        *content,
        old(state).is_dragged,
        new_position,
        x,
        y,
        modifiers,
    ));
    actions
}

} // verus!
