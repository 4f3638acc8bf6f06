//! Terminal mouse-reporting protocol encoding.
//!
//! A mouse event is reported to the application in the terminal either
//! in the SGR extended protocol (coordinates as decimal text) or in
//! the legacy protocol (coordinates as single bytes, with an optional
//! two-byte UTF-8-style extension).

use vstd::prelude::*;
use crate::types::{Point, Modifiers};
use crate::mode::{TermMode, MODE_SGR_MOUSE, MODE_UTF8_MOUSE};

verus! {

/// The button identity carried by a mouse report.
#[derive(Clone, Copy, Debug, PartialEq, Eq, Structural)]
pub enum MouseButton {
    LeftButton,
    MiddleButton,
    RightButton,
    LeftMove,
    MiddleMove,
    RightMove,
    NoneMove,
    ScrollUp,
    ScrollDown,
    Other,
}

impl MouseButton {
    /// The protocol code of the button: 0 to 2 for presses, 32 and up
    /// for motion variants, 64 and 65 for the wheel.
    pub open spec fn spec_code(self) -> u8 {
        match self {
            MouseButton::LeftButton => 0,
            MouseButton::MiddleButton => 1,
            MouseButton::RightButton => 2,
            MouseButton::LeftMove => 32,
            MouseButton::MiddleMove => 33,
            MouseButton::RightMove => 34,
            MouseButton::NoneMove => 35,
            MouseButton::ScrollUp => 64,
            MouseButton::ScrollDown => 65,
            MouseButton::Other => 99,
        }
    }

    pub fn code(&self) -> (r: u8)
        ensures
            r == self.spec_code(),
    {
        match self {
            MouseButton::LeftButton => 0,
            MouseButton::MiddleButton => 1,
            MouseButton::RightButton => 2,
            MouseButton::LeftMove => 32,
            MouseButton::MiddleMove => 33,
            MouseButton::RightMove => 34,
            MouseButton::NoneMove => 35,
            MouseButton::ScrollUp => 64,
            MouseButton::ScrollDown => 65,
            MouseButton::Other => 99,
        }
    }
}

/// Which mouse protocol the terminal has negotiated.  The boolean of
/// `Normal` says whether the UTF-8 coordinate extension is active.
#[derive(Clone, Copy, Debug, PartialEq, Eq, Structural)]
pub enum MouseMode {
    Sgr,
    Normal(bool),
}

impl MouseMode {
    pub open spec fn spec_from_mode(mode: TermMode) -> MouseMode {
        if mode.spec_contains(MODE_SGR_MOUSE) {
            MouseMode::Sgr
        } else if mode.spec_contains(MODE_UTF8_MOUSE) {
            MouseMode::Normal(true)
        } else {
            MouseMode::Normal(false)
        }
    }
}

impl From<TermMode> for MouseMode {
    /// SGR is preferred when negotiated; otherwise the legacy
    /// protocol, with the UTF-8 extension when that flag is set.
    fn from(term_mode: TermMode) -> (r: MouseMode)
        ensures
            r == MouseMode::spec_from_mode(term_mode),
    {
        if term_mode.contains(MODE_SGR_MOUSE) {
            MouseMode::Sgr
        } else if term_mode.contains(MODE_UTF8_MOUSE) {
            MouseMode::Normal(true)
        } else {
            MouseMode::Normal(false)
        }
    }
}

impl vstd::std_specs::convert::FromSpecImpl<TermMode> for MouseMode {
    open spec fn obeys_from_spec() -> bool {
        true
    }

    open spec fn from_spec(term_mode: TermMode) -> MouseMode {
        MouseMode::spec_from_mode(term_mode)
    }
}

/// The modifier summand added to a button code: shift 4, alt 8,
/// command 16.
pub open spec fn spec_modifier_code(modifiers: Modifiers) -> u8 {
    ((if modifiers.shift {
        4int
    } else {
        0int
    }) + (if modifiers.alt {
        8int
    } else {
        0int
    }) + (if modifiers.command {
        16int
    } else {
        0int
    })) as u8
}

pub fn modifier_code(modifiers: &Modifiers) -> (r: u8)
    ensures
        r == spec_modifier_code(*modifiers),
{
    let mut mods: u8 = 0;
    if modifiers.shift {
        mods = mods + 4;
    }
    if modifiers.alt {
        mods = mods + 8;
    }
    if modifiers.command {
        mods = mods + 16;
    }
    mods
}

/// The decimal digits of a nonnegative number, most significant first.
pub open spec fn spec_decimal(n: nat) -> Seq<u8>
    decreases n,
{
    if n < 10 {
        seq![(0x30 + n) as u8]
    } else {
        spec_decimal(n / 10).push((0x30 + n % 10) as u8)
    }
}

/// The decimal digits of a possibly negative number, with a leading
/// minus sign when it is negative.
pub open spec fn spec_decimal_signed(n: int) -> Seq<u8> {
    if n < 0 {
        seq![0x2du8] + spec_decimal((-n) as nat)
    } else {
        spec_decimal(n as nat)
    }
}

/// Append the decimal digits of `n` to `out`.
pub fn push_decimal(out: &mut Vec<u8>, n: u64)
    ensures
        final(out)@ == old(out)@ + spec_decimal(n as nat),
    decreases n,
{
    if n < 10 {
        out.push(0x30 + n as u8);
        assert(final(out)@ =~= old(out)@ + spec_decimal(n as nat));
    } else {
        push_decimal(out, n / 10);
        out.push(0x30 + (n % 10) as u8);
        assert(final(out)@ =~= old(out)@ + spec_decimal(n as nat));
    }
}

/// Append the decimal digits of `n`, sign included, to `out`.
pub fn push_decimal_signed(out: &mut Vec<u8>, n: i64)
    requires
        n > i64::MIN,
    ensures
        final(out)@ == old(out)@ + spec_decimal_signed(n as int),
{
    if n < 0 {
        out.push(0x2d);
        push_decimal(out, (-n) as u64);
        assert(final(out)@ =~= old(out)@ + spec_decimal_signed(n as int));
    } else {
        push_decimal(out, n as u64);
    }
}

/// The bytes of an SGR mouse report: `ESC [ <` then the button code,
/// the one-based column and the one-based line as decimal text,
/// separated by `;`, ended by `M` for a press and `m` for a release.
pub open spec fn spec_sgr_mouse_report(
    point: Point,
    button: u8,
    pressed: bool,
) -> Seq<u8> {
    seq![0x1bu8, 0x5bu8, 0x3cu8] + spec_decimal(button as nat) + seq![0x3bu8] + spec_decimal(
        (point.column + 1) as nat,
    ) + seq![0x3bu8] + spec_decimal_signed(point.line + 1) + seq![
        if pressed {
            0x4du8
        } else {
            0x6du8
        },
    ]
}

pub fn sgr_mouse_report(point: Point, button: u8, pressed: bool) -> (r: Vec<u8>)
    requires
        point.column < usize::MAX,
        point.line < i32::MAX,
    ensures
        r@ == spec_sgr_mouse_report(point, button, pressed),
{
    let mut msg: Vec<u8> = Vec::new();
    msg.push(0x1b);
    msg.push(0x5b);
    msg.push(0x3c);
    push_decimal(&mut msg, button as u64);
    msg.push(0x3b);
    push_decimal(&mut msg, (point.column + 1) as u64);
    msg.push(0x3b);
    push_decimal_signed(&mut msg, point.line as i64 + 1);
    msg.push(if pressed {
        0x4d
    } else {
        0x6d
    });
    assert(msg@ =~= spec_sgr_mouse_report(point, button, pressed));
    msg
}

/// Encoding a press and a release of the same button at the same point
/// in the SGR protocol yields byte sequences of equal length that
/// agree everywhere but in the final byte: `M` for the press, `m` for
/// the release.
pub proof fn lemma_sgr_press_release_roundtrip(point: Point, button: u8)
    ensures
        spec_sgr_mouse_report(point, button, true).len() == spec_sgr_mouse_report(
            point,
            button,
            false,
        ).len(),
        spec_sgr_mouse_report(point, button, true).drop_last() =~= spec_sgr_mouse_report(
            point,
            button,
            false,
        ).drop_last(),
        spec_sgr_mouse_report(point, button, true).last() == 0x4du8,
        spec_sgr_mouse_report(point, button, false).last() == 0x6du8,
{
    let prefix = seq![0x1bu8, 0x5bu8, 0x3cu8] + spec_decimal(button as nat) + seq![0x3bu8]
        + spec_decimal((point.column + 1) as nat) + seq![0x3bu8] + spec_decimal_signed(
        point.line + 1,
    );
    assert(spec_sgr_mouse_report(point, button, true) =~= prefix.push(0x4du8));
    assert(spec_sgr_mouse_report(point, button, false) =~= prefix.push(0x6du8));
    assert(prefix.push(0x4du8).drop_last() =~= prefix);
    assert(prefix.push(0x6du8).drop_last() =~= prefix);
}

/// The largest coordinate the legacy protocol can carry: 2015 with the
/// UTF-8 extension, 223 without.
pub open spec fn spec_legacy_max(is_utf8: bool) -> int {
    if is_utf8 {
        2015int
    } else {
        223int
    }
}

/// The two-byte UTF-8-style encoding of a large legacy coordinate.
pub open spec fn spec_mouse_pos_encode(pos: int) -> Seq<u8> {
    seq![(0xc0 + (32 + 1 + pos) / 64) as u8, (0x80 + (32 + 1 + pos) % 64) as u8]
}

/// One legacy coordinate: a single byte `32 + 1 + pos`, or the
/// two-byte extension for `pos >= 95` when UTF-8 mouse mode is active.
pub open spec fn spec_legacy_coord(pos: int, is_utf8: bool) -> Seq<u8> {
    if is_utf8 && pos >= 95 {
        spec_mouse_pos_encode(pos)
    } else {
        seq![(32 + 1 + pos) as u8]
    }
}

/// The bytes of a legacy mouse report, or `None` when either
/// coordinate meets or exceeds the protocol maximum: an out-of-range
/// event is suppressed rather than encoded malformed.
pub open spec fn spec_normal_mouse_report(
    point: Point,
    button: u8,
    is_utf8: bool,
) -> Option<Seq<u8>> {
    if point.line >= spec_legacy_max(is_utf8) || point.column >= spec_legacy_max(is_utf8) {
        None
    } else {
        Some(
            seq![0x1bu8, 0x5bu8, 0x4du8, (32 + button) as u8] + spec_legacy_coord(
                point.column as int,
                is_utf8,
            ) + spec_legacy_coord(point.line as int, is_utf8),
        )
    }
}

pub fn normal_mouse_report(point: Point, button: u8, is_utf8: bool) -> (r: Option<Vec<u8>>)
    requires
        point.line >= 0,
        button <= 223,
    ensures
        match r {
            Some(bytes) => Some(bytes@) == spec_normal_mouse_report(point, button, is_utf8),
            None => spec_normal_mouse_report(point, button, is_utf8) is None,
        },
        r is None <==> point.line >= spec_legacy_max(is_utf8) || point.column >= spec_legacy_max(
            is_utf8,
        ),
{
    let max_point: i64 = if is_utf8 {
        2015
    } else {
        223
    };

    if point.line as i64 >= max_point || point.column as u64 >= max_point as u64 {
        return None;
    }

    let mut msg: Vec<u8> = Vec::new();
    msg.push(0x1b);
    msg.push(0x5b);
    msg.push(0x4d);
    msg.push(32 + button);

    push_legacy_coord(&mut msg, point.column as u64, is_utf8);
    push_legacy_coord(&mut msg, point.line as u64, is_utf8);

    assert(msg@ =~= spec_normal_mouse_report(point, button, is_utf8).unwrap());
    Some(msg)
}

/// Append one legacy coordinate to `out`.
fn push_legacy_coord(out: &mut Vec<u8>, pos: u64, is_utf8: bool)
    requires
        pos < spec_legacy_max(is_utf8),
    ensures
        final(out)@ == old(out)@ + spec_legacy_coord(pos as int, is_utf8),
{
    if is_utf8 && pos >= 95 {
        let encoded: u64 = 32 + 1 + pos;
        out.push((0xc0 + encoded / 64) as u8);
        out.push((0x80 + encoded % 64) as u8);
        assert(final(out)@ =~= old(out)@ + spec_legacy_coord(pos as int, is_utf8));
    } else {
        out.push((32 + 1 + pos) as u8);
        assert(final(out)@ =~= old(out)@ + spec_legacy_coord(pos as int, is_utf8));
    }
}

} // verus!
