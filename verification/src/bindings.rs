//! The keybinding table: an exact-match lookup from input kind,
//! modifier set and terminal mode scope to an action, where later
//! registrations override earlier ones on the same key.

use vstd::prelude::*;
use crate::types::Modifiers;
use crate::mode::{TermMode, MODE_APP_CURSOR};

verus! {

/// The keys the adapter can bind.
#[derive(Clone, Copy, Debug, PartialEq, Eq, Structural)]
pub enum Key {
    ArrowDown,
    ArrowLeft,
    ArrowRight,
    ArrowUp,
    Escape,
    Tab,
    Backspace,
    Enter,
    Insert,
    Delete,
    Home,
    End,
    PageUp,
    PageDown,
    Space,
    A,
    B,
    C,
    D,
    E,
    F,
    G,
    H,
    I,
    J,
    K,
    L,
    M,
    N,
    O,
    P,
    Q,
    R,
    S,
    T,
    U,
    V,
    W,
    X,
    Y,
    Z,
    Num0,
    Num1,
    Num2,
    Num3,
    Num4,
    Num5,
    Num6,
    Num7,
    Num8,
    Num9,
}

/// A pointer button.
#[derive(Clone, Copy, Debug, PartialEq, Eq, Structural)]
pub enum PointerButton {
    Primary,
    Secondary,
    Middle,
}

/// What a binding is keyed on: a key code or a pointer button.
#[derive(Clone, Copy, Debug, PartialEq, Eq, Structural)]
pub enum InputKind {
    KeyCode(Key),
    Mouse(PointerButton),
}

/// What a triggered binding does.
#[derive(Debug, Clone)]
pub enum BindingAction {
    Copy,
    Paste,
    Char(char),
    Esc(String),
    LinkOpen,
    Ignore,
}

impl PartialEq for BindingAction {
    fn eq(&self, other: &BindingAction) -> (r: bool) {
        match (self, other) {
            (BindingAction::Copy, BindingAction::Copy) => true,
            (BindingAction::Paste, BindingAction::Paste) => true,
            (BindingAction::Char(a), BindingAction::Char(b)) => a == b,
            (BindingAction::Esc(a), BindingAction::Esc(b)) => a.eq(b),
            (BindingAction::LinkOpen, BindingAction::LinkOpen) => true,
            (BindingAction::Ignore, BindingAction::Ignore) => true,
            _ => false,
        }
    }
}

impl vstd::std_specs::cmp::PartialEqSpecImpl for BindingAction {
    open spec fn obeys_eq_spec() -> bool {
        true
    }

    open spec fn eq_spec(&self, other: &BindingAction) -> bool {
        match (self, other) {
            (BindingAction::Copy, BindingAction::Copy) => true,
            (BindingAction::Paste, BindingAction::Paste) => true,
            (BindingAction::Char(a), BindingAction::Char(b)) => a == b,
            (BindingAction::Esc(a), BindingAction::Esc(b)) => a@ == b@,
            (BindingAction::LinkOpen, BindingAction::LinkOpen) => true,
            (BindingAction::Ignore, BindingAction::Ignore) => true,
            _ => false,
        }
    }
}

impl BindingAction {
    /// An owned copy of the action, equal to this one.
    pub fn duplicate(&self) -> (r: BindingAction)
        ensures
            r == *self,
    {
        match self {
            BindingAction::Copy => BindingAction::Copy,
            BindingAction::Paste => BindingAction::Paste,
            BindingAction::Char(c) => BindingAction::Char(*c),
            BindingAction::Esc(s) => BindingAction::Esc(s.clone()),
            BindingAction::LinkOpen => BindingAction::LinkOpen,
            BindingAction::Ignore => BindingAction::Ignore,
        }
    }
}

/// One binding: the input it is keyed on, the exact modifier set, and
/// the terminal mode scope it applies in.
#[derive(Clone, Copy, Debug, PartialEq, Eq, Structural)]
pub struct Binding {
    pub target: InputKind,
    pub modifiers: Modifiers,
    /// Mode flags that must all be active for the binding to apply.
    pub terminal_mode_include: u32,
    /// Mode flags none of which may be active.
    pub terminal_mode_exclude: u32,
}

/// A keyboard binding, before it is paired with its action.
pub type KeyboardBinding = Binding;

impl Binding {
    /// Exact-match trigger check: the kind and the whole modifier set
    /// must match, every included mode flag must be on and every
    /// excluded one off.
    pub open spec fn spec_triggered(
        self,
        kind: InputKind,
        modifiers: Modifiers,
        mode: TermMode,
    ) -> bool {
        &&& self.target == kind
        &&& self.modifiers == modifiers
        &&& mode.spec_contains(self.terminal_mode_include)
        &&& mode.bits & self.terminal_mode_exclude == 0
    }

    pub fn is_triggered_by(&self, kind: InputKind, modifiers: Modifiers, mode: TermMode) -> (r:
        bool)
        ensures
            r == self.spec_triggered(kind, modifiers, mode),
    {
        self.target == kind && self.modifiers == modifiers && mode.contains(
            self.terminal_mode_include,
        ) && mode.bits & self.terminal_mode_exclude == 0
    }
}

/// The action of the last registered binding triggered by the input,
/// or `Ignore` when none is.
pub open spec fn spec_get_action(
    entries: Seq<(Binding, BindingAction)>,
    kind: InputKind,
    modifiers: Modifiers,
    mode: TermMode,
) -> BindingAction
    decreases entries.len(),
{
    if entries.len() == 0 {
        BindingAction::Ignore
    } else if entries.last().0.spec_triggered(kind, modifiers, mode) {
        entries.last().1
    } else {
        spec_get_action(entries.drop_last(), kind, modifiers, mode)
    }
}

/// The index of the first entry keyed on exactly the given binding,
/// or the length when there is none.
pub open spec fn spec_find_binding(entries: Seq<(Binding, BindingAction)>, b: Binding) -> int
    decreases entries.len(),
{
    if entries.len() == 0 {
        0int
    } else if entries.first().0 == b {
        0int
    } else {
        1 + spec_find_binding(entries.drop_first(), b)
    }
}

/// One registration: an entry sharing the exact key of an existing
/// one replaces its action in place, anything else appends.
pub open spec fn spec_add_binding(
    entries: Seq<(Binding, BindingAction)>,
    b: Binding,
    action: BindingAction,
) -> Seq<(Binding, BindingAction)> {
    let i = spec_find_binding(entries, b);
    if i < entries.len() {
        entries.update(i, (b, action))
    } else {
        entries.push((b, action))
    }
}

/// All registrations of a batch applied in order.
pub open spec fn spec_add_bindings(
    entries: Seq<(Binding, BindingAction)>,
    batch: Seq<(Binding, BindingAction)>,
) -> Seq<(Binding, BindingAction)>
    decreases batch.len(),
{
    if batch.len() == 0 {
        entries
    } else {
        spec_add_bindings(
            spec_add_binding(entries, batch.first().0, batch.first().1),
            batch.drop_first(),
        )
    }
}

/// The keybinding table.
#[derive(Debug, Clone)]
pub struct BindingsLayout {
    pub layout: Vec<(Binding, BindingAction)>,
}

impl BindingsLayout {
    /// The table with the default bindings registered.
    pub fn new() -> (r: BindingsLayout) {
        let mut layout = BindingsLayout { layout: Vec::new() };
        let defaults = default_bindings();
        layout.add_bindings(defaults);
        layout
    }

    /// Register a batch of bindings, later entries overriding
    /// earlier ones keyed on the same binding.
    pub fn add_bindings(&mut self, bindings: Vec<(Binding, BindingAction)>)
        ensures
            final(self).layout@ == spec_add_bindings(old(self).layout@, bindings@),
    {
        let n = bindings.len();
        let mut i: usize = 0;
        assert(bindings@.skip(0) =~= bindings@);
        while i < n
            invariant
                n == bindings@.len(),
                i <= n,
                spec_add_bindings(old(self).layout@, bindings@) == spec_add_bindings(
                    self.layout@,
                    bindings@.skip(i as int),
                ),
            decreases n - i,
        {
            let ghost pre = self.layout@;
            let (binding, action) = (bindings[i].0, bindings[i].1.duplicate());
            self.add_binding(binding, action);
            i = i + 1;
            proof {
                assert(bindings@.skip(i - 1).first() == bindings@[i - 1]);
                assert(bindings@.skip(i - 1).drop_first() =~= bindings@.skip(i as int));
            }
        }
        proof {
            assert(spec_add_bindings(self.layout@, bindings@.skip(n as int)) == self.layout@);
        }
    }

    fn add_binding(&mut self, binding: Binding, action: BindingAction)
        ensures
            final(self).layout@ == spec_add_binding(old(self).layout@, binding, action),
    {
        let n = self.layout.len();
        let mut i: usize = 0;
        assert(self.layout@.skip(0) =~= self.layout@);
        while i < n
            invariant
                n == self.layout@.len(),
                i <= n,
                self.layout@ == old(self).layout@,
                forall|j: int| 0 <= j < i ==> (#[trigger] self.layout@[j]).0 != binding,
                spec_find_binding(self.layout@.skip(i as int), binding) + i == spec_find_binding(
                    self.layout@,
                    binding,
                ),
            decreases n - i,
        {
            if self.layout[i].0 == binding {
                proof {
                    assert(self.layout@.skip(i as int).first() == self.layout@[i as int]);
                    assert(spec_find_binding(self.layout@, binding) == i);
                }
                self.layout.set(i, (binding, action));
                return ;
            }
            i = i + 1;
            proof {
                assert(self.layout@.skip(i - 1).first() == self.layout@[i - 1]);
                assert(self.layout@.skip(i - 1).drop_first() =~= self.layout@.skip(i as int));
            }
        }
        proof {
            assert(spec_find_binding(self.layout@, binding) == n);
        }
        self.layout.push((binding, action));
    }

    /// Look up the action bound to an input under the given modifier
    /// set and terminal mode.
    pub fn get_action(&self, input: InputKind, modifiers: Modifiers, terminal_mode: TermMode) -> (r:
        BindingAction)
        ensures
            r == spec_get_action(self.layout@, input, modifiers, terminal_mode),
    {
        let mut i: usize = self.layout.len();
        assert(self.layout@.take(self.layout@.len() as int) =~= self.layout@);
        while i > 0
            invariant
                i <= self.layout@.len(),
                spec_get_action(self.layout@, input, modifiers, terminal_mode) == spec_get_action(
                    self.layout@.take(i as int),
                    input,
                    modifiers,
                    terminal_mode,
                ),
            decreases i,
        {
            i = i - 1;
            let entry = &self.layout[i];
            proof {
                assert(self.layout@.take(i + 1).last() == self.layout@[i as int]);
                assert(self.layout@.take(i + 1).drop_last() =~= self.layout@.take(i as int));
            }
            if entry.0.is_triggered_by(input, modifiers, terminal_mode) {
                return entry.1.duplicate();
            }
        }
        BindingAction::Ignore
    }
}

fn key_binding(key: Key, modifiers: Modifiers, mode_on: u32, mode_off: u32) -> (r: Binding)
    ensures
        r == (Binding {
            target: InputKind::KeyCode(key),
            modifiers,
            terminal_mode_include: mode_on,
            terminal_mode_exclude: mode_off,
        }),
{
    Binding {
        target: InputKind::KeyCode(key),
        modifiers,
        terminal_mode_include: mode_on,
        terminal_mode_exclude: mode_off,
    }
}

/// The default table: the editing and navigation keys every terminal
/// expects, with application-cursor variants of the cursor keys, and
/// hyperlink opening on command-click.
fn default_bindings() -> Vec<(Binding, BindingAction)> {
    let none = Modifiers::none();
    let command_only = Modifiers { shift: false, ctrl: false, alt: false, command: true };
    let mut v: Vec<(Binding, BindingAction)> = Vec::new();
    v.push((key_binding(Key::Escape, none, 0, 0), BindingAction::Esc(String::from_str("\x1b"))));
    v.push((key_binding(Key::Tab, none, 0, 0), BindingAction::Esc(String::from_str("\t"))));
    v.push((
        key_binding(Key::Backspace, none, 0, 0),
        BindingAction::Esc(String::from_str("\x7f")),
    ));
    v.push((key_binding(Key::Enter, none, 0, 0), BindingAction::Esc(String::from_str("\r"))));
    v.push((
        key_binding(Key::Insert, none, 0, 0),
        BindingAction::Esc(String::from_str("\x1b[2~")),
    ));
    v.push((
        key_binding(Key::Delete, none, 0, 0),
        BindingAction::Esc(String::from_str("\x1b[3~")),
    ));
    v.push((
        key_binding(Key::PageUp, none, 0, 0),
        BindingAction::Esc(String::from_str("\x1b[5~")),
    ));
    v.push((
        key_binding(Key::PageDown, none, 0, 0),
        BindingAction::Esc(String::from_str("\x1b[6~")),
    ));
    v.push((
        key_binding(Key::Home, none, 0, MODE_APP_CURSOR),
        BindingAction::Esc(String::from_str("\x1b[H")),
    ));
    v.push((
        key_binding(Key::Home, none, MODE_APP_CURSOR, 0),
        BindingAction::Esc(String::from_str("\x1bOH")),
    ));
    v.push((
        key_binding(Key::End, none, 0, MODE_APP_CURSOR),
        BindingAction::Esc(String::from_str("\x1b[F")),
    ));
    v.push((
        key_binding(Key::End, none, MODE_APP_CURSOR, 0),
        BindingAction::Esc(String::from_str("\x1bOF")),
    ));
    v.push((
        key_binding(Key::ArrowUp, none, 0, MODE_APP_CURSOR),
        BindingAction::Esc(String::from_str("\x1b[A")),
    ));
    v.push((
        key_binding(Key::ArrowUp, none, MODE_APP_CURSOR, 0),
        BindingAction::Esc(String::from_str("\x1bOA")),
    ));
    v.push((
        key_binding(Key::ArrowDown, none, 0, MODE_APP_CURSOR),
        BindingAction::Esc(String::from_str("\x1b[B")),
    ));
    v.push((
        key_binding(Key::ArrowDown, none, MODE_APP_CURSOR, 0),
        BindingAction::Esc(String::from_str("\x1bOB")),
    ));
    v.push((
        key_binding(Key::ArrowRight, none, 0, MODE_APP_CURSOR),
        BindingAction::Esc(String::from_str("\x1b[C")),
    ));
    v.push((
        key_binding(Key::ArrowRight, none, MODE_APP_CURSOR, 0),
        BindingAction::Esc(String::from_str("\x1bOC")),
    ));
    v.push((
        key_binding(Key::ArrowLeft, none, 0, MODE_APP_CURSOR),
        BindingAction::Esc(String::from_str("\x1b[D")),
    ));
    v.push((
        key_binding(Key::ArrowLeft, none, MODE_APP_CURSOR, 0),
        BindingAction::Esc(String::from_str("\x1bOD")),
    ));
    v.push((
        (Binding {
            target: InputKind::Mouse(PointerButton::Primary),
            modifiers: command_only,
            terminal_mode_include: 0,
            terminal_mode_exclude: 0,
        }),
        BindingAction::LinkOpen,
    ));
    v
}

} // verus!
