use vstd::prelude::*;
use crate::ops::Op;
use crate::window::{Registry, WindowLabel};

verus! {

#[derive(Clone, Copy, Debug, PartialEq, Eq, Structural)]
pub enum Key {
    Escape,
    Other,
}

#[derive(Clone, Copy, Debug, PartialEq, Eq, Structural)]
pub enum KeyState {
    Pressed,
    Released,
}

/// A key combination: a key and a modifier bit set (0 is no modifier).
#[derive(Clone, Copy, Debug, PartialEq, Eq, Structural)]
pub struct Shortcut {
    pub key: Key,
    pub modifiers: u32,
}

#[derive(Clone, Copy, Debug, PartialEq, Eq, Structural)]
pub struct ShortcutEvent {
    pub shortcut: Shortcut,
    pub state: KeyState,
}

/// The one process-wide binding: Escape with no modifiers.
pub open spec fn bound() -> Shortcut {
    Shortcut { key: Key::Escape, modifiers: 0 }
}

pub fn bound_shortcut() -> (r: Shortcut)
    ensures
        r == bound(),
{
    Shortcut { key: Key::Escape, modifiers: 0 }
}

/// The accelerator text under which the binding is registered.
pub fn bound_shortcut_text() -> (r: &'static str)
    ensures
        r@ == "Esc"@,
{
    "Esc"
}

/// A window the shortcut acts on: it exists and is focused or visible.
pub open spec fn is_active(reg: Registry, label: WindowLabel) -> bool {
    reg.has(label) && (reg.state(label).focused || reg.state(label).visible)
}

/// The window a shortcut event hides: only a press of the bound combination
/// acts; the quick window is checked before the main one.
pub open spec fn shortcut_target_spec(reg: Registry, ev: ShortcutEvent) -> Option<WindowLabel> {
    if ev.state == KeyState::Pressed && ev.shortcut == bound() {
        if is_active(reg, WindowLabel::Quick) {
            Some(WindowLabel::Quick)
        } else if is_active(reg, WindowLabel::Main) {
            Some(WindowLabel::Main)
        } else {
            None
        }
    } else {
        None
    }
}

fn is_active_window(reg: &Registry, label: WindowLabel) -> (r: bool)
    ensures
        r == is_active(*reg, label),
{
    match reg.window_state(label) {
        Some(s) => s.focused || s.visible,
        None => false,
    }
}

pub fn shortcut_target(reg: &Registry, ev: ShortcutEvent) -> (r: Option<WindowLabel>)
    ensures
        r == shortcut_target_spec(*reg, ev),
{
    if ev.state != KeyState::Pressed {
        return None;
    }
    if ev.shortcut.key != Key::Escape || ev.shortcut.modifiers != 0 {
        return None;
    }
    if is_active_window(reg, WindowLabel::Quick) {
        return Some(WindowLabel::Quick);
    }
    if is_active_window(reg, WindowLabel::Main) {
        return Some(WindowLabel::Main);
    }
    None
}

/// Operations for a shortcut event: hide the target, if any.
pub open spec fn shortcut_ops(reg: Registry, ev: ShortcutEvent) -> Seq<Op> {
    match shortcut_target_spec(reg, ev) {
        Some(l) => seq![Op::Hide(l)],
        None => seq![],
    }
}

pub fn shortcut_plan(reg: &Registry, ev: ShortcutEvent) -> (r: Vec<Op>)
    ensures
        r@ == shortcut_ops(*reg, ev),
{
    let r = match shortcut_target(reg, ev) {
        Some(l) => vec![Op::Hide(l)],
        None => Vec::new(),
    };
    assert(r@ =~= shortcut_ops(*reg, ev));
    r
}

} // verus!
