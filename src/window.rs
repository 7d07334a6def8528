use vstd::prelude::*;
use vstd::string::*;
use crate::text::text_equals;

verus! {

/// The two windows this shell manages.
#[derive(Clone, Copy, Debug, PartialEq, Eq, Structural)]
pub enum WindowLabel {
    Main,
    Quick,
}

/// The label string of each window.
pub open spec fn label_text(label: WindowLabel) -> Seq<char> {
    match label {
        WindowLabel::Main => seq!['m', 'a', 'i', 'n'],
        WindowLabel::Quick => seq!['q', 'u', 'i', 'c', 'k'],
    }
}

/// The window a label string names, if any.
pub open spec fn label_of(text: Seq<char>) -> Option<WindowLabel> {
    if text == label_text(WindowLabel::Main) {
        Some(WindowLabel::Main)
    } else if text == label_text(WindowLabel::Quick) {
        Some(WindowLabel::Quick)
    } else {
        None
    }
}

impl WindowLabel {
    /// The other of the two windows.
    pub open spec fn other(self) -> WindowLabel {
        match self {
            WindowLabel::Main => WindowLabel::Quick,
            WindowLabel::Quick => WindowLabel::Main,
        }
    }

    pub fn as_str(&self) -> (r: &'static str)
        ensures
            r@ == label_text(*self),
    {
        match self {
            WindowLabel::Main => {
                proof {
                    reveal_strlit("main");
                }
                let r = "main";
                assert(r@ =~= label_text(*self));
                r
            },
            WindowLabel::Quick => {
                proof {
                    reveal_strlit("quick");
                }
                let r = "quick";
                assert(r@ =~= label_text(*self));
                r
            },
        }
    }

    /// Reads a label string; `None` for any label other than the two managed ones.
    pub fn parse(text: &str) -> (r: Option<WindowLabel>)
        ensures
            r == label_of(text@),
    {
        let main = WindowLabel::Main;
        let quick = WindowLabel::Quick;
        if text_equals(text, main.as_str()) {
            Some(main)
        } else if text_equals(text, quick.as_str()) {
            Some(quick)
        } else {
            None
        }
    }
}

/// Observable flags of a live window.
#[derive(Clone, Copy, Debug, PartialEq, Eq, Structural)]
pub struct WindowState {
    pub visible: bool,
    pub focused: bool,
    pub minimized: bool,
    pub focusable: bool,
}

/// A freshly built window: hidden, unfocused, not minimized, focusable.
pub open spec fn initial_state() -> WindowState {
    WindowState { visible: false, focused: false, minimized: false, focusable: true }
}

/// A live window handle: the label and the creation it stems from.
#[derive(Clone, Copy, Debug, PartialEq, Eq, Structural)]
pub struct WindowHandle {
    pub label: WindowLabel,
    pub id: u64,
}

#[derive(Clone, Copy, Debug, PartialEq, Eq, Structural)]
pub struct Window {
    pub handle: WindowHandle,
    pub state: WindowState,
}

/// Errors of the shell core.
#[derive(Debug, PartialEq, Eq)]
pub enum ShellError {
    /// A script-bridge call named a label with no live window.
    WindowNotFound { label: String },
    /// The toolkit refused to construct a window.
    WindowCreateFailed { window: WindowLabel },
    /// Submitting a script to a window's content failed.
    EvalFailed { message: String },
    /// The global shortcut could not be registered (fatal at startup).
    ShortcutRegisterFailed,
    /// The tray icon resource could not be loaded (disables the tray only).
    IconLoadFailed,
}

/// The window registry: at most one live window per label, by construction
/// one slot per label. Windows are never removed.
#[derive(Clone, Copy, Debug)]
pub struct Registry {
    pub main: Option<Window>,
    pub quick: Option<Window>,
    /// Number of windows created so far; the id of the next one.
    pub next_id: u64,
}

pub open spec fn slot_ok(w: Option<Window>, label: WindowLabel, next_id: u64) -> bool {
    match w {
        Some(w) => w.handle.label == label && w.handle.id < next_id,
        None => true,
    }
}

impl Registry {
    pub open spec fn slot(self, label: WindowLabel) -> Option<Window> {
        match label {
            WindowLabel::Main => self.main,
            WindowLabel::Quick => self.quick,
        }
    }

    pub open spec fn has(self, label: WindowLabel) -> bool {
        self.slot(label) is Some
    }

    pub open spec fn state(self, label: WindowLabel) -> WindowState {
        self.slot(label)->0.state
    }

    pub open spec fn count(self) -> nat {
        (if self.main is Some { 1nat } else { 0nat }) + (if self.quick is Some { 1nat } else { 0nat })
    }

    pub open spec fn wf(self) -> bool {
        &&& self.next_id as nat == self.count()
        &&& slot_ok(self.main, WindowLabel::Main, self.next_id)
        &&& slot_ok(self.quick, WindowLabel::Quick, self.next_id)
        &&& (self.main is Some && self.quick is Some) ==> self.main->0.handle.id
            != self.quick->0.handle.id
    }

    pub open spec fn with_slot(self, label: WindowLabel, w: Option<Window>) -> Registry {
        match label {
            WindowLabel::Main => Registry { main: w, ..self },
            WindowLabel::Quick => Registry { quick: w, ..self },
        }
    }

    /// Replaces the flags of `label`'s window; no change when it does not exist.
    pub open spec fn with_state(self, label: WindowLabel, s: WindowState) -> Registry {
        match self.slot(label) {
            Some(w) => self.with_slot(label, Some(Window { handle: w.handle, state: s })),
            None => self,
        }
    }

    /// The window that creating `label` now would register.
    pub open spec fn created(self, label: WindowLabel) -> Window {
        Window { handle: WindowHandle { label, id: self.next_id }, state: initial_state() }
    }

    /// Get-or-create: the registry afterwards and the result, where `built`
    /// tells whether the toolkit managed to construct a missing window.
    pub open spec fn get_or_create_spec(self, label: WindowLabel, built: bool) -> (
        Registry,
        Result<WindowHandle, ShellError>,
    ) {
        match self.slot(label) {
            Some(w) => (self, Ok(w.handle)),
            None => if built {
                (
                    Registry { next_id: (self.next_id + 1) as u64, ..self.with_slot(label, Some(self.created(label))) },
                    Ok(self.created(label).handle),
                )
            } else {
                (self, Err(ShellError::WindowCreateFailed { window: label }))
            },
        }
    }

    /// The registry of a process that has created no window yet.
    pub open spec fn fresh() -> Registry {
        Registry { main: None, quick: None, next_id: 0 }
    }

    pub fn new() -> (r: Registry)
        ensures
            r == Registry::fresh(),
            r.wf(),
    {
        Registry { main: None, quick: None, next_id: 0 }
    }

    pub fn contains(&self, label: WindowLabel) -> (r: bool)
        ensures
            r == self.has(label),
    {
        match label {
            WindowLabel::Main => self.main.is_some(),
            WindowLabel::Quick => self.quick.is_some(),
        }
    }

    /// The flags of `label`'s window, if it exists.
    pub fn window_state(&self, label: WindowLabel) -> (r: Option<WindowState>)
        ensures
            r == (if self.has(label) { Some(self.state(label)) } else { None::<WindowState> }),
    {
        let w = match label {
            WindowLabel::Main => self.main,
            WindowLabel::Quick => self.quick,
        };
        match w {
            Some(w) => Some(w.state),
            None => None,
        }
    }

    /// Returns the live handle of `label`, creating the window when missing.
    /// `built` is whether the toolkit constructed the window; on failure
    /// nothing is registered.
    pub fn get_or_create(&mut self, label: WindowLabel, built: bool) -> (r: Result<
        WindowHandle,
        ShellError,
    >)
        requires
            old(self).wf(),
        ensures
            final(self).wf(),
            (*final(self), r) == old(self).get_or_create_spec(label, built),
    {
        let existing = match label {
            WindowLabel::Main => self.main,
            WindowLabel::Quick => self.quick,
        };
        match existing {
            Some(w) => Ok(w.handle),
            None => {
                if !built {
                    return Err(ShellError::WindowCreateFailed { window: label });
                }
                let handle = WindowHandle { label, id: self.next_id };
                let w = Window {
                    handle,
                    state: WindowState {
                        visible: false,
                        focused: false,
                        minimized: false,
                        focusable: true,
                    },
                };
                match label {
                    WindowLabel::Main => self.main = Some(w),
                    WindowLabel::Quick => self.quick = Some(w),
                }
                self.next_id = self.next_id + 1;
                Ok(handle)
            },
        }
    }

    /// Records the flags the toolkit reports for an existing window; no change
    /// when it does not exist.
    pub fn observe(&mut self, label: WindowLabel, s: WindowState)
        requires
            old(self).wf(),
        ensures
            final(self).wf(),
            *final(self) == old(self).with_state(label, s),
    {
        match label {
            WindowLabel::Main => {
                if let Some(w) = self.main {
                    self.main = Some(Window { handle: w.handle, state: s });
                }
            },
            WindowLabel::Quick => {
                if let Some(w) = self.quick {
                    self.quick = Some(Window { handle: w.handle, state: s });
                }
            },
        }
    }
}

} // verus!
