use vstd::prelude::*;
use crate::window::{Registry, Window, WindowLabel, WindowState};

verus! {

/// Urgency of a user-attention request (taskbar or dock flash).
#[derive(Clone, Copy, Debug, PartialEq, Eq, Structural)]
pub enum Attention {
    Informational,
    Critical,
}

/// Named notifications delivered to a window's content.
#[derive(Clone, Copy, Debug, PartialEq, Eq, Structural)]
pub enum Notice {
    OpenSettings,
}

impl Notice {
    pub fn name(&self) -> (r: &'static str)
        ensures
            r@ == "open-settings"@,
    {
        "open-settings"
    }
}

/// One operation for the host toolkit to perform. All but `Create` and
/// `Exit` are best-effort: their failure is ignored.
#[derive(Clone, Copy, Debug, PartialEq, Eq, Structural)]
pub enum Op {
    Create(WindowLabel),
    Unminimize(WindowLabel),
    Show(WindowLabel),
    Focus(WindowLabel),
    Hide(WindowLabel),
    SetFocusable(WindowLabel),
    RequestAttention(WindowLabel, Attention),
    Emit(WindowLabel, Notice),
    /// Wait this many milliseconds before the next operation.
    Sleep(u64),
    /// Terminate the process with this exit code.
    Exit(i32),
}

/// The effect of one operation on the registry. `built` is whether the
/// toolkit managed a `Create`. Operations on a missing window do nothing;
/// focusing a focusable window takes the focus from the other one.
pub open spec fn step(reg: Registry, op: Op, built: bool) -> Registry {
    match op {
        Op::Create(l) => reg.get_or_create_spec(l, built).0,
        Op::Unminimize(l) => {
            let s = reg.state(l);
            reg.with_state(l, WindowState { minimized: false, ..s })
        },
        Op::Show(l) => {
            let s = reg.state(l);
            reg.with_state(l, WindowState { visible: true, ..s })
        },
        Op::Hide(l) => {
            let s = reg.state(l);
            reg.with_state(l, WindowState { visible: false, focused: false, ..s })
        },
        Op::SetFocusable(l) => {
            let s = reg.state(l);
            reg.with_state(l, WindowState { focusable: true, ..s })
        },
        Op::Focus(l) => {
            if reg.has(l) && reg.state(l).focusable {
                let s = reg.state(l);
                let o = reg.state(l.other());
                reg.with_state(l, WindowState { focused: true, ..s }).with_state(
                    l.other(),
                    WindowState { focused: false, ..o },
                )
            } else {
                reg
            }
        },
        _ => reg,
    }
}

/// The effect of a sequence of operations, in order.
pub open spec fn run(reg: Registry, ops: Seq<Op>, built: bool) -> Registry
    decreases ops.len(),
{
    if ops.len() == 0 {
        reg
    } else {
        step(run(reg, ops.drop_last(), built), ops.last(), built)
    }
}

/// How many times `op` occurs in `ops`.
pub open spec fn occurrences(ops: Seq<Op>, op: Op) -> nat
    decreases ops.len(),
{
    if ops.len() == 0 {
        0
    } else {
        occurrences(ops.drop_last(), op) + if ops.last() == op { 1nat } else { 0nat }
    }
}

pub proof fn lemma_step_wf(reg: Registry, op: Op, built: bool)
    requires
        reg.wf(),
    ensures
        step(reg, op, built).wf(),
{
}

impl Registry {
    fn set_state(&mut self, label: WindowLabel, s: WindowState)
        ensures
            *final(self) == old(self).with_state(label, s),
    {
        match label {
            WindowLabel::Main => {
                if let Some(w) = self.main {
                    self.main = Some(Window { handle: w.handle, state: s });
                }
            },
            WindowLabel::Quick => {
                if let Some(w) = self.quick {
                    self.quick = Some(Window { handle: w.handle, state: s });
                }
            },
        }
    }

    /// Records the effect of an operation the toolkit was asked to perform.
    pub fn apply(&mut self, op: Op, built: bool)
        requires
            old(self).wf(),
        ensures
            final(self).wf(),
            *final(self) == step(*old(self), op, built),
    {
        proof {
            lemma_step_wf(*self, op, built);
        }
        match op {
            Op::Create(l) => {
                let _ = self.get_or_create(l, built);
            },
            Op::Unminimize(l) => {
                if let Some(s) = self.window_state(l) {
                    self.set_state(l, WindowState { minimized: false, ..s });
                }
            },
            Op::Show(l) => {
                if let Some(s) = self.window_state(l) {
                    self.set_state(l, WindowState { visible: true, ..s });
                }
            },
            Op::Hide(l) => {
                if let Some(s) = self.window_state(l) {
                    self.set_state(l, WindowState { visible: false, focused: false, ..s });
                }
            },
            Op::SetFocusable(l) => {
                if let Some(s) = self.window_state(l) {
                    self.set_state(l, WindowState { focusable: true, ..s });
                }
            },
            Op::Focus(l) => {
                if let Some(s) = self.window_state(l) {
                    if s.focusable {
                        let other = match l {
                            WindowLabel::Main => WindowLabel::Quick,
                            WindowLabel::Quick => WindowLabel::Main,
                        };
                        self.set_state(l, WindowState { focused: true, ..s });
                        if let Some(o) = self.window_state(other) {
                            self.set_state(other, WindowState { focused: false, ..o });
                        }
                    }
                }
            },
            _ => {},
        }
    }

    /// Records the effect of a sequence of operations, in order.
    pub fn apply_all(&mut self, ops: &Vec<Op>, built: bool)
        requires
            old(self).wf(),
        ensures
            final(self).wf(),
            *final(self) == run(*old(self), ops@, built),
    {
        let ghost start = *self;
        let mut i: usize = 0;
        while i < ops.len()
            invariant
                i <= ops@.len(),
                self.wf(),
                *self == run(start, ops@.take(i as int), built),
            decreases ops@.len() - i,
        {
            assert(ops@.take(i + 1).drop_last() =~= ops@.take(i as int));
            self.apply(ops[i], built);
            i = i + 1;
        }
        assert(ops@.take(i as int) =~= ops@);
    }
}

} // verus!
