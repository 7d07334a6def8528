use vstd::prelude::*;
use vstd::string::*;
use crate::window::{label_of, Registry, ShellError, WindowLabel};

verus! {

/// The live window a script-bridge call addresses, if any.
pub open spec fn eval_lookup(reg: Registry, label: Seq<char>) -> Option<WindowLabel> {
    match label_of(label) {
        Some(l) => if reg.has(l) { Some(l) } else { None },
        None => None,
    }
}

/// Resolves the window a script is to be evaluated in; an unknown or not yet
/// created label fails with `WindowNotFound`, carrying the label.
pub fn eval_target(reg: &Registry, label: &str) -> (r: Result<WindowLabel, ShellError>)
    ensures
        match eval_lookup(*reg, label@) {
            Some(l) => r == Ok::<WindowLabel, ShellError>(l),
            None => r matches Err(ShellError::WindowNotFound { label: t }) && t@ == label@,
        },
{
    match WindowLabel::parse(label) {
        Some(l) => {
            if reg.contains(l) {
                return Ok(l);
            }
        },
        None => {},
    }
    Err(ShellError::WindowNotFound { label: String::from_str(label) })
}

/// Maps the toolkit's answer to a script submission: its error message
/// becomes `EvalFailed`.
pub fn eval_outcome(submitted: Result<(), String>) -> (r: Result<(), ShellError>)
    ensures
        match submitted {
            Ok(()) => r is Ok,
            Err(m) => r matches Err(ShellError::EvalFailed { message }) && message@ == m@,
        },
{
    match submitted {
        Ok(()) => Ok(()),
        Err(message) => Err(ShellError::EvalFailed { message }),
    }
}

impl ShellError {
    /// The human-readable text reported to the hosted content.
    pub fn message(&self) -> (r: String)
        ensures
            match self {
                ShellError::WindowNotFound { label } => r@ == "webview not found: "@ + label@,
                ShellError::WindowCreateFailed { window } => r@ == "window could not be created: "@
                    + crate::window::label_text(*window),
                ShellError::EvalFailed { message } => r@ == message@,
                ShellError::ShortcutRegisterFailed => r@ == "global shortcut could not be registered"@,
                ShellError::IconLoadFailed => r@ == "tray icon could not be loaded"@,
            },
    {
        match self {
            ShellError::WindowNotFound { label } => String::from_str("webview not found: ").concat(
                label.as_str(),
            ),
            ShellError::WindowCreateFailed { window } => String::from_str(
                "window could not be created: ",
            ).concat(window.as_str()),
            ShellError::EvalFailed { message } => message.clone(),
            ShellError::ShortcutRegisterFailed => String::from_str(
                "global shortcut could not be registered",
            ),
            ShellError::IconLoadFailed => String::from_str("tray icon could not be loaded"),
        }
    }
}

} // verus!
