use vstd::prelude::*;
use crate::window::WindowLabel;

verus! {

/// Fixed construction settings of a window; sizes are logical pixels.
#[derive(Clone, Copy, Debug, PartialEq, Eq)]
pub struct WindowConfig {
    pub label: WindowLabel,
    pub title: &'static str,
    /// Route of the hosted content the window loads.
    pub route: &'static str,
    pub width: u32,
    pub height: u32,
    pub centered: bool,
    pub resizable: bool,
    pub decorations: bool,
    pub always_on_top: bool,
    pub shadow: bool,
    pub skip_taskbar: bool,
    pub transparent: bool,
    pub visible: bool,
}

/// The main window: decorated, resizable, default-positioned, 980x720, hidden.
pub fn main_window_config() -> (r: WindowConfig)
    ensures
        r.label == WindowLabel::Main,
        r.title@ == "AI Aggregation"@,
        r.route@ == "index.html"@,
        r.width == 980,
        r.height == 720,
        !r.centered,
        r.resizable,
        r.decorations,
        !r.always_on_top,
        r.shadow,
        !r.skip_taskbar,
        !r.transparent,
        !r.visible,
{
    WindowConfig {
        label: WindowLabel::Main,
        title: "AI Aggregation",
        route: "index.html",
        width: 980,
        height: 720,
        centered: false,
        resizable: true,
        decorations: true,
        always_on_top: false,
        shadow: true,
        skip_taskbar: false,
        transparent: false,
        visible: false,
    }
}

/// The quick overlay: borderless, fixed 720x154, centered, always on top,
/// off the taskbar, hidden, and transparent where the platform supports it.
pub fn quick_window_config(transparency_supported: bool) -> (r: WindowConfig)
    ensures
        r.label == WindowLabel::Quick,
        r.title@ == "Quick Prompt"@,
        r.route@ == "index.html#/quick"@,
        r.width == 720,
        r.height == 154,
        r.centered,
        !r.resizable,
        !r.decorations,
        r.always_on_top,
        r.shadow,
        r.skip_taskbar,
        r.transparent == transparency_supported,
        !r.visible,
{
    WindowConfig {
        label: WindowLabel::Quick,
        title: "Quick Prompt",
        route: "index.html#/quick",
        width: 720,
        height: 154,
        centered: true,
        resizable: false,
        decorations: false,
        always_on_top: true,
        shadow: true,
        skip_taskbar: true,
        transparent: transparency_supported,
        visible: false,
    }
}

/// The one creation routine of each label.
pub fn config_for(label: WindowLabel, transparency_supported: bool) -> (r: WindowConfig)
    ensures
        r.label == label,
        r.width == (if label is Main { 980u32 } else { 720u32 }),
        r.height == (if label is Main { 720u32 } else { 154u32 }),
        r.resizable == label is Main,
        r.decorations == label is Main,
        r.always_on_top == label is Quick,
        r.skip_taskbar == label is Quick,
        r.centered == label is Quick,
        r.transparent == (label is Quick && transparency_supported),
        !r.visible,
{
    match label {
        WindowLabel::Main => main_window_config(),
        WindowLabel::Quick => quick_window_config(transparency_supported),
    }
}

} // verus!
