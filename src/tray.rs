use vstd::prelude::*;
use crate::controller::{show_main_ops, show_main_plan};
use crate::ops::{Notice, Op};
use crate::text::text_equals;
use crate::window::{Registry, WindowLabel};

verus! {

/// The two fixed items of the tray menu.
#[derive(Clone, Copy, Debug, PartialEq, Eq, Structural)]
pub enum MenuItem {
    Settings,
    Quit,
}

pub open spec fn menu_id_text(item: MenuItem) -> Seq<char> {
    match item {
        MenuItem::Settings => "settings"@,
        MenuItem::Quit => "quit"@,
    }
}

/// The menu item an event id names, if any.
pub open spec fn menu_item_of(id: Seq<char>) -> Option<MenuItem> {
    if id == menu_id_text(MenuItem::Settings) {
        Some(MenuItem::Settings)
    } else if id == menu_id_text(MenuItem::Quit) {
        Some(MenuItem::Quit)
    } else {
        None
    }
}

impl MenuItem {
    pub fn id(&self) -> (r: &'static str)
        ensures
            r@ == menu_id_text(*self),
    {
        match self {
            MenuItem::Settings => "settings",
            MenuItem::Quit => "quit",
        }
    }

    pub fn parse(id: &str) -> (r: Option<MenuItem>)
        ensures
            r == menu_item_of(id@),
    {
        if text_equals(id, MenuItem::Settings.id()) {
            Some(MenuItem::Settings)
        } else if text_equals(id, MenuItem::Quit.id()) {
            Some(MenuItem::Quit)
        } else {
            None
        }
    }
}

/// The menu's items, in display order.
pub fn tray_menu_items() -> (r: Vec<MenuItem>)
    ensures
        r@ == seq![MenuItem::Settings, MenuItem::Quit],
{
    let r = vec![MenuItem::Settings, MenuItem::Quit];
    assert(r@ =~= seq![MenuItem::Settings, MenuItem::Quit]);
    r
}

/// Opening the settings: reveal the main window, then notify its content.
pub open spec fn open_settings_ops(reg: Registry) -> Seq<Op> {
    show_main_ops(reg).push(Op::Emit(WindowLabel::Main, Notice::OpenSettings))
}

/// Operations for a menu selection.
pub open spec fn menu_ops(reg: Registry, id: Seq<char>) -> Seq<Op> {
    match menu_item_of(id) {
        Some(MenuItem::Settings) => open_settings_ops(reg),
        Some(MenuItem::Quit) => seq![Op::Exit(0)],
        None => seq![],
    }
}

pub fn open_settings_plan(reg: &Registry) -> (r: Vec<Op>)
    requires
        reg.wf(),
    ensures
        r@ == open_settings_ops(*reg),
{
    let mut r = show_main_plan(reg);
    r.push(Op::Emit(WindowLabel::Main, Notice::OpenSettings));
    r
}

pub fn menu_plan(reg: &Registry, id: &str) -> (r: Vec<Op>)
    requires
        reg.wf(),
    ensures
        r@ == menu_ops(*reg, id@),
{
    match MenuItem::parse(id) {
        Some(MenuItem::Settings) => open_settings_plan(reg),
        Some(MenuItem::Quit) => {
            let r = vec![Op::Exit(0)];
            assert(r@ =~= seq![Op::Exit(0)]);
            r
        },
        None => {
            let r: Vec<Op> = Vec::new();
            assert(r@ =~= Seq::<Op>::empty());
            r
        },
    }
}

#[derive(Clone, Copy, Debug, PartialEq, Eq, Structural)]
pub enum MouseButton {
    Left,
    Right,
    Middle,
}

/// A left click on the tray icon reveals the main window; other buttons
/// belong to the menu, which a left click never opens.
pub fn tray_click_plan(reg: &Registry, button: MouseButton) -> (r: Vec<Op>)
    requires
        reg.wf(),
    ensures
        r@ == (if button == MouseButton::Left { show_main_ops(*reg) } else { seq![] }),
{
    if button == MouseButton::Left {
        show_main_plan(reg)
    } else {
        let r: Vec<Op> = Vec::new();
        assert(r@ =~= Seq::<Op>::empty());
        r
    }
}

/// Whether the tray menu opens on a left click: never.
pub fn menu_on_left_click() -> (r: bool)
    ensures
        !r,
{
    false
}

} // verus!
