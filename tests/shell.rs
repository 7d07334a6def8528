use desktop_shell::bridge::{eval_outcome, eval_target};
use desktop_shell::config::{config_for, main_window_config, quick_window_config};
use desktop_shell::controller::{
    close_interception, hide_plan, show_main_plan, show_quick_plan, startup_plan, FIRST_RETRY_MS,
    SECOND_RETRY_MS,
};
use desktop_shell::ops::{Attention, Notice, Op};
use desktop_shell::shortcut::{
    bound_shortcut, bound_shortcut_text, shortcut_plan, shortcut_target, Key, KeyState, Shortcut,
    ShortcutEvent,
};
use desktop_shell::text::text_equals;
use desktop_shell::tray::{
    menu_on_left_click, menu_plan, open_settings_plan, tray_click_plan, tray_menu_items, MenuItem,
    MouseButton,
};
use desktop_shell::window::{Registry, ShellError, WindowLabel, WindowState};

const MAIN: WindowLabel = WindowLabel::Main;
const QUICK: WindowLabel = WindowLabel::Quick;

fn press() -> ShortcutEvent {
    ShortcutEvent { shortcut: bound_shortcut(), state: KeyState::Pressed }
}

fn state(visible: bool, focused: bool) -> WindowState {
    WindowState { visible, focused, minimized: false, focusable: true }
}

/// A registry holding both windows with the given flags.
fn both(main: WindowState, quick: WindowState) -> Registry {
    let mut reg = Registry::new();
    reg.get_or_create(MAIN, true).unwrap();
    reg.get_or_create(QUICK, true).unwrap();
    reg.observe(MAIN, main);
    reg.observe(QUICK, quick);
    reg
}

fn count(ops: &[Op], op: Op) -> usize {
    ops.iter().filter(|o| **o == op).count()
}

#[test]
fn labels_parse_and_print() {
    assert_eq!(WindowLabel::parse("main"), Some(MAIN));
    assert_eq!(WindowLabel::parse("quick"), Some(QUICK));
    assert_eq!(WindowLabel::parse("Main"), None);
    assert_eq!(WindowLabel::parse(""), None);
    assert_eq!(WindowLabel::parse("quick "), None);
    assert_eq!(MAIN.as_str(), "main");
    assert_eq!(QUICK.as_str(), "quick");
}

#[test]
fn text_equality() {
    assert!(text_equals("abc", "abc"));
    assert!(text_equals("", ""));
    assert!(!text_equals("abc", "abd"));
    assert!(!text_equals("abc", "ab"));
    assert!(text_equals("设置", "设置"));
}

#[test]
fn unknown_labels_are_not_found() {
    let reg = both(state(true, true), state(true, false));
    for label in ["settings", "", "MAIN", "quick2", "mai"] {
        match eval_target(&reg, label) {
            Err(ShellError::WindowNotFound { label: l }) => assert_eq!(l, label),
            other => panic!("unexpected {:?}", other),
        }
    }
}

#[test]
fn eval_target_needs_a_live_window() {
    let mut reg = Registry::new();
    let err = eval_target(&reg, "main").unwrap_err();
    assert_eq!(err.message(), "webview not found: main");
    reg.get_or_create(MAIN, true).unwrap();
    assert_eq!(eval_target(&reg, "main"), Ok(MAIN));
    assert!(eval_target(&reg, "quick").is_err());
}

#[test]
fn eval_outcome_maps_errors() {
    assert_eq!(eval_outcome(Ok(())), Ok(()));
    let err = eval_outcome(Err("script rejected".to_string())).unwrap_err();
    assert_eq!(err, ShellError::EvalFailed { message: "script rejected".to_string() });
    assert_eq!(err.message(), "script rejected");
}

#[test]
fn error_messages() {
    assert_eq!(
        ShellError::WindowCreateFailed { window: QUICK }.message(),
        "window could not be created: quick"
    );
    assert_eq!(
        ShellError::ShortcutRegisterFailed.message(),
        "global shortcut could not be registered"
    );
    assert_eq!(ShellError::IconLoadFailed.message(), "tray icon could not be loaded");
}

#[test]
fn get_or_create_twice_gives_same_handle() {
    let mut reg = Registry::new();
    let first = reg.get_or_create(QUICK, true).unwrap();
    let second = reg.get_or_create(QUICK, false).unwrap();
    assert_eq!(first, second);
    assert_eq!(reg.next_id, 1);
    let main = reg.get_or_create(MAIN, true).unwrap();
    assert_ne!(main, first);
    assert_eq!(reg.get_or_create(MAIN, true).unwrap(), main);
    assert_eq!(reg.next_id, 2);
}

#[test]
fn failed_creation_registers_nothing() {
    let mut reg = Registry::new();
    assert_eq!(
        reg.get_or_create(MAIN, false),
        Err(ShellError::WindowCreateFailed { window: MAIN })
    );
    assert!(!reg.contains(MAIN));
    assert_eq!(reg.next_id, 0);
    let h = reg.get_or_create(MAIN, true).unwrap();
    assert_eq!(h.id, 0);
    assert_eq!(reg.window_state(MAIN), Some(state(false, false)));
}

#[test]
fn window_configs() {
    let m = main_window_config();
    assert_eq!((m.width, m.height), (980, 720));
    assert_eq!(m.title, "AI Aggregation");
    assert_eq!(m.route, "index.html");
    assert!(m.resizable && m.decorations && !m.visible && !m.always_on_top && !m.centered);
    let q = quick_window_config(true);
    assert_eq!((q.width, q.height), (720, 154));
    assert_eq!(q.route, "index.html#/quick");
    assert!(!q.resizable && !q.decorations && q.always_on_top && q.skip_taskbar && q.centered);
    assert!(q.transparent && !q.visible);
    assert!(!quick_window_config(false).transparent);
    assert_eq!(config_for(QUICK, true), q);
    assert_eq!(config_for(MAIN, true), m);
    assert_eq!(config_for(MAIN, false).label, MAIN);
}

#[test]
fn show_main_on_fresh_registry() {
    let mut reg = Registry::new();
    let ops = show_main_plan(&reg);
    assert_eq!(ops, vec![Op::Create(MAIN), Op::Show(MAIN), Op::Focus(MAIN)]);
    reg.apply_all(&ops, true);
    assert_eq!(reg.window_state(MAIN), Some(state(true, true)));
    assert!(!reg.contains(QUICK));
}

#[test]
fn show_main_existing_unminimizes() {
    let mut reg = both(
        WindowState { visible: false, focused: false, minimized: true, focusable: true },
        state(true, true),
    );
    let ops = show_main_plan(&reg);
    assert_eq!(ops, vec![Op::Unminimize(MAIN), Op::Show(MAIN), Op::Focus(MAIN)]);
    reg.apply_all(&ops, true);
    assert_eq!(reg.window_state(MAIN), Some(state(true, true)));
    assert_eq!(reg.window_state(QUICK), Some(state(true, false)));
}

#[test]
fn show_main_creation_failure_is_silent() {
    let mut reg = Registry::new();
    let ops = show_main_plan(&reg);
    reg.apply_all(&ops, false);
    assert!(!reg.contains(MAIN));
    assert_eq!(reg.next_id, 0);
}

#[test]
fn show_quick_sequence() {
    let mut reg = Registry::new();
    let plan = show_quick_plan(&reg);
    assert_eq!(
        plan.now,
        vec![
            Op::Create(QUICK),
            Op::SetFocusable(QUICK),
            Op::Show(QUICK),
            Op::Unminimize(QUICK),
            Op::Focus(QUICK),
            Op::RequestAttention(QUICK, Attention::Informational),
        ]
    );
    assert_eq!(
        plan.later,
        vec![Op::Sleep(120), Op::Focus(QUICK), Op::Sleep(240), Op::Focus(QUICK)]
    );
    assert_eq!(FIRST_RETRY_MS + SECOND_RETRY_MS, 360);
    let mut all = plan.now.clone();
    all.extend(plan.later.iter().copied());
    assert_eq!(count(&all, Op::Focus(QUICK)), 3);
    reg.apply_all(&plan.now, true);
    assert_eq!(reg.window_state(QUICK), Some(state(true, true)));
}

#[test]
fn show_quick_existing_unfocusable() {
    let mut reg = both(
        state(true, true),
        WindowState { visible: false, focused: false, minimized: true, focusable: false },
    );
    let plan = show_quick_plan(&reg);
    assert_eq!(plan.now.len(), 5);
    assert_eq!(plan.now[0], Op::SetFocusable(QUICK));
    reg.apply_all(&plan.now, true);
    assert_eq!(reg.window_state(QUICK), Some(state(true, true)));
    assert_eq!(reg.window_state(MAIN), Some(state(true, false)));
}

#[test]
fn shortcut_hides_visible_quick() {
    for main in [state(true, false), state(false, false), state(true, true)] {
        let mut reg = both(main, state(true, false));
        let ops = shortcut_plan(&reg, press());
        assert_eq!(ops, vec![Op::Hide(QUICK)]);
        reg.apply_all(&ops, true);
        assert_eq!(reg.window_state(QUICK), Some(state(false, false)));
        assert_eq!(reg.window_state(MAIN), Some(main));
    }
}

#[test]
fn shortcut_hides_focused_main() {
    let mut reg = both(state(true, true), state(false, false));
    let ops = shortcut_plan(&reg, press());
    assert_eq!(ops, vec![Op::Hide(MAIN)]);
    reg.apply_all(&ops, true);
    assert_eq!(reg.window_state(MAIN), Some(state(false, false)));
    assert!(reg.contains(MAIN));

    let mut only_main = Registry::new();
    only_main.get_or_create(MAIN, true).unwrap();
    only_main.observe(MAIN, state(false, true));
    assert_eq!(shortcut_target(&only_main, press()), Some(MAIN));
}

#[test]
fn shortcut_idle_is_noop() {
    let reg = both(state(false, false), state(false, false));
    assert!(shortcut_plan(&reg, press()).is_empty());
    assert!(shortcut_plan(&Registry::new(), press()).is_empty());
}

#[test]
fn shortcut_ignores_release_and_other_keys() {
    let reg = both(state(true, true), state(true, true));
    let release = ShortcutEvent { shortcut: bound_shortcut(), state: KeyState::Released };
    assert_eq!(shortcut_target(&reg, release), None);
    let with_mod = ShortcutEvent {
        shortcut: Shortcut { key: Key::Escape, modifiers: 1 },
        state: KeyState::Pressed,
    };
    assert_eq!(shortcut_target(&reg, with_mod), None);
    let other = ShortcutEvent {
        shortcut: Shortcut { key: Key::Other, modifiers: 0 },
        state: KeyState::Pressed,
    };
    assert_eq!(shortcut_target(&reg, other), None);
    assert_eq!(bound_shortcut_text(), "Esc");
}

#[test]
fn close_request_hides_managed_windows() {
    for label in ["main", "quick"] {
        let mut reg = both(state(true, true), state(true, false));
        let l = close_interception(label).unwrap();
        reg.apply_all(&hide_plan(l), true);
        assert!(reg.contains(l));
        assert!(!reg.window_state(l).unwrap().visible);
    }
    assert_eq!(close_interception("other"), None);
}

#[test]
fn quit_exits() {
    let reg = both(state(true, true), state(false, false));
    assert_eq!(menu_plan(&reg, "quit"), vec![Op::Exit(0)]);
}

#[test]
fn settings_reveals_main_and_notifies_once() {
    let mut reg = Registry::new();
    let ops = menu_plan(&reg, "settings");
    assert_eq!(ops, open_settings_plan(&reg));
    assert_eq!(count(&ops, Op::Emit(MAIN, Notice::OpenSettings)), 1);
    assert_eq!(*ops.last().unwrap(), Op::Emit(MAIN, Notice::OpenSettings));
    reg.apply_all(&ops, true);
    assert_eq!(reg.window_state(MAIN), Some(state(true, true)));
    assert_eq!(Notice::OpenSettings.name(), "open-settings");
}

#[test]
fn unknown_menu_ids_do_nothing() {
    let reg = Registry::new();
    assert!(menu_plan(&reg, "Settings").is_empty());
    assert!(menu_plan(&reg, "").is_empty());
}

#[test]
fn tray_menu_and_clicks() {
    assert_eq!(tray_menu_items(), vec![MenuItem::Settings, MenuItem::Quit]);
    assert_eq!(MenuItem::Settings.id(), "settings");
    assert_eq!(MenuItem::parse("quit"), Some(MenuItem::Quit));
    assert!(!menu_on_left_click());
    let reg = Registry::new();
    assert_eq!(tray_click_plan(&reg, MouseButton::Left), show_main_plan(&reg));
    assert!(tray_click_plan(&reg, MouseButton::Right).is_empty());
    assert!(tray_click_plan(&reg, MouseButton::Middle).is_empty());
}

#[test]
fn startup_precreates_quick() {
    let mut reg = Registry::new();
    let ops = startup_plan();
    assert_eq!(ops, vec![Op::Create(QUICK)]);
    reg.apply_all(&ops, true);
    assert!(reg.contains(QUICK));
    assert_eq!(reg.window_state(QUICK), Some(state(false, false)));
}

#[test]
fn focus_moves_between_windows() {
    let mut reg = both(state(true, true), state(true, false));
    reg.apply(Op::Focus(QUICK), true);
    assert_eq!(reg.window_state(QUICK), Some(state(true, true)));
    assert_eq!(reg.window_state(MAIN), Some(state(true, false)));
    reg.apply(Op::Sleep(5), true);
    reg.apply(Op::Exit(0), true);
    assert_eq!(reg.window_state(QUICK), Some(state(true, true)));
}
