//! Laws that relate the entry points to their effect on the registry.
use vstd::prelude::*;
use crate::bridge::eval_lookup;
use crate::controller::{quick_retry_ops, show_main_ops, show_quick_now_ops, FIRST_RETRY_MS, SECOND_RETRY_MS};
use crate::ops::{occurrences, run, Attention, Notice, Op};
use crate::shortcut::{bound, is_active, shortcut_ops, KeyState, ShortcutEvent};
use crate::tray::{menu_id_text, menu_ops, MenuItem};
use crate::window::{label_of, label_text, Registry, WindowLabel};

verus! {

/// Total waiting time of a sequence of operations, in milliseconds.
pub open spec fn elapsed(ops: Seq<Op>) -> nat
    decreases ops.len(),
{
    if ops.len() == 0 {
        0
    } else {
        elapsed(ops.drop_last()) + match ops.last() {
            Op::Sleep(ms) => ms as nat,
            _ => 0nat,
        }
    }
}

/// A script-bridge call on any label other than the two managed ones finds
/// no window.
pub proof fn lemma_unknown_label_not_found(reg: Registry, label: Seq<char>)
    requires
        label != label_text(WindowLabel::Main),
        label != label_text(WindowLabel::Quick),
    ensures
        eval_lookup(reg, label) is None,
{
}

/// Get-or-create twice in a row yields the same handle the second time and
/// leaves the registry as the first call did.
pub proof fn lemma_get_or_create_twice(reg: Registry, label: WindowLabel, built1: bool, built2: bool)
    requires
        reg.wf(),
    ensures
        ({
            let (reg1, r1) = reg.get_or_create_spec(label, built1);
            r1 is Ok ==> reg1.get_or_create_spec(label, built2) == (reg1, r1)
        }),
{
}

/// Revealing the main window when it does not exist yet creates it visible
/// and focused; the quick window keeps its existence and its visibility,
/// and on a fresh registry stays nonexistent.
pub proof fn lemma_show_main_creates(reg: Registry)
    requires
        reg.wf(),
        !reg.has(WindowLabel::Main),
    ensures
        ({
            let after = run(reg, show_main_ops(reg), true);
            &&& after.has(WindowLabel::Main)
            &&& after.state(WindowLabel::Main).visible
            &&& after.state(WindowLabel::Main).focused
            &&& after.has(WindowLabel::Quick) == reg.has(WindowLabel::Quick)
            &&& reg.has(WindowLabel::Quick) ==> after.state(WindowLabel::Quick).visible == reg.state(
                WindowLabel::Quick,
            ).visible
            &&& reg == Registry::fresh() ==> after.quick is None
        }),
{
    reveal_with_fuel(run, 4);
}

/// Revealing the quick window leaves it existing, visible, focusable and
/// focused, with one informational attention request; two deferred retries
/// focus it again at 120 ms and 360 ms, three focus requests in all.
pub proof fn lemma_show_quick_sequence(reg: Registry)
    requires
        reg.wf(),
    ensures
        ({
            let now = show_quick_now_ops(reg);
            let later = quick_retry_ops();
            let after = run(reg, now, true);
            &&& after.has(WindowLabel::Quick)
            &&& after.state(WindowLabel::Quick).visible
            &&& after.state(WindowLabel::Quick).focusable
            &&& after.state(WindowLabel::Quick).focused
            &&& occurrences(now, Op::RequestAttention(WindowLabel::Quick, Attention::Informational)) == 1
            &&& occurrences(now + later, Op::Focus(WindowLabel::Quick)) == 3
            &&& later[1] == Op::Focus(WindowLabel::Quick) && elapsed(later.take(1)) == 120
            &&& later[3] == Op::Focus(WindowLabel::Quick) && elapsed(later.take(3)) == 360
        }),
{
    let q = WindowLabel::Quick;
    let now = show_quick_now_ops(reg);
    let later = quick_retry_ops();
    reveal_with_fuel(run, 7);
    reveal_with_fuel(occurrences, 11);
    reveal_with_fuel(elapsed, 4);
    assert(later.take(1) =~= seq![Op::Sleep(FIRST_RETRY_MS)]);
    assert(later.take(3) =~= seq![Op::Sleep(FIRST_RETRY_MS), Op::Focus(q), Op::Sleep(SECOND_RETRY_MS)]);
    assert(later.take(3).drop_last() =~= later.take(2));
    assert(later.take(2).drop_last() =~= later.take(1));
    assert(later.take(1).drop_last() =~= Seq::<Op>::empty());
    if reg.has(q) {
        assert(now + later =~= seq![
            Op::SetFocusable(q), Op::Show(q), Op::Unminimize(q), Op::Focus(q),
            Op::RequestAttention(q, Attention::Informational),
            Op::Sleep(FIRST_RETRY_MS), Op::Focus(q), Op::Sleep(SECOND_RETRY_MS), Op::Focus(q),
        ]);
    } else {
        assert(now + later =~= seq![
            Op::Create(q), Op::SetFocusable(q), Op::Show(q), Op::Unminimize(q), Op::Focus(q),
            Op::RequestAttention(q, Attention::Informational),
            Op::Sleep(FIRST_RETRY_MS), Op::Focus(q), Op::Sleep(SECOND_RETRY_MS), Op::Focus(q),
        ]);
    }
}

pub open spec fn is_bound_press(ev: ShortcutEvent) -> bool {
    ev.state == KeyState::Pressed && ev.shortcut == bound()
}

/// Pressing the shortcut while the quick window is visible hides it and
/// leaves the main window as it was, visible or not.
pub proof fn lemma_shortcut_hides_visible_quick(reg: Registry, ev: ShortcutEvent, built: bool)
    requires
        reg.wf(),
        is_bound_press(ev),
        reg.has(WindowLabel::Quick),
        reg.state(WindowLabel::Quick).visible,
    ensures
        shortcut_ops(reg, ev) == seq![Op::Hide(WindowLabel::Quick)],
        run(reg, shortcut_ops(reg, ev), built).has(WindowLabel::Quick),
        !run(reg, shortcut_ops(reg, ev), built).state(WindowLabel::Quick).visible,
        run(reg, shortcut_ops(reg, ev), built).main == reg.main,
{
    reveal_with_fuel(run, 2);
}

/// Pressing the shortcut while the quick window is hidden or missing (and
/// unfocused) and the main window is focused hides the main window.
pub proof fn lemma_shortcut_hides_focused_main(reg: Registry, ev: ShortcutEvent, built: bool)
    requires
        reg.wf(),
        is_bound_press(ev),
        !is_active(reg, WindowLabel::Quick),
        reg.has(WindowLabel::Main),
        reg.state(WindowLabel::Main).focused,
    ensures
        shortcut_ops(reg, ev) == seq![Op::Hide(WindowLabel::Main)],
        run(reg, shortcut_ops(reg, ev), built).has(WindowLabel::Main),
        !run(reg, shortcut_ops(reg, ev), built).state(WindowLabel::Main).visible,
        run(reg, shortcut_ops(reg, ev), built).quick == reg.quick,
{
    reveal_with_fuel(run, 2);
}

/// Any shortcut event while neither window is visible or focused changes
/// nothing.
pub proof fn lemma_shortcut_idle(reg: Registry, ev: ShortcutEvent, built: bool)
    requires
        !is_active(reg, WindowLabel::Quick),
        !is_active(reg, WindowLabel::Main),
    ensures
        shortcut_ops(reg, ev) == Seq::<Op>::empty(),
        run(reg, shortcut_ops(reg, ev), built) == reg,
{
    assert(shortcut_ops(reg, ev) =~= Seq::<Op>::empty());
}

/// A close request on a managed window never removes it: it stays existing
/// (when it existed) and becomes hidden.
pub proof fn lemma_close_hides(reg: Registry, label: Seq<char>, built: bool)
    requires
        reg.wf(),
        label_of(label) is Some,
    ensures
        ({
            let l = label_of(label)->0;
            let after = run(reg, seq![Op::Hide(l)], built);
            &&& after.has(l) == reg.has(l)
            &&& after.has(l.other()) == reg.has(l.other())
            &&& after.has(l) ==> !after.state(l).visible
        }),
{
    reveal_with_fuel(run, 2);
}

/// The quit item terminates the process with exit code 0.
pub proof fn lemma_quit_exits(reg: Registry)
    ensures
        menu_ops(reg, menu_id_text(MenuItem::Quit)) == seq![Op::Exit(0)],
{
    reveal_strlit("quit");
    reveal_strlit("settings");
    assert(menu_id_text(MenuItem::Quit).len() != menu_id_text(MenuItem::Settings).len());
}

/// The settings item leaves the main window existing, visible and focused
/// (unless its content made an existing one unfocusable), and emits the
/// open-settings notice to it exactly once.
pub proof fn lemma_settings_reveals_main(reg: Registry)
    requires
        reg.wf(),
        reg.has(WindowLabel::Main) ==> reg.state(WindowLabel::Main).focusable,
    ensures
        ({
            let ops = menu_ops(reg, menu_id_text(MenuItem::Settings));
            let after = run(reg, ops, true);
            &&& after.has(WindowLabel::Main)
            &&& after.state(WindowLabel::Main).visible
            &&& after.state(WindowLabel::Main).focused
            &&& occurrences(ops, Op::Emit(WindowLabel::Main, Notice::OpenSettings)) == 1
        }),
{
    reveal_with_fuel(run, 5);
    reveal_with_fuel(occurrences, 5);
    let ops = menu_ops(reg, menu_id_text(MenuItem::Settings));
    assert(ops.drop_last() =~= show_main_ops(reg));
}

} // verus!
