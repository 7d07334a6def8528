use vstd::prelude::*;
use crate::ops::{run, Attention, Op};
use crate::window::{label_of, Registry, WindowLabel};

verus! {

/// Delay of the first focus retry on the quick window, after it is shown.
pub const FIRST_RETRY_MS: u64 = 120;

/// Further delay of the second focus retry, after the first.
pub const SECOND_RETRY_MS: u64 = 240;

/// Revealing the main window: unminimize, show and focus an existing one;
/// otherwise create it, then show and focus it.
pub open spec fn show_main_ops(reg: Registry) -> Seq<Op> {
    if reg.has(WindowLabel::Main) {
        seq![Op::Unminimize(WindowLabel::Main), Op::Show(WindowLabel::Main), Op::Focus(WindowLabel::Main)]
    } else {
        seq![Op::Create(WindowLabel::Main), Op::Show(WindowLabel::Main), Op::Focus(WindowLabel::Main)]
    }
}

/// The synchronous part of revealing the quick window.
pub open spec fn show_quick_now_ops(reg: Registry) -> Seq<Op> {
    let q = WindowLabel::Quick;
    (if reg.has(q) { seq![] } else { seq![Op::Create(q)] }) + seq![
        Op::SetFocusable(q),
        Op::Show(q),
        Op::Unminimize(q),
        Op::Focus(q),
        Op::RequestAttention(q, Attention::Informational),
    ]
}

/// The deferred focus retries on the quick window.
pub open spec fn quick_retry_ops() -> Seq<Op> {
    seq![
        Op::Sleep(FIRST_RETRY_MS),
        Op::Focus(WindowLabel::Quick),
        Op::Sleep(SECOND_RETRY_MS),
        Op::Focus(WindowLabel::Quick),
    ]
}

/// Operations of `show_main`. Creation failure is silent: the operations
/// after a failed `Create` act on no window.
pub fn show_main_plan(reg: &Registry) -> (r: Vec<Op>)
    requires
        reg.wf(),
    ensures
        r@ == show_main_ops(*reg),
        run(*reg, r@, true).has(WindowLabel::Main),
        run(*reg, r@, true).state(WindowLabel::Main).visible,
        !run(*reg, r@, true).state(WindowLabel::Main).minimized,
        reg.has(WindowLabel::Main) && reg.state(WindowLabel::Main).focusable ==> run(
            *reg,
            r@,
            true,
        ).state(WindowLabel::Main).focused,
        !reg.has(WindowLabel::Main) ==> run(*reg, r@, true).state(WindowLabel::Main).focused,
        !reg.has(WindowLabel::Main) ==> run(*reg, r@, false) == *reg,
        forall|built: bool| #[trigger] run(*reg, r@, built).has(WindowLabel::Quick) == reg.has(WindowLabel::Quick),
        forall|built: bool| reg.has(WindowLabel::Quick) ==> #[trigger] run(*reg, r@, built).state(WindowLabel::Quick).visible
            == reg.state(WindowLabel::Quick).visible,
{
    let m = WindowLabel::Main;
    let first = if reg.contains(m) { Op::Unminimize(m) } else { Op::Create(m) };
    let r = vec![first, Op::Show(m), Op::Focus(m)];
    proof {
        assert(r@ =~= show_main_ops(*reg));
        reveal_with_fuel(run, 4);
    }
    r
}

/// Operations of `show_quick_window`: `now` runs at once, in order; `later`
/// runs on its own timer path and must not delay the caller. When the
/// `Create` in `now` fails, the caller reports the error and stops.
pub struct QuickPlan {
    pub now: Vec<Op>,
    pub later: Vec<Op>,
}

pub fn show_quick_plan(reg: &Registry) -> (r: QuickPlan)
    requires
        reg.wf(),
    ensures
        r.now@ == show_quick_now_ops(*reg),
        r.later@ == quick_retry_ops(),
        ({
            let after = run(*reg, r.now@, true);
            &&& after.has(WindowLabel::Quick)
            &&& after.state(WindowLabel::Quick).visible
            &&& after.state(WindowLabel::Quick).focusable
            &&& after.state(WindowLabel::Quick).focused
            &&& !after.state(WindowLabel::Quick).minimized
        }),
{
    let q = WindowLabel::Quick;
    let mut now: Vec<Op> = Vec::new();
    if !reg.contains(q) {
        now.push(Op::Create(q));
    }
    now.push(Op::SetFocusable(q));
    now.push(Op::Show(q));
    now.push(Op::Unminimize(q));
    now.push(Op::Focus(q));
    now.push(Op::RequestAttention(q, Attention::Informational));
    let later = vec![Op::Sleep(FIRST_RETRY_MS), Op::Focus(q), Op::Sleep(SECOND_RETRY_MS), Op::Focus(q)];
    proof {
        assert(now@ =~= show_quick_now_ops(*reg));
        assert(later@ =~= quick_retry_ops());
        reveal_with_fuel(run, 7);
    }
    QuickPlan { now, later }
}

/// Startup pre-creates the quick window; its failure aborts startup.
pub fn startup_plan() -> (r: Vec<Op>)
    ensures
        r@ == seq![Op::Create(WindowLabel::Quick)],
{
    let r = vec![Op::Create(WindowLabel::Quick)];
    assert(r@ =~= seq![Op::Create(WindowLabel::Quick)]);
    r
}

/// Operations that hide `label`'s window without destroying it.
pub fn hide_plan(label: WindowLabel) -> (r: Vec<Op>)
    ensures
        r@ == seq![Op::Hide(label)],
{
    let r = vec![Op::Hide(label)];
    assert(r@ =~= seq![Op::Hide(label)]);
    r
}

/// A close request on a managed window is intercepted: the default close is
/// prevented and the window hidden instead. `None`: let the close proceed.
pub fn close_interception(label: &str) -> (r: Option<WindowLabel>)
    ensures
        r == label_of(label@),
{
    WindowLabel::parse(label)
}

} // verus!
