//! Decisions behind the user-facing commands: which window to focus, which
//! window a close should hand focus to, how the per-space master-window
//! count changes, and how the event-triggered commands open a rebalance.
//!
//! Every function here is a pure decision over one snapshot; the caller
//! issues the resulting directives and persists any state change.

use vstd::prelude::*;

use crate::order::{pick_of, pick_window, prefer, prefers, Pick};
use crate::types::{Directive, Window};
use crate::update_windows::{
    step_spec, AfterColumnize, RebalancePhase, ResumePhase, UpdateWindowsProps,
};
use crate::window::{
    find_focused, lemma_find_focused_in, lemma_masters_nonempty, lemma_stacks_complete,
    WindowsManager,
};

verus! {

/// What a close of the focused window amounts to.
#[derive(Clone, Copy, PartialEq, Eq, Structural, Debug)]
pub enum CloseFocusedWindowPlan {
    /// No window is focused; nothing to close.
    NoFocusedWindow,
    /// Close the focused window, then focus the named window, if any.
    Close { then_focus: Option<usize> },
}

/// The focus directive a focus command settles on.
#[derive(Clone, Copy, PartialEq, Eq, Structural, Debug)]
pub enum FocusCommand {
    /// Focus the window with this id.
    FocusWindow(usize),
    /// Focus the window below the focused one.
    FocusSouth,
    /// Focus the window above the focused one.
    FocusNorth,
    /// No window is focused: focus the first window.
    FocusFirst,
    /// No window is focused: focus the last window.
    FocusLast,
}

/// The window preceding `w` in the strict (y, x, id)-ascending order: the
/// nearest neighbour above it.
pub open spec fn prev_in_order(ws: Seq<Window>, w: Window) -> Option<Window>
    decreases ws.len(),
{
    if ws.len() == 0 {
        Option::None
    } else {
        let rest = prev_in_order(ws.drop_last(), w);
        let c = ws.last();
        let improves = match rest {
            Option::None => true,
            Option::Some(u) => prefers(Pick::Top, u, c),
        };
        if prefers(Pick::Top, c, w) && improves {
            Option::Some(c)
        } else {
            rest
        }
    }
}

/// The window following `w` in the strict (y, x, id)-ascending order: the
/// nearest neighbour below it.
pub open spec fn next_in_order(ws: Seq<Window>, w: Window) -> Option<Window>
    decreases ws.len(),
{
    if ws.len() == 0 {
        Option::None
    } else {
        let rest = next_in_order(ws.drop_last(), w);
        let c = ws.last();
        let improves = match rest {
            Option::None => true,
            Option::Some(u) => prefers(Pick::Top, c, u),
        };
        if prefers(Pick::Top, w, c) && improves {
            Option::Some(c)
        } else {
            rest
        }
    }
}

/// The id of the window, if one was selected.
pub open spec fn id_of(o: Option<Window>) -> Option<usize> {
    match o {
        Option::None => Option::None,
        Option::Some(w) => Option::Some(w.id),
    }
}

/// Find the nearest neighbour of `w` above it in the order.
fn prev_window(ws: &Vec<Window>, w: &Window) -> (r: Option<Window>)
    ensures
        r == prev_in_order(ws@, *w),
{
    let mut best: Option<Window> = None;
    let mut i: usize = 0;
    while i < ws.len()
        invariant
            i <= ws@.len(),
            best == prev_in_order(ws@.take(i as int), *w),
        decreases ws@.len() - i,
    {
        proof {
            assert(ws@.take(i + 1).drop_last() =~= ws@.take(i as int));
            assert(ws@.take(i + 1).last() == ws@[i as int]);
        }
        let c = ws[i];
        if prefer(Pick::Top, &c, w) {
            let improves = match best {
                None => true,
                Some(u) => prefer(Pick::Top, &u, &c),
            };
            if improves {
                best = Some(c);
            }
        }
        i = i + 1;
    }
    proof {
        assert(ws@.take(ws@.len() as int) =~= ws@);
    }
    best
}

/// Find the nearest neighbour of `w` below it in the order.
fn next_window(ws: &Vec<Window>, w: &Window) -> (r: Option<Window>)
    ensures
        r == next_in_order(ws@, *w),
{
    let mut best: Option<Window> = None;
    let mut i: usize = 0;
    while i < ws.len()
        invariant
            i <= ws@.len(),
            best == next_in_order(ws@.take(i as int), *w),
        decreases ws@.len() - i,
    {
        proof {
            assert(ws@.take(i + 1).drop_last() =~= ws@.take(i as int));
            assert(ws@.take(i + 1).last() == ws@[i as int]);
        }
        let c = ws[i];
        if prefer(Pick::Top, w, &c) {
            let improves = match best {
                None => true,
                Some(u) => prefer(Pick::Top, &c, &u),
            };
            if improves {
                best = Some(c);
            }
        }
        i = i + 1;
    }
    proof {
        assert(ws@.take(ws@.len() as int) =~= ws@);
    }
    best
}

/// The window a close of `w` hands focus to: within `w`'s own region the
/// neighbour above it (or, for the topmost window, the one below it); when
/// `w` is the last stack window, the topmost master; when `w` is the last
/// master window, the bottommost stack window.
pub open spec fn close_focus_target(m: WindowsManager, w: Window) -> Option<usize>
    recommends
        m.ws().len() >= 1,
{
    let stacks = m.spec_stacks();
    let masters = m.spec_masters();
    if m.spec_is_stack(w) {
        if stacks.len() == 1 {
            Option::Some(pick_of(masters, Pick::Top).id)
        } else if pick_of(stacks, Pick::Top).id == w.id {
            id_of(next_in_order(stacks, w))
        } else {
            id_of(prev_in_order(stacks, w))
        }
    } else if m.spec_is_master(w) {
        if masters.len() == 1 && stacks.len() > 0 {
            Option::Some(pick_of(stacks, Pick::Bottom).id)
        } else if pick_of(masters, Pick::Top).id == w.id {
            id_of(next_in_order(masters, w))
        } else {
            id_of(prev_in_order(masters, w))
        }
    } else {
        Option::None
    }
}

/// The plan for closing the focused window.
pub open spec fn close_focused_window_spec(m: WindowsManager) -> CloseFocusedWindowPlan {
    match find_focused(m.ws()) {
        Option::None => CloseFocusedWindowPlan::NoFocusedWindow,
        Option::Some(w) => CloseFocusedWindowPlan::Close { then_focus: close_focus_target(m, w) },
    }
}

/// Decide what closing the focused window amounts to; see
/// [`close_focus_target`] for the focus hand-off rule.
pub fn close_focused_window(wm: &WindowsManager) -> (r: CloseFocusedWindowPlan)
    ensures
        r == close_focused_window_spec(*wm),
{
    let focused = wm.get_focused_window();
    match focused {
        None => CloseFocusedWindowPlan::NoFocusedWindow,
        Some(w) => {
            proof {
                if wm.ws().len() == 0 {
                    assert(find_focused(wm.ws()) is None);
                }
                lemma_masters_nonempty(*wm);
            }
            let stacks = wm.get_stack_windows();
            let masters = wm.get_master_windows();
            let focus: Option<usize>;
            proof {
                lemma_find_focused_in(wm.ws());
                if wm.spec_is_stack(w) {
                    let i = choose|i: int| 0 <= i < wm.ws().len() && wm.ws()[i] == w;
                    lemma_stacks_complete(wm.ws(), wm.dx(), i);
                }
            }
            if wm.is_stack_window(&w) {
                if stacks.len() == 1 {
                    focus = Some(pick_window(&masters, Pick::Top).id);
                } else if pick_window(&stacks, Pick::Top).id == w.id {
                    focus = match next_window(&stacks, &w) {
                        Some(u) => Some(u.id),
                        None => None,
                    };
                } else {
                    focus = match prev_window(&stacks, &w) {
                        Some(u) => Some(u.id),
                        None => None,
                    };
                }
            } else if wm.is_master_window(&w) {
                if masters.len() == 1 && stacks.len() > 0 {
                    focus = Some(pick_window(&stacks, Pick::Bottom).id);
                } else if pick_window(&masters, Pick::Top).id == w.id {
                    focus = match next_window(&masters, &w) {
                        Some(u) => Some(u.id),
                        None => None,
                    };
                } else {
                    focus = match prev_window(&masters, &w) {
                        Some(u) => Some(u.id),
                        None => None,
                    };
                }
            } else {
                focus = None;
            }
            CloseFocusedWindowPlan::Close { then_focus: focus }
        },
    }
}

/// Where a downward focus motion goes: off the bottom of the master region
/// it wraps to the top of the stack (or of the masters), off the bottom of
/// the stack it wraps to the top of the masters, otherwise it moves south.
pub open spec fn focus_down_window_spec(m: WindowsManager) -> FocusCommand {
    match find_focused(m.ws()) {
        Option::None => FocusCommand::FocusFirst,
        Option::Some(w) => {
            let stacks = m.spec_stacks();
            let masters = m.spec_masters();
            if m.spec_is_master(w) && masters.len() > 0 && pick_of(masters, Pick::Bottom).id
                == w.id {
                if stacks.len() > 0 {
                    FocusCommand::FocusWindow(pick_of(stacks, Pick::Top).id)
                } else {
                    FocusCommand::FocusWindow(pick_of(masters, Pick::Top).id)
                }
            } else if m.spec_is_stack(w) && stacks.len() > 0 && pick_of(stacks, Pick::Bottom).id
                == w.id {
                FocusCommand::FocusWindow(pick_of(masters, Pick::Top).id)
            } else {
                FocusCommand::FocusSouth
            }
        },
    }
}

/// Decide the downward focus motion; see [`focus_down_window_spec`].
pub fn focus_down_window(wm: &WindowsManager) -> (r: FocusCommand)
    ensures
        r == focus_down_window_spec(*wm),
{
    let focused = wm.get_focused_window();
    match focused {
        None => FocusCommand::FocusFirst,
        Some(w) => {
            proof {
                if wm.ws().len() == 0 {
                    assert(find_focused(wm.ws()) is None);
                }
                lemma_masters_nonempty(*wm);
            }
            let stacks = wm.get_stack_windows();
            let masters = wm.get_master_windows();
            if wm.is_master_window(&w) && wm.is_bottom_window(&masters, &w) {
                match wm.get_top_stack_window() {
                    Some(t) => FocusCommand::FocusWindow(t.id),
                    None => FocusCommand::FocusWindow(pick_window(&masters, Pick::Top).id),
                }
            } else if wm.is_stack_window(&w) && wm.is_bottom_window(&stacks, &w) {
                FocusCommand::FocusWindow(pick_window(&masters, Pick::Top).id)
            } else {
                FocusCommand::FocusSouth
            }
        },
    }
}

/// Where an upward focus motion goes: off the top of the master region it
/// wraps to the bottom of the stack (or of the masters), off the top of the
/// stack it wraps to the top of the masters, otherwise it moves north.
pub open spec fn focus_up_window_spec(m: WindowsManager) -> FocusCommand {
    match find_focused(m.ws()) {
        Option::None => FocusCommand::FocusLast,
        Option::Some(w) => {
            let stacks = m.spec_stacks();
            let masters = m.spec_masters();
            if m.spec_is_master(w) && masters.len() > 0 && pick_of(masters, Pick::Top).id == w.id {
                if stacks.len() > 0 {
                    FocusCommand::FocusWindow(pick_of(stacks, Pick::Bottom).id)
                } else {
                    FocusCommand::FocusWindow(pick_of(masters, Pick::Bottom).id)
                }
            } else if m.spec_is_stack(w) && stacks.len() > 0 && pick_of(stacks, Pick::Top).id
                == w.id {
                FocusCommand::FocusWindow(pick_of(masters, Pick::Top).id)
            } else {
                FocusCommand::FocusNorth
            }
        },
    }
}

/// Decide the upward focus motion; see [`focus_up_window_spec`].
pub fn focus_up_window(wm: &WindowsManager) -> (r: FocusCommand)
    ensures
        r == focus_up_window_spec(*wm),
{
    let focused = wm.get_focused_window();
    match focused {
        None => FocusCommand::FocusLast,
        Some(w) => {
            proof {
                if wm.ws().len() == 0 {
                    assert(find_focused(wm.ws()) is None);
                }
                lemma_masters_nonempty(*wm);
            }
            let stacks = wm.get_stack_windows();
            let masters = wm.get_master_windows();
            if wm.is_master_window(&w) && wm.is_top_window(&masters, &w) {
                match wm.get_bottom_stack_window() {
                    Some(t) => FocusCommand::FocusWindow(t.id),
                    None => FocusCommand::FocusWindow(pick_window(&masters, Pick::Bottom).id),
                }
            } else if wm.is_stack_window(&w) && wm.is_top_window(&stacks, &w) {
                FocusCommand::FocusWindow(pick_window(&masters, Pick::Top).id)
            } else {
                FocusCommand::FocusNorth
            }
        },
    }
}

/// The increased per-space target: one more master window, capped below the
/// live window count; at the cap (or with fewer than two windows) the
/// target is unchanged.
pub fn increase_master_window_count(current: usize, num_windows: usize) -> (r: usize)
    ensures
        r as int == if num_windows >= 1 && current < num_windows - 1 {
            current + 1
        } else {
            current as int
        },
{
    if num_windows >= 1 && current < num_windows - 1 {
        current + 1
    } else {
        current
    }
}

/// The decreased per-space target: one master window fewer, never below
/// one.
pub fn decrease_master_window_count(current: usize) -> (r: usize)
    ensures
        r as int == if current > 1 {
            current - 1
        } else {
            current as int
        },
{
    if current > 1 {
        current - 1
    } else {
        current
    }
}

/// A window was moved by hand: open a rebalance towards the given target.
/// Returns the rebalancer's first decision; the caller drives the machine
/// from there.
pub fn window_moved(wm: &WindowsManager, props: UpdateWindowsProps) -> (r: (
    Option<Directive>,
    RebalancePhase,
))
    ensures
        r == step_spec(*wm, props.target_num_master_windows, RebalancePhase::Start),
{
    wm.update_windows(props, RebalancePhase::Start)
}

/// The window-management service was (re)started: open a rebalance towards
/// the given target, exactly as for a moved window.
pub fn yabai_started(wm: &WindowsManager, props: UpdateWindowsProps) -> (r: (
    Option<Directive>,
    RebalancePhase,
))
    ensures
        r == step_spec(*wm, props.target_num_master_windows, RebalancePhase::Start),
{
    wm.update_windows(props, RebalancePhase::Start)
}

/// Where a freshly created window goes: to the master region while masters
/// are plural and still within the per-space target, otherwise to the
/// stack. Returns the entry state of the standalone move; the caller drives
/// the machine to `MoveComplete` and then opens a full rebalance.
pub fn window_created(wm: &WindowsManager, window_id: usize, state_target: usize) -> (r:
    RebalancePhase)
    requires
        wm.ws().len() >= 1,
    ensures
        r == if wm.spec_masters().len() > 1 && wm.spec_masters().len() <= state_target {
            RebalancePhase::MoveToMasterWarp { window_id, resume: ResumePhase::Finish }
        } else {
            RebalancePhase::Columnize(
                AfterColumnize::MoveToStack { window_id, resume: ResumePhase::Finish },
            )
        },
{
    let masters = wm.get_master_windows();
    if masters.len() > 1 && masters.len() <= state_target {
        RebalancePhase::MoveToMasterWarp { window_id, resume: ResumePhase::Finish }
    } else {
        RebalancePhase::Columnize(
            AfterColumnize::MoveToStack { window_id, resume: ResumePhase::Finish },
        )
    }
}

} // verus!
