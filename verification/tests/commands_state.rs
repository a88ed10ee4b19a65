use yabai_master_stack::commands::{
    close_focused_window, decrease_master_window_count, focus_down_window, focus_up_window,
    increase_master_window_count, window_created, window_moved, yabai_started,
    CloseFocusedWindowPlan, FocusCommand,
};
use yabai_master_stack::state::State;
use yabai_master_stack::types::{Display, Frame, Space, SplitOrientation, Window};
use yabai_master_stack::update_windows::{
    AfterColumnize, RebalancePhase, ResumePhase, UpdateWindowsProps,
};
use yabai_master_stack::window::WindowsManager;

fn win(id: usize, x: i64, y: i64) -> Window {
    Window {
        id,
        pid: id * 10,
        frame: Frame { x, y, w: 500, h: 500 },
        split: SplitOrientation::Vertical,
        focused: false,
        display: 1,
        space: 1,
        floating: false,
        minimized: false,
    }
}

fn focused(id: usize, x: i64, y: i64) -> Window {
    let mut w = win(id, x, y);
    w.focused = true;
    w
}

fn mgr(windows: Vec<Window>, expected: usize) -> WindowsManager {
    WindowsManager {
        display: Display { id: 1, index: 1, frame: Frame { x: 0, y: 0, w: 1440, h: 900 } },
        space: Space { id: 7, index: 1 },
        expected_current_num_master_windows: expected,
        windows_data: windows,
    }
}

#[test]
fn focus_down_from_bottom_master_wraps_to_top_stack() {
    let wm = mgr(vec![win(1, 0, 0), win(2, 0, 400), focused(3, 800, 0)], 1);
    assert_eq!(focus_down_window(&wm), FocusCommand::FocusWindow(1));
}

#[test]
fn focus_down_from_bottom_stack_wraps_to_top_master() {
    let wm = mgr(vec![win(1, 0, 0), focused(2, 0, 400), win(3, 800, 0)], 1);
    assert_eq!(focus_down_window(&wm), FocusCommand::FocusWindow(3));
}

#[test]
fn focus_down_elsewhere_moves_south() {
    let wm = mgr(vec![focused(1, 0, 0), win(2, 0, 400), win(3, 800, 0)], 1);
    assert_eq!(focus_down_window(&wm), FocusCommand::FocusSouth);
}

#[test]
fn focus_down_without_focus_goes_first() {
    let wm = mgr(vec![win(1, 0, 0), win(2, 800, 0)], 1);
    assert_eq!(focus_down_window(&wm), FocusCommand::FocusFirst);
}

#[test]
fn focus_up_from_top_master_wraps_to_bottom_stack() {
    let wm = mgr(vec![win(1, 0, 0), win(2, 0, 400), focused(3, 800, 0)], 1);
    assert_eq!(focus_up_window(&wm), FocusCommand::FocusWindow(2));
}

#[test]
fn focus_up_from_top_stack_wraps_to_top_master() {
    let wm = mgr(vec![focused(1, 0, 0), win(2, 0, 400), win(3, 800, 0)], 1);
    assert_eq!(focus_up_window(&wm), FocusCommand::FocusWindow(3));
}

#[test]
fn focus_up_elsewhere_moves_north() {
    let wm = mgr(vec![win(1, 0, 0), focused(2, 0, 400), win(3, 800, 0)], 1);
    assert_eq!(focus_up_window(&wm), FocusCommand::FocusNorth);
}

#[test]
fn focus_up_without_focus_goes_last() {
    let wm = mgr(vec![win(1, 0, 0), win(2, 800, 0)], 1);
    assert_eq!(focus_up_window(&wm), FocusCommand::FocusLast);
}

#[test]
fn close_stack_window_focuses_the_one_above_it() {
    let wm = mgr(vec![win(1, 0, 0), focused(2, 0, 400), win(3, 800, 0)], 1);
    assert_eq!(
        close_focused_window(&wm),
        CloseFocusedWindowPlan::Close { then_focus: Some(1) }
    );
}

#[test]
fn close_top_stack_window_focuses_the_one_below_it() {
    let wm = mgr(vec![focused(1, 0, 0), win(2, 0, 400), win(3, 800, 0)], 1);
    assert_eq!(
        close_focused_window(&wm),
        CloseFocusedWindowPlan::Close { then_focus: Some(2) }
    );
}

#[test]
fn close_last_stack_window_focuses_top_master() {
    let wm = mgr(vec![focused(1, 0, 0), win(2, 800, 0), win(3, 800, 400)], 2);
    assert_eq!(
        close_focused_window(&wm),
        CloseFocusedWindowPlan::Close { then_focus: Some(2) }
    );
}

#[test]
fn close_last_master_window_focuses_bottom_stack() {
    let wm = mgr(vec![win(1, 0, 0), win(2, 0, 400), focused(3, 800, 0)], 1);
    assert_eq!(
        close_focused_window(&wm),
        CloseFocusedWindowPlan::Close { then_focus: Some(2) }
    );
}

#[test]
fn close_without_focus_is_a_no_op() {
    let wm = mgr(vec![win(1, 0, 0), win(2, 800, 0)], 1);
    assert_eq!(close_focused_window(&wm), CloseFocusedWindowPlan::NoFocusedWindow);
}

#[test]
fn close_sole_window_hands_focus_nowhere() {
    let wm = mgr(vec![focused(1, 400, 0)], 1);
    // The only window is master; there is no other window to focus.
    assert_eq!(
        close_focused_window(&wm),
        CloseFocusedWindowPlan::Close { then_focus: None }
    );
}

#[test]
fn increase_count_caps_below_window_count() {
    assert_eq!(increase_master_window_count(1, 4), 2);
    assert_eq!(increase_master_window_count(3, 4), 3);
    assert_eq!(increase_master_window_count(1, 2), 1);
    assert_eq!(increase_master_window_count(1, 0), 1);
}

#[test]
fn decrease_count_stops_at_one() {
    assert_eq!(decrease_master_window_count(3), 2);
    assert_eq!(decrease_master_window_count(1), 1);
}

#[test]
fn window_moved_and_yabai_started_open_a_rebalance() {
    let wm = mgr(vec![win(1, 0, 0), win(2, 800, 0)], 1);
    let props = UpdateWindowsProps { target_num_master_windows: 1 };
    // The layout is already valid: both entries finish without directives.
    assert_eq!(window_moved(&wm, props), (None, RebalancePhase::Done));
    assert_eq!(yabai_started(&wm, props), (None, RebalancePhase::Done));
}

#[test]
fn created_window_joins_master_while_below_target() {
    let wm = mgr(vec![win(1, 0, 0), win(2, 800, 0), win(3, 800, 400)], 2);
    assert_eq!(
        window_created(&wm, 9, 2),
        RebalancePhase::MoveToMasterWarp { window_id: 9, resume: ResumePhase::Finish }
    );
}

#[test]
fn created_window_joins_stack_otherwise() {
    let wm = mgr(vec![win(1, 0, 0), win(2, 800, 0)], 1);
    assert_eq!(
        window_created(&wm, 9, 3),
        RebalancePhase::Columnize(AfterColumnize::MoveToStack {
            window_id: 9,
            resume: ResumePhase::Finish,
        })
    );
}

#[test]
fn state_defaults_every_space_to_one_master() {
    let state = State::default(&vec![3, 8]);
    assert_eq!(state.target_for_space(3), 1);
    assert_eq!(state.target_for_space(8), 1);
    // An unseen space also defaults to one.
    assert_eq!(state.target_for_space(42), 1);
}

#[test]
fn state_remembers_a_written_target() {
    let mut state = State::default(&vec![3]);
    state.set_num_master_windows(3, 4);
    assert_eq!(state.target_for_space(3), 4);
}

#[test]
fn validate_state_clamps_and_persists_the_target() {
    let mut wm = mgr(vec![win(1, 0, 0), win(2, 800, 0)], 5);
    let mut state = State::default(&vec![7]);
    wm.validate_state(&mut state);
    assert_eq!(wm.expected_current_num_master_windows, 2);
    assert_eq!(state.target_for_space(7), 2);

    let mut empty = mgr(vec![], 3);
    wm.validate_state(&mut state);
    empty.validate_state(&mut state);
    assert_eq!(empty.expected_current_num_master_windows, 1);
    assert_eq!(state.target_for_space(7), 1);
}
