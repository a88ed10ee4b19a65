use yabai_master_stack::check_valid_layout::{
    CheckValidLayoutPayload, CheckValidLayoutProps, LayoutViolation,
};
use yabai_master_stack::types::{Display, Frame, Space, SplitOrientation, Window};
use yabai_master_stack::window::{
    create_windows_manager, filter_windows_data, GetWindowDataProps, WindowsManager,
};

fn win(id: usize, x: i64, y: i64) -> Window {
    Window {
        id,
        pid: id * 10,
        frame: Frame { x, y, w: 500, h: 500 },
        split: SplitOrientation::Vertical,
        focused: false,
        display: 1,
        space: 1,
        floating: false,
        minimized: false,
    }
}

fn mgr(windows: Vec<Window>, expected: usize) -> WindowsManager {
    WindowsManager {
        display: Display { id: 1, index: 1, frame: Frame { x: 0, y: 0, w: 1440, h: 900 } },
        space: Space { id: 7, index: 1 },
        expected_current_num_master_windows: expected,
        windows_data: windows,
    }
}

#[test]
fn dividing_line_with_target_one_is_top_right_x() {
    // Three windows at x = 0, 400, 800, all in the top row; target 1.
    let wm = mgr(vec![win(1, 0, 0), win(2, 400, 0), win(3, 800, 0)], 1);
    assert_eq!(wm.get_dividing_line_x_coordinate(), 800);
}

#[test]
fn dividing_line_is_deterministic() {
    let wm = mgr(vec![win(1, 0, 0), win(2, 400, 0), win(3, 800, 0)], 1);
    let first = wm.get_dividing_line_x_coordinate();
    let second = wm.get_dividing_line_x_coordinate();
    assert_eq!(first, second);
}

#[test]
fn dividing_line_pair_rule_resolves_to_shared_column() {
    // Two windows share x = 500 (one above the other); one window each at
    // x = 0 and x = 900. The top-right window is the upper one at 500, the
    // window at 900 counts as already master, and the pair rule fires at
    // x = 500 with target 2.
    let wm = mgr(
        vec![win(1, 500, 0), win(2, 500, 300), win(3, 0, 100), win(4, 900, 50)],
        2,
    );
    assert_eq!(wm.get_dividing_line_x_coordinate(), 500);
}

#[test]
fn classification_of_three_window_row() {
    let wm = mgr(vec![win(1, 0, 0), win(2, 400, 0), win(3, 800, 0)], 1);
    let w1 = wm.windows_data[0];
    let w2 = wm.windows_data[1];
    let w3 = wm.windows_data[2];
    assert!(wm.is_stack_window(&w1));
    assert!(!wm.is_master_window(&w1));
    assert!(wm.is_middle_window(&w2));
    assert!(wm.is_master_window(&w3));
    assert!(!wm.is_middle_window(&w3));
    assert_eq!(wm.get_master_windows().len(), 1);
    assert_eq!(wm.get_stack_windows().len(), 1);
    assert_eq!(wm.get_middle_windows().len(), 1);
    assert_eq!(wm.get_middle_windows()[0].id, 2);
}

#[test]
fn middle_window_fails_validation() {
    let wm = mgr(vec![win(1, 0, 0), win(2, 400, 0), win(3, 800, 0)], 1);
    let verdict = wm.check_valid_layout(CheckValidLayoutProps {
        target_num_master_windows: Some(1),
    });
    assert_eq!(
        verdict,
        CheckValidLayoutPayload::Failure(LayoutViolation::MiddleWindowDetected { window_id: 2 })
    );
}

#[test]
fn wrong_master_count_is_reported_with_counts() {
    let wm = mgr(vec![win(1, 0, 0), win(2, 400, 0), win(3, 800, 0)], 1);
    let verdict = wm.check_valid_layout(CheckValidLayoutProps {
        target_num_master_windows: Some(2),
    });
    assert_eq!(
        verdict,
        CheckValidLayoutPayload::Failure(LayoutViolation::WrongMasterCount {
            observed: 1,
            expected: 2,
        })
    );
}

#[test]
fn empty_snapshot_is_valid_for_any_target() {
    let wm = mgr(vec![], 1);
    for target in [1usize, 2, 50] {
        let verdict = wm.check_valid_layout(CheckValidLayoutProps {
            target_num_master_windows: Some(target),
        });
        assert_eq!(verdict, CheckValidLayoutPayload::Success);
    }
}

#[test]
fn flat_column_is_valid_when_target_reaches_window_count() {
    let wm = mgr(vec![win(1, 0, 0), win(2, 0, 300), win(3, 0, 600)], 3);
    let verdict = wm.check_valid_layout(CheckValidLayoutProps {
        target_num_master_windows: Some(3),
    });
    assert_eq!(verdict, CheckValidLayoutPayload::Success);
}

#[test]
fn target_at_window_count_needs_every_window_flush_left() {
    let wm = mgr(vec![win(1, 0, 0), win(2, 0, 300), win(3, 100, 600)], 3);
    let verdict = wm.check_valid_layout(CheckValidLayoutProps {
        target_num_master_windows: Some(3),
    });
    assert_eq!(
        verdict,
        CheckValidLayoutPayload::Failure(LayoutViolation::NotAllTouchingLeftEdge)
    );
}

#[test]
fn validator_defaults_to_session_target() {
    // Valid for the session's remembered target (1), invalid for 2.
    let wm = mgr(vec![win(1, 0, 0), win(2, 800, 0)], 1);
    let verdict = wm.check_valid_layout(CheckValidLayoutProps {
        target_num_master_windows: None,
    });
    assert_eq!(verdict, CheckValidLayoutPayload::Success);
}

#[test]
fn top_right_window_prefers_lowest_y_then_greatest_x() {
    let wm = mgr(vec![win(1, 0, 0), win(2, 800, 100), win(3, 400, 0)], 1);
    let tr = wm.get_top_right_window().unwrap();
    assert_eq!(tr.id, 3);
}

#[test]
fn top_right_window_tie_breaks_by_least_id() {
    let mut a = win(5, 400, 0);
    let mut b = win(2, 400, 0);
    a.frame.w = 100;
    b.frame.w = 100;
    let wm = mgr(vec![a, b], 1);
    assert_eq!(wm.get_top_right_window().unwrap().id, 2);
}

#[test]
fn widest_window_tie_breaks_by_least_id() {
    let mut a = win(9, 0, 0);
    let mut b = win(4, 0, 300);
    a.frame.w = 700;
    b.frame.w = 700;
    let wm = mgr(vec![a, b, win(7, 800, 0)], 1);
    assert_eq!(wm.get_widest_stack_window().unwrap().id, 4);
}

#[test]
fn stack_exists_only_when_top_right_is_off_the_edge() {
    let flush = mgr(vec![win(1, 0, 0), win(2, 0, 300)], 1);
    assert!(!flush.does_stack_exist());
    let split = mgr(vec![win(1, 0, 0), win(2, 800, 0)], 1);
    assert!(split.does_stack_exist());
    let empty = mgr(vec![], 1);
    assert!(!empty.does_stack_exist());
}

#[test]
fn window_lookup_by_id_and_pid() {
    let wm = mgr(vec![win(1, 0, 0), win(2, 800, 0)], 1);
    let by_id = wm.get_window_data(GetWindowDataProps::WindowId(2));
    assert_eq!(by_id.frame.x, 800);
    let by_pid = wm.get_window_data(GetWindowDataProps::ProcessId(10));
    assert_eq!(by_pid.id, 1);
    assert!(wm.find_window_by_id(99).is_none());
    let stale = win(99, 0, 0);
    assert!(wm.get_updated_window_data(&stale).is_none());
}

#[test]
fn focused_window_is_first_focused() {
    let mut a = win(1, 0, 0);
    let mut b = win(2, 800, 0);
    assert!(mgr(vec![a, b], 1).get_focused_window().is_none());
    a.focused = true;
    b.focused = true;
    let wm = mgr(vec![a, b], 1);
    assert_eq!(wm.get_focused_window().unwrap().id, 1);
}

#[test]
fn top_and_bottom_selections() {
    let wm = mgr(vec![win(1, 0, 0), win(2, 0, 300), win(3, 800, 0)], 1);
    assert_eq!(wm.get_top_stack_window().unwrap().id, 1);
    assert_eq!(wm.get_bottom_stack_window().unwrap().id, 2);
    assert_eq!(wm.get_top_master_window().unwrap().id, 3);
    assert_eq!(wm.get_bottom_master_window().unwrap().id, 3);
    assert_eq!(wm.get_top_left_window().id, 1);
    let stacks = wm.get_stack_windows();
    assert!(wm.is_top_window(&stacks, &wm.windows_data[0]));
    assert!(wm.is_bottom_window(&stacks, &wm.windows_data[1]));
}

#[test]
fn create_windows_manager_clamps_target() {
    let d = Display { id: 1, index: 1, frame: Frame { x: 0, y: 0, w: 1440, h: 900 } };
    let s = Space { id: 7, index: 1 };
    let wm = create_windows_manager(d, s, 5, vec![win(1, 0, 0), win(2, 800, 0)]).unwrap();
    assert_eq!(wm.expected_current_num_master_windows, 2);
    let wm = create_windows_manager(d, s, 0, vec![win(1, 0, 0)]).unwrap();
    assert_eq!(wm.expected_current_num_master_windows, 1);
    let wm = create_windows_manager(d, s, 4, vec![]).unwrap();
    assert_eq!(wm.expected_current_num_master_windows, 1);
    assert!(create_windows_manager(d, s, 1, vec![win(1, 0, 0), win(1, 800, 0)]).is_none());
}

#[test]
fn snapshot_filter_drops_windows_outside_the_tiling() {
    let keep = win(1, 0, 0);
    let mut floating = win(2, 100, 0);
    floating.floating = true;
    let mut minimized = win(3, 200, 0);
    minimized.minimized = true;
    let mut other_display = win(4, 300, 0);
    other_display.display = 2;
    let mut other_space = win(5, 400, 0);
    other_space.space = 3;
    let all = vec![keep, floating, minimized, other_display, other_space];
    let kept = filter_windows_data(&all, 1, 1);
    assert_eq!(kept.len(), 1);
    assert_eq!(kept[0].id, 1);
}

#[test]
fn with_target_replaces_only_the_expected_count() {
    let wm = mgr(vec![win(1, 0, 0), win(2, 800, 0)], 1);
    let wm2 = wm.with_target(2);
    assert_eq!(wm2.expected_current_num_master_windows, 2);
    assert_eq!(wm2.windows_data.len(), 2);
    assert_eq!(wm2.space.id, 7);
}
