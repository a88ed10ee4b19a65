use yabai_master_stack::check_valid_layout::{CheckValidLayoutPayload, CheckValidLayoutProps};
use yabai_master_stack::types::{Directive, Display, Frame, Space, SplitOrientation, Window};
use yabai_master_stack::update_windows::{RebalancePhase, UpdateWindowsProps};
use yabai_master_stack::window::WindowsManager;

fn win(id: usize, x: i64, y: i64) -> Window {
    Window {
        id,
        pid: id * 10,
        frame: Frame { x, y, w: 500, h: 500 },
        split: SplitOrientation::Vertical,
        focused: false,
        display: 1,
        space: 1,
        floating: false,
        minimized: false,
    }
}

fn mgr(windows: Vec<Window>, expected: usize) -> WindowsManager {
    WindowsManager {
        display: Display { id: 1, index: 1, frame: Frame { x: 0, y: 0, w: 1440, h: 900 } },
        space: Space { id: 7, index: 1 },
        expected_current_num_master_windows: expected,
        windows_data: windows,
    }
}

/// A toy model of the window-management service: each directive lands the
/// window where the rebalancer means it to go, and nothing else moves.
fn apply(windows: &mut Vec<Window>, directive: Directive) {
    match directive {
        Directive::WarpWest { window_id } => {
            let bottom = windows.iter().map(|w| w.frame.y).max().unwrap_or(0);
            for w in windows.iter_mut() {
                if w.id == window_id {
                    w.frame.x = 0;
                    w.frame.y = bottom + 100;
                }
            }
        }
        Directive::WarpEast { window_id } => {
            let right = windows.iter().map(|w| w.frame.x).max().unwrap_or(0);
            for w in windows.iter_mut() {
                if w.id == window_id {
                    w.frame.x = right;
                    w.frame.y = 700;
                }
            }
        }
        Directive::WarpOnto { window_id, onto_id } => {
            let target = windows.iter().find(|w| w.id == onto_id).map(|w| w.frame.x);
            if let Some(x) = target {
                for w in windows.iter_mut() {
                    if w.id == window_id {
                        w.frame.x = x;
                    }
                }
            }
        }
        Directive::ToggleSplit { window_id } => {
            for w in windows.iter_mut() {
                if w.id == window_id {
                    w.split = match w.split {
                        SplitOrientation::Horizontal => SplitOrientation::Vertical,
                        SplitOrientation::Vertical => SplitOrientation::Horizontal,
                    };
                }
            }
        }
    }
}

/// Drive the rebalancer against the toy service until it halts.
fn run(windows: Vec<Window>, expected: usize, target: usize) -> (Vec<Directive>, RebalancePhase) {
    let mut windows = windows;
    let mut phase = RebalancePhase::Start;
    let mut issued = Vec::new();
    let props = UpdateWindowsProps {
        target_num_master_windows: target,
    };
    for _ in 0..100 {
        let wm = mgr(windows.clone(), expected);
        let (directive, next) = wm.update_windows(props, phase);
        if let Some(d) = directive {
            issued.push(d);
            apply(&mut windows, d);
        }
        phase = next;
        match phase {
            RebalancePhase::Done | RebalancePhase::Failed(_) => break,
            _ => {}
        }
    }
    (issued, phase)
}

#[test]
fn rebalance_is_idempotent_on_a_valid_layout() {
    // One master at 800, one stack window: already valid for target 1.
    let windows = vec![win(1, 0, 0), win(2, 800, 0)];
    let (issued, end) = run(windows, 1, 1);
    assert_eq!(issued.len(), 0);
    assert_eq!(end, RebalancePhase::Done);
}

#[test]
fn rebalance_on_empty_snapshot_does_nothing() {
    let (issued, end) = run(vec![], 1, 3);
    assert_eq!(issued.len(), 0);
    assert_eq!(end, RebalancePhase::Done);
}

#[test]
fn middle_window_is_warped_west_into_the_stack() {
    // Windows at x = 0, 400, 800, target 1: the window at 400 is middle and
    // must end up flush with the left edge.
    let windows = vec![win(1, 0, 0), win(2, 400, 0), win(3, 800, 0)];
    let (issued, end) = run(windows.clone(), 1, 1);
    assert_eq!(end, RebalancePhase::Done);
    assert_eq!(
        issued,
        vec![
            Directive::WarpWest { window_id: 2 },
            Directive::WarpOnto {
                window_id: 2,
                onto_id: 1,
            },
        ]
    );

    // Replay the directives and check the final layout is 1 master / 2 stack.
    let mut final_windows = windows;
    for d in issued {
        apply(&mut final_windows, d);
    }
    let wm = mgr(final_windows, 1);
    let verdict = wm.check_valid_layout(CheckValidLayoutProps {
        target_num_master_windows: Some(1),
    });
    assert_eq!(verdict, CheckValidLayoutPayload::Success);
    assert_eq!(wm.get_master_windows().len(), 1);
    assert_eq!(wm.get_stack_windows().len(), 2);
    assert_eq!(wm.get_master_windows()[0].id, 3);
}

#[test]
fn oversized_master_region_is_shrunk() {
    // Two windows share the master column at 800, target 1: the bottom one
    // moves to the stack.
    let windows = vec![win(1, 0, 0), win(2, 800, 0), win(3, 800, 400)];
    let (issued, end) = run(windows, 2, 1);
    assert_eq!(end, RebalancePhase::Done);
    assert!(issued.contains(&Directive::WarpWest { window_id: 3 }));
}

#[test]
fn flush_left_snapshot_gets_a_stack_seeded() {
    // Everything flush left with target 1 of 3: no stack exists, so the
    // rebalancer starts by toggling the top-right window's split.
    let mut w1 = win(1, 0, 0);
    w1.split = SplitOrientation::Horizontal;
    let windows = vec![w1, win(2, 0, 300), win(3, 0, 600)];
    let wm = mgr(windows, 1);
    let props = UpdateWindowsProps {
        target_num_master_windows: 1,
    };
    let (d0, p1) = wm.update_windows(props, RebalancePhase::Start);
    assert_eq!(d0, None);
    assert_eq!(p1, RebalancePhase::EnsureStack);
    let (d1, p2) = wm.update_windows(props, p1);
    assert_eq!(d1, None);
    assert_eq!(p2, RebalancePhase::CreateStack);
    let (d2, _) = wm.update_windows(props, p2);
    assert_eq!(d2, Some(Directive::ToggleSplit { window_id: 1 }));
}

#[test]
fn columnize_forces_vertical_splits_left_of_the_line() {
    let mut w1 = win(1, 0, 0);
    w1.split = SplitOrientation::Horizontal;
    let mut w2 = win(2, 400, 0);
    w2.split = SplitOrientation::Horizontal;
    let wm = mgr(vec![w1, w2, win(3, 800, 0)], 1);
    // Two windows left of the line at 800; the first one with a horizontal
    // split is the next toggle.
    let candidate = wm.columnize_stack_windows().unwrap();
    assert_eq!(candidate.id, 1);

    // With a single window left of the line the pass does not run.
    let mut only = win(1, 0, 0);
    only.split = SplitOrientation::Horizontal;
    let wm = mgr(vec![only, win(3, 800, 0)], 1);
    assert!(wm.columnize_stack_windows().is_none());
}

#[test]
fn every_middle_window_drains_into_the_stack() {
    // Two middle windows at 300 and 500: each is repaired in turn, first
    // found first, and the master column at 800 never moves.
    let windows = vec![win(1, 0, 0), win(2, 300, 0), win(3, 500, 0), win(4, 800, 0)];
    let (issued, end) = run(windows.clone(), 1, 1);
    assert_eq!(end, RebalancePhase::Done);
    assert_eq!(
        issued,
        vec![
            Directive::WarpWest { window_id: 2 },
            Directive::WarpOnto { window_id: 2, onto_id: 1 },
            Directive::WarpWest { window_id: 3 },
            Directive::WarpOnto { window_id: 3, onto_id: 1 },
        ]
    );
    let mut final_windows = windows;
    for d in issued {
        apply(&mut final_windows, d);
    }
    let wm = mgr(final_windows, 1);
    assert_eq!(wm.get_dividing_line_x_coordinate(), 800);
    assert_eq!(wm.get_stack_windows().len(), 3);
}

#[test]
fn two_window_move_to_stack_warps_west_and_stops() {
    // One middle window and one master: the middle window is warped west;
    // with only two windows there is no warp onto a stack anchor.
    let windows = vec![win(1, 100, 0), win(2, 800, 0)];
    let (issued, end) = run(windows, 1, 1);
    assert_eq!(end, RebalancePhase::Done);
    assert_eq!(issued, vec![Directive::WarpWest { window_id: 1 }]);
}

#[test]
fn two_window_move_to_stack_normalizes_a_horizontal_split() {
    let mut w1 = win(1, 100, 0);
    w1.split = SplitOrientation::Horizontal;
    let windows = vec![w1, win(2, 800, 0)];
    let (issued, end) = run(windows, 1, 1);
    assert_eq!(end, RebalancePhase::Done);
    assert_eq!(
        issued,
        vec![
            Directive::WarpWest { window_id: 1 },
            Directive::ToggleSplit { window_id: 1 },
        ]
    );
}

#[test]
fn move_to_master_warps_onto_the_widest_master() {
    // A window that came out of its eastward warp left of the line is
    // warped onto the widest master window.
    let mut wide = win(2, 800, 0);
    wide.frame.w = 640;
    let wm = mgr(vec![win(1, 400, 100), wide, win(3, 800, 400)], 2);
    let props = UpdateWindowsProps { target_num_master_windows: 2 };
    let phase = RebalancePhase::MoveToMasterCheck {
        window_id: 1,
        resume: yabai_master_stack::update_windows::ResumePhase::Grow,
    };
    let (directive, next) = wm.update_windows(props, phase);
    assert_eq!(
        directive,
        Some(Directive::WarpOnto { window_id: 1, onto_id: 2 })
    );
    assert_eq!(
        next,
        RebalancePhase::MoveToMasterPlace {
            window_id: 1,
            resume: yabai_master_stack::update_windows::ResumePhase::Grow,
        }
    );
}

#[test]
fn move_to_master_place_forces_a_horizontal_split() {
    // The moved window kept a vertical split: one toggle, then the pass
    // resumes.
    let wm = mgr(vec![win(1, 800, 100), win(2, 800, 0), win(3, 0, 0)], 2);
    let props = UpdateWindowsProps { target_num_master_windows: 2 };
    let phase = RebalancePhase::MoveToMasterPlace {
        window_id: 1,
        resume: yabai_master_stack::update_windows::ResumePhase::Grow,
    };
    let (directive, next) = wm.update_windows(props, phase);
    assert_eq!(directive, Some(Directive::ToggleSplit { window_id: 1 }));
    assert_eq!(next, RebalancePhase::Grow);
}

#[test]
fn a_vanished_window_ends_its_move_quietly() {
    let wm = mgr(vec![win(1, 0, 0), win(2, 800, 0)], 1);
    let props = UpdateWindowsProps { target_num_master_windows: 1 };
    let phase = RebalancePhase::MoveToStackCheck {
        window_id: 99,
        resume: yabai_master_stack::update_windows::ResumePhase::Drain,
    };
    let (directive, next) = wm.update_windows(props, phase);
    assert_eq!(directive, None);
    assert_eq!(next, RebalancePhase::Drain);
}

#[test]
fn undersized_master_region_grows_from_the_stack() {
    // A valid 1-master layout asked to reach 2 masters: the top stack
    // window is warped east.
    let windows = vec![win(1, 0, 0), win(2, 0, 300), win(3, 800, 0)];
    let (issued, end) = run(windows, 1, 2);
    assert_eq!(end, RebalancePhase::Done);
    assert_eq!(issued[0], Directive::WarpEast { window_id: 1 });
}
