//! The rebalancer: a state machine that restores the master-stack discipline.
//!
//! Each call of [`WindowsManager::update_windows`] makes one decision from
//! the current snapshot: it returns at most one directive for the
//! window-management service, together with the next state. The caller
//! executes the directive, refreshes the snapshot, and calls again with the
//! next state, until the machine reports [`RebalancePhase::Done`] or
//! [`RebalancePhase::Failed`]. A failure after rebalancing is a logic
//! defect, not a recoverable condition: the caller is expected to abort.

use vstd::prelude::*;

use crate::check_valid_layout::{
    check_valid_layout_spec, lemma_check_valid_layout_success_iff, valid_layout,
    CheckValidLayoutPayload, CheckValidLayoutProps, LayoutViolation,
};
use crate::order::{pick_of, pick_window, Pick};
use crate::types::{Directive, SplitOrientation, Window};
use crate::window::{find_by_id, WindowsManager};

verus! {

/// The target number of master windows a rebalance aims for.
#[derive(Clone, Copy, PartialEq, Eq, Structural, Debug)]
pub struct UpdateWindowsProps {
    pub target_num_master_windows: usize,
}

/// Which top-level pass a move sub-procedure returns to.
#[derive(Clone, Copy, PartialEq, Eq, Structural, Debug)]
pub enum ResumePhase {
    Shrink,
    Drain,
    Grow,
    /// The move was requested on its own, outside a rebalance pass.
    Finish,
}

/// What follows once the columnize pass has nothing left to toggle.
#[derive(Clone, Copy, PartialEq, Eq, Structural, Debug)]
pub enum AfterColumnize {
    /// The pass ran while seeding a stack; continue with the shrink pass.
    CreatedStack,
    /// The pass opened a move of `window_id` to the stack.
    MoveToStack { window_id: usize, resume: ResumePhase },
}

/// The rebalancer's state between directives.
#[derive(Clone, Copy, PartialEq, Eq, Structural, Debug)]
pub enum RebalancePhase {
    /// Entry: a valid layout ends the rebalance before any directive.
    Start,
    /// Seed a master/stack boundary if none exists.
    EnsureStack,
    /// Make the top-right window a vertical split, then columnize.
    CreateStack,
    /// Force every window left of the dividing line to a vertical split,
    /// one toggle at a time.
    Columnize(AfterColumnize),
    /// Moving a window to the stack: stop if it is already there.
    MoveToStackCheck { window_id: usize, resume: ResumePhase },
    /// The window was warped west; settle it among the stack windows.
    MoveToStackAfterWarp { window_id: usize, resume: ResumePhase },
    /// The window was warped onto a stack window; normalize its split.
    MoveToStackPlace { window_id: usize, resume: ResumePhase },
    /// Moving a window to the master region: warp it east first.
    MoveToMasterWarp { window_id: usize, resume: ResumePhase },
    /// Stop if the warped window is already master, else warp it onto the
    /// widest master window.
    MoveToMasterCheck { window_id: usize, resume: ResumePhase },
    /// The window joined the master region; normalize its split.
    MoveToMasterPlace { window_id: usize, resume: ResumePhase },
    /// Move bottom-most master windows to the stack while there are too
    /// many.
    Shrink,
    /// Move middle windows to master while master windows are missing, else
    /// to the stack.
    Drain,
    /// Move top stack windows to master while master windows are missing.
    Grow,
    /// Re-validate; failure here is a logic defect.
    Verify,
    /// A standalone move (outside a rebalance pass) has finished.
    MoveComplete,
    Done,
    Failed(LayoutViolation),
}

/// The phase a move sub-procedure resumes at.
pub open spec fn resume_phase(r: ResumePhase) -> RebalancePhase {
    match r {
        ResumePhase::Shrink => RebalancePhase::Shrink,
        ResumePhase::Drain => RebalancePhase::Drain,
        ResumePhase::Grow => RebalancePhase::Grow,
        ResumePhase::Finish => RebalancePhase::MoveComplete,
    }
}

/// The phase that follows a finished columnize pass.
pub open spec fn after_columnize(next: AfterColumnize) -> RebalancePhase {
    match next {
        AfterColumnize::CreatedStack => RebalancePhase::Shrink,
        AfterColumnize::MoveToStack { window_id, resume } => RebalancePhase::MoveToStackCheck {
            window_id,
            resume,
        },
    }
}

/// The first window left of the line whose split is not yet vertical.
pub open spec fn find_pending_columnize(ws: Seq<Window>, line: int) -> Option<Window>
    decreases ws.len(),
{
    if ws.len() == 0 {
        Option::None
    } else if (ws[0].frame.x as int) < line && ws[0].split == SplitOrientation::Horizontal {
        Option::Some(ws[0])
    } else {
        find_pending_columnize(ws.drop_first(), line)
    }
}

/// How many windows sit strictly left of the line.
pub open spec fn left_of_line_count(ws: Seq<Window>, line: int) -> nat {
    ws.filter(|w: Window| (w.frame.x as int) < line).len()
}

impl WindowsManager {
    /// The next toggle of the columnize pass, if one is due: the pass only
    /// runs while more than one window sits left of the line.
    pub open spec fn spec_columnize_candidate(self) -> Option<Window>
        recommends
            self.ws().len() >= 1,
    {
        if left_of_line_count(self.ws(), self.line()) > 1 {
            find_pending_columnize(self.ws(), self.line())
        } else {
            Option::None
        }
    }
}

/// One decision of the rebalancer: the directive to issue now (if any) and
/// the state to continue from once the snapshot has been refreshed.
pub open spec fn step_spec(m: WindowsManager, target: usize, phase: RebalancePhase) -> (
    Option<Directive>,
    RebalancePhase,
) {
    let n = m.ws().len();
    match phase {
        RebalancePhase::Start => {
            if valid_layout(m, target) {
                (Option::None, RebalancePhase::Done)
            } else {
                (Option::None, RebalancePhase::EnsureStack)
            }
        },
        RebalancePhase::EnsureStack => {
            if n == 0 {
                (Option::None, RebalancePhase::Verify)
            } else if target != n && !m.spec_stack_exists() {
                (Option::None, RebalancePhase::CreateStack)
            } else {
                (Option::None, RebalancePhase::Shrink)
            }
        },
        RebalancePhase::CreateStack => {
            if n == 0 {
                (Option::None, RebalancePhase::Verify)
            } else {
                let tr = pick_of(m.ws(), Pick::TopRight);
                if tr.split == SplitOrientation::Horizontal {
                    (
                        Option::Some(Directive::ToggleSplit { window_id: tr.id }),
                        RebalancePhase::Columnize(AfterColumnize::CreatedStack),
                    )
                } else {
                    (Option::None, RebalancePhase::Columnize(AfterColumnize::CreatedStack))
                }
            }
        },
        RebalancePhase::Columnize(next) => {
            if n == 0 {
                (Option::None, RebalancePhase::Verify)
            } else {
                match m.spec_columnize_candidate() {
                    Option::Some(w) => (
                        Option::Some(Directive::ToggleSplit { window_id: w.id }),
                        RebalancePhase::Columnize(next),
                    ),
                    Option::None => (Option::None, after_columnize(next)),
                }
            }
        },
        RebalancePhase::MoveToStackCheck { window_id, resume } => {
            if n == 0 {
                (Option::None, RebalancePhase::Verify)
            } else {
                match find_by_id(m.ws(), window_id) {
                    Option::None => (Option::None, resume_phase(resume)),
                    Option::Some(win) => {
                        if m.spec_is_stack(win) {
                            (Option::None, resume_phase(resume))
                        } else {
                            (
                                Option::Some(Directive::WarpWest { window_id }),
                                RebalancePhase::MoveToStackAfterWarp { window_id, resume },
                            )
                        }
                    },
                }
            }
        },
        RebalancePhase::MoveToStackAfterWarp { window_id, resume } => {
            if n == 0 {
                (Option::None, RebalancePhase::Verify)
            } else {
                match find_by_id(m.ws(), window_id) {
                    Option::None => (Option::None, resume_phase(resume)),
                    Option::Some(win) => {
                        if n == 2 {
                            if win.split == SplitOrientation::Horizontal {
                                (
                                    Option::Some(Directive::ToggleSplit { window_id }),
                                    resume_phase(resume),
                                )
                            } else {
                                (Option::None, resume_phase(resume))
                            }
                        } else if m.spec_stacks().len() == 0 {
                            (Option::None, resume_phase(resume))
                        } else {
                            let s = pick_of(m.spec_stacks(), Pick::Widest);
                            if s.id == window_id {
                                (Option::None, resume_phase(resume))
                            } else {
                                (
                                    Option::Some(
                                        Directive::WarpOnto { window_id, onto_id: s.id },
                                    ),
                                    RebalancePhase::MoveToStackPlace { window_id, resume },
                                )
                            }
                        }
                    },
                }
            }
        },
        RebalancePhase::MoveToStackPlace { window_id, resume } => {
            if n == 0 {
                (Option::None, RebalancePhase::Verify)
            } else {
                match find_by_id(m.ws(), window_id) {
                    Option::None => (Option::None, resume_phase(resume)),
                    Option::Some(win) => {
                        if win.split == SplitOrientation::Horizontal {
                            (
                                Option::Some(Directive::ToggleSplit { window_id }),
                                resume_phase(resume),
                            )
                        } else {
                            (Option::None, resume_phase(resume))
                        }
                    },
                }
            }
        },
        RebalancePhase::MoveToMasterWarp { window_id, resume } => {
            if n == 0 {
                (Option::None, RebalancePhase::Verify)
            } else {
                (
                    Option::Some(Directive::WarpEast { window_id }),
                    RebalancePhase::MoveToMasterCheck { window_id, resume },
                )
            }
        },
        RebalancePhase::MoveToMasterCheck { window_id, resume } => {
            if n == 0 {
                (Option::None, RebalancePhase::Verify)
            } else {
                match find_by_id(m.ws(), window_id) {
                    Option::None => (Option::None, resume_phase(resume)),
                    Option::Some(win) => {
                        if m.spec_is_master(win) {
                            (Option::None, resume_phase(resume))
                        } else if m.spec_masters().len() == 0 {
                            (Option::None, resume_phase(resume))
                        } else {
                            let mw = pick_of(m.spec_masters(), Pick::Widest);
                            if mw.id == window_id {
                                (Option::None, resume_phase(resume))
                            } else {
                                (
                                    Option::Some(
                                        Directive::WarpOnto { window_id, onto_id: mw.id },
                                    ),
                                    RebalancePhase::MoveToMasterPlace { window_id, resume },
                                )
                            }
                        }
                    },
                }
            }
        },
        RebalancePhase::MoveToMasterPlace { window_id, resume } => {
            if n == 0 {
                (Option::None, RebalancePhase::Verify)
            } else {
                match find_by_id(m.ws(), window_id) {
                    Option::None => (Option::None, resume_phase(resume)),
                    Option::Some(win) => {
                        if win.split == SplitOrientation::Vertical {
                            (
                                Option::Some(Directive::ToggleSplit { window_id }),
                                resume_phase(resume),
                            )
                        } else {
                            (Option::None, resume_phase(resume))
                        }
                    },
                }
            }
        },
        RebalancePhase::Shrink => {
            if n == 0 {
                (Option::None, RebalancePhase::Verify)
            } else if m.spec_masters().len() > target {
                let w = pick_of(m.spec_masters(), Pick::Bottom);
                (
                    Option::None,
                    RebalancePhase::Columnize(
                        AfterColumnize::MoveToStack {
                            window_id: w.id,
                            resume: ResumePhase::Shrink,
                        },
                    ),
                )
            } else {
                (Option::None, RebalancePhase::Drain)
            }
        },
        RebalancePhase::Drain => {
            if n == 0 {
                (Option::None, RebalancePhase::Verify)
            } else if m.spec_middles().len() > 0 {
                let w = m.spec_middles()[0];
                if m.spec_masters().len() < target {
                    (
                        Option::None,
                        RebalancePhase::MoveToMasterWarp {
                            window_id: w.id,
                            resume: ResumePhase::Drain,
                        },
                    )
                } else {
                    (
                        Option::None,
                        RebalancePhase::Columnize(
                            AfterColumnize::MoveToStack {
                                window_id: w.id,
                                resume: ResumePhase::Drain,
                            },
                        ),
                    )
                }
            } else {
                (Option::None, RebalancePhase::Grow)
            }
        },
        RebalancePhase::Grow => {
            if n == 0 {
                (Option::None, RebalancePhase::Verify)
            } else if m.spec_masters().len() < target && m.spec_stacks().len() > 0 {
                let w = pick_of(m.spec_stacks(), Pick::Top);
                (
                    Option::None,
                    RebalancePhase::MoveToMasterWarp {
                        window_id: w.id,
                        resume: ResumePhase::Grow,
                    },
                )
            } else {
                (Option::None, RebalancePhase::Verify)
            }
        },
        RebalancePhase::Verify => {
            match check_valid_layout_spec(m, target) {
                CheckValidLayoutPayload::Success => (Option::None, RebalancePhase::Done),
                CheckValidLayoutPayload::Failure(v) => (
                    Option::None,
                    RebalancePhase::Failed(v),
                ),
            }
        },
        RebalancePhase::MoveComplete => (Option::None, RebalancePhase::MoveComplete),
        RebalancePhase::Done => (Option::None, RebalancePhase::Done),
        RebalancePhase::Failed(v) => (Option::None, RebalancePhase::Failed(v)),
    }
}

impl WindowsManager {
    /// Count the windows strictly left of the line.
    fn count_left_of_line(&self, line: i64) -> (r: usize)
        ensures
            r == left_of_line_count(self.ws(), line as int),
    {
        let mut count: usize = 0;
        let mut i: usize = 0;
        while i < self.windows_data.len()
            invariant
                i <= self.ws().len(),
                count == left_of_line_count(self.ws().take(i as int), line as int),
                count <= i,
            decreases self.ws().len() - i,
        {
            proof {
                let prev = self.ws().take(i as int);
                let wv = self.ws()[i as int];
                assert(self.ws().take(i + 1) =~= prev.push(wv));
                lemma_left_of_line_push(prev, wv, line as int);
            }
            if self.windows_data[i].frame.x < line {
                count = count + 1;
            }
            i = i + 1;
        }
        proof {
            assert(self.ws().take(self.ws().len() as int) =~= self.ws());
        }
        count
    }

    /// Find the first window left of the line whose split is not vertical.
    fn find_columnize_pending(&self, line: i64) -> (r: Option<Window>)
        ensures
            r == find_pending_columnize(self.ws(), line as int),
    {
        let mut i: usize = 0;
        proof {
            assert(self.ws().skip(0) =~= self.ws());
        }
        while i < self.windows_data.len()
            invariant
                i <= self.ws().len(),
                find_pending_columnize(self.ws(), line as int) == find_pending_columnize(
                    self.ws().skip(i as int),
                    line as int,
                ),
            decreases self.ws().len() - i,
        {
            proof {
                assert(self.ws().skip(i as int)[0] == self.ws()[i as int]);
                assert(self.ws().skip(i as int).drop_first() =~= self.ws().skip(i + 1));
            }
            let w = self.windows_data[i];
            if w.frame.x < line && matches!(w.split, SplitOrientation::Horizontal) {
                return Some(w);
            }
            i = i + 1;
        }
        proof {
            assert(self.ws().skip(self.ws().len() as int) =~= Seq::<Window>::empty());
        }
        None
    }

    /// The next toggle of the columnize pass, if one is due.
    pub fn columnize_stack_windows(&self) -> (r: Option<Window>)
        requires
            self.ws().len() >= 1,
        ensures
            r == self.spec_columnize_candidate(),
    {
        let line = self.get_dividing_line_x_coordinate();
        if self.count_left_of_line(line) > 1 {
            self.find_columnize_pending(line)
        } else {
            None
        }
    }

    /// One decision of the rebalancer; see [`step_spec`] for the decision it
    /// returns in each state.
    pub fn update_windows(&self, props: UpdateWindowsProps, phase: RebalancePhase) -> (r: (
        Option<Directive>,
        RebalancePhase,
    ))
        ensures
            r == step_spec(*self, props.target_num_master_windows, phase),
    {
        let target = props.target_num_master_windows;
        let n = self.windows_data.len();
        match phase {
            RebalancePhase::Start => {
                let verdict = self.check_valid_layout(
                    CheckValidLayoutProps { target_num_master_windows: Some(target) },
                );
                match verdict {
                    CheckValidLayoutPayload::Success => (None, RebalancePhase::Done),
                    CheckValidLayoutPayload::Failure(_) => (None, RebalancePhase::EnsureStack),
                }
            },
            RebalancePhase::EnsureStack => {
                if n == 0 {
                    (None, RebalancePhase::Verify)
                } else if target != n && !self.does_stack_exist() {
                    (None, RebalancePhase::CreateStack)
                } else {
                    (None, RebalancePhase::Shrink)
                }
            },
            RebalancePhase::CreateStack => {
                if n == 0 {
                    (None, RebalancePhase::Verify)
                } else {
                    let tr = pick_window(&self.windows_data, Pick::TopRight);
                    if matches!(tr.split, SplitOrientation::Horizontal) {
                        (
                            Some(Directive::ToggleSplit { window_id: tr.id }),
                            RebalancePhase::Columnize(AfterColumnize::CreatedStack),
                        )
                    } else {
                        (None, RebalancePhase::Columnize(AfterColumnize::CreatedStack))
                    }
                }
            },
            RebalancePhase::Columnize(next) => {
                if n == 0 {
                    (None, RebalancePhase::Verify)
                } else {
                    match self.columnize_stack_windows() {
                        Some(w) => (
                            Some(Directive::ToggleSplit { window_id: w.id }),
                            RebalancePhase::Columnize(next),
                        ),
                        None => {
                            match next {
                                AfterColumnize::CreatedStack => (None, RebalancePhase::Shrink),
                                AfterColumnize::MoveToStack { window_id, resume } => (
                                    None,
                                    RebalancePhase::MoveToStackCheck { window_id, resume },
                                ),
                            }
                        },
                    }
                }
            },
            RebalancePhase::MoveToStackCheck { window_id, resume } => {
                if n == 0 {
                    (None, RebalancePhase::Verify)
                } else {
                    match self.find_window_by_id(window_id) {
                        None => (None, self.resume_at(resume)),
                        Some(win) => {
                            if self.is_stack_window(&win) {
                                (None, self.resume_at(resume))
                            } else {
                                (
                                    Some(Directive::WarpWest { window_id }),
                                    RebalancePhase::MoveToStackAfterWarp { window_id, resume },
                                )
                            }
                        },
                    }
                }
            },
            RebalancePhase::MoveToStackAfterWarp { window_id, resume } => {
                if n == 0 {
                    (None, RebalancePhase::Verify)
                } else {
                    match self.find_window_by_id(window_id) {
                        None => (None, self.resume_at(resume)),
                        Some(win) => {
                            if n == 2 {
                                if matches!(win.split, SplitOrientation::Horizontal) {
                                    (
                                        Some(Directive::ToggleSplit { window_id }),
                                        self.resume_at(resume),
                                    )
                                } else {
                                    (None, self.resume_at(resume))
                                }
                            } else {
                                match self.get_widest_stack_window() {
                                    None => (None, self.resume_at(resume)),
                                    Some(s) => {
                                        if s.id == window_id {
                                            (None, self.resume_at(resume))
                                        } else {
                                            (
                                                Some(
                                                    Directive::WarpOnto {
                                                        window_id,
                                                        onto_id: s.id,
                                                    },
                                                ),
                                                RebalancePhase::MoveToStackPlace {
                                                    window_id,
                                                    resume,
                                                },
                                            )
                                        }
                                    },
                                }
                            }
                        },
                    }
                }
            },
            RebalancePhase::MoveToStackPlace { window_id, resume } => {
                if n == 0 {
                    (None, RebalancePhase::Verify)
                } else {
                    match self.find_window_by_id(window_id) {
                        None => (None, self.resume_at(resume)),
                        Some(win) => {
                            if matches!(win.split, SplitOrientation::Horizontal) {
                                (
                                    Some(Directive::ToggleSplit { window_id }),
                                    self.resume_at(resume),
                                )
                            } else {
                                (None, self.resume_at(resume))
                            }
                        },
                    }
                }
            },
            RebalancePhase::MoveToMasterWarp { window_id, resume } => {
                if n == 0 {
                    (None, RebalancePhase::Verify)
                } else {
                    (
                        Some(Directive::WarpEast { window_id }),
                        RebalancePhase::MoveToMasterCheck { window_id, resume },
                    )
                }
            },
            RebalancePhase::MoveToMasterCheck { window_id, resume } => {
                if n == 0 {
                    (None, RebalancePhase::Verify)
                } else {
                    match self.find_window_by_id(window_id) {
                        None => (None, self.resume_at(resume)),
                        Some(win) => {
                            if self.is_master_window(&win) {
                                (None, self.resume_at(resume))
                            } else {
                                match self.get_widest_master_window() {
                                    None => (None, self.resume_at(resume)),
                                    Some(mw) => {
                                        if mw.id == window_id {
                                            (None, self.resume_at(resume))
                                        } else {
                                            (
                                                Some(
                                                    Directive::WarpOnto {
                                                        window_id,
                                                        onto_id: mw.id,
                                                    },
                                                ),
                                                RebalancePhase::MoveToMasterPlace {
                                                    window_id,
                                                    resume,
                                                },
                                            )
                                        }
                                    },
                                }
                            }
                        },
                    }
                }
            },
            RebalancePhase::MoveToMasterPlace { window_id, resume } => {
                if n == 0 {
                    (None, RebalancePhase::Verify)
                } else {
                    match self.find_window_by_id(window_id) {
                        None => (None, self.resume_at(resume)),
                        Some(win) => {
                            if matches!(win.split, SplitOrientation::Vertical) {
                                (
                                    Some(Directive::ToggleSplit { window_id }),
                                    self.resume_at(resume),
                                )
                            } else {
                                (None, self.resume_at(resume))
                            }
                        },
                    }
                }
            },
            RebalancePhase::Shrink => {
                if n == 0 {
                    (None, RebalancePhase::Verify)
                } else {
                    let masters = self.get_master_windows();
                    if masters.len() > target {
                        let w = pick_window(&masters, Pick::Bottom);
                        (
                            None,
                            RebalancePhase::Columnize(
                                AfterColumnize::MoveToStack {
                                    window_id: w.id,
                                    resume: ResumePhase::Shrink,
                                },
                            ),
                        )
                    } else {
                        (None, RebalancePhase::Drain)
                    }
                }
            },
            RebalancePhase::Drain => {
                if n == 0 {
                    (None, RebalancePhase::Verify)
                } else {
                    let middles = self.get_middle_windows();
                    if middles.len() > 0 {
                        let w = middles[0];
                        let masters = self.get_master_windows();
                        if masters.len() < target {
                            (
                                None,
                                RebalancePhase::MoveToMasterWarp {
                                    window_id: w.id,
                                    resume: ResumePhase::Drain,
                                },
                            )
                        } else {
                            (
                                None,
                                RebalancePhase::Columnize(
                                    AfterColumnize::MoveToStack {
                                        window_id: w.id,
                                        resume: ResumePhase::Drain,
                                    },
                                ),
                            )
                        }
                    } else {
                        (None, RebalancePhase::Grow)
                    }
                }
            },
            RebalancePhase::Grow => {
                if n == 0 {
                    (None, RebalancePhase::Verify)
                } else {
                    let masters = self.get_master_windows();
                    let stacks = self.get_stack_windows();
                    if masters.len() < target && stacks.len() > 0 {
                        let w = pick_window(&stacks, Pick::Top);
                        (
                            None,
                            RebalancePhase::MoveToMasterWarp {
                                window_id: w.id,
                                resume: ResumePhase::Grow,
                            },
                        )
                    } else {
                        (None, RebalancePhase::Verify)
                    }
                }
            },
            RebalancePhase::Verify => {
                let verdict = self.check_valid_layout(
                    CheckValidLayoutProps { target_num_master_windows: Some(target) },
                );
                match verdict {
                    CheckValidLayoutPayload::Success => (None, RebalancePhase::Done),
                    CheckValidLayoutPayload::Failure(v) => (None, RebalancePhase::Failed(v)),
                }
            },
            RebalancePhase::MoveComplete => (None, RebalancePhase::MoveComplete),
            RebalancePhase::Done => (None, RebalancePhase::Done),
            RebalancePhase::Failed(v) => (None, RebalancePhase::Failed(v)),
        }
    }

    /// The phase a move sub-procedure resumes at.
    fn resume_at(&self, r: ResumePhase) -> (p: RebalancePhase)
        ensures
            p == resume_phase(r),
    {
        match r {
            ResumePhase::Shrink => RebalancePhase::Shrink,
            ResumePhase::Drain => RebalancePhase::Drain,
            ResumePhase::Grow => RebalancePhase::Grow,
            ResumePhase::Finish => RebalancePhase::MoveComplete,
        }
    }
}

/// One window appended to the count behind `left_of_line_count`.
proof fn lemma_left_of_line_push(prev: Seq<Window>, w: Window, line: int)
    ensures
        left_of_line_count(prev.push(w), line) == left_of_line_count(prev, line) + (if (
        w.frame.x as int) < line {
            1int
        } else {
            0int
        }),
{
    broadcast use vstd::prelude::Seq::lemma_filter_push;

}

/// Idempotence: on a snapshot that already satisfies the master-stack
/// discipline for the target, the rebalancer finishes at once and issues no
/// directive.
pub proof fn lemma_rebalance_idempotent(m: WindowsManager, target: usize)
    requires
        valid_layout(m, target),
    ensures
        step_spec(m, target, RebalancePhase::Start) == (
            Option::<Directive>::None,
            RebalancePhase::Done,
        ),
{
}

/// Soundness of completion: whatever state the rebalancer is in, it reports
/// `Done` only when the layout is valid for the target. Together with the
/// final `Verify` pass this is the half of convergence the library can
/// promise without a model of the window-management service's geometry.
pub proof fn lemma_rebalance_done_implies_valid(
    m: WindowsManager,
    target: usize,
    phase: RebalancePhase,
)
    requires
        phase != RebalancePhase::Done,
        step_spec(m, target, phase).1 == RebalancePhase::Done,
    ensures
        valid_layout(m, target),
{
    lemma_check_valid_layout_success_iff(m, target);
}

/// While the layout is invalid and fewer masters are wanted than windows
/// exist, the rebalancer never stops: from the entry state it proceeds into
/// the repair passes rather than reporting `Done` or `Failed`.
pub proof fn lemma_rebalance_progress(m: WindowsManager, target: usize)
    requires
        !valid_layout(m, target),
    ensures
        step_spec(m, target, RebalancePhase::Start) == (
            Option::<Directive>::None,
            RebalancePhase::EnsureStack,
        ),
{
}

} // verus!
