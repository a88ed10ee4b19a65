//! The layout validator: does a snapshot satisfy the master-stack
//! discipline for a given target master-window count?
//!
//! The validator is a pure predicate over the snapshot; it issues no
//! directives and mutates nothing.

use vstd::prelude::*;

use crate::window::{
    all_touch_left, lemma_masters_all, lemma_middles_complete, WindowsManager,
};

verus! {

/// The target master-window count to validate against; `None` means the
/// session's remembered count.
#[derive(Clone, Copy, PartialEq, Eq, Structural, Debug)]
pub struct CheckValidLayoutProps {
    pub target_num_master_windows: Option<usize>,
}

/// Why a layout fails the master-stack discipline.
#[derive(Clone, Copy, PartialEq, Eq, Structural, Debug)]
pub enum LayoutViolation {
    /// At least as many masters were requested as there are windows, yet a
    /// window is off the left edge (no flat column).
    NotAllTouchingLeftEdge,
    /// The number of master-classified windows differs from the target.
    WrongMasterCount { observed: usize, expected: usize },
    /// A window is neither master nor stack.
    MiddleWindowDetected { window_id: usize },
}

/// The validator's verdict.
#[derive(Clone, Copy, PartialEq, Eq, Structural, Debug)]
pub enum CheckValidLayoutPayload {
    Success,
    Failure(LayoutViolation),
}

/// The master-stack discipline holds: an empty snapshot is vacuously valid;
/// with at least as many masters requested as windows, every window must be
/// flush with the left edge; otherwise exactly `target` windows are master
/// and none is middle.
pub open spec fn valid_layout(m: WindowsManager, target: usize) -> bool {
    if m.ws().len() == 0 {
        true
    } else if target >= m.ws().len() {
        all_touch_left(m.ws(), m.dx())
    } else {
        m.spec_masters().len() == target && m.spec_middles().len() == 0
    }
}

/// The verdict the validator returns for a snapshot and target, with the
/// violation it reports first: a missing flat column, then a wrong master
/// count, then the first middle window.
pub open spec fn check_valid_layout_spec(m: WindowsManager, target: usize)
    -> CheckValidLayoutPayload {
    if m.ws().len() == 0 {
        CheckValidLayoutPayload::Success
    } else if target >= m.ws().len() {
        if all_touch_left(m.ws(), m.dx()) {
            CheckValidLayoutPayload::Success
        } else {
            CheckValidLayoutPayload::Failure(LayoutViolation::NotAllTouchingLeftEdge)
        }
    } else if m.spec_masters().len() != target {
        CheckValidLayoutPayload::Failure(
            LayoutViolation::WrongMasterCount {
                observed: m.spec_masters().len() as usize,
                expected: target,
            },
        )
    } else if m.spec_middles().len() > 0 {
        CheckValidLayoutPayload::Failure(
            LayoutViolation::MiddleWindowDetected { window_id: m.spec_middles()[0].id },
        )
    } else {
        CheckValidLayoutPayload::Success
    }
}

/// The verdict is `Success` exactly on valid layouts.
pub proof fn lemma_check_valid_layout_success_iff(m: WindowsManager, target: usize)
    ensures
        check_valid_layout_spec(m, target) == CheckValidLayoutPayload::Success <==> valid_layout(
            m,
            target,
        ),
{
}

impl WindowsManager {
    /// The effective target of a validation request: the supplied count, or
    /// the session's remembered count.
    pub open spec fn effective_target(self, props: CheckValidLayoutProps) -> usize {
        match props.target_num_master_windows {
            Option::Some(t) => t,
            Option::None => self.expected_current_num_master_windows,
        }
    }

    /// Check every window against the display's left edge.
    fn all_windows_touch_left_edge(&self) -> (r: bool)
        ensures
            r == all_touch_left(self.ws(), self.dx()),
    {
        let dx = self.display.frame.x;
        let mut i: usize = 0;
        while i < self.windows_data.len()
            invariant
                i <= self.ws().len(),
                dx == self.display.frame.x,
                forall|j: int| 0 <= j < i ==> (#[trigger] self.ws()[j]).frame.x == dx,
            decreases self.ws().len() - i,
        {
            if self.windows_data[i].frame.x != dx {
                return false;
            }
            i = i + 1;
        }
        true
    }

    /// Evaluate the master-stack discipline for the requested target (or the
    /// session's remembered one). Pure: no directive is issued.
    pub fn check_valid_layout(&self, props: CheckValidLayoutProps) -> (r: CheckValidLayoutPayload)
        ensures
            r == check_valid_layout_spec(*self, self.effective_target(props)),
            r == CheckValidLayoutPayload::Success <==> valid_layout(
                *self,
                self.effective_target(props),
            ),
    {
        if self.windows_data.len() == 0 {
            return CheckValidLayoutPayload::Success;
        }
        let target = match props.target_num_master_windows {
            Some(t) => t,
            None => self.expected_current_num_master_windows,
        };
        if target >= self.windows_data.len() {
            if self.all_windows_touch_left_edge() {
                CheckValidLayoutPayload::Success
            } else {
                CheckValidLayoutPayload::Failure(LayoutViolation::NotAllTouchingLeftEdge)
            }
        } else {
            let masters = self.get_master_windows();
            if masters.len() != target {
                return CheckValidLayoutPayload::Failure(
                    LayoutViolation::WrongMasterCount { observed: masters.len(), expected: target },
                );
            }
            let middles = self.get_middle_windows();
            if middles.len() > 0 {
                CheckValidLayoutPayload::Failure(
                    LayoutViolation::MiddleWindowDetected { window_id: middles[0].id },
                )
            } else {
                CheckValidLayoutPayload::Success
            }
        }
    }
}

/// Classification partition: in a valid layout with fewer masters than
/// windows, every window is exactly one of master and stack, and no window
/// is middle.
pub proof fn lemma_classification_partition(m: WindowsManager, target: usize)
    requires
        m.wf(),
        1 <= target < m.ws().len(),
        valid_layout(m, target),
    ensures
        forall|i: int| 0 <= i < m.ws().len() ==> (m.spec_is_master(#[trigger] m.ws()[i])
            <==> !m.spec_is_stack(m.ws()[i])),
        forall|i: int| 0 <= i < m.ws().len() ==> !m.spec_is_middle(#[trigger] m.ws()[i]),
{
    let ws = m.ws();
    let dx = m.dx();
    let line = m.line();
    assert forall|i: int| 0 <= i < ws.len() implies !m.spec_is_middle(#[trigger] ws[i]) by {
        if m.spec_is_middle(ws[i]) {
            lemma_middles_complete(ws, dx, line, i);
        }
    }
    if line <= dx {
        assert forall|i: int| 0 <= i < ws.len() implies (#[trigger] ws[i]).frame.x as int
            >= line by {
            if ws[i].frame.x as int == dx {
            } else {
                assert(!m.spec_is_middle(ws[i]));
            }
        }
        lemma_masters_all(ws, line);
        assert(false);
    }
}

/// Flat-column law: when exactly as many masters are requested as there are
/// windows, the layout is valid precisely when every window is flush with
/// the display's left edge.
pub proof fn lemma_flat_column(m: WindowsManager, target: usize)
    requires
        m.ws().len() >= 1,
        target == m.ws().len(),
    ensures
        valid_layout(m, target) <==> all_touch_left(m.ws(), m.dx()),
{
}

} // verus!
