//! Convergence of the middle-window repair, proved against an idealized
//! model of the window-management service.
//!
//! The service's geometric response to a directive is outside the library,
//! so convergence of a whole rebalance cannot be proved here in general.
//! What can be proved is the heart of the repair: under the one assumption
//! the rebalancer makes of a west warp — the warped window comes back flush
//! with the display's left edge and every other window keeps its frame —
//! repairing a middle window never moves the dividing line, never changes
//! the master count, and strictly decreases the number of middle windows.
//! A chain of such repairs therefore ends, after exactly one step per
//! middle window, in a snapshot the validator accepts.

use vstd::prelude::*;

use crate::check_valid_layout::valid_layout;
use crate::order::{lemma_pick_in, lemma_pick_minimal, lemma_pick_unique, pick_of, prefers, Pick};
use crate::types::{Frame, Window};
use crate::window::{
    distinct_ids, eligible, eligible_at, eligible_gt, lemma_best_pair_char,
    lemma_eligible_at_pos, lemma_eligible_at_update, lemma_eligible_gt_update,
    lemma_masters_nonempty, lemma_masters_update, lemma_middles_update, lemma_num_right_update,
    lemma_stacks_update, num_right_of_top_right, pair_rule_applies, WindowsManager,
};

verus! {

/// Every window sits at or right of the display's left edge: the shape a
/// snapshot of on-screen windows always has.
pub open spec fn frames_wf(m: WindowsManager) -> bool {
    forall|i: int| 0 <= i < m.ws().len() ==> (#[trigger] m.ws()[i]).frame.x as int >= m.dx()
}

/// The window as the model returns it from a west warp: flush with the left
/// edge, everything else unchanged.
pub open spec fn flushed_west(w: Window, dx: i64) -> Window {
    Window { frame: Frame { x: dx, ..w.frame }, ..w }
}

/// One idealized repair: the middle window at index `i` of `m`'s snapshot
/// was warped west, and `m2` is the session around the refreshed snapshot.
pub open spec fn west_step(m: WindowsManager, m2: WindowsManager, i: int) -> bool {
    &&& 0 <= i < m.ws().len()
    &&& m.spec_is_middle(m.ws()[i])
    &&& m2.display == m.display
    &&& m2.space == m.space
    &&& m2.expected_current_num_master_windows == m.expected_current_num_master_windows
    &&& m2.ws() == m.ws().update(i, flushed_west(m.ws()[i], m.display.frame.x))
}

/// One west repair of a middle window leaves the dividing line and the
/// master count unchanged, turns the repaired window into a stack window,
/// and decreases the number of middle windows by exactly one.
pub proof fn lemma_west_step_repairs_middle(m: WindowsManager, m2: WindowsManager, i: int)
    requires
        m.wf(),
        frames_wf(m),
        west_step(m, m2, i),
    ensures
        m2.wf(),
        frames_wf(m2),
        m2.ws().len() == m.ws().len(),
        m2.line() == m.line(),
        m2.spec_masters().len() == m.spec_masters().len(),
        m2.spec_stacks().len() == m.spec_stacks().len() + 1,
        m2.spec_middles().len() == m.spec_middles().len() - 1,
{
    let ws = m.ws();
    let ws2 = m2.ws();
    let dx = m.dx();
    let w = ws[i];
    let w2 = flushed_west(w, m.display.frame.x);
    let line = m.line();
    let target = m.expected_current_num_master_windows as int;

    // The repaired window is strictly between the edge and the line.
    lemma_masters_nonempty(m);
    let tr = pick_of(ws, Pick::TopRight);
    let trx = tr.frame.x as int;
    assert(w.frame.x as int > dx);
    assert((w.frame.x as int) < line);
    assert(line <= trx);

    // Ids and edge offsets are untouched, so well-formedness carries over.
    assert(forall|j: int| 0 <= j < ws2.len() ==> (#[trigger] ws2[j]).id == ws[j].id);
    assert(distinct_ids(ws2));
    assert(forall|j: int| 0 <= j < ws2.len() ==> (#[trigger] ws2[j]).frame.x as int >= dx);

    // The top-right window is not the repaired one and stays selected.
    lemma_pick_in(ws, Pick::TopRight);
    lemma_pick_minimal(ws, Pick::TopRight);
    let ti = choose|ti: int| 0 <= ti < ws.len() && ws[ti] == tr;
    assert(ti != i);
    assert(ws2[ti] == tr);
    assert(ws2.contains(tr));
    assert forall|j: int| 0 <= j < ws2.len() implies !prefers(
        Pick::TopRight,
        #[trigger] ws2[j],
        tr,
    ) by {
        if j == i {
            assert(!prefers(Pick::TopRight, w, tr));
        } else {
            assert(ws2[j] == ws[j]);
        }
    }
    lemma_pick_unique(ws2, Pick::TopRight, tr);
    assert(pick_of(ws2, Pick::TopRight) == tr);

    // The count of windows right of the top-right window is unchanged.
    lemma_num_right_update(ws, i, w2, dx, trx);
    let k = num_right_of_top_right(ws, dx, trx);
    assert(num_right_of_top_right(ws2, dx, trx) == k);

    // The pair rule is unchanged at and right of the line, and no new
    // column starts qualifying, so the dividing line is the same.
    if target != 1 && k < target {
        assert forall|v: int| true implies eligible_at(ws2, dx, trx, v) == eligible_at(
            ws,
            dx,
            trx,
            v,
        ) - (if w.frame.x == v {
            1int
        } else {
            0int
        }) by {
            lemma_eligible_at_update(ws, i, w2, dx, trx, v);
        }
        assert forall|v: int| true implies eligible_gt(ws2, dx, trx, v) == eligible_gt(
            ws,
            dx,
            trx,
            v,
        ) - (if w.frame.x > v {
            1int
        } else {
            0int
        }) by {
            lemma_eligible_gt_update(ws, i, w2, dx, trx, v);
        }
        lemma_best_pair_char(ws, dx, trx, k as nat, target, ws);
        lemma_best_pair_char(ws2, dx, trx, k as nat, target, ws2);
        match crate::window::best_pair_x(ws, dx, trx, k as nat, target, ws) {
            Option::Some(v) => {
                // The chosen column is the line, right of the repaired
                // window, so it still qualifies afterwards.
                assert(v == line);
                assert(pair_rule_applies(ws2, dx, trx, k as nat, target, v));
                lemma_eligible_at_pos(ws2, dx, trx, v);
                match crate::window::best_pair_x(ws2, dx, trx, k as nat, target, ws2) {
                    Option::Some(u) => {
                        // Any qualifier of the repaired snapshot already
                        // qualified before, so the maxima agree.
                        let ju = choose|j: int|
                            0 <= j < ws2.len() && eligible(#[trigger] ws2[j], dx, trx)
                                && ws2[j].frame.x == u;
                        assert(ju != i);
                        assert(ws[ju] == ws2[ju]);
                        assert(u <= v);
                        let jv = choose|j: int|
                            0 <= j < ws2.len() && eligible(#[trigger] ws2[j], dx, trx)
                                && ws2[j].frame.x == v;
                        assert(v <= u);
                    },
                    Option::None => {
                        let jv = choose|j: int|
                            0 <= j < ws2.len() && eligible(#[trigger] ws2[j], dx, trx)
                                && ws2[j].frame.x == v;
                        assert(false);
                    },
                }
            },
            Option::None => {
                match crate::window::best_pair_x(ws2, dx, trx, k as nat, target, ws2) {
                    Option::Some(u) => {
                        let ju = choose|j: int|
                            0 <= j < ws2.len() && eligible(#[trigger] ws2[j], dx, trx)
                                && ws2[j].frame.x == u;
                        assert(ju != i);
                        assert(ws[ju] == ws2[ju]);
                        assert(false);
                    },
                    Option::None => {},
                }
            },
        }
    }
    assert(m2.line() == line);

    // With the line fixed, only the repaired window changes class: it
    // leaves the middles and joins the stack.
    lemma_masters_update(ws, i, w2, line);
    lemma_stacks_update(ws, i, w2, dx);
    lemma_middles_update(ws, i, w2, dx, line);
}

/// Some middle window of `a` was repaired to give `b`.
pub open spec fn west_linked(a: WindowsManager, b: WindowsManager) -> bool {
    exists|i: int| west_step(a, b, i)
}

/// A chain of snapshots, each one west repair after its predecessor.
pub open spec fn west_chain(ms: Seq<WindowsManager>) -> bool {
    forall|j: int| #![trigger ms[j]] 0 <= j < ms.len() - 1 ==> west_linked(ms[j], ms[j + 1])
}

/// Convergence of the middle-window repair under the idealized model: when
/// the master count already equals the target and only middle windows
/// violate the discipline, a chain of one west repair per middle window
/// ends in a layout the validator accepts.
pub proof fn lemma_west_chain_converges(ms: Seq<WindowsManager>, target: usize)
    requires
        ms.len() >= 1,
        west_chain(ms),
        ms[0].wf(),
        frames_wf(ms[0]),
        1 <= target < ms[0].ws().len(),
        ms[0].spec_masters().len() == target,
        ms.len() == ms[0].spec_middles().len() + 1,
    ensures
        valid_layout(ms.last(), target),
    decreases ms.len(),
{
    if ms.len() == 1 {
        assert(ms[0].spec_middles().len() == 0);
        assert(ms.last() == ms[0]);
    } else {
        assert(west_linked(ms[0], ms[1]));
        let i = choose|i: int| west_step(ms[0], ms[1], i);
        lemma_west_step_repairs_middle(ms[0], ms[1], i);
        let rest = ms.drop_first();
        assert(rest[0] == ms[1]);
        assert(rest.last() == ms.last());
        assert forall|j: int| #![trigger rest[j]] 0 <= j < rest.len() - 1 implies west_linked(
            rest[j],
            rest[j + 1],
        ) by {
            assert(rest[j] == ms[j + 1]);
            assert(rest[j + 1] == ms[j + 2]);
            assert(west_linked(ms[j + 1], ms[j + 2]));
        }
        lemma_west_chain_converges(rest, target);
    }
}

} // verus!
