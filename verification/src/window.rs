//! The window manager: one snapshot of the focused display and space,
//! together with the geometry classifier built on it.
//!
//! The central quantity is the dividing line: the x-coordinate separating the
//! master region (at or right of the line) from the rest. Windows flush with
//! the display's left edge form the stack; a window that is neither master
//! nor stack is in the transient middle state that the rebalancer removes.

use vstd::prelude::*;

use crate::order::{pick_of, pick_window, Pick};
use crate::types::{Display, Space, Window};

verus! {

broadcast use vstd::seq_lib::group_filter_ensures, vstd::prelude::Seq::lemma_filter_push;

/// A snapshot of the windows of one display and space, with the master-window
/// count the session currently expects.
pub struct WindowsManager {
    pub display: Display,
    pub space: Space,
    pub expected_current_num_master_windows: usize,
    pub windows_data: Vec<Window>,
}

/// Lookup of a snapshot window by process id or by window id.
#[derive(Clone, Copy, PartialEq, Eq, Structural, Debug)]
pub enum GetWindowDataProps {
    ProcessId(usize),
    WindowId(usize),
}

/// Every window of the sequence is flush with the display's left edge.
pub open spec fn all_touch_left(ws: Seq<Window>, dx: int) -> bool {
    forall|i: int| 0 <= i < ws.len() ==> (#[trigger] ws[i]).frame.x == dx
}

/// All window ids of the sequence are distinct.
pub open spec fn distinct_ids(ws: Seq<Window>) -> bool {
    forall|i: int, j: int| 0 <= i < j < ws.len() ==> ws[i].id != ws[j].id
}

/// A window is eligible for the pair rule when it is off the left edge and
/// not right of the top-right window.
pub open spec fn eligible(w: Window, dx: int, trx: int) -> bool {
    w.frame.x != dx && w.frame.x <= trx
}

/// How many eligible windows sit exactly at x-coordinate `v`.
pub open spec fn eligible_at(ws: Seq<Window>, dx: int, trx: int, v: int) -> nat {
    ws.filter(|w: Window| eligible(w, dx, trx) && w.frame.x == v).len()
}

/// How many eligible windows sit strictly right of x-coordinate `v`.
pub open spec fn eligible_gt(ws: Seq<Window>, dx: int, trx: int, v: int) -> nat {
    ws.filter(|w: Window| eligible(w, dx, trx) && w.frame.x > v).len()
}

/// How many windows off the left edge sit strictly right of the top-right
/// window's x-coordinate: they count as master without further search.
pub open spec fn num_right_of_top_right(ws: Seq<Window>, dx: int, trx: int) -> nat {
    ws.filter(|w: Window| w.frame.x != dx && w.frame.x > trx).len()
}

/// The pair rule holds at x-coordinate `v` when at least two eligible windows
/// share `v` (a vertical column) and the windows at or right of `v`, counted
/// with the `k` windows right of the top-right window, reach the target.
pub open spec fn pair_rule_applies(
    ws: Seq<Window>,
    dx: int,
    trx: int,
    k: nat,
    target: int,
    v: int,
) -> bool {
    eligible_at(ws, dx, trx, v) >= 2 && k + eligible_gt(ws, dx, trx, v) + eligible_at(
        ws,
        dx,
        trx,
        v,
    ) >= target
}

/// The rightmost x-coordinate among `cands` at which the pair rule applies,
/// or `None` when there is no such coordinate.
pub open spec fn best_pair_x(
    ws: Seq<Window>,
    dx: int,
    trx: int,
    k: nat,
    target: int,
    cands: Seq<Window>,
) -> Option<int>
    decreases cands.len(),
{
    if cands.len() == 0 {
        Option::None
    } else {
        let rest = best_pair_x(ws, dx, trx, k, target, cands.drop_last());
        let w = cands.last();
        let improves = match rest {
            Option::None => true,
            Option::Some(u) => u < w.frame.x as int,
        };
        if eligible(w, dx, trx) && pair_rule_applies(ws, dx, trx, k, target, w.frame.x as int)
            && improves {
            Option::Some(w.frame.x as int)
        } else {
            rest
        }
    }
}

/// The x-coordinate dividing the master region from the rest, for a
/// non-empty snapshot: the top-right window's x when the target is one, when
/// enough windows already sit right of it, or when no vertical column
/// qualifies under the pair rule; otherwise the rightmost qualifying column.
pub open spec fn dividing_line_spec(ws: Seq<Window>, dx: int, target: int) -> int
    recommends
        ws.len() >= 1,
{
    let trx = pick_of(ws, Pick::TopRight).frame.x as int;
    if target == 1 {
        trx
    } else {
        let k = num_right_of_top_right(ws, dx, trx);
        if k >= target {
            trx
        } else {
            match best_pair_x(ws, dx, trx, k, target, ws) {
                Option::Some(v) => v,
                Option::None => trx,
            }
        }
    }
}

/// The sub-sequence of `ws` at or right of the dividing line.
pub open spec fn masters_of(ws: Seq<Window>, line: int) -> Seq<Window> {
    ws.filter(|w: Window| w.frame.x as int >= line)
}

/// The sub-sequence of `ws` flush with the display's left edge.
pub open spec fn stacks_of(ws: Seq<Window>, dx: int) -> Seq<Window> {
    ws.filter(|w: Window| w.frame.x == dx)
}

/// The sub-sequence of `ws` that is neither master nor stack.
pub open spec fn middles_of(ws: Seq<Window>, dx: int, line: int) -> Seq<Window> {
    ws.filter(|w: Window| w.frame.x != dx && (w.frame.x as int) < line)
}

/// The first window of `ws` with the given id.
pub open spec fn find_by_id(ws: Seq<Window>, id: usize) -> Option<Window>
    decreases ws.len(),
{
    if ws.len() == 0 {
        Option::None
    } else if ws[0].id == id {
        Option::Some(ws[0])
    } else {
        find_by_id(ws.drop_first(), id)
    }
}

/// The first window of `ws` with the given process id.
pub open spec fn find_by_pid(ws: Seq<Window>, pid: usize) -> Option<Window>
    decreases ws.len(),
{
    if ws.len() == 0 {
        Option::None
    } else if ws[0].pid == pid {
        Option::Some(ws[0])
    } else {
        find_by_pid(ws.drop_first(), pid)
    }
}

/// The first focused window of `ws`.
pub open spec fn find_focused(ws: Seq<Window>) -> Option<Window>
    decreases ws.len(),
{
    if ws.len() == 0 {
        Option::None
    } else if ws[0].focused {
        Option::Some(ws[0])
    } else {
        find_focused(ws.drop_first())
    }
}

/// One window appended to the count behind `num_right_of_top_right`.
proof fn lemma_num_right_push(prev: Seq<Window>, w: Window, dx: int, trx: int)
    ensures
        num_right_of_top_right(prev.push(w), dx, trx) == num_right_of_top_right(prev, dx, trx)
            + (if w.frame.x != dx && w.frame.x > trx {
            1int
        } else {
            0int
        }),
{
}

/// One window appended to the count behind `eligible_at`.
proof fn lemma_eligible_at_push(prev: Seq<Window>, w: Window, dx: int, trx: int, v: int)
    ensures
        eligible_at(prev.push(w), dx, trx, v) == eligible_at(prev, dx, trx, v) + (if eligible(
            w,
            dx,
            trx,
        ) && w.frame.x == v {
            1int
        } else {
            0int
        }),
{
}

/// One window appended to the count behind `eligible_gt`.
proof fn lemma_eligible_gt_push(prev: Seq<Window>, w: Window, dx: int, trx: int, v: int)
    ensures
        eligible_gt(prev.push(w), dx, trx, v) == eligible_gt(prev, dx, trx, v) + (if eligible(
            w,
            dx,
            trx,
        ) && w.frame.x > v {
            1int
        } else {
            0int
        }),
{
}

impl WindowsManager {
    /// Snapshot well-formedness: window ids are unique and the session's
    /// master-window count is at least one.
    pub open spec fn wf(self) -> bool {
        &&& distinct_ids(self.windows_data@)
        &&& self.expected_current_num_master_windows >= 1
    }

    /// The snapshot as a sequence.
    pub open spec fn ws(self) -> Seq<Window> {
        self.windows_data@
    }

    /// The display's left edge.
    pub open spec fn dx(self) -> int {
        self.display.frame.x as int
    }

    /// The dividing line of this snapshot, classified with the session's
    /// expected master-window count.
    pub open spec fn line(self) -> int
        recommends
            self.ws().len() >= 1,
    {
        dividing_line_spec(self.ws(), self.dx(), self.expected_current_num_master_windows as int)
    }

    pub open spec fn spec_is_stack(self, w: Window) -> bool {
        w.frame.x as int == self.dx()
    }

    pub open spec fn spec_is_master(self, w: Window) -> bool
        recommends
            self.ws().len() >= 1,
    {
        w.frame.x as int >= self.line()
    }

    pub open spec fn spec_is_middle(self, w: Window) -> bool
        recommends
            self.ws().len() >= 1,
    {
        !self.spec_is_stack(w) && !self.spec_is_master(w)
    }

    pub open spec fn spec_masters(self) -> Seq<Window>
        recommends
            self.ws().len() >= 1,
    {
        masters_of(self.ws(), self.line())
    }

    pub open spec fn spec_stacks(self) -> Seq<Window> {
        stacks_of(self.ws(), self.dx())
    }

    pub open spec fn spec_middles(self) -> Seq<Window>
        recommends
            self.ws().len() >= 1,
    {
        middles_of(self.ws(), self.dx(), self.line())
    }

    /// A stack exists when the top-right window is off the left edge.
    pub open spec fn spec_stack_exists(self) -> bool {
        self.ws().len() > 0 && pick_of(self.ws(), Pick::TopRight).frame.x as int != self.dx()
    }

    /// The rightmost window of the top row, under the strict
    /// (y ascending, x descending, id ascending) order.
    pub fn get_top_right_window(&self) -> (r: Option<Window>)
        ensures
            r == if self.ws().len() == 0 {
                Option::<Window>::None
            } else {
                Option::Some(pick_of(self.ws(), Pick::TopRight))
            },
    {
        if self.windows_data.len() == 0 {
            None
        } else {
            Some(pick_window(&self.windows_data, Pick::TopRight))
        }
    }

    /// Count the windows off the left edge strictly right of `trx`.
    fn count_right_of_top_right(&self, trx: i64) -> (r: usize)
        ensures
            r == num_right_of_top_right(self.ws(), self.dx(), trx as int),
    {
        let dx = self.display.frame.x;
        let mut count: usize = 0;
        let mut i: usize = 0;
        while i < self.windows_data.len()
            invariant
                i <= self.ws().len(),
                count == num_right_of_top_right(self.ws().take(i as int), self.dx(), trx as int),
                count <= i,
                dx == self.display.frame.x,
            decreases self.ws().len() - i,
        {
            proof {
                let prev = self.ws().take(i as int);
                let wv = self.ws()[i as int];
                assert(self.ws().take(i + 1) =~= prev.push(wv));
                lemma_num_right_push(prev, wv, self.dx(), trx as int);
            }
            let w = self.windows_data[i];
            if w.frame.x != dx && w.frame.x > trx {
                count = count + 1;
            }
            i = i + 1;
        }
        proof {
            assert(self.ws().take(self.ws().len() as int) =~= self.ws());
        }
        count
    }

    /// Count the eligible windows exactly at x-coordinate `v`.
    fn count_eligible_at(&self, trx: i64, v: i64) -> (r: usize)
        ensures
            r == eligible_at(self.ws(), self.dx(), trx as int, v as int),
    {
        let dx = self.display.frame.x;
        let mut count: usize = 0;
        let mut i: usize = 0;
        while i < self.windows_data.len()
            invariant
                i <= self.ws().len(),
                count == eligible_at(self.ws().take(i as int), self.dx(), trx as int, v as int),
                count <= i,
                dx == self.display.frame.x,
            decreases self.ws().len() - i,
        {
            proof {
                let prev = self.ws().take(i as int);
                let wv = self.ws()[i as int];
                assert(self.ws().take(i + 1) =~= prev.push(wv));
                lemma_eligible_at_push(prev, wv, self.dx(), trx as int, v as int);
            }
            let w = self.windows_data[i];
            if w.frame.x != dx && w.frame.x <= trx && w.frame.x == v {
                count = count + 1;
            }
            i = i + 1;
        }
        proof {
            assert(self.ws().take(self.ws().len() as int) =~= self.ws());
        }
        count
    }

    /// Count the eligible windows strictly right of x-coordinate `v`.
    fn count_eligible_gt(&self, trx: i64, v: i64) -> (r: usize)
        ensures
            r == eligible_gt(self.ws(), self.dx(), trx as int, v as int),
    {
        let dx = self.display.frame.x;
        let mut count: usize = 0;
        let mut i: usize = 0;
        while i < self.windows_data.len()
            invariant
                i <= self.ws().len(),
                count == eligible_gt(self.ws().take(i as int), self.dx(), trx as int, v as int),
                count <= i,
                dx == self.display.frame.x,
            decreases self.ws().len() - i,
        {
            proof {
                let prev = self.ws().take(i as int);
                let wv = self.ws()[i as int];
                assert(self.ws().take(i + 1) =~= prev.push(wv));
                lemma_eligible_gt_push(prev, wv, self.dx(), trx as int, v as int);
            }
            let w = self.windows_data[i];
            if w.frame.x != dx && w.frame.x <= trx && w.frame.x > v {
                count = count + 1;
            }
            i = i + 1;
        }
        proof {
            assert(self.ws().take(self.ws().len() as int) =~= self.ws());
        }
        count
    }

    /// Compute the dividing line between the master region and the rest.
    /// The snapshot must not be empty.
    pub fn get_dividing_line_x_coordinate(&self) -> (r: i64)
        requires
            self.ws().len() >= 1,
        ensures
            r as int == self.line(),
    {
        let target = self.expected_current_num_master_windows;
        let tr = pick_window(&self.windows_data, Pick::TopRight);
        let trx = tr.frame.x;
        if target == 1 {
            return trx;
        }
        let k = self.count_right_of_top_right(trx);
        if k >= target {
            return trx;
        }
        let dx = self.display.frame.x;
        let ghost gtarget = target as int;
        let remaining = target - k;
        let mut best: Option<i64> = None;
        let mut i: usize = 0;
        while i < self.windows_data.len()
            invariant
                i <= self.ws().len(),
                k == num_right_of_top_right(self.ws(), self.dx(), trx as int),
                dx == self.display.frame.x,
                gtarget == self.expected_current_num_master_windows as int,
                target == self.expected_current_num_master_windows,
                k < target,
                remaining == target - k,
                match best {
                    Option::None => best_pair_x(
                        self.ws(),
                        self.dx(),
                        trx as int,
                        k as nat,
                        gtarget,
                        self.ws().take(i as int),
                    ) is None,
                    Option::Some(b) => best_pair_x(
                        self.ws(),
                        self.dx(),
                        trx as int,
                        k as nat,
                        gtarget,
                        self.ws().take(i as int),
                    ) == Option::Some(b as int),
                },
            decreases self.ws().len() - i,
        {
            proof {
                assert(self.ws().take(i + 1).drop_last() =~= self.ws().take(i as int));
                assert(self.ws().take(i + 1).last() == self.ws()[i as int]);
            }
            let w = self.windows_data[i];
            let mut qualifies: bool = false;
            if w.frame.x != dx && w.frame.x <= trx {
                let at = self.count_eligible_at(trx, w.frame.x);
                if at >= 2 {
                    let gt = self.count_eligible_gt(trx, w.frame.x);
                    if gt >= remaining || at >= remaining - gt {
                        qualifies = true;
                    }
                }
            }
            proof {
                assert(qualifies == (eligible(w, self.dx(), trx as int) && pair_rule_applies(
                    self.ws(),
                    self.dx(),
                    trx as int,
                    k as nat,
                    gtarget,
                    w.frame.x as int,
                )));
            }
            if qualifies {
                let improves = match best {
                    None => true,
                    Some(u) => u < w.frame.x,
                };
                if improves {
                    best = Some(w.frame.x);
                }
            }
            i = i + 1;
        }
        proof {
            assert(self.ws().take(self.ws().len() as int) =~= self.ws());
        }
        match best {
            Some(v) => v,
            None => trx,
        }
    }
}

/// One window appended to the list behind `masters_of`.
proof fn lemma_masters_push(prev: Seq<Window>, w: Window, line: int)
    ensures
        masters_of(prev.push(w), line) == if w.frame.x as int >= line {
            masters_of(prev, line).push(w)
        } else {
            masters_of(prev, line)
        },
{
}

/// One window appended to the list behind `stacks_of`.
proof fn lemma_stacks_push(prev: Seq<Window>, w: Window, dx: int)
    ensures
        stacks_of(prev.push(w), dx) == if w.frame.x as int == dx {
            stacks_of(prev, dx).push(w)
        } else {
            stacks_of(prev, dx)
        },
{
}

/// One window appended to the list behind `middles_of`.
proof fn lemma_middles_push(prev: Seq<Window>, w: Window, dx: int, line: int)
    ensures
        middles_of(prev.push(w), dx, line) == if w.frame.x as int != dx && (w.frame.x as int)
            < line {
            middles_of(prev, dx, line).push(w)
        } else {
            middles_of(prev, dx, line)
        },
{
}

/// What `find_by_id` returns: a window of the sequence carrying the id, or
/// `None` when no window carries it.
pub proof fn lemma_find_by_id(ws: Seq<Window>, id: usize)
    ensures
        match find_by_id(ws, id) {
            Option::None => forall|i: int| 0 <= i < ws.len() ==> ws[i].id != id,
            Option::Some(w) => ws.contains(w) && w.id == id,
        },
    decreases ws.len(),
{
    if ws.len() > 0 && ws[0].id != id {
        lemma_find_by_id(ws.drop_first(), id);
        match find_by_id(ws.drop_first(), id) {
            Option::None => {
                assert forall|i: int| 0 <= i < ws.len() implies ws[i].id != id by {
                    if i >= 1 {
                        assert(ws.drop_first()[i - 1] == ws[i]);
                    }
                }
            },
            Option::Some(w) => {
                let i = choose|i: int|
                    0 <= i < ws.drop_first().len() && ws.drop_first()[i] == w;
                assert(ws[i + 1] == w);
                assert(ws.contains(w));
            },
        }
    }
}

impl WindowsManager {
    /// The clamped master-window count: at most the number of windows (when
    /// any exist), and at least one.
    pub open spec fn clamped_target(expected: int, n: int) -> int {
        let bounded = if n < expected {
            n
        } else {
            expected
        };
        if bounded <= 0 {
            1
        } else {
            bounded
        }
    }

    /// True iff the window is flush with the display's left edge.
    pub fn is_window_touching_left_edge(&self, window: &Window) -> (r: bool)
        ensures
            r == self.spec_is_stack(*window),
    {
        window.frame.x == self.display.frame.x
    }

    /// A window flush with the left edge is a stack window.
    pub fn is_stack_window(&self, window: &Window) -> (r: bool)
        ensures
            r == self.spec_is_stack(*window),
    {
        self.is_window_touching_left_edge(window)
    }

    /// A window at or right of the dividing line is a master window.
    pub fn is_master_window(&self, window: &Window) -> (r: bool)
        requires
            self.ws().len() >= 1,
        ensures
            r == self.spec_is_master(*window),
    {
        let line = self.get_dividing_line_x_coordinate();
        window.frame.x >= line
    }

    /// A window that is neither stack nor master is in the transient middle
    /// state.
    pub fn is_middle_window(&self, window: &Window) -> (r: bool)
        requires
            self.ws().len() >= 1,
        ensures
            r == self.spec_is_middle(*window),
    {
        !self.is_stack_window(window) && !self.is_master_window(window)
    }

    /// The windows at or right of the dividing line, in snapshot order.
    pub fn get_master_windows(&self) -> (r: Vec<Window>)
        requires
            self.ws().len() >= 1,
        ensures
            r@ == self.spec_masters(),
    {
        let line = self.get_dividing_line_x_coordinate();
        let mut out: Vec<Window> = Vec::new();
        let mut i: usize = 0;
        while i < self.windows_data.len()
            invariant
                i <= self.ws().len(),
                self.ws().len() >= 1,
                line as int == self.line(),
                out@ == masters_of(self.ws().take(i as int), line as int),
            decreases self.ws().len() - i,
        {
            proof {
                let prev = self.ws().take(i as int);
                let wv = self.ws()[i as int];
                assert(self.ws().take(i + 1) =~= prev.push(wv));
                lemma_masters_push(prev, wv, line as int);
            }
            let w = self.windows_data[i];
            if w.frame.x >= line {
                out.push(w);
            }
            i = i + 1;
        }
        proof {
            assert(self.ws().take(self.ws().len() as int) =~= self.ws());
        }
        out
    }

    /// The windows flush with the left edge, in snapshot order.
    pub fn get_stack_windows(&self) -> (r: Vec<Window>)
        ensures
            r@ == self.spec_stacks(),
    {
        let dx = self.display.frame.x;
        let mut out: Vec<Window> = Vec::new();
        let mut i: usize = 0;
        while i < self.windows_data.len()
            invariant
                i <= self.ws().len(),
                dx == self.display.frame.x,
                out@ == stacks_of(self.ws().take(i as int), dx as int),
            decreases self.ws().len() - i,
        {
            proof {
                let prev = self.ws().take(i as int);
                let wv = self.ws()[i as int];
                assert(self.ws().take(i + 1) =~= prev.push(wv));
                lemma_stacks_push(prev, wv, dx as int);
            }
            let w = self.windows_data[i];
            if w.frame.x == dx {
                out.push(w);
            }
            i = i + 1;
        }
        proof {
            assert(self.ws().take(self.ws().len() as int) =~= self.ws());
        }
        out
    }

    /// The windows that are neither stack nor master, in snapshot order.
    pub fn get_middle_windows(&self) -> (r: Vec<Window>)
        requires
            self.ws().len() >= 1,
        ensures
            r@ == self.spec_middles(),
    {
        let line = self.get_dividing_line_x_coordinate();
        let dx = self.display.frame.x;
        let mut out: Vec<Window> = Vec::new();
        let mut i: usize = 0;
        while i < self.windows_data.len()
            invariant
                i <= self.ws().len(),
                self.ws().len() >= 1,
                dx == self.display.frame.x,
                line as int == self.line(),
                out@ == middles_of(self.ws().take(i as int), dx as int, line as int),
            decreases self.ws().len() - i,
        {
            proof {
                let prev = self.ws().take(i as int);
                let wv = self.ws()[i as int];
                assert(self.ws().take(i + 1) =~= prev.push(wv));
                lemma_middles_push(prev, wv, dx as int, line as int);
            }
            let w = self.windows_data[i];
            if w.frame.x != dx && w.frame.x < line {
                out.push(w);
            }
            i = i + 1;
        }
        proof {
            assert(self.ws().take(self.ws().len() as int) =~= self.ws());
        }
        out
    }

    /// A stack exists iff the top-right window is off the left edge.
    pub fn does_stack_exist(&self) -> (r: bool)
        ensures
            r == self.spec_stack_exists(),
    {
        match self.get_top_right_window() {
            Some(w) => w.frame.x != self.display.frame.x,
            None => false,
        }
    }

    /// The snapshot window with the given window's id, freshly looked up.
    pub fn get_updated_window_data(&self, window: &Window) -> (r: Option<Window>)
        ensures
            r == find_by_id(self.ws(), window.id),
    {
        self.find_window_by_id(window.id)
    }

    /// The first snapshot window with the given id; `None` means no window
    /// of the snapshot carries it.
    pub fn find_window_by_id(&self, id: usize) -> (r: Option<Window>)
        ensures
            r == find_by_id(self.ws(), id),
            match r {
                Option::None => forall|i: int|
                    0 <= i < self.ws().len() ==> (#[trigger] self.ws()[i]).id != id,
                Option::Some(w) => self.ws().contains(w) && w.id == id,
            },
    {
        proof {
            lemma_find_by_id(self.ws(), id);
        }
        let mut i: usize = 0;
        proof {
            assert(self.ws().skip(0) =~= self.ws());
        }
        while i < self.windows_data.len()
            invariant
                i <= self.ws().len(),
                find_by_id(self.ws(), id) == find_by_id(self.ws().skip(i as int), id),
            decreases self.ws().len() - i,
        {
            proof {
                assert(self.ws().skip(i as int)[0] == self.ws()[i as int]);
                assert(self.ws().skip(i as int).drop_first() =~= self.ws().skip(i + 1));
            }
            if self.windows_data[i].id == id {
                return Some(self.windows_data[i]);
            }
            i = i + 1;
        }
        proof {
            assert(self.ws().skip(self.ws().len() as int) =~= Seq::<Window>::empty());
        }
        None
    }

    /// The snapshot window selected by `props`; the caller must know that the
    /// lookup succeeds (a miss would mean a stale snapshot).
    pub fn get_window_data(&self, props: GetWindowDataProps) -> (r: Window)
        requires
            match props {
                GetWindowDataProps::ProcessId(pid) => find_by_pid(self.ws(), pid) is Some,
                GetWindowDataProps::WindowId(id) => find_by_id(self.ws(), id) is Some,
            },
        ensures
            match props {
                GetWindowDataProps::ProcessId(pid) => Option::Some(r) == find_by_pid(
                    self.ws(),
                    pid,
                ),
                GetWindowDataProps::WindowId(id) => Option::Some(r) == find_by_id(self.ws(), id),
            },
    {
        match props {
            GetWindowDataProps::ProcessId(pid) => {
                match self.find_window_by_pid(pid) {
                    Some(w) => w,
                    None => {
                        // Unreachable: the precondition names a matching
                        // window.
                        proof {
                            assert(false);
                        }
                        self.windows_data[0]
                    },
                }
            },
            GetWindowDataProps::WindowId(id) => {
                match self.find_window_by_id(id) {
                    Some(w) => w,
                    None => {
                        // Unreachable: the precondition names a matching
                        // window.
                        proof {
                            assert(false);
                        }
                        self.windows_data[0]
                    },
                }
            },
        }
    }

    /// The first snapshot window owned by the given process.
    pub fn find_window_by_pid(&self, pid: usize) -> (r: Option<Window>)
        ensures
            r == find_by_pid(self.ws(), pid),
    {
        let mut i: usize = 0;
        proof {
            assert(self.ws().skip(0) =~= self.ws());
        }
        while i < self.windows_data.len()
            invariant
                i <= self.ws().len(),
                find_by_pid(self.ws(), pid) == find_by_pid(self.ws().skip(i as int), pid),
            decreases self.ws().len() - i,
        {
            proof {
                assert(self.ws().skip(i as int)[0] == self.ws()[i as int]);
                assert(self.ws().skip(i as int).drop_first() =~= self.ws().skip(i + 1));
            }
            if self.windows_data[i].pid == pid {
                return Some(self.windows_data[i]);
            }
            i = i + 1;
        }
        proof {
            assert(self.ws().skip(self.ws().len() as int) =~= Seq::<Window>::empty());
        }
        None
    }

    /// The first focused window of the snapshot, if any.
    pub fn get_focused_window(&self) -> (r: Option<Window>)
        ensures
            r == find_focused(self.ws()),
    {
        let mut i: usize = 0;
        proof {
            assert(self.ws().skip(0) =~= self.ws());
        }
        while i < self.windows_data.len()
            invariant
                i <= self.ws().len(),
                find_focused(self.ws()) == find_focused(self.ws().skip(i as int)),
            decreases self.ws().len() - i,
        {
            proof {
                assert(self.ws().skip(i as int)[0] == self.ws()[i as int]);
                assert(self.ws().skip(i as int).drop_first() =~= self.ws().skip(i + 1));
            }
            if self.windows_data[i].focused {
                return Some(self.windows_data[i]);
            }
            i = i + 1;
        }
        proof {
            assert(self.ws().skip(self.ws().len() as int) =~= Seq::<Window>::empty());
        }
        None
    }

    /// The topmost window of a subset, under the strict
    /// (y ascending, x ascending, id ascending) order.
    pub fn get_top_window(&self, windows: &Vec<Window>) -> (r: Option<Window>)
        ensures
            r == if windows@.len() == 0 {
                Option::<Window>::None
            } else {
                Option::Some(pick_of(windows@, Pick::Top))
            },
    {
        if windows.len() == 0 {
            None
        } else {
            Some(pick_window(windows, Pick::Top))
        }
    }

    /// True iff the window is the topmost of the subset.
    pub fn is_top_window(&self, windows: &Vec<Window>, window: &Window) -> (r: bool)
        ensures
            r == (windows@.len() > 0 && pick_of(windows@, Pick::Top).id == window.id),
    {
        match self.get_top_window(windows) {
            Some(top) => top.id == window.id,
            None => false,
        }
    }

    /// The bottommost window of a subset, under the strict
    /// (y descending, x descending, id descending) order.
    pub fn get_bottom_window(&self, windows: &Vec<Window>) -> (r: Option<Window>)
        ensures
            r == if windows@.len() == 0 {
                Option::<Window>::None
            } else {
                Option::Some(pick_of(windows@, Pick::Bottom))
            },
    {
        if windows.len() == 0 {
            None
        } else {
            Some(pick_window(windows, Pick::Bottom))
        }
    }

    /// True iff the window is the bottommost of the subset.
    pub fn is_bottom_window(&self, windows: &Vec<Window>, window: &Window) -> (r: bool)
        ensures
            r == (windows@.len() > 0 && pick_of(windows@, Pick::Bottom).id == window.id),
    {
        match self.get_bottom_window(windows) {
            Some(bottom) => bottom.id == window.id,
            None => false,
        }
    }

    /// The topmost stack window, if any.
    pub fn get_top_stack_window(&self) -> (r: Option<Window>)
        ensures
            r == if self.spec_stacks().len() == 0 {
                Option::<Window>::None
            } else {
                Option::Some(pick_of(self.spec_stacks(), Pick::Top))
            },
    {
        let stacks = self.get_stack_windows();
        self.get_top_window(&stacks)
    }

    /// The bottommost stack window, if any.
    pub fn get_bottom_stack_window(&self) -> (r: Option<Window>)
        ensures
            r == if self.spec_stacks().len() == 0 {
                Option::<Window>::None
            } else {
                Option::Some(pick_of(self.spec_stacks(), Pick::Bottom))
            },
    {
        let stacks = self.get_stack_windows();
        self.get_bottom_window(&stacks)
    }

    /// The topmost master window, if any.
    pub fn get_top_master_window(&self) -> (r: Option<Window>)
        requires
            self.ws().len() >= 1,
        ensures
            r == if self.spec_masters().len() == 0 {
                Option::<Window>::None
            } else {
                Option::Some(pick_of(self.spec_masters(), Pick::Top))
            },
    {
        let masters = self.get_master_windows();
        self.get_top_window(&masters)
    }

    /// The bottommost master window, if any.
    pub fn get_bottom_master_window(&self) -> (r: Option<Window>)
        requires
            self.ws().len() >= 1,
        ensures
            r == if self.spec_masters().len() == 0 {
                Option::<Window>::None
            } else {
                Option::Some(pick_of(self.spec_masters(), Pick::Bottom))
            },
    {
        let masters = self.get_master_windows();
        self.get_bottom_window(&masters)
    }

    /// The widest stack window, if any; ties go to the least id.
    pub fn get_widest_stack_window(&self) -> (r: Option<Window>)
        ensures
            r == if self.spec_stacks().len() == 0 {
                Option::<Window>::None
            } else {
                Option::Some(pick_of(self.spec_stacks(), Pick::Widest))
            },
    {
        let stacks = self.get_stack_windows();
        if stacks.len() == 0 {
            None
        } else {
            Some(pick_window(&stacks, Pick::Widest))
        }
    }

    /// The widest master window, if any; ties go to the least id.
    pub fn get_widest_master_window(&self) -> (r: Option<Window>)
        requires
            self.ws().len() >= 1,
        ensures
            r == if self.spec_masters().len() == 0 {
                Option::<Window>::None
            } else {
                Option::Some(pick_of(self.spec_masters(), Pick::Widest))
            },
    {
        let masters = self.get_master_windows();
        if masters.len() == 0 {
            None
        } else {
            Some(pick_window(&masters, Pick::Widest))
        }
    }

    /// The topmost window among those flush with the left edge. At least one
    /// window must touch the left edge.
    pub fn get_top_left_window(&self) -> (r: Window)
        requires
            self.spec_stacks().len() > 0,
        ensures
            r == pick_of(self.spec_stacks(), Pick::Top),
    {
        let stacks = self.get_stack_windows();
        pick_window(&stacks, Pick::Top)
    }

    /// The same session with a new expected master-window count; every other
    /// field is unchanged.
    pub fn with_target(self, new_target: usize) -> (r: WindowsManager)
        requires
            new_target >= 1,
        ensures
            r.display == self.display,
            r.space == self.space,
            r.windows_data == self.windows_data,
            r.expected_current_num_master_windows == new_target,
            distinct_ids(self.windows_data@) ==> r.wf(),
    {
        WindowsManager {
            expected_current_num_master_windows: new_target,
            ..self
        }
    }
}

/// The window takes part in tiling on the given display and space: it is
/// neither floating nor minimized and sits on that display and space.
pub open spec fn tiled_on(w: Window, display_index: usize, space_index: usize) -> bool {
    !w.floating && w.display == display_index && w.space == space_index && !w.minimized
}

/// The sub-sequence of windows that take part in tiling on the given
/// display and space.
pub open spec fn tiled_windows(
    ws: Seq<Window>,
    display_index: usize,
    space_index: usize,
) -> Seq<Window> {
    ws.filter(|w: Window| tiled_on(w, display_index, space_index))
}

/// One window appended to the list behind `tiled_windows`.
proof fn lemma_tiled_push(prev: Seq<Window>, w: Window, display_index: usize, space_index: usize)
    ensures
        tiled_windows(prev.push(w), display_index, space_index) == if tiled_on(
            w,
            display_index,
            space_index,
        ) {
            tiled_windows(prev, display_index, space_index).push(w)
        } else {
            tiled_windows(prev, display_index, space_index)
        },
{
}

/// Filter a raw windows query down to the snapshot: only windows that take
/// part in tiling on the given display and space are kept, in query order.
pub fn filter_windows_data(
    windows: &Vec<Window>,
    display_index: usize,
    space_index: usize,
) -> (r: Vec<Window>)
    ensures
        r@ == tiled_windows(windows@, display_index, space_index),
{
    let mut out: Vec<Window> = Vec::new();
    let mut i: usize = 0;
    while i < windows.len()
        invariant
            i <= windows@.len(),
            out@ == tiled_windows(windows@.take(i as int), display_index, space_index),
        decreases windows@.len() - i,
    {
        proof {
            let prev = windows@.take(i as int);
            let wv = windows@[i as int];
            assert(windows@.take(i + 1) =~= prev.push(wv));
            lemma_tiled_push(prev, wv, display_index, space_index);
        }
        let w = windows[i];
        if !w.floating && w.display == display_index && w.space == space_index && !w.minimized {
            out.push(w);
        }
        i = i + 1;
    }
    proof {
        assert(windows@.take(windows@.len() as int) =~= windows@);
    }
    out
}

/// True iff no two windows of the list share an id.
pub fn check_distinct_ids(windows: &Vec<Window>) -> (r: bool)
    ensures
        r == distinct_ids(windows@),
{
    let mut i: usize = 0;
    while i < windows.len()
        invariant
            i <= windows@.len(),
            forall|a: int, b: int| 0 <= a < b < windows@.len() && a < i ==> windows@[a].id
                != windows@[b].id,
        decreases windows@.len() - i,
    {
        let mut j: usize = i + 1;
        while j < windows.len()
            invariant
                i < j <= windows@.len() || (i + 1 == j && j >= windows@.len()),
                forall|b: int| i < b < j ==> windows@[i as int].id != windows@[b].id,
            decreases windows@.len() - j,
        {
            if windows[i].id == windows[j].id {
                return false;
            }
            j = j + 1;
        }
        i = i + 1;
    }
    true
}

/// Build the session around one snapshot: the expected master-window count is
/// clamped to the window count (and to at least one), and the snapshot is
/// rejected when two windows share an id.
pub fn create_windows_manager(
    display: Display,
    space: Space,
    expected_num_master_windows: usize,
    windows_data: Vec<Window>,
) -> (r: Option<WindowsManager>)
    ensures
        match r {
            Option::Some(m) => {
                &&& distinct_ids(windows_data@)
                &&& m.wf()
                &&& m.display == display
                &&& m.space == space
                &&& m.windows_data == windows_data
                &&& m.expected_current_num_master_windows as int == WindowsManager::clamped_target(
                    expected_num_master_windows as int,
                    windows_data@.len() as int,
                )
            },
            Option::None => !distinct_ids(windows_data@),
        },
{
    if !check_distinct_ids(&windows_data) {
        return None;
    }
    let n = windows_data.len();
    let mut expected = expected_num_master_windows;
    if n < expected {
        expected = n;
    }
    if expected == 0 {
        expected = 1;
    }
    Some(
        WindowsManager {
            display,
            space,
            expected_current_num_master_windows: expected,
            windows_data,
        },
    )
}

/// A window at or right of the line puts a window into `masters_of`.
pub proof fn lemma_masters_complete(ws: Seq<Window>, line: int, i: int)
    requires
        0 <= i < ws.len(),
        ws[i].frame.x as int >= line,
    ensures
        masters_of(ws, line).len() > 0,
    decreases ws.len(),
{
    assert(ws =~= ws.drop_last().push(ws.last()));
    lemma_masters_push(ws.drop_last(), ws.last(), line);
    if i < ws.len() - 1 {
        assert(ws.drop_last()[i] == ws[i]);
        lemma_masters_complete(ws.drop_last(), line, i);
    }
}

/// A window flush with the left edge puts a window into `stacks_of`.
pub proof fn lemma_stacks_complete(ws: Seq<Window>, dx: int, i: int)
    requires
        0 <= i < ws.len(),
        ws[i].frame.x as int == dx,
    ensures
        stacks_of(ws, dx).len() > 0,
    decreases ws.len(),
{
    assert(ws =~= ws.drop_last().push(ws.last()));
    lemma_stacks_push(ws.drop_last(), ws.last(), dx);
    if i < ws.len() - 1 {
        assert(ws.drop_last()[i] == ws[i]);
        lemma_stacks_complete(ws.drop_last(), dx, i);
    }
}

/// What `find_focused` returns is a focused window of the sequence.
pub proof fn lemma_find_focused_in(ws: Seq<Window>)
    ensures
        match find_focused(ws) {
            Option::None => true,
            Option::Some(w) => ws.contains(w) && w.focused,
        },
    decreases ws.len(),
{
    if ws.len() > 0 && !ws[0].focused {
        lemma_find_focused_in(ws.drop_first());
        match find_focused(ws.drop_first()) {
            Option::None => {},
            Option::Some(w) => {
                let i = choose|i: int|
                    0 <= i < ws.drop_first().len() && ws.drop_first()[i] == w;
                assert(ws[i + 1] == w);
                assert(ws.contains(w));
            },
        }
    }
}

/// A window off the left edge and left of the line puts a window into
/// `middles_of`.
pub proof fn lemma_middles_complete(ws: Seq<Window>, dx: int, line: int, i: int)
    requires
        0 <= i < ws.len(),
        ws[i].frame.x as int != dx,
        (ws[i].frame.x as int) < line,
    ensures
        middles_of(ws, dx, line).len() > 0,
    decreases ws.len(),
{
    assert(ws =~= ws.drop_last().push(ws.last()));
    lemma_middles_push(ws.drop_last(), ws.last(), dx, line);
    if i < ws.len() - 1 {
        assert(ws.drop_last()[i] == ws[i]);
        lemma_middles_complete(ws.drop_last(), dx, line, i);
    }
}

/// When every window is at or right of the line, `masters_of` keeps them all.
pub proof fn lemma_masters_all(ws: Seq<Window>, line: int)
    requires
        forall|i: int| 0 <= i < ws.len() ==> (#[trigger] ws[i]).frame.x as int >= line,
    ensures
        masters_of(ws, line).len() == ws.len(),
    decreases ws.len(),
{
    if ws.len() > 0 {
        assert(ws =~= ws.drop_last().push(ws.last()));
        lemma_masters_push(ws.drop_last(), ws.last(), line);
        assert(forall|i: int|
            0 <= i < ws.drop_last().len() ==> #[trigger] ws.drop_last()[i] == ws[i]);
        lemma_masters_all(ws.drop_last(), line);
    }
}

/// Replacing one window changes the count behind `eligible_at` by the
/// difference the two windows make to the predicate.
pub proof fn lemma_eligible_at_update(
    ws: Seq<Window>,
    i: int,
    w2: Window,
    dx: int,
    trx: int,
    v: int,
)
    requires
        0 <= i < ws.len(),
    ensures
        eligible_at(ws.update(i, w2), dx, trx, v) == eligible_at(ws, dx, trx, v) + (if eligible(
            w2,
            dx,
            trx,
        ) && w2.frame.x == v {
            1int
        } else {
            0int
        }) - (if eligible(ws[i], dx, trx) && ws[i].frame.x == v {
            1int
        } else {
            0int
        }),
    decreases ws.len(),
{
    let last = ws.last();
    if i == ws.len() - 1 {
        assert(ws.update(i, w2) =~= ws.drop_last().push(w2));
        assert(ws =~= ws.drop_last().push(last));
        lemma_eligible_at_push(ws.drop_last(), w2, dx, trx, v);
        lemma_eligible_at_push(ws.drop_last(), last, dx, trx, v);
    } else {
        assert(ws.update(i, w2) =~= ws.drop_last().update(i, w2).push(last));
        assert(ws =~= ws.drop_last().push(last));
        assert(ws.drop_last()[i] == ws[i]);
        lemma_eligible_at_update(ws.drop_last(), i, w2, dx, trx, v);
        lemma_eligible_at_push(ws.drop_last().update(i, w2), last, dx, trx, v);
        lemma_eligible_at_push(ws.drop_last(), last, dx, trx, v);
    }
}

/// Replacing one window changes the count behind `eligible_gt` by the
/// difference the two windows make to the predicate.
pub proof fn lemma_eligible_gt_update(
    ws: Seq<Window>,
    i: int,
    w2: Window,
    dx: int,
    trx: int,
    v: int,
)
    requires
        0 <= i < ws.len(),
    ensures
        eligible_gt(ws.update(i, w2), dx, trx, v) == eligible_gt(ws, dx, trx, v) + (if eligible(
            w2,
            dx,
            trx,
        ) && w2.frame.x > v {
            1int
        } else {
            0int
        }) - (if eligible(ws[i], dx, trx) && ws[i].frame.x > v {
            1int
        } else {
            0int
        }),
    decreases ws.len(),
{
    let last = ws.last();
    if i == ws.len() - 1 {
        assert(ws.update(i, w2) =~= ws.drop_last().push(w2));
        assert(ws =~= ws.drop_last().push(last));
        lemma_eligible_gt_push(ws.drop_last(), w2, dx, trx, v);
        lemma_eligible_gt_push(ws.drop_last(), last, dx, trx, v);
    } else {
        assert(ws.update(i, w2) =~= ws.drop_last().update(i, w2).push(last));
        assert(ws =~= ws.drop_last().push(last));
        assert(ws.drop_last()[i] == ws[i]);
        lemma_eligible_gt_update(ws.drop_last(), i, w2, dx, trx, v);
        lemma_eligible_gt_push(ws.drop_last().update(i, w2), last, dx, trx, v);
        lemma_eligible_gt_push(ws.drop_last(), last, dx, trx, v);
    }
}

/// Replacing one window changes the count behind `num_right_of_top_right`
/// by the difference the two windows make to the predicate.
pub proof fn lemma_num_right_update(ws: Seq<Window>, i: int, w2: Window, dx: int, trx: int)
    requires
        0 <= i < ws.len(),
    ensures
        num_right_of_top_right(ws.update(i, w2), dx, trx) == num_right_of_top_right(ws, dx, trx)
            + (if w2.frame.x != dx && w2.frame.x > trx {
            1int
        } else {
            0int
        }) - (if ws[i].frame.x != dx && ws[i].frame.x > trx {
            1int
        } else {
            0int
        }),
    decreases ws.len(),
{
    let last = ws.last();
    if i == ws.len() - 1 {
        assert(ws.update(i, w2) =~= ws.drop_last().push(w2));
        assert(ws =~= ws.drop_last().push(last));
        lemma_num_right_push(ws.drop_last(), w2, dx, trx);
        lemma_num_right_push(ws.drop_last(), last, dx, trx);
    } else {
        assert(ws.update(i, w2) =~= ws.drop_last().update(i, w2).push(last));
        assert(ws =~= ws.drop_last().push(last));
        assert(ws.drop_last()[i] == ws[i]);
        lemma_num_right_update(ws.drop_last(), i, w2, dx, trx);
        lemma_num_right_push(ws.drop_last().update(i, w2), last, dx, trx);
        lemma_num_right_push(ws.drop_last(), last, dx, trx);
    }
}

/// Replacing one window changes the length of `masters_of` by the
/// difference the two windows make to the predicate.
pub proof fn lemma_masters_update(ws: Seq<Window>, i: int, w2: Window, line: int)
    requires
        0 <= i < ws.len(),
    ensures
        masters_of(ws.update(i, w2), line).len() == masters_of(ws, line).len() + (if w2.frame.x
            as int >= line {
            1int
        } else {
            0int
        }) - (if ws[i].frame.x as int >= line {
            1int
        } else {
            0int
        }),
    decreases ws.len(),
{
    let last = ws.last();
    if i == ws.len() - 1 {
        assert(ws.update(i, w2) =~= ws.drop_last().push(w2));
        assert(ws =~= ws.drop_last().push(last));
        lemma_masters_push(ws.drop_last(), w2, line);
        lemma_masters_push(ws.drop_last(), last, line);
    } else {
        assert(ws.update(i, w2) =~= ws.drop_last().update(i, w2).push(last));
        assert(ws =~= ws.drop_last().push(last));
        assert(ws.drop_last()[i] == ws[i]);
        lemma_masters_update(ws.drop_last(), i, w2, line);
        lemma_masters_push(ws.drop_last().update(i, w2), last, line);
        lemma_masters_push(ws.drop_last(), last, line);
    }
}

/// Replacing one window changes the length of `stacks_of` by the difference
/// the two windows make to the predicate.
pub proof fn lemma_stacks_update(ws: Seq<Window>, i: int, w2: Window, dx: int)
    requires
        0 <= i < ws.len(),
    ensures
        stacks_of(ws.update(i, w2), dx).len() == stacks_of(ws, dx).len() + (if w2.frame.x as int
            == dx {
            1int
        } else {
            0int
        }) - (if ws[i].frame.x as int == dx {
            1int
        } else {
            0int
        }),
    decreases ws.len(),
{
    let last = ws.last();
    if i == ws.len() - 1 {
        assert(ws.update(i, w2) =~= ws.drop_last().push(w2));
        assert(ws =~= ws.drop_last().push(last));
        lemma_stacks_push(ws.drop_last(), w2, dx);
        lemma_stacks_push(ws.drop_last(), last, dx);
    } else {
        assert(ws.update(i, w2) =~= ws.drop_last().update(i, w2).push(last));
        assert(ws =~= ws.drop_last().push(last));
        assert(ws.drop_last()[i] == ws[i]);
        lemma_stacks_update(ws.drop_last(), i, w2, dx);
        lemma_stacks_push(ws.drop_last().update(i, w2), last, dx);
        lemma_stacks_push(ws.drop_last(), last, dx);
    }
}

/// Replacing one window changes the length of `middles_of` by the
/// difference the two windows make to the predicate.
pub proof fn lemma_middles_update(ws: Seq<Window>, i: int, w2: Window, dx: int, line: int)
    requires
        0 <= i < ws.len(),
    ensures
        middles_of(ws.update(i, w2), dx, line).len() == middles_of(ws, dx, line).len() + (if
        w2.frame.x as int != dx && (w2.frame.x as int) < line {
            1int
        } else {
            0int
        }) - (if ws[i].frame.x as int != dx && (ws[i].frame.x as int) < line {
            1int
        } else {
            0int
        }),
    decreases ws.len(),
{
    let last = ws.last();
    if i == ws.len() - 1 {
        assert(ws.update(i, w2) =~= ws.drop_last().push(w2));
        assert(ws =~= ws.drop_last().push(last));
        lemma_middles_push(ws.drop_last(), w2, dx, line);
        lemma_middles_push(ws.drop_last(), last, dx, line);
    } else {
        assert(ws.update(i, w2) =~= ws.drop_last().update(i, w2).push(last));
        assert(ws =~= ws.drop_last().push(last));
        assert(ws.drop_last()[i] == ws[i]);
        lemma_middles_update(ws.drop_last(), i, w2, dx, line);
        lemma_middles_push(ws.drop_last().update(i, w2), last, dx, line);
        lemma_middles_push(ws.drop_last(), last, dx, line);
    }
}

/// A positive `eligible_at` count names an eligible window at `v`.
pub proof fn lemma_eligible_at_pos(ws: Seq<Window>, dx: int, trx: int, v: int)
    requires
        eligible_at(ws, dx, trx, v) > 0,
    ensures
        exists|j: int| 0 <= j < ws.len() && eligible(#[trigger] ws[j], dx, trx) && ws[j].frame.x
            == v,
    decreases ws.len(),
{
    if ws.len() > 0 {
        let last = ws.last();
        assert(ws =~= ws.drop_last().push(last));
        lemma_eligible_at_push(ws.drop_last(), last, dx, trx, v);
        if eligible(last, dx, trx) && last.frame.x == v {
            assert(ws[ws.len() - 1] == last);
        } else {
            lemma_eligible_at_pos(ws.drop_last(), dx, trx, v);
            let j = choose|j: int|
                0 <= j < ws.drop_last().len() && eligible(ws.drop_last()[j], dx, trx)
                    && ws.drop_last()[j].frame.x == v;
            assert(ws[j] == ws.drop_last()[j]);
        }
    }
}

/// What `best_pair_x` selects: the greatest x-coordinate of an eligible
/// candidate at which the pair rule applies, and `None` exactly when the
/// rule applies at no eligible candidate.
pub proof fn lemma_best_pair_char(
    ws: Seq<Window>,
    dx: int,
    trx: int,
    k: nat,
    target: int,
    cands: Seq<Window>,
)
    ensures
        match best_pair_x(ws, dx, trx, k, target, cands) {
            Option::Some(v) => {
                &&& exists|j: int| 0 <= j < cands.len() && eligible(#[trigger] cands[j], dx, trx)
                    && cands[j].frame.x == v
                &&& pair_rule_applies(ws, dx, trx, k, target, v)
                &&& forall|j: int| 0 <= j < cands.len() && eligible(
                    #[trigger] cands[j],
                    dx,
                    trx,
                ) && pair_rule_applies(ws, dx, trx, k, target, cands[j].frame.x as int)
                    ==> cands[j].frame.x <= v
            },
            Option::None => forall|j: int| 0 <= j < cands.len() && eligible(
                #[trigger] cands[j],
                dx,
                trx,
            ) ==> !pair_rule_applies(ws, dx, trx, k, target, cands[j].frame.x as int),
        },
    decreases cands.len(),
{
    if cands.len() > 0 {
        lemma_best_pair_char(ws, dx, trx, k, target, cands.drop_last());
        assert(forall|j: int|
            0 <= j < cands.len() - 1 ==> #[trigger] cands[j] == cands.drop_last()[j]);
        match best_pair_x(ws, dx, trx, k, target, cands) {
            Option::Some(v) => {
                match best_pair_x(ws, dx, trx, k, target, cands.drop_last()) {
                    Option::Some(u) => {
                        if v == u {
                            let j = choose|j: int|
                                0 <= j < cands.drop_last().len() && eligible(
                                    cands.drop_last()[j],
                                    dx,
                                    trx,
                                ) && cands.drop_last()[j].frame.x == u;
                            assert(cands[j] == cands.drop_last()[j]);
                        } else {
                            assert(cands[cands.len() - 1] == cands.last());
                        }
                    },
                    Option::None => {
                        assert(cands[cands.len() - 1] == cands.last());
                    },
                }
            },
            Option::None => {},
        }
    }
}

/// A qualifying column never lies right of the top-right window.
proof fn lemma_best_pair_le_trx(
    ws: Seq<Window>,
    dx: int,
    trx: int,
    k: nat,
    target: int,
    cands: Seq<Window>,
)
    ensures
        match best_pair_x(ws, dx, trx, k, target, cands) {
            Option::Some(v) => v <= trx,
            Option::None => true,
        },
    decreases cands.len(),
{
    if cands.len() > 0 {
        lemma_best_pair_le_trx(ws, dx, trx, k, target, cands.drop_last());
    }
}

/// The dividing line never lies right of the top-right window, so the
/// top-right window is always classified master and the master list of a
/// non-empty snapshot is never empty.
pub proof fn lemma_masters_nonempty(m: WindowsManager)
    requires
        m.ws().len() >= 1,
    ensures
        m.line() <= pick_of(m.ws(), Pick::TopRight).frame.x as int,
        m.spec_masters().len() > 0,
{
    let tr = pick_of(m.ws(), Pick::TopRight);
    let trx = tr.frame.x as int;
    let target = m.expected_current_num_master_windows as int;
    lemma_best_pair_le_trx(
        m.ws(),
        m.dx(),
        trx,
        num_right_of_top_right(m.ws(), m.dx(), trx),
        target,
        m.ws(),
    );
    crate::order::lemma_pick_in(m.ws(), Pick::TopRight);
    let i = choose|i: int| 0 <= i < m.ws().len() && m.ws()[i] == tr;
    lemma_masters_complete(m.ws(), m.line(), i);
}

/// The dividing line is a pure function of the snapshot: two managers with
/// the same windows, display and expected count agree on it.
pub proof fn lemma_dividing_line_deterministic(a: WindowsManager, b: WindowsManager)
    requires
        a.ws() == b.ws(),
        a.display.frame.x == b.display.frame.x,
        a.expected_current_num_master_windows == b.expected_current_num_master_windows,
        a.ws().len() >= 1,
    ensures
        a.line() == b.line(),
{
}

} // verus!
