//! Strict selection orders over windows.
//!
//! Extremal-window queries (top-right window, top or bottom of a subset,
//! widest window) break ties by a strict total order over the window's
//! geometry and id, so that the selected window is a deterministic function
//! of the snapshot alone and not of iteration order.

use vstd::prelude::*;

use crate::types::Window;

verus! {

/// Which window an extremal query prefers.
#[derive(Clone, Copy, PartialEq, Eq, Structural, Debug)]
pub enum Pick {
    /// Least y; ties by greatest x, then least id (the top-right window).
    TopRight,
    /// Least y; ties by least x, then least id (the top window of a subset).
    Top,
    /// Greatest y; ties by greatest x, then greatest id (the bottom window).
    Bottom,
    /// Greatest width; ties by least id.
    Widest,
}

/// True iff `a` is strictly preferred over `b` under `p`. For windows with
/// distinct ids this is a strict total order.
pub open spec fn prefers(p: Pick, a: Window, b: Window) -> bool {
    match p {
        Pick::TopRight => a.frame.y < b.frame.y || (a.frame.y == b.frame.y && (a.frame.x
            > b.frame.x || (a.frame.x == b.frame.x && a.id < b.id))),
        Pick::Top => a.frame.y < b.frame.y || (a.frame.y == b.frame.y && (a.frame.x < b.frame.x
            || (a.frame.x == b.frame.x && a.id < b.id))),
        Pick::Bottom => a.frame.y > b.frame.y || (a.frame.y == b.frame.y && (a.frame.x > b.frame.x
            || (a.frame.x == b.frame.x && a.id > b.id))),
        Pick::Widest => a.frame.w > b.frame.w || (a.frame.w == b.frame.w && a.id < b.id),
    }
}

/// The most preferred window of a non-empty sequence; on an empty sequence,
/// an arbitrary value.
pub open spec fn pick_of(ws: Seq<Window>, p: Pick) -> Window
    decreases ws.len(),
{
    if ws.len() <= 1 {
        ws[0]
    } else {
        let rest = pick_of(ws.drop_last(), p);
        if prefers(p, ws.last(), rest) {
            ws.last()
        } else {
            rest
        }
    }
}

/// The preference relation is transitive.
proof fn lemma_prefers_transitive(p: Pick, a: Window, b: Window, c: Window)
    requires
        prefers(p, a, b),
        prefers(p, b, c),
    ensures
        prefers(p, a, c),
{
}

/// The selected window is an element of the sequence.
pub proof fn lemma_pick_in(ws: Seq<Window>, p: Pick)
    requires
        ws.len() > 0,
    ensures
        ws.contains(pick_of(ws, p)),
    decreases ws.len(),
{
    if ws.len() > 1 {
        lemma_pick_in(ws.drop_last(), p);
        let rest = pick_of(ws.drop_last(), p);
        if !prefers(p, ws.last(), rest) {
            let i = choose|i: int| 0 <= i < ws.drop_last().len() && ws.drop_last()[i] == rest;
            assert(ws[i] == rest);
        }
    }
}

/// No element of the sequence is preferred over the selected window.
pub proof fn lemma_pick_minimal(ws: Seq<Window>, p: Pick)
    requires
        ws.len() > 0,
    ensures
        forall|i: int| 0 <= i < ws.len() ==> !prefers(p, #[trigger] ws[i], pick_of(ws, p)),
    decreases ws.len(),
{
    if ws.len() > 1 {
        lemma_pick_minimal(ws.drop_last(), p);
        let rest = pick_of(ws.drop_last(), p);
        let best = pick_of(ws, p);
        assert forall|i: int| 0 <= i < ws.len() implies !prefers(p, #[trigger] ws[i], best) by {
            if i < ws.len() - 1 {
                assert(ws.drop_last()[i] == ws[i]);
                if prefers(p, ws[i], best) && best == ws.last() {
                    lemma_prefers_transitive(p, ws[i], best, rest);
                }
            }
        }
    }
}

/// Windows with distinct ids are strictly ordered one way or the other.
proof fn lemma_prefers_total(p: Pick, a: Window, b: Window)
    requires
        a.id != b.id,
    ensures
        prefers(p, a, b) || prefers(p, b, a),
{
}

/// The selection is unique: a member of the sequence over which no member is
/// preferred is the selected window, provided ids are distinct.
pub proof fn lemma_pick_unique(ws: Seq<Window>, p: Pick, t: Window)
    requires
        ws.len() > 0,
        ws.contains(t),
        forall|i: int| 0 <= i < ws.len() ==> !prefers(p, #[trigger] ws[i], t),
        forall|i: int, j: int| 0 <= i < j < ws.len() ==> ws[i].id != ws[j].id,
    ensures
        pick_of(ws, p) == t,
{
    let best = pick_of(ws, p);
    lemma_pick_in(ws, p);
    lemma_pick_minimal(ws, p);
    let i = choose|i: int| 0 <= i < ws.len() && ws[i] == t;
    let j = choose|j: int| 0 <= j < ws.len() && ws[j] == best;
    if t.id != best.id {
        lemma_prefers_total(p, t, best);
    } else if i != j {
        assert(ws[i].id != ws[j].id);
    }
}

/// Executable form of the preference test.
pub fn prefer(p: Pick, a: &Window, b: &Window) -> (r: bool)
    ensures
        r == prefers(p, *a, *b),
{
    match p {
        Pick::TopRight => a.frame.y < b.frame.y || (a.frame.y == b.frame.y && (a.frame.x
            > b.frame.x || (a.frame.x == b.frame.x && a.id < b.id))),
        Pick::Top => a.frame.y < b.frame.y || (a.frame.y == b.frame.y && (a.frame.x < b.frame.x
            || (a.frame.x == b.frame.x && a.id < b.id))),
        Pick::Bottom => a.frame.y > b.frame.y || (a.frame.y == b.frame.y && (a.frame.x > b.frame.x
            || (a.frame.x == b.frame.x && a.id > b.id))),
        Pick::Widest => a.frame.w > b.frame.w || (a.frame.w == b.frame.w && a.id < b.id),
    }
}

/// Select the most preferred window of a non-empty list: a member of the
/// list over which no other member is preferred.
pub fn pick_window(ws: &Vec<Window>, p: Pick) -> (r: Window)
    requires
        ws@.len() > 0,
    ensures
        r == pick_of(ws@, p),
        ws@.contains(r),
        forall|i: int| 0 <= i < ws@.len() ==> !prefers(p, #[trigger] ws@[i], r),
{
    proof {
        lemma_pick_in(ws@, p);
        lemma_pick_minimal(ws@, p);
    }
    let mut best: Window = ws[0];
    let mut i: usize = 1;
    while i < ws.len()
        invariant
            1 <= i <= ws@.len(),
            best == pick_of(ws@.take(i as int), p),
        decreases ws@.len() - i,
    {
        proof {
            assert(ws@.take(i + 1).drop_last() =~= ws@.take(i as int));
            assert(ws@.take(i + 1).last() == ws@[i as int]);
        }
        if prefer(p, &ws[i], &best) {
            best = ws[i];
        }
        i = i + 1;
    }
    proof {
        assert(ws@.take(ws@.len() as int) =~= ws@);
    }
    best
}

} // verus!
