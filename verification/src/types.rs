//! Plain data carried by a window snapshot.
//!
//! The window-management service reports geometry in screen coordinates; the
//! library holds them as integers. Only the fields the layout logic reads are
//! kept here.

use vstd::prelude::*;

verus! {

/// A rectangle in display-relative screen coordinates.
#[derive(Clone, Copy, PartialEq, Eq, Structural, Debug)]
pub struct Frame {
    pub x: i64,
    pub y: i64,
    pub w: i64,
    pub h: i64,
}

/// The split orientation the window-management service reports for a window.
#[derive(Clone, Copy, PartialEq, Eq, Structural, Debug)]
pub enum SplitOrientation {
    Horizontal,
    Vertical,
}

/// One window of the snapshot.
#[derive(Clone, Copy, PartialEq, Eq, Structural, Debug)]
pub struct Window {
    /// Unique, stable for the window's lifetime.
    pub id: usize,
    /// Process id of the owning application.
    pub pid: usize,
    pub frame: Frame,
    pub split: SplitOrientation,
    pub focused: bool,
    /// Index of the display the window is on.
    pub display: usize,
    /// Index of the space the window is on.
    pub space: usize,
    pub floating: bool,
    pub minimized: bool,
}

/// The display whose windows are being managed.
#[derive(Clone, Copy, PartialEq, Eq, Structural, Debug)]
pub struct Display {
    pub id: usize,
    pub index: usize,
    pub frame: Frame,
}

/// The space whose windows are being managed; its id keys the persisted
/// target master-window count.
#[derive(Clone, Copy, PartialEq, Eq, Structural, Debug)]
pub struct Space {
    pub id: usize,
    pub index: usize,
}

/// One synchronous directive for the window-management service. The service
/// is expected to have applied it by the time the next snapshot is taken.
#[derive(Clone, Copy, PartialEq, Eq, Structural, Debug)]
pub enum Directive {
    /// Warp the window towards the left edge of the display.
    WarpWest { window_id: usize },
    /// Warp the window towards the right edge of the display.
    WarpEast { window_id: usize },
    /// Warp the window onto another window.
    WarpOnto { window_id: usize, onto_id: usize },
    /// Toggle the window's split orientation.
    ToggleSplit { window_id: usize },
}

} // verus!
