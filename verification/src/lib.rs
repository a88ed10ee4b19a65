//! A master-stack layout engine for tiled on-screen windows.
//!
//! Given a snapshot of the windows on one display and space, together with a
//! target number of "master" windows, the library computes the dividing line
//! between the master region (on the right) and the stack column (flush with
//! the display's left edge), classifies every window as master, stack or
//! middle, decides whether the layout satisfies the master-stack discipline,
//! and plans the sequence of move/split directives that restores it.
//!
//! The library never talks to the window-management service itself: callers
//! fetch snapshots, execute the planned directives, and feed the refreshed
//! snapshot back into the planner.

pub mod check_valid_layout;
pub mod commands;
pub mod convergence;
pub mod order;
pub mod state;
pub mod types;
pub mod update_windows;
pub mod window;
