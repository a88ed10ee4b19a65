//! The persisted per-space target master-window count.
//!
//! The map is read at session start and written back by the two
//! count-adjustment commands; the caller persists it between invocations.

use std::collections::HashMap;
use vstd::prelude::*;

use crate::window::WindowsManager;

verus! {

broadcast use vstd::std_specs::hash::group_hash_axioms;

/// The persisted state: for each space id, the target number of master
/// windows on that space.
pub struct State {
    pub num_master_windows: HashMap<usize, usize>,
}

impl State {
    /// Fresh state: one master window for every listed space, and no other
    /// space recorded.
    pub fn default(space_ids: &Vec<usize>) -> (r: State)
        ensures
            forall|i: int| 0 <= i < space_ids@.len()
                ==> r.num_master_windows@.contains_key(#[trigger] space_ids@[i])
                && r.num_master_windows@[space_ids@[i]] == 1,
            forall|k: usize| #[trigger] r.num_master_windows@.contains_key(k)
                ==> space_ids@.contains(k),
    {
        let mut num_master_windows: HashMap<usize, usize> = HashMap::new();
        let mut i: usize = 0;
        while i < space_ids.len()
            invariant
                i <= space_ids@.len(),
                forall|j: int| 0 <= j < i
                    ==> num_master_windows@.contains_key(#[trigger] space_ids@[j])
                    && num_master_windows@[space_ids@[j]] == 1,
                forall|k: usize| #[trigger] num_master_windows@.contains_key(k)
                    ==> space_ids@.contains(k),
            decreases space_ids@.len() - i,
        {
            proof {
                assert(space_ids@.contains(space_ids@[i as int]));
            }
            num_master_windows.insert(space_ids[i], 1);
            i = i + 1;
        }
        State { num_master_windows }
    }

    /// The target for a space; an unseen space defaults to one master
    /// window.
    pub fn target_for_space(&self, space_id: usize) -> (r: usize)
        ensures
            r == if self.num_master_windows@.contains_key(space_id) {
                self.num_master_windows@[space_id]
            } else {
                1usize
            },
    {
        match self.num_master_windows.get(&space_id) {
            Some(count) => *count,
            None => 1,
        }
    }

    /// Record a new target for a space.
    pub fn set_num_master_windows(&mut self, space_id: usize, count: usize)
        ensures
            final(self).num_master_windows@ == old(self).num_master_windows@.insert(
                space_id,
                count,
            ),
    {
        self.num_master_windows.insert(space_id, count);
    }
}

impl WindowsManager {
    /// Clamp the session's expected master-window count to the live window
    /// count (and to at least one), and record the clamped value in the
    /// state under this session's space. Requesting more masters than
    /// windows exist therefore never reaches the classifier uncorrected.
    pub fn validate_state(&mut self, state: &mut State)
        ensures
            final(self).display == old(self).display,
            final(self).space == old(self).space,
            final(self).windows_data == old(self).windows_data,
            final(self).expected_current_num_master_windows as int
                == WindowsManager::clamped_target(
                old(self).expected_current_num_master_windows as int,
                old(self).windows_data@.len() as int,
            ),
            final(self).wf() == crate::window::distinct_ids(old(self).windows_data@),
            final(state).num_master_windows@ == old(state).num_master_windows@.insert(
                old(self).space.id,
                final(self).expected_current_num_master_windows,
            ),
    {
        if self.windows_data.len() < self.expected_current_num_master_windows {
            self.expected_current_num_master_windows = self.windows_data.len();
        }
        if self.expected_current_num_master_windows == 0 {
            self.expected_current_num_master_windows = 1;
        }
        let space_id = self.space.id;
        state.set_num_master_windows(space_id, self.expected_current_num_master_windows);
    }
}

} // verus!
