//! The state behind the panels: which table rows are shown, which row
//! is selected, which menu entry is active, and the key modal.
//!
//! Rendering is the surrounding application's work; this module holds
//! the state and its transitions.

use std::collections::VecDeque;
use vstd::prelude::*;
use crate::matches::{MatchDetailResponse, MatchDetailView};

verus! {

/// A unit of work the panels hand to the background worker.
#[derive(Clone, Copy, Debug, PartialEq, Eq, Structural)]
pub enum Task {
    UpdateMatchDetail,
}

/// The menu of the left panel: exactly one entry is meant to be
/// active.
#[derive(Clone, Copy, Debug, PartialEq, Eq, Structural)]
pub struct Menu {
    pub latest_matches: bool,
    pub friends: bool,
}

impl Menu {
    /// The menu as first shown: the match list active.
    pub fn init() -> (r: Menu)
        ensures
            r.latest_matches,
            !r.friends,
    {
        Menu { latest_matches: true, friends: false }
    }

    /// Activating the match list deactivates the friends entry.
    pub fn select_latest_matches(&mut self)
        ensures
            final(self).latest_matches == old(self).latest_matches,
            !final(self).friends,
    {
        self.friends = false;
    }

    /// Activating the friends entry deactivates the match list.
    pub fn select_friends(&mut self)
        ensures
            final(self).friends == old(self).friends,
            !final(self).latest_matches,
    {
        self.latest_matches = false;
    }
}

/// The left panel's state.
#[derive(Clone, Copy, Debug, PartialEq, Eq, Structural)]
pub struct LeftPanel {
    pub menu: Menu,
}

impl LeftPanel {
    /// A fresh left panel with the initial menu.
    pub fn new() -> (r: LeftPanel)
        ensures
            r.menu.latest_matches,
            !r.menu.friends,
    {
        LeftPanel { menu: Menu::init() }
    }
}

/// The main panel's state: the shown match views and the selected
/// row.
#[derive(Debug)]
pub struct MainPanel {
    pub matches: VecDeque<MatchDetailView>,
    pub selected_index: Option<usize>,
}

impl MainPanel {
    /// A fresh main panel with nothing shown and nothing selected.
    pub fn new() -> (r: MainPanel)
        ensures
            r.matches@ == Seq::<MatchDetailView>::empty(),
            r.selected_index is None,
    {
        MainPanel { matches: VecDeque::new(), selected_index: None }
    }

    /// Replaces the shown match views; a failed refresh never reaches
    /// this point, so the last shown views stay untouched.
    pub fn update_match_detail(&mut self, matches: VecDeque<MatchDetailView>)
        ensures
            final(self).matches@ == matches@,
            final(self).selected_index == old(self).selected_index,
    {
        self.matches = matches;
    }

    /// The unit of work a refresh click stands for; the surrounding
    /// application sends it to the worker.
    pub fn trigger_update_match_detail(&self) -> (r: Task)
        ensures
            r == Task::UpdateMatchDetail,
    {
        Task::UpdateMatchDetail
    }

    /// Selects the row whose player detail is shown.
    pub fn select_row(&mut self, index: usize)
        requires
            index < old(self).matches@.len(),
        ensures
            final(self).matches@ == old(self).matches@,
            final(self).selected_index == Some(index),
    {
        self.selected_index = Some(index);
    }
}

/// The raw-response table's state.
#[derive(Debug)]
pub struct MatchDetailTable {
    pub matches: Vec<MatchDetailResponse>,
}

impl MatchDetailTable {
    /// An empty table.
    pub fn new() -> (r: MatchDetailTable)
        ensures
            r.matches@ == Seq::<MatchDetailResponse>::empty(),
    {
        MatchDetailTable { matches: Vec::new() }
    }
}

/// The modal that asks for the match API key until it is submitted.
#[derive(Clone, Debug, PartialEq)]
pub struct SteamApiKeyModal {
    pub key: String,
    pub completed: bool,
}

impl core::default::Default for SteamApiKeyModal {
    /// The modal as first shown: no key, not completed.
    fn default() -> (r: Self)
        ensures
            r.key@ == Seq::<char>::empty(),
            !r.completed,
    {
        SteamApiKeyModal { key: String::new(), completed: false }
    }
}

impl SteamApiKeyModal {
    /// Submitting closes the modal and keeps the entered key.
    pub fn submit(&mut self)
        ensures
            final(self).key == old(self).key,
            final(self).completed,
    {
        self.completed = true;
    }
}

/// One tracked friend of the friends panel.
#[derive(Clone, Debug, PartialEq)]
pub struct Friend {
    pub account_id: i64,
    pub remark: String,
    pub is_favorite: bool,
}

/// The friends panel's state.
#[derive(Clone, Debug, PartialEq)]
pub struct DragFriend {
    pub friends: Vec<Friend>,
}

} // verus!
