//! The library sidebar: a few fixed rows, then one row per playlist.

use vstd::prelude::*;
use crate::library::LibraryState;
use crate::selection::Selection;

verus! {

/// What a row of the sidebar opens.
#[derive(Debug, PartialEq, Eq, Structural, Clone, Copy)]
pub enum SidebarTarget {
    LikedSongs,
    Albums,
    Playlists,
    /// The playlist at this position of the fetched playlists.
    Playlist(usize),
}

/// A fixed row of the sidebar: a heading, or an entry that opens a target.
#[derive(Debug, Clone, Copy, PartialEq, Eq)]
pub enum SidebarRow {
    Header(&'static str),
    Nav { label: &'static str, target: SidebarTarget },
}

/// Number of fixed rows above the playlists.
pub const STATIC_ROWS: usize = 5;

/// Whether the row at `idx` can be selected, with `n` playlists below the
/// fixed rows: the three entries between the headings, and the playlists.
pub open spec fn row_selectable(idx: int, n: nat) -> bool {
    if idx < STATIC_ROWS {
        1 <= idx <= 3
    } else {
        idx - STATIC_ROWS < n
    }
}

/// The nearest selectable row below row `cur`, if there is one.
pub open spec fn next_selectable_row(cur: int, n: nat) -> Option<int> {
    if cur < 1 {
        Some(1)
    } else if cur < 3 {
        Some(cur + 1)
    } else if cur < STATIC_ROWS {
        if n > 0 { Some(STATIC_ROWS as int) } else { None }
    } else if cur + 1 < STATIC_ROWS + n {
        Some(cur + 1)
    } else {
        None
    }
}

/// The nearest selectable row above row `cur`, if there is one.
pub open spec fn prev_selectable_row(cur: int, n: nat) -> Option<int> {
    if cur <= 1 {
        None
    } else if cur <= STATIC_ROWS {
        Some(if cur - 1 < 3 { cur - 1 } else { 3 })
    } else if n > 0 {
        Some(if cur - 1 < STATIC_ROWS + n - 1 { cur - 1 } else { STATIC_ROWS + n - 1 })
    } else {
        Some(3)
    }
}

/// What the row at `idx` opens, with `n` playlists: the target of a fixed
/// entry, or the playlist at that row; nothing for a heading or past the end.
pub open spec fn row_target(idx: int, n: nat) -> Option<SidebarTarget> {
    if idx == 1 {
        Some(SidebarTarget::LikedSongs)
    } else if idx == 2 {
        Some(SidebarTarget::Albums)
    } else if idx == 3 {
        Some(SidebarTarget::Playlists)
    } else if idx < STATIC_ROWS {
        None
    } else if idx - STATIC_ROWS < n {
        Some(SidebarTarget::Playlist((idx - STATIC_ROWS) as usize))
    } else {
        None
    }
}

/// The nearest selectable row below `cur` is below it, before the end,
/// selectable, and no selectable row lies between; when there is none, no
/// row below `cur` is selectable.
pub proof fn lemma_next_selectable_row(cur: int, n: nat)
    requires
        cur >= 0,
    ensures
        match next_selectable_row(cur, n) {
            Some(j) => cur < j < STATIC_ROWS + n && row_selectable(j, n)
                && forall|k: int| cur < k < j ==> !row_selectable(k, n),
            None => forall|k: int| cur < k < STATIC_ROWS + n ==> !row_selectable(k, n),
        },
{
}

/// The nearest selectable row above `cur` is above it, selectable, and no
/// selectable row lies between; when there is none, no row above `cur` is
/// selectable.
pub proof fn lemma_prev_selectable_row(cur: int, n: nat)
    requires
        cur >= 0,
    ensures
        match prev_selectable_row(cur, n) {
            Some(j) => 0 <= j < cur && row_selectable(j, n)
                && forall|k: int| j < k < cur ==> !row_selectable(k, n),
            None => forall|k: int| 0 <= k < cur ==> !row_selectable(k, n),
        },
{
}

/// A row has a target exactly when it is selectable.
pub proof fn lemma_target_iff_selectable(idx: int, n: nat)
    requires
        idx >= 0,
    ensures
        row_target(idx, n) is Some <==> row_selectable(idx, n),
{
}

/// The text of the fixed row at `idx`.
pub open spec fn static_row_label(idx: int) -> Seq<char> {
    if idx == 0 {
        "Browse"@
    } else if idx == 1 {
        "Liked Songs"@
    } else if idx == 2 {
        "Albums"@
    } else if idx == 3 {
        "Playlists"@
    } else {
        "Your Playlists"@
    }
}

/// Selection state of the sidebar.
#[derive(Debug, Clone, Copy, PartialEq, Eq, Structural)]
pub struct LeftSideState {
    pub list_state: Selection,
}

/// Number of playlists in the library, as a machine integer.
fn playlist_len(lib: &LibraryState) -> (n: usize)
    ensures
        n == lib.playlist_count(),
{
    match &lib.playlists {
        Some(v) => v.len(),
        None => 0,
    }
}

impl LeftSideState {
    /// The sidebar with the first entry ("Liked Songs") selected.
    pub fn new() -> (s: Self)
        ensures
            s.list_state == Selection::at(1),
    {
        let mut list_state = Selection::new();
        list_state.select(Some(1));
        LeftSideState { list_state }
    }

    /// The fixed row at `idx`.
    pub fn static_row(idx: usize) -> (r: SidebarRow)
        requires
            idx < STATIC_ROWS,
        ensures
            match r {
                SidebarRow::Header(label) => (idx == 0 || idx == 4) && label@ == static_row_label(idx as int),
                SidebarRow::Nav { label, target } => row_target(idx as int, 0) == Some(target)
                    && label@ == static_row_label(idx as int),
            },
    {
        if idx == 0 {
            SidebarRow::Header("Browse")
        } else if idx == 1 {
            SidebarRow::Nav { label: "Liked Songs", target: SidebarTarget::LikedSongs }
        } else if idx == 2 {
            SidebarRow::Nav { label: "Albums", target: SidebarTarget::Albums }
        } else if idx == 3 {
            SidebarRow::Nav { label: "Playlists", target: SidebarTarget::Playlists }
        } else {
            SidebarRow::Header("Your Playlists")
        }
    }

    /// The selected row; the first entry when nothing is selected.
    pub open spec fn spec_selected_idx(&self) -> usize {
        self.list_state.selected_or(1)
    }

    /// The selected row; the first entry when nothing is selected.
    pub fn selected_idx(&self) -> (r: usize)
        ensures
            r == self.spec_selected_idx(),
    {
        match self.list_state.selected() {
            Some(i) => i,
            None => 1,
        }
    }

    /// Whether the row at `idx` can be selected.
    pub fn row_is_selectable(&self, idx: usize, lib: &LibraryState) -> (r: bool)
        ensures
            r == row_selectable(idx as int, lib.playlist_count()),
    {
        if idx < STATIC_ROWS {
            match Self::static_row(idx) {
                SidebarRow::Nav { .. } => true,
                SidebarRow::Header(_) => false,
            }
        } else {
            idx - STATIC_ROWS < playlist_len(lib)
        }
    }

    /// The sidebar after moving down: the nearest selectable row below the
    /// selected one, if any.
    pub open spec fn after_select_next(self, n: nat) -> LeftSideState {
        match next_selectable_row(self.spec_selected_idx() as int, n) {
            Some(j) => LeftSideState { list_state: self.list_state.with_selected(Some(j as usize)) },
            None => self,
        }
    }

    /// The sidebar after moving up: the nearest selectable row above the
    /// selected one, if any.
    pub open spec fn after_select_prev(self, n: nat) -> LeftSideState {
        match prev_selectable_row(self.spec_selected_idx() as int, n) {
            Some(j) => LeftSideState { list_state: self.list_state.with_selected(Some(j as usize)) },
            None => self,
        }
    }

    /// Selects the nearest selectable row below the selected one.
    pub fn select_next(&mut self, lib: &LibraryState)
        requires
            old(self).spec_selected_idx() < usize::MAX,
            STATIC_ROWS + lib.playlist_count() <= usize::MAX,
        ensures
            *final(self) == old(self).after_select_next(lib.playlist_count()),
    {
        let cur = self.selected_idx();
        let total = STATIC_ROWS + playlist_len(lib);
        let ghost n = lib.playlist_count();
        proof { lemma_next_selectable_row(cur as int, n); }
        let mut i = cur + 1;
        while i < total
            invariant
                cur < i,
                total == STATIC_ROWS + n,
                n == lib.playlist_count(),
                cur == old(self).spec_selected_idx(),
                *self == *old(self),
                forall|k: int| cur < k < i ==> !row_selectable(k, n),
            decreases total - i,
        {
            if self.row_is_selectable(i, lib) {
                proof { lemma_next_selectable_row(cur as int, n); }
                self.list_state.select(Some(i));
                return;
            }
            i = i + 1;
        }
    }

    /// Selects the nearest selectable row above the selected one.
    pub fn select_prev(&mut self, lib: &LibraryState)
        ensures
            *final(self) == old(self).after_select_prev(lib.playlist_count()),
    {
        let cur = self.selected_idx();
        let ghost n = lib.playlist_count();
        proof { lemma_prev_selectable_row(cur as int, n); }
        let mut i = cur;
        while i > 0
            invariant
                i <= cur,
                n == lib.playlist_count(),
                cur == old(self).spec_selected_idx(),
                *self == *old(self),
                forall|k: int| i <= k < cur ==> !row_selectable(k, n),
            decreases i,
        {
            i = i - 1;
            if self.row_is_selectable(i, lib) {
                proof { lemma_prev_selectable_row(cur as int, n); }
                self.list_state.select(Some(i));
                return;
            }
        }
    }

    /// What the selected row opens.
    pub fn selected_target(&self, lib: &LibraryState) -> (r: Option<SidebarTarget>)
        ensures
            r == row_target(self.spec_selected_idx() as int, lib.playlist_count()),
    {
        let idx = self.selected_idx();
        if idx < STATIC_ROWS {
            match Self::static_row(idx) {
                SidebarRow::Nav { target, .. } => Some(target),
                SidebarRow::Header(_) => None,
            }
        } else {
            let playlist_idx = idx - STATIC_ROWS;
            if playlist_idx < playlist_len(lib) {
                Some(SidebarTarget::Playlist(playlist_idx))
            } else {
                None
            }
        }
    }
}

impl Default for LeftSideState {
    fn default() -> (s: Self)
        ensures
            s.list_state == Selection::at(1),
    {
        LeftSideState::new()
    }
}

/// Each fixed entry of the sidebar opens what its label names: the row
/// labelled "Liked Songs" opens the liked songs, "Albums" the album list,
/// "Playlists" the playlist list; the headings open nothing.
pub proof fn lemma_entries_open_what_they_name(idx: int, n: nat)
    requires
        0 <= idx < STATIC_ROWS,
    ensures
        static_row_label(idx) == "Liked Songs"@ ==> row_target(idx, n) == Some(SidebarTarget::LikedSongs),
        static_row_label(idx) == "Albums"@ ==> row_target(idx, n) == Some(SidebarTarget::Albums),
        static_row_label(idx) == "Playlists"@ ==> row_target(idx, n) == Some(SidebarTarget::Playlists),
        static_row_label(idx) == "Browse"@ || static_row_label(idx) == "Your Playlists"@ ==> row_target(idx, n) is None,
{
    reveal_strlit("Browse");
    reveal_strlit("Liked Songs");
    reveal_strlit("Albums");
    reveal_strlit("Playlists");
    reveal_strlit("Your Playlists");
    assert("Browse"@.len() == 6 && "Liked Songs"@.len() == 11 && "Albums"@.len() == 6);
    assert("Playlists"@.len() == 9 && "Your Playlists"@.len() == 14);
    assert("Browse"@[0] == 'B' && "Albums"@[0] == 'A');
    assert("Browse"@ != "Albums"@);
}

} // verus!
