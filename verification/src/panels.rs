//! The panels of the main view: which one has the focus, what the centre
//! panel shows, and the tabs of the right panel.

use vstd::prelude::*;
use crate::library::{LibraryState, Track};
use crate::selection::Selection;

verus! {

/// The panel that receives keys.
#[derive(Debug, PartialEq, Eq, Structural, Clone, Copy)]
pub enum Focus {
    Main,
    LeftPanel,
    RightPanel,
    Playbar,
}

impl Focus {
    /// The panel that Tab moves to: left, centre, right, play bar, and
    /// round again.
    pub open spec fn after_tab(self) -> Focus {
        match self {
            Focus::LeftPanel => Focus::Main,
            Focus::Main => Focus::RightPanel,
            Focus::RightPanel => Focus::Playbar,
            Focus::Playbar => Focus::LeftPanel,
        }
    }

    /// The panel that Shift-Tab moves to: the reverse round.
    pub open spec fn after_back_tab(self) -> Focus {
        match self {
            Focus::LeftPanel => Focus::Playbar,
            Focus::Main => Focus::LeftPanel,
            Focus::RightPanel => Focus::Main,
            Focus::Playbar => Focus::RightPanel,
        }
    }
}

impl Default for Focus {
    fn default() -> (f: Self)
        ensures
            f == Focus::Main,
    {
        Focus::Main
    }
}

/// Number of tabs of the right panel.
pub const TAB_COUNT: usize = 3;

/// The tabs of the right panel, in order.
#[derive(Debug, PartialEq, Eq, Structural, Clone, Copy)]
pub enum RightPanelKind {
    Queue,
    Lyrics,
    Related,
}

impl RightPanelKind {
    /// Position of the tab.
    pub open spec fn index(self) -> int {
        match self {
            RightPanelKind::Queue => 0,
            RightPanelKind::Lyrics => 1,
            RightPanelKind::Related => 2,
        }
    }

    /// The tab at position `i` (taken modulo the number of tabs).
    pub open spec fn from_index(i: int) -> RightPanelKind {
        if i % 3 == 0 {
            RightPanelKind::Queue
        } else if i % 3 == 1 {
            RightPanelKind::Lyrics
        } else {
            RightPanelKind::Related
        }
    }

    /// The caption of the tab.
    pub open spec fn spec_label(self) -> Seq<char> {
        match self {
            RightPanelKind::Queue => "Queue"@,
            RightPanelKind::Lyrics => "Lyrics"@,
            RightPanelKind::Related => "Related"@,
        }
    }

    /// The caption of the tab.
    pub fn label(&self) -> (r: &'static str)
        ensures
            r@ == self.spec_label(),
    {
        match self {
            RightPanelKind::Queue => "Queue",
            RightPanelKind::Lyrics => "Lyrics",
            RightPanelKind::Related => "Related",
        }
    }

    /// Position of the tab.
    pub fn position(&self) -> (r: usize)
        ensures
            r == self.index(),
    {
        match self {
            RightPanelKind::Queue => 0,
            RightPanelKind::Lyrics => 1,
            RightPanelKind::Related => 2,
        }
    }

    /// The tab at position `i`.
    pub fn at(i: usize) -> (r: Self)
        requires
            i < TAB_COUNT,
        ensures
            r == Self::from_index(i as int),
            r.index() == i,
    {
        if i == 0 {
            RightPanelKind::Queue
        } else if i == 1 {
            RightPanelKind::Lyrics
        } else {
            RightPanelKind::Related
        }
    }

    /// The following tab; after the last comes the first.
    pub fn next(&self) -> (r: Self)
        ensures
            r == Self::from_index(self.index() + 1),
    {
        Self::at((self.position() + 1) % TAB_COUNT)
    }

    /// The preceding tab; before the first comes the last.
    pub fn prev(&self) -> (r: Self)
        ensures
            r == Self::from_index(self.index() + TAB_COUNT - 1),
    {
        Self::at((self.position() + TAB_COUNT - 1) % TAB_COUNT)
    }
}

impl Default for RightPanelKind {
    fn default() -> (k: Self)
        ensures
            k == RightPanelKind::Queue,
    {
        RightPanelKind::Queue
    }
}

/// Going to the next tab and back, or back and then on, returns to the
/// same tab; three steps forward go round once.
pub proof fn lemma_tab_cycle(k: RightPanelKind)
    ensures
        RightPanelKind::from_index(RightPanelKind::from_index(k.index() + 1).index() + 2) == k,
        RightPanelKind::from_index(RightPanelKind::from_index(k.index() + 2).index() + 1) == k,
        RightPanelKind::from_index(k.index() + 3) == k,
        RightPanelKind::from_index(k.index()) == k,
{
}

/// Tab and then Shift-Tab, or the reverse, return to the same panel; four
/// Tabs go round once.
pub proof fn lemma_focus_cycle(f: Focus)
    ensures
        f.after_tab().after_back_tab() == f,
        f.after_back_tab().after_tab() == f,
        f.after_tab().after_tab().after_tab().after_tab() == f,
{
}

/// What the centre panel shows.
#[derive(Debug, Clone, PartialEq)]
pub enum MainContent {
    Albums,
    Playlists,
    LikedSongs,
    /// The tracks of the playlist with this identifier.
    Playlist(String),
    /// The tracks of the album with this identifier.
    Album(String),
}

impl MainContent {
    /// The title of the panel: the name of an opened playlist or album
    /// once it is in the cache.
    pub open spec fn spec_panel_title(self, lib: LibraryState) -> Seq<char> {
        match self {
            MainContent::Albums => "Albums"@,
            MainContent::Playlists => "Playlists"@,
            MainContent::LikedSongs => "Liked Songs"@,
            MainContent::Playlist(id) => if lib.cache.playlist_cache@.contains_key(id@) {
                lib.cache.playlist_cache@[id@].base.name@
            } else {
                "Playlist"@
            },
            MainContent::Album(id) => if lib.cache.album_cache@.contains_key(id@) {
                lib.cache.album_cache@[id@].base.name@
            } else {
                "Album"@
            },
        }
    }

    /// The tracks the panel lists: liked songs, or those of the opened
    /// playlist or album once known; none for the album and playlist lists.
    pub open spec fn tracks(self, lib: LibraryState) -> Seq<Track> {
        match self {
            MainContent::LikedSongs => match lib.liked_songs {
                Some(v) => v@,
                None => Seq::empty(),
            },
            MainContent::Playlist(id) => if lib.cache.playlist_cache@.contains_key(id@) {
                lib.cache.playlist_cache@[id@].entry@
            } else {
                Seq::empty()
            },
            MainContent::Album(id) => if lib.cache.album_cache@.contains_key(id@) {
                lib.cache.album_cache@[id@].song@
            } else {
                Seq::empty()
            },
            _ => Seq::empty(),
        }
    }

    /// Number of rows of the panel.
    pub open spec fn spec_len(self, lib: LibraryState) -> nat {
        match self {
            MainContent::Albums => match lib.albums {
                Some(v) => v@.len(),
                None => 0,
            },
            MainContent::Playlists => lib.playlist_count(),
            _ => self.tracks(lib).len(),
        }
    }

    /// The title of the panel.
    pub fn panel_title<'a>(&self, lib: &'a LibraryState) -> (r: &'a str)
        ensures
            r@ == self.spec_panel_title(*lib),
    {
        match self {
            MainContent::Albums => "Albums",
            MainContent::Playlists => "Playlists",
            MainContent::LikedSongs => "Liked Songs",
            MainContent::Playlist(id) => match lib.cache.playlist_cache.get(id) {
                Some(p) => p.base.name.as_str(),
                None => "Playlist",
            },
            MainContent::Album(id) => match lib.cache.album_cache.get(id) {
                Some(a) => a.base.name.as_str(),
                None => "Album",
            },
        }
    }

    /// The tracks the panel lists.
    pub fn current_tracks<'a>(&self, lib: &'a LibraryState) -> (r: &'a [Track])
        ensures
            r@ == self.tracks(*lib),
    {
        match self {
            MainContent::LikedSongs => match &lib.liked_songs {
                Some(v) => v.as_slice(),
                None => &[],
            },
            MainContent::Playlist(id) => match lib.cache.playlist_cache.get(id) {
                Some(p) => p.entry.as_slice(),
                None => &[],
            },
            MainContent::Album(id) => match lib.cache.album_cache.get(id) {
                Some(a) => a.song.as_slice(),
                None => &[],
            },
            _ => &[],
        }
    }

    /// Number of rows of the panel.
    pub fn len(&self, lib: &LibraryState) -> (r: usize)
        ensures
            r == self.spec_len(*lib),
    {
        match self {
            MainContent::Albums => match &lib.albums {
                Some(v) => v.len(),
                None => 0,
            },
            MainContent::Playlists => match &lib.playlists {
                Some(v) => v.len(),
                None => 0,
            },
            _ => self.current_tracks(lib).len(),
        }
    }
}

impl Default for MainContent {
    fn default() -> (c: Self)
        ensures
            c == MainContent::Albums,
    {
        MainContent::Albums
    }
}

} // verus!
