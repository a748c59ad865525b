//! The main view: sidebar, centre panel, right panel and play bar, and
//! what each key does there.

use vstd::prelude::*;
use crate::event::{Key, PlayFrom, UiCmd, VolumeStep};
use crate::library::LibraryState;
use crate::panels::{Focus, MainContent, RightPanelKind};
use crate::selection::{min_int, sat_sub, Selection};
use crate::sidebar::{row_target, LeftSideState, SidebarTarget};
use crate::text::{duration_string, duration_text, push_str};

verus! {

/// Number of lines of the lyrics shown in the right panel.
pub const LYRICS_LINE_COUNT: u16 = 19;

/// The centre panel: what it shows and which row is selected.
#[derive(Debug, Clone, PartialEq)]
pub struct MainPanelState {
    pub content: MainContent,
    pub table_state: Selection,
}

impl MainPanelState {
    /// The panel after moving down one row, stopping at the last row.
    pub open spec fn after_select_next(self, len: nat) -> MainPanelState {
        MainPanelState {
            table_state: self.table_state.with_selected(Some(
                min_int(self.table_state.selected_or(0) + 1, sat_sub(len as int, 1)) as usize,
            )),
            ..self
        }
    }

    /// The panel after moving up one row, stopping at the first row.
    pub open spec fn after_select_prev(self) -> MainPanelState {
        MainPanelState {
            table_state: self.table_state.with_selected(Some(
                sat_sub(self.table_state.selected_or(0) as int, 1) as usize,
            )),
            ..self
        }
    }

    /// The album list, with its first row selected.
    pub fn new() -> (s: Self)
        ensures
            s.content == MainContent::Albums,
            s.table_state == Selection::at(0),
    {
        let mut table_state = Selection::new();
        table_state.select(Some(0));
        MainPanelState { content: MainContent::Albums, table_state }
    }

    /// Moves down one row, stopping at the last row.
    pub fn select_next(&mut self, lib: &LibraryState)
        requires
            old(self).table_state.selected_or(0) < usize::MAX,
        ensures
            *final(self) == old(self).after_select_next(old(self).content.spec_len(*lib)),
    {
        let len = self.content.len(lib);
        let max = if len >= 1 { len - 1 } else { 0 };
        let cur = match self.table_state.selected() {
            Some(i) => i,
            None => 0,
        };
        let next = if cur + 1 <= max { cur + 1 } else { max };
        self.table_state.select(Some(next));
    }

    /// Moves up one row, stopping at the first row.
    pub fn select_prev(&mut self)
        ensures
            *final(self) == old(self).after_select_prev(),
    {
        let cur = match self.table_state.selected() {
            Some(i) => i,
            None => 0,
        };
        let prev = if cur >= 1 { cur - 1 } else { 0 };
        self.table_state.select(Some(prev));
    }
}

impl Default for MainPanelState {
    fn default() -> (s: Self)
        ensures
            s.content == MainContent::Albums,
            s.table_state == Selection::at(0),
    {
        MainPanelState::new()
    }
}

/// The right panel: the active tab, the first tab shown, and the state of
/// each tab.
#[derive(Debug, Clone, Copy, PartialEq, Eq, Structural)]
pub struct RightPanelState {
    pub kind: RightPanelKind,
    pub tab_offset: usize,
    pub queue_list_state: Selection,
    pub lyrics_scroll: u16,
    pub lyrics_visible_height: u16,
    pub lyrics_timed: bool,
    pub related_state: Selection,
}

impl RightPanelState {
    /// The queue tab, scrolled to the top, nothing selected.
    pub fn new() -> (s: Self)
        ensures
            s.kind == RightPanelKind::Queue,
            s.tab_offset == 0,
            s.queue_list_state == (Selection { offset: 0, selected: None }),
            s.lyrics_scroll == 0,
            s.lyrics_visible_height == 0,
            !s.lyrics_timed,
            s.related_state == (Selection { offset: 0, selected: None }),
    {
        RightPanelState {
            kind: RightPanelKind::Queue,
            tab_offset: 0,
            queue_list_state: Selection::new(),
            lyrics_scroll: 0,
            lyrics_visible_height: 0,
            lyrics_timed: false,
            related_state: Selection::new(),
        }
    }
}

impl Default for RightPanelState {
    fn default() -> (s: Self)
        ensures
            s.kind == RightPanelKind::Queue,
            s.tab_offset == 0,
            s.queue_list_state == (Selection { offset: 0, selected: None }),
            s.lyrics_scroll == 0,
            s.lyrics_visible_height == 0,
            !s.lyrics_timed,
            s.related_state == (Selection { offset: 0, selected: None }),
    {
        RightPanelState::new()
    }
}

/// The main view.
#[derive(Debug, Clone, PartialEq)]
pub struct MainView {
    pub focus: Focus,
    pub left: LeftSideState,
    pub main: MainPanelState,
    pub right: RightPanelState,
}

/// Where the tracks of the centre panel come from, for queueing them.
pub open spec fn play_source(content: MainContent) -> PlayFrom {
    match content {
        MainContent::Playlist(id) => PlayFrom::Playlist(id),
        MainContent::Album(id) => PlayFrom::Album(id),
        _ => PlayFrom::LikedSongs,
    }
}

/// The command a key asks for on the play bar.
pub open spec fn playbar_command(key: Key) -> Option<UiCmd> {
    if key == Key::Char('-') {
        Some(UiCmd::AdjustVolume(VolumeStep::Down))
    } else if key == Key::Char('+') || key == Key::Char('=') {
        Some(UiCmd::AdjustVolume(VolumeStep::Up))
    } else if key == Key::Char('n') {
        Some(UiCmd::Next)
    } else if key == Key::Char('p') {
        Some(UiCmd::Prev)
    } else if key == Key::Char('l') {
        Some(UiCmd::Logout)
    } else {
        None
    }
}

/// A selection moved down one row in a list of `len` rows.
pub open spec fn list_down(s: Selection, len: nat) -> Selection {
    s.with_selected(Some(min_int(s.selected_or(0) + 1, sat_sub(len as int, 1)) as usize))
}

/// A selection moved up one row.
pub open spec fn list_up(s: Selection) -> Selection {
    s.with_selected(Some(sat_sub(s.selected_or(0) as int, 1) as usize))
}

impl MainView {
    /// No counter that a key moves is at its largest value.
    pub open spec fn counters_in_range(self) -> bool {
        &&& self.left.spec_selected_idx() < usize::MAX
        &&& self.main.table_state.selected_or(0) < usize::MAX
        &&& self.right.queue_list_state.selected_or(0) < usize::MAX
        &&& self.right.related_state.selected_or(0) < usize::MAX
        &&& self.right.lyrics_scroll < u16::MAX
    }

    /// Whether `key` can be handled: the counter it moves, if any, is not
    /// at its largest value (moving down on the sidebar also counts its
    /// rows, which must fit in a `usize`).
    pub open spec fn key_in_range(self, key: Key, lib: LibraryState) -> bool {
        if key != Key::Char('j') {
            true
        } else {
            match self.focus {
                Focus::LeftPanel => self.left.spec_selected_idx() < usize::MAX
                    && crate::sidebar::STATIC_ROWS + lib.playlist_count() <= usize::MAX,
                Focus::Main => self.main.table_state.selected_or(0) < usize::MAX,
                Focus::RightPanel => match self.right.kind {
                    RightPanelKind::Queue => self.right.queue_list_state.selected_or(0) < usize::MAX,
                    RightPanelKind::Lyrics => self.right.lyrics_timed ==> self.right.lyrics_scroll < u16::MAX,
                    RightPanelKind::Related => self.right.related_state.selected_or(0) < usize::MAX,
                },
                Focus::Playbar => true,
            }
        }
    }

    /// Whether `key` can be handled (see [`MainView::key_in_range`]).
    pub fn key_fits(&self, key: Key, lib: &LibraryState) -> (r: bool)
        ensures
            r == self.key_in_range(key, *lib),
    {
        if key != Key::Char('j') {
            return true;
        }
        match self.focus {
            Focus::LeftPanel => self.left.selected_idx() < usize::MAX && match &lib.playlists {
                Some(p) => p.len() <= usize::MAX - crate::sidebar::STATIC_ROWS,
                None => true,
            },
            Focus::Main => match self.main.table_state.selected() {
                Some(i) => i < usize::MAX,
                None => true,
            },
            Focus::RightPanel => match self.right.kind {
                RightPanelKind::Queue => match self.right.queue_list_state.selected() {
                    Some(i) => i < usize::MAX,
                    None => true,
                },
                RightPanelKind::Lyrics => !self.right.lyrics_timed || self.right.lyrics_scroll < u16::MAX,
                RightPanelKind::Related => match self.right.related_state.selected() {
                    Some(i) => i < usize::MAX,
                    None => true,
                },
            },
            Focus::Playbar => true,
        }
    }

    /// The view with the centre panel showing `content` from its first row.
    pub open spec fn showing(self, content: MainContent) -> MainView {
        MainView { main: MainPanelState { content, table_state: Selection::at(0) }, ..self }
    }

    /// Opening a sidebar target: the centre panel shows it from the top,
    /// and what it needs is fetched when the library lacks it.
    pub open spec fn after_navigate(self, target: SidebarTarget, lib: LibraryState) -> (MainView, Option<UiCmd>) {
        let reset = MainView { main: MainPanelState { table_state: Selection::at(0), ..self.main }, ..self };
        match target {
            SidebarTarget::LikedSongs => (
                self.showing(MainContent::LikedSongs),
                if lib.liked_songs matches Some(v) && (v@.len() > 0 || lib.cache.liked_cache@.dom().len() > 0) {
                    None
                } else {
                    Some(UiCmd::FetchLikedSongs)
                },
            ),
            SidebarTarget::Albums => (
                self.showing(MainContent::Albums),
                if lib.albums matches Some(v) && (v@.len() > 0 || lib.cache.album_cache@.dom().len() > 0) {
                    None
                } else {
                    Some(UiCmd::FetchAlbums)
                },
            ),
            SidebarTarget::Playlists => (self.showing(MainContent::Playlists), None),
            SidebarTarget::Playlist(idx) => match lib.playlists {
                Some(v) => if idx < v@.len() {
                    let id = v@[idx as int].id;
                    (
                        self.showing(MainContent::Playlist(id)),
                        if lib.cache.playlist_cache@.contains_key(id@) { None } else { Some(UiCmd::FetchPlaylist(id)) },
                    )
                } else {
                    (reset, None)
                },
                None => (reset, None),
            },
        }
    }

    /// A key on the sidebar: `j`/`k` move the selection, `l` or Enter
    /// opens the selected row in the centre panel and focuses it.
    pub open spec fn after_left_key(self, key: Key, lib: LibraryState) -> (MainView, Option<UiCmd>) {
        let n = lib.playlist_count();
        if key == Key::Char('j') {
            (MainView { left: self.left.after_select_next(n), ..self }, None)
        } else if key == Key::Char('k') {
            (MainView { left: self.left.after_select_prev(n), ..self }, None)
        } else if key == Key::Char('l') || key == Key::Enter {
            match row_target(self.left.spec_selected_idx() as int, n) {
                Some(target) => MainView { focus: Focus::Main, ..self }.after_navigate(target, lib),
                None => (self, None),
            }
        } else {
            (self, None)
        }
    }

    /// A key on the centre panel: `j`/`k` move the selection, `h` goes
    /// back from a playlist or album to its list, `l` or Enter opens the
    /// selected album or playlist or plays the selected track.
    pub open spec fn after_main_key(self, key: Key, lib: LibraryState) -> (MainView, Option<UiCmd>) {
        let idx = self.main.table_state.selected_or(0);
        if key == Key::Char('j') {
            (MainView { main: self.main.after_select_next(self.main.content.spec_len(lib)), ..self }, None)
        } else if key == Key::Char('k') {
            (MainView { main: self.main.after_select_prev(), ..self }, None)
        } else if key == Key::Char('h') {
            match self.main.content {
                MainContent::Album(_) => (MainView { main: MainPanelState { content: MainContent::Albums, ..self.main }, ..self }, None),
                MainContent::Playlist(_) => (MainView { main: MainPanelState { content: MainContent::Playlists, ..self.main }, ..self }, None),
                _ => (self, None),
            }
        } else if key == Key::Char('l') || key == Key::Enter {
            match self.main.content {
                MainContent::Albums => match lib.albums {
                    Some(v) => if idx < v@.len() {
                        let id = v@[idx as int].id;
                        (
                            self.showing(MainContent::Album(id)),
                            if lib.cache.album_cache@.contains_key(id@) { None } else { Some(UiCmd::FetchAlbum(id)) },
                        )
                    } else {
                        (self, None)
                    },
                    None => (self, None),
                },
                MainContent::Playlists => match lib.playlists {
                    Some(v) => if idx < v@.len() {
                        let id = v@[idx as int].id;
                        (
                            self.showing(MainContent::Playlist(id)),
                            if lib.cache.playlist_cache@.contains_key(id@) { None } else { Some(UiCmd::FetchPlaylist(id)) },
                        )
                    } else {
                        (self, None)
                    },
                    None => (self, None),
                },
                _ => {
                    let tracks = self.main.content.tracks(lib);
                    if idx < tracks.len() {
                        (self, Some(UiCmd::PlayTrack(tracks[idx as int].id, play_source(self.main.content))))
                    } else {
                        (self, None)
                    }
                },
            }
        } else {
            (self, None)
        }
    }

    /// The right panel on another tab; the related tab starts at its first row.
    pub open spec fn with_tab(self, kind: RightPanelKind) -> MainView {
        MainView {
            right: RightPanelState {
                kind,
                related_state: if kind == RightPanelKind::Related {
                    self.right.related_state.with_selected(Some(0))
                } else {
                    self.right.related_state
                },
                ..self.right
            },
            ..self
        }
    }

    /// A key on the right panel: `[`/`]` switch tabs, `j`/`k` move in the
    /// queue or the related tracks, or scroll timed lyrics.
    pub open spec fn after_right_key(self, key: Key, lib: LibraryState) -> MainView {
        let r = self.right;
        let k = self.right.kind;
        if key == Key::Char('[') {
            self.with_tab(RightPanelKind::from_index(k.index() + 2))
        } else if key == Key::Char(']') {
            self.with_tab(RightPanelKind::from_index(k.index() + 1))
        } else if key == Key::Char('j') {
            match k {
                RightPanelKind::Queue => MainView {
                    right: RightPanelState { queue_list_state: list_down(r.queue_list_state, lib.queue@.len()), ..r },
                    ..self
                },
                RightPanelKind::Lyrics => if r.lyrics_timed {
                    MainView {
                        right: RightPanelState {
                            lyrics_scroll: min_int(
                                r.lyrics_scroll + 1,
                                sat_sub(LYRICS_LINE_COUNT as int, r.lyrics_visible_height as int),
                            ) as u16,
                            ..r
                        },
                        ..self
                    }
                } else {
                    self
                },
                RightPanelKind::Related => MainView {
                    right: RightPanelState { related_state: list_down(r.related_state, lib.related_tracks@.len()), ..r },
                    ..self
                },
            }
        } else if key == Key::Char('k') {
            match k {
                RightPanelKind::Queue => MainView {
                    right: RightPanelState { queue_list_state: list_up(r.queue_list_state), ..r },
                    ..self
                },
                RightPanelKind::Lyrics => if r.lyrics_timed {
                    MainView {
                        right: RightPanelState { lyrics_scroll: sat_sub(r.lyrics_scroll as int, 1) as u16, ..r },
                        ..self
                    }
                } else {
                    self
                },
                RightPanelKind::Related => MainView {
                    right: RightPanelState { related_state: list_up(r.related_state), ..r },
                    ..self
                },
            }
        } else {
            self
        }
    }

    /// A key on the main view: Tab and Shift-Tab move the focus, Space
    /// pauses or resumes; any other key goes to the focused panel.
    pub open spec fn after_key(self, key: Key, lib: LibraryState) -> (MainView, Option<UiCmd>) {
        if key == Key::Tab {
            (MainView { focus: self.focus.after_tab(), ..self }, None)
        } else if key == Key::BackTab {
            (MainView { focus: self.focus.after_back_tab(), ..self }, None)
        } else if key == Key::Char(' ') {
            (self, Some(if lib.playing { UiCmd::Pause } else { UiCmd::Resume }))
        } else {
            match self.focus {
                Focus::LeftPanel => self.after_left_key(key, lib),
                Focus::Main => self.after_main_key(key, lib),
                Focus::RightPanel => (self.after_right_key(key, lib), None),
                Focus::Playbar => (self, playbar_command(key)),
            }
        }
    }

    /// The view as it first shows: focus on the centre panel, the album
    /// list from its first row, the first sidebar entry selected, the queue
    /// tab with nothing selected.
    pub open spec fn initial() -> MainView {
        MainView {
            focus: Focus::Main,
            left: LeftSideState { list_state: Selection::at(1) },
            main: MainPanelState { content: MainContent::Albums, table_state: Selection::at(0) },
            right: RightPanelState {
                kind: RightPanelKind::Queue,
                tab_offset: 0,
                queue_list_state: Selection { offset: 0, selected: None },
                lyrics_scroll: 0,
                lyrics_visible_height: 0,
                lyrics_timed: false,
                related_state: Selection { offset: 0, selected: None },
            },
        }
    }

    /// The view as it first shows.
    pub fn new() -> (v: Self)
        ensures
            v == MainView::initial(),
            v.focus == Focus::Main,
            v.left.list_state == Selection::at(1),
            v.main.content == MainContent::Albums,
            v.main.table_state == Selection::at(0),
            v.right.kind == RightPanelKind::Queue,
            v.right.tab_offset == 0,
            v.right.lyrics_scroll == 0,
            v.right.lyrics_visible_height == 0,
            !v.right.lyrics_timed,
            v.right.queue_list_state == (Selection { offset: 0, selected: None }),
            v.right.related_state == (Selection { offset: 0, selected: None }),
            v.counters_in_range(),
    {
        MainView {
            focus: Focus::Main,
            left: LeftSideState::new(),
            main: MainPanelState::new(),
            right: RightPanelState::new(),
        }
    }

    /// Handles a key; returns the command it asks the session for.
    pub fn handle_key(&mut self, key: Key, lib: &LibraryState) -> (r: Option<UiCmd>)
        requires
            old(self).key_in_range(key, *lib),
        ensures
            (*final(self), r) == old(self).after_key(key, *lib),
    {
        match key {
            Key::Tab => {
                self.focus = match self.focus {
                    Focus::LeftPanel => Focus::Main,
                    Focus::Main => Focus::RightPanel,
                    Focus::RightPanel => Focus::Playbar,
                    Focus::Playbar => Focus::LeftPanel,
                };
                return None;
            },
            Key::BackTab => {
                self.focus = match self.focus {
                    Focus::LeftPanel => Focus::Playbar,
                    Focus::Main => Focus::LeftPanel,
                    Focus::RightPanel => Focus::Main,
                    Focus::Playbar => Focus::RightPanel,
                };
                return None;
            },
            Key::Char(' ') => {
                return Some(if lib.playing { UiCmd::Pause } else { UiCmd::Resume });
            },
            _ => {},
        }
        match self.focus {
            Focus::LeftPanel => self.handle_left(key, lib),
            Focus::Main => self.handle_main(key, lib),
            Focus::RightPanel => self.handle_right(key, lib),
            Focus::Playbar => self.handle_playbar(key, lib),
        }
    }

    fn handle_left(&mut self, key: Key, lib: &LibraryState) -> (r: Option<UiCmd>)
        requires
            key == Key::Char('j') ==> old(self).left.spec_selected_idx() < usize::MAX
                && crate::sidebar::STATIC_ROWS + lib.playlist_count() <= usize::MAX,
        ensures
            (*final(self), r) == old(self).after_left_key(key, *lib),
    {
        match key {
            Key::Char('j') => self.left.select_next(lib),
            Key::Char('k') => self.left.select_prev(lib),
            Key::Char('l') | Key::Enter => {
                if let Some(target) = self.left.selected_target(lib) {
                    self.focus = Focus::Main;
                    return self.navigate_main(target, lib);
                }
            },
            _ => {},
        }
        None
    }

    fn navigate_main(&mut self, target: SidebarTarget, lib: &LibraryState) -> (r: Option<UiCmd>)
        ensures
            (*final(self), r) == old(self).after_navigate(target, *lib),
    {
        let mut ts = Selection::new();
        ts.select(Some(0));
        self.main.table_state = ts;
        match target {
            SidebarTarget::LikedSongs => {
                self.main.content = MainContent::LikedSongs;
                match &lib.liked_songs {
                    Some(songs) => if songs.len() > 0 || !lib.cache.liked_cache.is_empty() {
                        None
                    } else {
                        Some(UiCmd::FetchLikedSongs)
                    },
                    None => Some(UiCmd::FetchLikedSongs),
                }
            },
            SidebarTarget::Albums => {
                self.main.content = MainContent::Albums;
                match &lib.albums {
                    Some(albums) => if albums.len() > 0 || !lib.cache.album_cache.is_empty() {
                        None
                    } else {
                        Some(UiCmd::FetchAlbums)
                    },
                    None => Some(UiCmd::FetchAlbums),
                }
            },
            SidebarTarget::Playlists => {
                self.main.content = MainContent::Playlists;
                None
            },
            SidebarTarget::Playlist(idx) => {
                if let Some(playlists) = &lib.playlists {
                    if idx < playlists.len() {
                        let id = playlists[idx].id.clone();
                        self.main.content = MainContent::Playlist(id.clone());
                        if !lib.cache.playlist_cache.contains_key(&id) {
                            Some(UiCmd::FetchPlaylist(id))
                        } else {
                            None
                        }
                    } else {
                        None
                    }
                } else {
                    None
                }
            },
        }
    }

    fn handle_main(&mut self, key: Key, lib: &LibraryState) -> (r: Option<UiCmd>)
        requires
            key == Key::Char('j') ==> old(self).main.table_state.selected_or(0) < usize::MAX,
        ensures
            (*final(self), r) == old(self).after_main_key(key, *lib),
    {
        match key {
            Key::Char('j') => self.main.select_next(lib),
            Key::Char('k') => self.main.select_prev(),
            Key::Char('h') => {
                match &self.main.content {
                    MainContent::Album(_) => {
                        self.main.content = MainContent::Albums;
                    },
                    MainContent::Playlist(_) => {
                        self.main.content = MainContent::Playlists;
                    },
                    _ => {},
                }
                return None;
            },
            Key::Enter | Key::Char('l') => {
                let idx = match self.main.table_state.selected() {
                    Some(i) => i,
                    None => 0,
                };
                return match &self.main.content {
                    MainContent::Albums => {
                        if let Some(a) = &lib.albums {
                            if idx < a.len() {
                                let id = a[idx].id.clone();
                                self.main.content = MainContent::Album(id.clone());
                                let mut ts = Selection::new();
                                ts.select(Some(0));
                                self.main.table_state = ts;
                                if !lib.cache.album_cache.contains_key(&id) {
                                    Some(UiCmd::FetchAlbum(id))
                                } else {
                                    None
                                }
                            } else {
                                None
                            }
                        } else {
                            None
                        }
                    },
                    MainContent::Playlists => {
                        if let Some(p) = &lib.playlists {
                            if idx < p.len() {
                                let id = p[idx].id.clone();
                                self.main.content = MainContent::Playlist(id.clone());
                                let mut ts = Selection::new();
                                ts.select(Some(0));
                                self.main.table_state = ts;
                                if !lib.cache.playlist_cache.contains_key(&id) {
                                    Some(UiCmd::FetchPlaylist(id))
                                } else {
                                    None
                                }
                            } else {
                                None
                            }
                        } else {
                            None
                        }
                    },
                    content => {
                        let tracks = content.current_tracks(lib);
                        if idx < tracks.len() {
                            let from = match content {
                                MainContent::Playlist(id) => PlayFrom::Playlist(id.clone()),
                                MainContent::Album(id) => PlayFrom::Album(id.clone()),
                                _ => PlayFrom::LikedSongs,
                            };
                            Some(UiCmd::PlayTrack(tracks[idx].id.clone(), from))
                        } else {
                            None
                        }
                    },
                };
            },
            _ => {},
        }
        None
    }

    fn handle_right(&mut self, key: Key, lib: &LibraryState) -> (r: Option<UiCmd>)
        requires
            key == Key::Char('j') ==> match old(self).right.kind {
                RightPanelKind::Queue => old(self).right.queue_list_state.selected_or(0) < usize::MAX,
                RightPanelKind::Lyrics => old(self).right.lyrics_timed ==> old(self).right.lyrics_scroll < u16::MAX,
                RightPanelKind::Related => old(self).right.related_state.selected_or(0) < usize::MAX,
            },
        ensures
            *final(self) == old(self).after_right_key(key, *lib),
            r is None,
    {
        match key {
            Key::Char('[') => {
                self.right.kind = self.right.kind.prev();
                if self.right.kind == RightPanelKind::Related {
                    self.right.related_state.select(Some(0));
                }
            },
            Key::Char(']') => {
                self.right.kind = self.right.kind.next();
                if self.right.kind == RightPanelKind::Related {
                    self.right.related_state.select(Some(0));
                }
            },
            Key::Char('j') => match self.right.kind {
                RightPanelKind::Queue => {
                    let len = lib.queue.len();
                    let max = if len >= 1 { len - 1 } else { 0 };
                    let cur = match self.right.queue_list_state.selected() {
                        Some(i) => i,
                        None => 0,
                    };
                    self.right.queue_list_state.select(Some(if cur + 1 <= max { cur + 1 } else { max }));
                },
                RightPanelKind::Lyrics => {
                    if self.right.lyrics_timed {
                        let h = self.right.lyrics_visible_height;
                        let max: u16 = if LYRICS_LINE_COUNT >= h { LYRICS_LINE_COUNT - h } else { 0 };
                        let next: u16 = self.right.lyrics_scroll + 1;
                        self.right.lyrics_scroll = if next <= max { next } else { max };
                    }
                },
                RightPanelKind::Related => {
                    let len = lib.related_tracks.len();
                    let max = if len >= 1 { len - 1 } else { 0 };
                    let cur = match self.right.related_state.selected() {
                        Some(i) => i,
                        None => 0,
                    };
                    self.right.related_state.select(Some(if cur + 1 <= max { cur + 1 } else { max }));
                },
            },
            Key::Char('k') => match self.right.kind {
                RightPanelKind::Queue => {
                    let cur = match self.right.queue_list_state.selected() {
                        Some(i) => i,
                        None => 0,
                    };
                    self.right.queue_list_state.select(Some(if cur >= 1 { cur - 1 } else { 0 }));
                },
                RightPanelKind::Lyrics => {
                    if self.right.lyrics_timed {
                        let s = self.right.lyrics_scroll;
                        self.right.lyrics_scroll = if s >= 1 { s - 1 } else { 0 };
                    }
                },
                RightPanelKind::Related => {
                    let cur = match self.right.related_state.selected() {
                        Some(i) => i,
                        None => 0,
                    };
                    self.right.related_state.select(Some(if cur >= 1 { cur - 1 } else { 0 }));
                },
            },
            _ => {},
        }
        None
    }

    fn handle_playbar(&self, key: Key, lib: &LibraryState) -> (r: Option<UiCmd>)
        ensures
            r == playbar_command(key),
    {
        match key {
            Key::Char('-') => Some(UiCmd::AdjustVolume(VolumeStep::Down)),
            Key::Char('+') | Key::Char('=') => Some(UiCmd::AdjustVolume(VolumeStep::Up)),
            Key::Char('n') => Some(UiCmd::Next),
            Key::Char('p') => Some(UiCmd::Prev),
            Key::Char('l') => Some(UiCmd::Logout),
            _ => None,
        }
    }
}

impl Default for MainView {
    fn default() -> (v: Self)
        ensures
            v.focus == Focus::Main,
            v.left.list_state == Selection::at(1),
            v.main.content == MainContent::Albums,
            v.main.table_state == Selection::at(0),
            v.right.kind == RightPanelKind::Queue,
            v.right.tab_offset == 0,
            v.right.lyrics_scroll == 0,
            v.right.lyrics_visible_height == 0,
            !v.right.lyrics_timed,
            v.right.queue_list_state == (Selection { offset: 0, selected: None }),
            v.right.related_state == (Selection { offset: 0, selected: None }),
            v.counters_in_range(),
    {
        MainView::new()
    }
}

/// Tab followed by Shift-Tab, or Shift-Tab followed by Tab, leaves the
/// main view as it was, and neither asks the session for anything.
pub proof fn lemma_tab_then_back_tab(v: MainView, lib: LibraryState)
    ensures
        v.after_key(Key::Tab, lib).0.after_key(Key::BackTab, lib).0 == v,
        v.after_key(Key::BackTab, lib).0.after_key(Key::Tab, lib).0 == v,
        v.after_key(Key::Tab, lib).1 is None,
        v.after_key(Key::BackTab, lib).1 is None,
{
    crate::panels::lemma_focus_cycle(v.focus);
}

/// Keys never push a counter to its largest value: when no counter is
/// there before a key, none is after it (for a library whose lists fit in
/// memory).
pub proof fn lemma_keys_keep_counters_in_range(v: MainView, key: Key, lib: LibraryState)
    requires
        v.counters_in_range(),
        crate::sidebar::STATIC_ROWS + lib.playlist_count() <= usize::MAX,
        v.main.content.spec_len(lib) <= usize::MAX,
        lib.queue@.len() <= usize::MAX,
        lib.related_tracks@.len() <= usize::MAX,
    ensures
        v.after_key(key, lib).0.counters_in_range(),
{
    let n = lib.playlist_count();
    crate::sidebar::lemma_next_selectable_row(v.left.spec_selected_idx() as int, n);
    crate::sidebar::lemma_prev_selectable_row(v.left.spec_selected_idx() as int, n);
}

/// Moving down in a list never selects past its last row (or past the
/// first row of an empty list), and moving up from there returns to the
/// row selected before, unless that was the last row.
pub proof fn lemma_list_down_up(s: Selection, len: nat)
    requires
        s.selected_or(0) < usize::MAX,
    ensures
        list_down(s, len).selected_or(0) <= sat_sub(len as int, 1),
        list_down(s, len).selected is Some,
        (s.selected_or(0) + 1 < len) ==> list_up(list_down(s, len)).selected == Some(s.selected_or(0)),
        list_down(s, len).offset == s.offset,
        list_up(s).offset == s.offset,
{
}

/// A track length as `m:ss`, or `--:--` when it is unknown.
pub open spec fn spec_fmt_duration(secs: Option<i32>) -> Seq<char> {
    match secs {
        None => "--:--"@,
        Some(s) => duration_text(s as int),
    }
}

/// A track length as `m:ss`, or `--:--` when it is unknown.
pub fn fmt_duration(secs: Option<i32>) -> (r: String)
    ensures
        r@ == spec_fmt_duration(secs),
{
    match secs {
        None => {
            let mut r = String::new();
            push_str(&mut r, "--:--");
            r
        },
        Some(s) => duration_string(s),
    }
}

/// A length in seconds as `m:ss`.
pub fn fmt_duration_i32(secs: i32) -> (r: String)
    ensures
        r@ == duration_text(secs as int),
{
    duration_string(secs)
}

/// On the centre panel, `h` goes back from an opened playlist to the
/// playlist list and from an opened album to the album list, keeping the
/// rest of the view and asking for nothing; on the lists it does nothing.
pub proof fn lemma_back_goes_to_the_list(v: MainView, lib: LibraryState)
    ensures
        v.main.content is Playlist ==> v.after_main_key(Key::Char('h'), lib) == (
            MainView { main: MainPanelState { content: MainContent::Playlists, table_state: v.main.table_state }, ..v },
            None::<UiCmd>,
        ),
        v.main.content is Album ==> v.after_main_key(Key::Char('h'), lib) == (
            MainView { main: MainPanelState { content: MainContent::Albums, table_state: v.main.table_state }, ..v },
            None::<UiCmd>,
        ),
        !(v.main.content is Playlist) && !(v.main.content is Album) ==> v.after_main_key(Key::Char('h'), lib) == (v, None::<UiCmd>),
{
}

/// Opening a playlist from the playlist list and then pressing `h` shows
/// the playlist list again; the same holds for albums.
pub proof fn lemma_open_then_back_returns(v: MainView, lib: LibraryState)
    requires
        v.main.content is Playlists || v.main.content is Albums,
    ensures
        ({
            let opened = v.after_main_key(Key::Enter, lib).0;
            let back = opened.after_main_key(Key::Char('h'), lib).0;
            back.main.content == v.main.content
        }),
{
}

/// On the related tab, `j` moves the related selection one row down but
/// not past the last related track; how long the queue is plays no part,
/// and the queue selection stays. On the queue tab it is the other way
/// round.
pub proof fn lemma_down_on_right_tabs(v: MainView, lib: LibraryState, other: LibraryState)
    requires
        v.right.related_state.selected_or(0) < usize::MAX,
        v.right.queue_list_state.selected_or(0) < usize::MAX,
    ensures
        v.right.kind == RightPanelKind::Related ==> {
            let after = v.after_right_key(Key::Char('j'), lib);
            let s = v.right.related_state.selected_or(0) as int;
            let n = lib.related_tracks@.len() as int;
            &&& after.right.related_state.selected == Some(
                (if s + 1 <= n - 1 { s + 1 } else if n >= 1 { n - 1 } else { 0 }) as usize)
            &&& after.right.queue_list_state == v.right.queue_list_state
            &&& (other.related_tracks@.len() == lib.related_tracks@.len()
                ==> v.after_right_key(Key::Char('j'), other) == after)
        },
        v.right.kind == RightPanelKind::Queue ==> {
            let after = v.after_right_key(Key::Char('j'), lib);
            let s = v.right.queue_list_state.selected_or(0) as int;
            let n = lib.queue@.len() as int;
            &&& after.right.queue_list_state.selected == Some(
                (if s + 1 <= n - 1 { s + 1 } else if n >= 1 { n - 1 } else { 0 }) as usize)
            &&& after.right.related_state == v.right.related_state
            &&& (other.queue@.len() == lib.queue@.len()
                ==> v.after_right_key(Key::Char('j'), other) == after)
        },
{
}

} // verus!
