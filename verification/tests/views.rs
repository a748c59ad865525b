use tubgerm::event::{Key, PlayFrom, UiCmd, VolumeStep};
use tubgerm::id_map::IdMap;
use tubgerm::library::{Album, AlbumWithSongs, LibraryState, Playlist, PlaylistWithSongs, Track};
use tubgerm::main_view::{fmt_duration, fmt_duration_i32, MainView};
use tubgerm::panels::{Focus, MainContent, RightPanelKind};
use tubgerm::selection::Selection;
use tubgerm::sidebar::{LeftSideState, SidebarTarget};

fn track(id: &str, title: &str) -> Track {
    Track {
        id: id.to_string(),
        title: title.to_string(),
        name: title.to_string(),
        album: None,
        artist: None,
        year: None,
        duration: Some(61),
    }
}

fn playlist(id: &str, name: &str) -> Playlist {
    Playlist { id: id.to_string(), name: name.to_string(), song_count: 2, duration: 125 }
}

fn lib_with_playlists(n: usize) -> LibraryState {
    let mut lib = LibraryState::new();
    lib.playlists = Some((0..n).map(|i| playlist(&format!("p{}", i), &format!("List {}", i))).collect());
    lib
}

#[test]
fn fmt_duration_matches_format() {
    for s in [0, 5, 59, 60, 61, 65, 600, 3599, 3600, 86399, -1, -5, -59, -60, -65, -3601, i32::MAX, i32::MIN] {
        assert_eq!(fmt_duration(Some(s)), format!("{}:{:02}", s / 60, s % 60), "secs {}", s);
        assert_eq!(fmt_duration_i32(s), format!("{}:{:02}", s / 60, s % 60), "secs {}", s);
    }
    assert_eq!(fmt_duration(None), "--:--");
    assert_eq!(fmt_duration(Some(65)), "1:05");
    assert_eq!(fmt_duration(Some(600)), "10:00");
    assert_eq!(fmt_duration(Some(-5)), "0:-5");
}

#[test]
fn right_panel_tabs_cycle() {
    let q = RightPanelKind::Queue;
    assert_eq!(q.next(), RightPanelKind::Lyrics);
    assert_eq!(q.next().next(), RightPanelKind::Related);
    assert_eq!(q.next().next().next(), RightPanelKind::Queue);
    assert_eq!(q.prev(), RightPanelKind::Related);
    for k in [RightPanelKind::Queue, RightPanelKind::Lyrics, RightPanelKind::Related] {
        assert_eq!(k.next().prev(), k);
        assert_eq!(k.prev().next(), k);
        assert_eq!(RightPanelKind::at(k.position()), k);
    }
    assert_eq!(RightPanelKind::Queue.label(), "Queue");
    assert_eq!(RightPanelKind::Lyrics.label(), "Lyrics");
    assert_eq!(RightPanelKind::Related.label(), "Related");
}

#[test]
fn tab_and_back_tab_cycle_focus() {
    let lib = LibraryState::new();
    let mut v = MainView::new();
    assert_eq!(v.focus, Focus::Main);
    let order = [Focus::RightPanel, Focus::Playbar, Focus::LeftPanel, Focus::Main];
    for f in order {
        assert_eq!(v.handle_key(Key::Tab, &lib), None);
        assert_eq!(v.focus, f);
    }
    let before = v.clone();
    v.handle_key(Key::Tab, &lib);
    v.handle_key(Key::BackTab, &lib);
    assert_eq!(v, before);
    v.handle_key(Key::BackTab, &lib);
    assert_eq!(v.focus, Focus::LeftPanel);
}

#[test]
fn space_pauses_or_resumes() {
    let mut lib = LibraryState::new();
    let mut v = MainView::new();
    assert_eq!(v.handle_key(Key::Char(' '), &lib), Some(UiCmd::Resume));
    lib.playing = true;
    assert_eq!(v.handle_key(Key::Char(' '), &lib), Some(UiCmd::Pause));
}

#[test]
fn sidebar_moves_over_selectable_rows() {
    let empty = lib_with_playlists(0);
    let mut left = LeftSideState::new();
    assert_eq!(left.selected_idx(), 1);
    left.select_next(&empty);
    assert_eq!(left.selected_idx(), 2);
    left.select_next(&empty);
    assert_eq!(left.selected_idx(), 3);
    left.select_next(&empty);
    assert_eq!(left.selected_idx(), 3);
    let two = lib_with_playlists(2);
    left.select_next(&two);
    assert_eq!(left.selected_idx(), 5);
    left.select_next(&two);
    assert_eq!(left.selected_idx(), 6);
    left.select_next(&two);
    assert_eq!(left.selected_idx(), 6);
    assert_eq!(left.selected_target(&two), Some(SidebarTarget::Playlist(1)));
    left.select_prev(&two);
    left.select_prev(&two);
    assert_eq!(left.selected_idx(), 3);
    left.select_prev(&two);
    left.select_prev(&two);
    assert_eq!(left.selected_idx(), 1);
    left.select_prev(&two);
    assert_eq!(left.selected_idx(), 1);
    assert!(!left.row_is_selectable(0, &two));
    assert!(!left.row_is_selectable(4, &two));
    assert!(left.row_is_selectable(6, &two));
    assert!(!left.row_is_selectable(7, &two));
}

#[test]
fn stale_sidebar_selection_moves_to_last_playlist() {
    let three = lib_with_playlists(3);
    let mut left = LeftSideState { list_state: Selection { offset: 0, selected: Some(20) } };
    assert_eq!(left.selected_target(&three), None);
    left.select_prev(&three);
    assert_eq!(left.selected_idx(), 7);
    let none = lib_with_playlists(0);
    let mut left = LeftSideState { list_state: Selection { offset: 0, selected: Some(20) } };
    left.select_prev(&none);
    assert_eq!(left.selected_idx(), 3);
}

#[test]
fn opening_liked_songs_fetches_them_once() {
    let mut lib = LibraryState::new();
    let mut v = MainView::new();
    v.focus = Focus::LeftPanel;
    assert_eq!(v.handle_key(Key::Enter, &lib), Some(UiCmd::FetchLikedSongs));
    assert_eq!(v.focus, Focus::Main);
    assert_eq!(v.main.content, MainContent::LikedSongs);
    assert_eq!(v.main.table_state, Selection { offset: 0, selected: Some(0) });
    lib.liked_songs = Some(vec![track("t1", "One")]);
    v.focus = Focus::LeftPanel;
    assert_eq!(v.handle_key(Key::Char('l'), &lib), None);
    lib.liked_songs = Some(vec![]);
    v.focus = Focus::LeftPanel;
    assert_eq!(v.handle_key(Key::Char('l'), &lib), Some(UiCmd::FetchLikedSongs));
}

#[test]
fn opening_a_sidebar_playlist_fetches_it_unless_cached() {
    let mut lib = lib_with_playlists(2);
    let mut v = MainView::new();
    v.focus = Focus::LeftPanel;
    v.handle_key(Key::Char('j'), &lib);
    v.handle_key(Key::Char('j'), &lib);
    v.handle_key(Key::Char('j'), &lib);
    assert_eq!(v.left.selected_idx(), 5);
    assert_eq!(v.handle_key(Key::Enter, &lib), Some(UiCmd::FetchPlaylist("p0".to_string())));
    assert_eq!(v.main.content, MainContent::Playlist("p0".to_string()));
    lib.cache.playlist_cache.insert(
        "p0".to_string(),
        PlaylistWithSongs { base: playlist("p0", "List 0"), entry: vec![track("a", "A"), track("b", "B")] },
    );
    v.focus = Focus::LeftPanel;
    assert_eq!(v.handle_key(Key::Enter, &lib), None);
    assert_eq!(v.main.content.panel_title(&lib), "List 0");
    assert_eq!(v.main.content.len(&lib), 2);
}

#[test]
fn centre_panel_opens_albums_and_plays_tracks() {
    let mut lib = LibraryState::new();
    lib.albums = Some(vec![track("al1", "First"), track("al2", "Second")]);
    let mut v = MainView::new();
    assert_eq!(v.main.content.panel_title(&lib), "Albums");
    assert_eq!(v.handle_key(Key::Char('j'), &lib), None);
    assert_eq!(v.main.table_state.selected(), Some(1));
    assert_eq!(v.handle_key(Key::Char('j'), &lib), None);
    assert_eq!(v.main.table_state.selected(), Some(1));
    assert_eq!(v.handle_key(Key::Enter, &lib), Some(UiCmd::FetchAlbum("al2".to_string())));
    assert_eq!(v.main.content, MainContent::Album("al2".to_string()));
    assert_eq!(v.main.table_state.selected(), Some(0));
    assert_eq!(v.main.content.panel_title(&lib), "Album");
    lib.cache.album_cache.insert(
        "al2".to_string(),
        AlbumWithSongs {
            base: Album { id: "al2".to_string(), name: "Second".to_string(), artist: None, year: None },
            song: vec![track("s1", "S1"), track("s2", "S2")],
        },
    );
    assert_eq!(v.main.content.panel_title(&lib), "Second");
    v.handle_key(Key::Char('j'), &lib);
    assert_eq!(
        v.handle_key(Key::Char('l'), &lib),
        Some(UiCmd::PlayTrack("s2".to_string(), PlayFrom::Album("al2".to_string())))
    );
    assert_eq!(v.handle_key(Key::Char('h'), &lib), None);
    assert_eq!(v.main.content, MainContent::Albums);
    v.handle_key(Key::Char('k'), &lib);
    v.handle_key(Key::Char('k'), &lib);
    assert_eq!(v.main.table_state.selected(), Some(0));
    assert_eq!(v.handle_key(Key::Enter, &lib), Some(UiCmd::FetchAlbum("al1".to_string())));
}

#[test]
fn enter_past_the_end_does_nothing() {
    let mut lib = LibraryState::new();
    lib.albums = Some(vec![track("al1", "First")]);
    let mut v = MainView::new();
    v.main.table_state.select(Some(3));
    let before = v.clone();
    assert_eq!(v.handle_key(Key::Enter, &lib), None);
    assert_eq!(v, before);
}

#[test]
fn liked_songs_play_from_liked_songs() {
    let mut lib = LibraryState::new();
    lib.liked_songs = Some(vec![track("x", "X")]);
    let mut v = MainView::new();
    v.main.content = MainContent::LikedSongs;
    assert_eq!(v.handle_key(Key::Enter, &lib), Some(UiCmd::PlayTrack("x".to_string(), PlayFrom::LikedSongs)));
    assert_eq!(v.main.content.current_tracks(&lib).len(), 1);
}

#[test]
fn right_panel_keys() {
    let mut lib = LibraryState::new();
    lib.queue.push_back(track("q1", "Q1"));
    lib.queue.push_back(track("q2", "Q2"));
    let mut v = MainView::new();
    v.focus = Focus::RightPanel;
    v.handle_key(Key::Char('j'), &lib);
    v.handle_key(Key::Char('j'), &lib);
    v.handle_key(Key::Char('j'), &lib);
    assert_eq!(v.right.queue_list_state.selected(), Some(1));
    v.handle_key(Key::Char('k'), &lib);
    v.handle_key(Key::Char('k'), &lib);
    assert_eq!(v.right.queue_list_state.selected(), Some(0));
    v.handle_key(Key::Char(']'), &lib);
    assert_eq!(v.right.kind, RightPanelKind::Lyrics);
    v.handle_key(Key::Char('j'), &lib);
    assert_eq!(v.right.lyrics_scroll, 0);
    v.right.lyrics_timed = true;
    v.right.lyrics_visible_height = 17;
    v.handle_key(Key::Char('j'), &lib);
    v.handle_key(Key::Char('j'), &lib);
    v.handle_key(Key::Char('j'), &lib);
    assert_eq!(v.right.lyrics_scroll, 2);
    v.handle_key(Key::Char('k'), &lib);
    assert_eq!(v.right.lyrics_scroll, 1);
    v.handle_key(Key::Char(']'), &lib);
    assert_eq!(v.right.kind, RightPanelKind::Related);
    assert_eq!(v.right.related_state.selected(), Some(0));
    v.handle_key(Key::Char('['), &lib);
    v.handle_key(Key::Char('['), &lib);
    assert_eq!(v.right.kind, RightPanelKind::Queue);
}

#[test]
fn play_bar_keys() {
    let lib = LibraryState::new();
    let mut v = MainView::new();
    v.focus = Focus::Playbar;
    assert_eq!(v.handle_key(Key::Char('-'), &lib), Some(UiCmd::AdjustVolume(VolumeStep::Down)));
    assert_eq!(v.handle_key(Key::Char('+'), &lib), Some(UiCmd::AdjustVolume(VolumeStep::Up)));
    assert_eq!(v.handle_key(Key::Char('='), &lib), Some(UiCmd::AdjustVolume(VolumeStep::Up)));
    assert_eq!(v.handle_key(Key::Char('n'), &lib), Some(UiCmd::Next));
    assert_eq!(v.handle_key(Key::Char('p'), &lib), Some(UiCmd::Prev));
    assert_eq!(v.handle_key(Key::Char('l'), &lib), Some(UiCmd::Logout));
    assert_eq!(v.handle_key(Key::Char('x'), &lib), None);
    assert_eq!(v.focus, Focus::Playbar);
}

#[test]
fn id_map_reads_back_what_was_written() {
    let mut m: IdMap<u32> = IdMap::new();
    assert!(m.is_empty());
    assert_eq!(m.get(&"a".to_string()), None);
    m.insert("a".to_string(), 1);
    m.insert("b".to_string(), 2);
    assert_eq!(m.get(&"a".to_string()), Some(&1));
    assert_eq!(m.get(&"b".to_string()), Some(&2));
    m.insert("a".to_string(), 3);
    assert_eq!(m.get(&"a".to_string()), Some(&3));
    assert!(m.contains_key(&"b".to_string()));
    assert!(!m.contains_key(&"c".to_string()));
    assert!(!m.is_empty());
}
