use tubgerm::library::{Album, AlbumWithSongs};
use tubgerm::event::PlayFrom;
use tubgerm::library::{LibraryState, PlaylistWithSongs, Playlist, QueueSource, Track, QUEUE_LIMIT};

fn track(id: &str) -> Track {
    Track { id: id.to_string(), title: id.to_string(), name: String::new(), album: None, artist: None, year: None, duration: None }
}

fn ids(q: &std::collections::VecDeque<Track>) -> Vec<String> {
    q.iter().map(|t| t.id.clone()).collect()
}

#[test]
fn next_moves_front_to_finished_and_prev_undoes_it() {
    let mut lib = LibraryState::new();
    for id in ["a", "b", "c"] {
        lib.queue.push_back(track(id));
    }
    lib.advance_queue();
    assert_eq!(ids(&lib.queue), vec!["b", "c"]);
    assert_eq!(ids(&lib.recently_finished_queue), vec!["a"]);
    assert_eq!(lib.queue_front_id(), Some("b".to_string()));
    lib.rewind_queue();
    assert_eq!(ids(&lib.queue), vec!["a", "b", "c"]);
    assert!(lib.recently_finished_queue.is_empty());
}

#[test]
fn prev_then_next_restores() {
    let mut lib = LibraryState::new();
    lib.queue.push_back(track("b"));
    lib.recently_finished_queue.push_back(track("a"));
    lib.rewind_queue();
    assert_eq!(ids(&lib.queue), vec!["a", "b"]);
    lib.advance_queue();
    assert_eq!(ids(&lib.queue), vec!["b"]);
    assert_eq!(ids(&lib.recently_finished_queue), vec!["a"]);
}

#[test]
fn empty_queue_steps_do_nothing() {
    let mut lib = LibraryState::new();
    lib.advance_queue();
    lib.rewind_queue();
    assert!(lib.queue.is_empty());
    assert!(lib.recently_finished_queue.is_empty());
    assert_eq!(lib.queue_front_id(), None);
}

#[test]
fn next_beyond_the_limit_drops_the_last_track() {
    let mut lib = LibraryState::new();
    for i in 0..(QUEUE_LIMIT + 2) {
        lib.queue.push_back(track(&format!("t{}", i)));
    }
    lib.advance_queue();
    assert_eq!(lib.queue.len(), QUEUE_LIMIT);
    assert_eq!(lib.queue.back().unwrap().id, format!("t{}", QUEUE_LIMIT));
    assert_eq!(lib.queue.front().unwrap().id, "t1");
    assert_eq!(lib.recently_finished_queue.len(), 1);
}

#[test]
fn new_queue_is_a_shuffle_of_the_source() {
    let mut lib = LibraryState::new();
    let tracks: Vec<Track> = (0..20).map(|i| track(&format!("t{}", i))).collect();
    lib.start_queue(track("now"), tracks.clone());
    assert!(lib.playing);
    assert_eq!(lib.now_playing.as_ref().unwrap().id, "now");
    let mut got = ids(&lib.queue);
    got.sort();
    let mut want: Vec<String> = tracks.iter().map(|t| t.id.clone()).collect();
    want.sort();
    assert_eq!(got, want);
}

#[test]
fn queue_source_uses_the_cache() {
    let mut lib = LibraryState::new();
    assert!(matches!(lib.queue_source(&PlayFrom::LikedSongs), QueueSource::NoLikedSongs));
    lib.liked_songs = Some(vec![track("l")]);
    match lib.queue_source(&PlayFrom::LikedSongs) {
        QueueSource::Ready(v) => assert_eq!(v, vec![track("l")]),
        other => panic!("{:?}", other),
    }
    match lib.queue_source(&PlayFrom::Playlist("p".to_string())) {
        QueueSource::FetchPlaylist(id) => assert_eq!(id, "p"),
        other => panic!("{:?}", other),
    }
    lib.cache.playlist_cache.insert(
        "p".to_string(),
        PlaylistWithSongs {
            base: Playlist { id: "p".to_string(), name: "P".to_string(), song_count: 1, duration: 3 },
            entry: vec![track("x")],
        },
    );
    match lib.queue_source(&PlayFrom::Playlist("p".to_string())) {
        QueueSource::Ready(v) => assert_eq!(v, vec![track("x")]),
        other => panic!("{:?}", other),
    }
    match lib.queue_source(&PlayFrom::Album("a".to_string())) {
        QueueSource::FetchAlbum(id) => assert_eq!(id, "a"),
        other => panic!("{:?}", other),
    }
}

#[test]
fn set_now_playing_marks_playing() {
    let mut lib = LibraryState::new();
    lib.set_now_playing(track("z"));
    assert!(lib.playing);
    assert_eq!(lib.now_playing.unwrap().id, "z");
}

#[test]
fn fetched_data_is_stored() {
    let mut lib = LibraryState::new();
    lib.store_playlists(vec![Playlist { id: "p".to_string(), name: "P".to_string(), song_count: 0, duration: 0 }]);
    assert_eq!(lib.playlists.as_ref().unwrap().len(), 1);
    lib.store_albums(vec![track("a")]);
    assert_eq!(lib.albums, Some(vec![track("a")]));
    lib.store_liked_songs(vec![track("l")]);
    assert_eq!(lib.liked_songs, Some(vec![track("l")]));
    lib.store_playlist(PlaylistWithSongs {
        base: Playlist { id: "own".to_string(), name: "Own".to_string(), song_count: 1, duration: 1 },
        entry: vec![track("e")],
    });
    assert!(lib.cache.playlist_cache.contains_key(&"own".to_string()));
    lib.store_album(AlbumWithSongs {
        base: Album { id: "al".to_string(), name: "Al".to_string(), artist: None, year: None },
        song: vec![track("s")],
    });
    assert_eq!(lib.cache.album_cache.get(&"al".to_string()).unwrap().song, vec![track("s")]);
    lib.set_playing(true);
    assert!(lib.playing);
    lib.set_playing(false);
    assert!(!lib.playing);
}
