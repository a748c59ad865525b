//! The music library as the views see it: what was fetched from the
//! server, the cache of opened playlists and albums, and the play queue.

use std::collections::VecDeque;
use rand::seq::SliceRandom;
use vstd::prelude::*;
use crate::event::PlayFrom;
use crate::id_map::IdMap;

verus! {

fn clone_opt_string(o: &Option<String>) -> (r: Option<String>)
    ensures
        r == *o,
{
    match o {
        Some(s) => Some(s.clone()),
        None => None,
    }
}

/// A song, or an entry of the album list, as the server describes it.
#[derive(Debug, PartialEq)]
pub struct Track {
    pub id: String,
    pub title: String,
    pub name: String,
    pub album: Option<String>,
    pub artist: Option<String>,
    pub year: Option<i32>,
    /// Length in seconds.
    pub duration: Option<i32>,
}

impl Clone for Track {
    fn clone(&self) -> (r: Self)
        ensures
            r == *self,
    {
        Track {
            id: self.id.clone(),
            title: self.title.clone(),
            name: self.name.clone(),
            album: clone_opt_string(&self.album),
            artist: clone_opt_string(&self.artist),
            year: self.year,
            duration: self.duration,
        }
    }
}

/// Copies a list of tracks, keeping every track as it is.
pub fn clone_tracks(v: &Vec<Track>) -> (r: Vec<Track>)
    ensures
        r@ == v@,
{
    let r = v.clone();
    assert(r@ =~= v@);
    r
}

/// A playlist of the user.
#[derive(Debug, Clone, PartialEq)]
pub struct Playlist {
    pub id: String,
    pub name: String,
    pub song_count: i32,
    /// Total length in seconds.
    pub duration: i32,
}

/// An album.
#[derive(Debug, Clone, PartialEq)]
pub struct Album {
    pub id: String,
    pub name: String,
    pub artist: Option<String>,
    pub year: Option<i32>,
}

/// Lyrics of a song.
#[derive(Debug, Clone, PartialEq)]
pub struct Lyrics {
    pub artist: Option<String>,
    pub title: Option<String>,
    pub value: Option<String>,
}

/// A playlist with its tracks.
#[derive(Debug, Clone, PartialEq)]
pub struct PlaylistWithSongs {
    pub base: Playlist,
    pub entry: Vec<Track>,
}

/// An album with its tracks.
#[derive(Debug, Clone, PartialEq)]
pub struct AlbumWithSongs {
    pub base: Album,
    pub song: Vec<Track>,
}

/// Playlists and albums that were opened, by identifier, and liked songs.
#[derive(Debug, Clone)]
pub struct LibaryCache {
    pub playlist_cache: IdMap<PlaylistWithSongs>,
    pub album_cache: IdMap<AlbumWithSongs>,
    pub liked_cache: IdMap<Track>,
}

impl LibaryCache {
    /// An empty cache.
    pub fn new() -> (c: Self)
        ensures
            c.playlist_cache@ == Map::<Seq<char>, PlaylistWithSongs>::empty(),
            c.album_cache@ == Map::<Seq<char>, AlbumWithSongs>::empty(),
            c.liked_cache@ == Map::<Seq<char>, Track>::empty(),
    {
        LibaryCache { playlist_cache: IdMap::new(), album_cache: IdMap::new(), liked_cache: IdMap::new() }
    }
}

/// Above this many tracks in the queue, stepping forward first drops the
/// last track.
pub const QUEUE_LIMIT: usize = 250;

/// The queue after stepping forward: beyond the limit the last track is
/// dropped; then the first track leaves.
pub open spec fn queue_after_next(queue: Seq<Track>) -> Seq<Track> {
    let q = if queue.len() > QUEUE_LIMIT { queue.drop_last() } else { queue };
    if q.len() > 0 { q.drop_first() } else { q }
}

/// The finished tracks after stepping forward: the track that left the
/// queue is appended.
pub open spec fn finished_after_next(queue: Seq<Track>, finished: Seq<Track>) -> Seq<Track> {
    let q = if queue.len() > QUEUE_LIMIT { queue.drop_last() } else { queue };
    if q.len() > 0 { finished.push(q[0]) } else { finished }
}

/// The queue after stepping back: the last finished track comes back to
/// its front.
pub open spec fn queue_after_prev(queue: Seq<Track>, finished: Seq<Track>) -> Seq<Track> {
    if finished.len() > 0 { seq![finished.last()] + queue } else { queue }
}

/// The finished tracks after stepping back.
pub open spec fn finished_after_prev(finished: Seq<Track>) -> Seq<Track> {
    if finished.len() > 0 { finished.drop_last() } else { finished }
}

/// What a view needs of the library.
#[derive(Debug, Clone)]
pub struct LibraryState {
    pub playlists: Option<Vec<Playlist>>,
    pub albums: Option<Vec<Track>>,
    pub liked_songs: Option<Vec<Track>>,
    pub cache: LibaryCache,
    pub now_playing: Option<Box<Track>>,
    pub lyrics: Option<Lyrics>,
    pub queue: VecDeque<Track>,
    pub recently_finished_queue: VecDeque<Track>,
    pub related_tracks: Vec<Track>,
    pub playing: bool,
}

/// Where the tracks of a new queue are, as the library knows it.
#[derive(Debug)]
pub enum QueueSource {
    /// The tracks are at hand.
    Ready(Vec<Track>),
    /// The playlist with this identifier must be fetched first.
    FetchPlaylist(String),
    /// The album with this identifier must be fetched first.
    FetchAlbum(String),
    /// Liked songs were asked for before they were fetched.
    NoLikedSongs,
}

/// Shuffles tracks in place (`SliceRandom::shuffle` with the thread's
/// generator). What is claimed: the result holds the same tracks, each as
/// often as before; the order is left open.
#[verifier::external_body]
fn shuffle_tracks(v: &mut Vec<Track>)
    ensures
        final(v)@.len() == old(v)@.len(),
        final(v)@.to_multiset() == old(v)@.to_multiset(),
{
    let mut rng = rand::rng();
    v.shuffle(&mut rng);
}

impl LibraryState {
    /// Everything but the queue and the finished tracks is equal.
    pub open spec fn same_except_queues(&self, other: &LibraryState) -> bool {
        &&& self.playlists == other.playlists
        &&& self.albums == other.albums
        &&& self.liked_songs == other.liked_songs
        &&& self.cache == other.cache
        &&& self.now_playing == other.now_playing
        &&& self.lyrics == other.lyrics
        &&& self.related_tracks == other.related_tracks
        &&& self.playing == other.playing
    }

    /// Everything but the cache is equal.
    pub open spec fn same_except_cache(&self, other: &LibraryState) -> bool {
        &&& self.playlists == other.playlists
        &&& self.albums == other.albums
        &&& self.liked_songs == other.liked_songs
        &&& self.now_playing == other.now_playing
        &&& self.lyrics == other.lyrics
        &&& self.queue == other.queue
        &&& self.recently_finished_queue == other.recently_finished_queue
        &&& self.related_tracks == other.related_tracks
        &&& self.playing == other.playing
    }

    /// An empty library: nothing fetched, nothing queued, not playing.
    pub fn new() -> (lib: Self)
        ensures
            lib.playlists is None,
            lib.albums is None,
            lib.liked_songs is None,
            lib.cache.playlist_cache@ == Map::<Seq<char>, PlaylistWithSongs>::empty(),
            lib.cache.album_cache@ == Map::<Seq<char>, AlbumWithSongs>::empty(),
            lib.cache.liked_cache@ == Map::<Seq<char>, Track>::empty(),
            lib.now_playing is None,
            lib.lyrics is None,
            lib.queue@ == Seq::<Track>::empty(),
            lib.recently_finished_queue@ == Seq::<Track>::empty(),
            lib.related_tracks@ == Seq::<Track>::empty(),
            !lib.playing,
    {
        LibraryState {
            playlists: None,
            albums: None,
            liked_songs: None,
            cache: LibaryCache::new(),
            now_playing: None,
            lyrics: None,
            queue: VecDeque::new(),
            recently_finished_queue: VecDeque::new(),
            related_tracks: Vec::new(),
            playing: false,
        }
    }

    /// Number of playlists fetched (none before they are fetched).
    pub open spec fn playlist_count(&self) -> nat {
        match self.playlists {
            Some(v) => v@.len(),
            None => 0,
        }
    }

    /// Steps the queue forward: beyond [`QUEUE_LIMIT`] tracks the last one
    /// is dropped, then the first track moves to the finished tracks.
    pub fn advance_queue(&mut self)
        ensures
            final(self).queue@ == queue_after_next(old(self).queue@),
            final(self).recently_finished_queue@ == finished_after_next(
                old(self).queue@,
                old(self).recently_finished_queue@,
            ),
            final(self).same_except_queues(old(self)),
    {
        if self.queue.len() > QUEUE_LIMIT {
            self.queue.pop_back();
        }
        if let Some(current) = self.queue.pop_front() {
            self.recently_finished_queue.push_back(current);
        }
    }

    /// Steps the queue back: the last finished track returns to the front.
    pub fn rewind_queue(&mut self)
        ensures
            final(self).queue@ == queue_after_prev(old(self).queue@, old(self).recently_finished_queue@),
            final(self).recently_finished_queue@ == finished_after_prev(
                old(self).recently_finished_queue@,
            ),
            final(self).same_except_queues(old(self)),
    {
        if let Some(prev) = self.recently_finished_queue.pop_back() {
            self.queue.push_front(prev);
        }
    }

    /// Identifier of the track at the front of the queue.
    pub fn queue_front_id(&self) -> (r: Option<String>)
        ensures
            match r {
                Some(id) => self.queue@.len() > 0 && id@ == self.queue@[0].id@,
                None => self.queue@.len() == 0,
            },
    {
        if self.queue.len() > 0 {
            Some(self.queue[0].id.clone())
        } else {
            None
        }
    }

    /// Where the tracks to queue for `from` are: liked songs once fetched,
    /// or a playlist or album from the cache, else fetched.
    pub fn queue_source(&self, from: &PlayFrom) -> (r: QueueSource)
        ensures
            match from {
                PlayFrom::LikedSongs => match self.liked_songs {
                    Some(v) => r matches QueueSource::Ready(w) && w@ == v@,
                    None => r is NoLikedSongs,
                },
                PlayFrom::Playlist(id) => if self.cache.playlist_cache@.contains_key(id@) {
                    r matches QueueSource::Ready(v) && v@ == self.cache.playlist_cache@[id@].entry@
                } else {
                    r matches QueueSource::FetchPlaylist(f) && f@ == id@
                },
                PlayFrom::Album(id) => if self.cache.album_cache@.contains_key(id@) {
                    r matches QueueSource::Ready(v) && v@ == self.cache.album_cache@[id@].song@
                } else {
                    r matches QueueSource::FetchAlbum(f) && f@ == id@
                },
            },
    {
        match from {
            PlayFrom::LikedSongs => match &self.liked_songs {
                Some(v) => QueueSource::Ready(clone_tracks(v)),
                None => QueueSource::NoLikedSongs,
            },
            PlayFrom::Playlist(id) => match self.cache.playlist_cache.get(id) {
                Some(p) => QueueSource::Ready(clone_tracks(&p.entry)),
                None => QueueSource::FetchPlaylist(id.clone()),
            },
            PlayFrom::Album(id) => match self.cache.album_cache.get(id) {
                Some(a) => QueueSource::Ready(clone_tracks(&a.song)),
                None => QueueSource::FetchAlbum(id.clone()),
            },
        }
    }

    /// Starts playing `now_playing` with `tracks`, shuffled, as the queue.
    pub fn start_queue(&mut self, now_playing: Track, tracks: Vec<Track>)
        ensures
            final(self).queue@.to_multiset() == tracks@.to_multiset(),
            final(self).queue@.len() == tracks@.len(),
            final(self).now_playing == Some(Box::new(now_playing)),
            final(self).playing,
            final(self).recently_finished_queue@ == old(self).recently_finished_queue@,
            final(self).playlists == old(self).playlists,
            final(self).albums == old(self).albums,
            final(self).liked_songs == old(self).liked_songs,
            final(self).cache == old(self).cache,
            final(self).lyrics == old(self).lyrics,
            final(self).related_tracks == old(self).related_tracks,
    {
        let mut shuffled = tracks;
        shuffle_tracks(&mut shuffled);
        let mut queue: VecDeque<Track> = VecDeque::new();
        let n = shuffled.len();
        for i in 0..n
            invariant
                n == shuffled@.len(),
                queue@ == shuffled@.subrange(0, i as int),
        {
            queue.push_back(shuffled[i].clone());
            assert(queue@ =~= shuffled@.subrange(0, i + 1));
        }
        assert(queue@ =~= shuffled@);
        self.now_playing = Some(Box::new(now_playing));
        self.playing = true;
        self.queue = queue;
    }

    /// Stores the fetched playlists.
    pub fn store_playlists(&mut self, playlists: Vec<Playlist>)
        ensures
            *final(self) == (LibraryState { playlists: Some(playlists), ..*old(self) }),
    {
        self.playlists = Some(playlists);
    }

    /// Stores the fetched album list.
    pub fn store_albums(&mut self, albums: Vec<Track>)
        ensures
            *final(self) == (LibraryState { albums: Some(albums), ..*old(self) }),
    {
        self.albums = Some(albums);
    }

    /// Stores the fetched liked songs.
    pub fn store_liked_songs(&mut self, songs: Vec<Track>)
        ensures
            *final(self) == (LibraryState { liked_songs: Some(songs), ..*old(self) }),
    {
        self.liked_songs = Some(songs);
    }

    /// Caches a fetched playlist under its own identifier.
    pub fn store_playlist(&mut self, p: PlaylistWithSongs)
        ensures
            final(self).cache.playlist_cache@ == old(self).cache.playlist_cache@.insert(p.base.id@, p),
            final(self).cache.album_cache == old(self).cache.album_cache,
            final(self).cache.liked_cache == old(self).cache.liked_cache,
            final(self).same_except_cache(old(self)),
    {
        let id = p.base.id.clone();
        self.cache.playlist_cache.insert(id, p);
    }

    /// Caches a fetched album under its own identifier.
    pub fn store_album(&mut self, a: AlbumWithSongs)
        ensures
            final(self).cache.album_cache@ == old(self).cache.album_cache@.insert(a.base.id@, a),
            final(self).cache.playlist_cache == old(self).cache.playlist_cache,
            final(self).cache.liked_cache == old(self).cache.liked_cache,
            final(self).same_except_cache(old(self)),
    {
        let id = a.base.id.clone();
        self.cache.album_cache.insert(id, a);
    }

    /// Records whether music plays.
    pub fn set_playing(&mut self, playing: bool)
        ensures
            *final(self) == (LibraryState { playing, ..*old(self) }),
    {
        self.playing = playing;
    }

    /// A track started playing.
    pub fn set_now_playing(&mut self, track: Track)
        ensures
            final(self).now_playing == Some(Box::new(track)),
            final(self).playing,
            final(self).queue@ == old(self).queue@,
            final(self).recently_finished_queue@ == old(self).recently_finished_queue@,
            final(self).playlists == old(self).playlists,
            final(self).albums == old(self).albums,
            final(self).liked_songs == old(self).liked_songs,
            final(self).cache == old(self).cache,
            final(self).lyrics == old(self).lyrics,
            final(self).related_tracks == old(self).related_tracks,
    {
        self.now_playing = Some(Box::new(track));
        self.playing = true;
    }
}

/// Stepping back right after stepping forward restores the queue and the
/// finished tracks, when the queue held a track and was not over the limit.
pub proof fn lemma_prev_undoes_next(queue: Seq<Track>, finished: Seq<Track>)
    requires
        1 <= queue.len() <= QUEUE_LIMIT,
    ensures
        queue_after_prev(queue_after_next(queue), finished_after_next(queue, finished)) == queue,
        finished_after_prev(finished_after_next(queue, finished)) == finished,
{
    assert(queue_after_prev(queue_after_next(queue), finished_after_next(queue, finished)) =~= queue);
    assert(finished_after_prev(finished_after_next(queue, finished)) =~= finished);
}

/// Stepping forward right after stepping back restores the queue and the
/// finished tracks, when a finished track was there and the queue was
/// under the limit.
pub proof fn lemma_next_undoes_prev(queue: Seq<Track>, finished: Seq<Track>)
    requires
        finished.len() >= 1,
        queue.len() < QUEUE_LIMIT,
    ensures
        queue_after_next(queue_after_prev(queue, finished)) == queue,
        finished_after_next(queue_after_prev(queue, finished), finished_after_prev(finished)) == finished,
{
    assert(queue_after_next(queue_after_prev(queue, finished)) =~= queue);
    assert(finished_after_next(queue_after_prev(queue, finished), finished_after_prev(finished)) =~= finished);
}

/// Stepping back keeps every track: the queue and the finished tracks
/// together hold as many as before. Stepping forward loses a track only
/// when the queue was over the limit.
pub proof fn lemma_queue_steps_keep_tracks(queue: Seq<Track>, finished: Seq<Track>)
    ensures
        queue_after_prev(queue, finished).len() + finished_after_prev(finished).len()
            == queue.len() + finished.len(),
        queue_after_next(queue).len() + finished_after_next(queue, finished).len()
            == queue.len() + finished.len() - (if queue.len() > QUEUE_LIMIT { 1int } else { 0int }),
{
}

} // verus!
