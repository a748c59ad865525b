//! The text of the rows and lines that the main view shows.

use vstd::prelude::*;
use crate::library::{Playlist, Track};
use crate::main_view::{fmt_duration, spec_fmt_duration};
use crate::text::{decimal, duration_text, int_text, push_char, push_decimal, push_int, push_str, duration_string};

verus! {

/// The text, or a dash when there is none.
pub open spec fn or_dash(o: Option<String>) -> Seq<char> {
    match o {
        Some(s) => s@,
        None => "—"@,
    }
}

/// The text, or a dash when there is none.
pub fn text_or_dash(o: &Option<String>) -> (r: String)
    ensures
        r@ == or_dash(*o),
{
    match o {
        Some(s) => s.clone(),
        None => "—".to_owned(),
    }
}

/// `"{}"` of an `i32`.
pub fn int_string(i: i32) -> (r: String)
    ensures
        r@ == int_text(i as int),
{
    let mut r = String::new();
    push_int(&mut r, i as i64);
    r
}

/// The position of a row, counted from one, right-aligned in two cells
/// (`{:>2}`).
pub open spec fn row_number_text(i: nat) -> Seq<char> {
    let d = decimal(i + 1);
    if d.len() < 2 { seq![' '] + d } else { d }
}

/// The position of a row, counted from one, right-aligned in two cells.
pub fn row_number(i: usize) -> (r: String)
    requires
        i < usize::MAX,
    ensures
        r@ == row_number_text(i as nat),
{
    let mut r = String::new();
    if i + 1 < 10 {
        push_char(&mut r, ' ');
    }
    push_decimal(&mut r, (i + 1) as u64);
    proof { lemma_decimal_len((i + 1) as nat); }
    r
}

proof fn lemma_decimal_len(n: nat)
    ensures
        (decimal(n).len() < 2) == (n < 10),
        decimal(n).len() >= 1,
    decreases n,
{
    if n >= 10 {
        lemma_decimal_len(n / 10);
    }
}

/// The cells of a row of the album list: title, artist, year.
pub open spec fn album_cells(a: Track) -> Seq<Seq<char>> {
    seq![
        a.name@,
        or_dash(a.artist),
        match a.year { Some(y) => int_text(y as int), None => Seq::empty() },
    ]
}

/// The cells of a row of the album list: title, artist, year.
pub fn album_row(a: &Track) -> (r: Vec<String>)
    ensures
        r@.len() == 3,
        forall|i: int| 0 <= i < 3 ==> r@[i]@ == album_cells(*a)[i],
{
    let mut r: Vec<String> = Vec::new();
    r.push(a.name.clone());
    r.push(text_or_dash(&a.artist));
    r.push(match a.year { Some(y) => int_string(y), None => String::new() });
    r
}

/// The cells of a row of the playlist list: name, tracks, length.
pub open spec fn playlist_cells(p: Playlist) -> Seq<Seq<char>> {
    seq![p.name@, int_text(p.song_count as int), duration_text(p.duration as int)]
}

/// The cells of a row of the playlist list: name, tracks, length.
pub fn playlist_row(p: &Playlist) -> (r: Vec<String>)
    ensures
        r@.len() == 3,
        forall|i: int| 0 <= i < 3 ==> r@[i]@ == playlist_cells(*p)[i],
{
    let mut r: Vec<String> = Vec::new();
    r.push(p.name.clone());
    r.push(int_string(p.song_count));
    r.push(duration_string(p.duration));
    r
}

/// The cells of row `i` of a track list: number, title, artist, album, length.
pub open spec fn track_cells(i: nat, t: Track) -> Seq<Seq<char>> {
    seq![row_number_text(i), t.title@, or_dash(t.artist), or_dash(t.album), spec_fmt_duration(t.duration)]
}

/// The cells of row `i` of a track list: number, title, artist, album, length.
pub fn track_row(i: usize, t: &Track) -> (r: Vec<String>)
    requires
        i < usize::MAX,
    ensures
        r@.len() == 5,
        forall|k: int| 0 <= k < 5 ==> r@[k]@ == track_cells(i as nat, *t)[k],
{
    let mut r: Vec<String> = Vec::new();
    r.push(row_number(i));
    r.push(t.title.clone());
    r.push(text_or_dash(&t.artist));
    r.push(text_or_dash(&t.album));
    r.push(fmt_duration(t.duration));
    r
}

/// Artist and album of a track, as the play bar and the queue show them.
pub open spec fn artist_album_text(t: Track) -> Seq<char> {
    or_dash(t.artist) + "  ·  "@ + or_dash(t.album)
}

/// Artist and album of a track, as the play bar and the queue show them.
pub fn artist_album_line(t: &Track) -> (r: String)
    ensures
        r@ == artist_album_text(*t),
{
    let mut r = text_or_dash(&t.artist);
    push_str(&mut r, "  ·  ");
    let album = text_or_dash(&t.album);
    push_str(&mut r, album.as_str());
    r
}

/// `prefix` followed by the text.
pub fn prefixed(prefix: &str, s: &str) -> (r: String)
    ensures
        r@ == prefix@ + s@,
{
    let mut r = prefix.to_owned();
    push_str(&mut r, s);
    r
}

/// A sidebar heading: the label with a space on each side.
pub fn header_text(label: &str) -> (r: String)
    ensures
        r@ == " "@ + label@ + " "@,
{
    let mut r = " ".to_owned();
    push_str(&mut r, label);
    push_str(&mut r, " ");
    r
}

/// The title line of the related tracks.
pub fn similar_to_text(now_playing: &Option<Box<Track>>) -> (r: String)
    ensures
        r@ == "Similar to: "@ + match now_playing { Some(t) => t.title@, None => "—"@ },
{
    match now_playing {
        Some(t) => prefixed("Similar to: ", t.title.as_str()),
        None => prefixed("Similar to: ", "—"),
    }
}

} // verus!
