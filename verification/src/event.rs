//! Messages between the session logic and the user interface, and the
//! key presses that the views react to.

use vstd::prelude::*;

verus! {

/// What the session tells the user interface.
#[derive(Debug, Clone, PartialEq)]
pub enum AppEvent {
    /// The user must log in; the fields are prefilled with these values.
    NeedsLogin { server: String, username: String },
    /// The server refused or could not be reached; the message says why.
    LoginError(String),
    /// Logged in: the main view can be shown.
    Ready,
    /// A message to show for a while, at the given level.
    Notify(String, NotifLevel),
    /// An error that ends the session.
    Error(String),
}

/// Severity of a notification.
#[derive(Debug, Clone, Copy, PartialEq, Eq, Structural)]
pub enum NotifLevel {
    Info,
    Warning,
    Error,
    Debug,
    Trace,
}

/// Where the tracks of a new play queue come from.
#[derive(Debug, Clone, PartialEq)]
pub enum PlayFrom {
    LikedSongs,
    /// The playlist with this identifier.
    Playlist(String),
    /// The album with this identifier.
    Album(String),
}

/// Direction of a volume change asked for from the play bar.
#[derive(Debug, Clone, Copy, PartialEq, Eq, Structural)]
pub enum VolumeStep {
    Down,
    Up,
}

/// What the user interface asks the session to do.
#[derive(Debug, Clone, PartialEq)]
pub enum UiCmd {
    SubmitLogin { url: String, uname: String, password: String },
    /// Play the track with this identifier, queueing the rest of its source.
    PlayTrack(String, PlayFrom),
    StopTrack,
    FetchPlaylists,
    FetchPlaylist(String),
    FetchAlbums,
    FetchAlbum(String),
    FetchLyrics(String),
    FetchLikedSongs,
    Next,
    Prev,
    Pause,
    Resume,
    /// Change the volume by one step.
    AdjustVolume(VolumeStep),
    Logout,
    Exit,
}

/// The key of a key press, as far as the views tell keys apart.
#[derive(Debug, Clone, Copy, PartialEq, Eq, Structural)]
pub enum Key {
    Tab,
    BackTab,
    Enter,
    Char(char),
    /// Any other key.
    Other,
}

/// A key press: the key and whether Control was held.
#[derive(Debug, Clone, Copy, PartialEq, Eq, Structural)]
pub struct KeyInput {
    pub key: Key,
    pub ctrl: bool,
}

} // verus!
