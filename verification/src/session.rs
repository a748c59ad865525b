//! The session: logging in (with the saved account at start, or as the
//! user asks), and turning the user interface's commands into work for the
//! outside world. Each step takes what the last piece of outside work gave
//! and says what to do next.

use vstd::prelude::*;
use crate::config_store::Credentials;
use crate::event::{AppEvent, NotifLevel, PlayFrom, UiCmd};
use crate::text::push_str;

verus! {

/// Where the session stands.
#[derive(Debug, PartialEq, Eq, Structural, Clone, Copy)]
pub enum AppState {
    Uninitialized,
    NeedsLogin,
    LoggedIn,
    Exited,
}

/// Who asked for a login.
#[derive(Debug, PartialEq, Eq, Structural, Clone, Copy)]
pub enum LoginOrigin {
    /// The user submitted the login form.
    Submitted,
    /// The account saved in the configuration, at start.
    Saved,
}

/// A login under way.
#[derive(Debug, Clone, PartialEq)]
pub struct PendingLogin {
    pub server: String,
    pub username: String,
    pub password: String,
    pub origin: LoginOrigin,
}

/// What the session is in the middle of.
#[derive(Debug, Clone, PartialEq)]
pub enum Step {
    /// Nothing: waiting for a command.
    Idle,
    /// Starting with a saved account, before its password is known.
    Starting { server: String, username: String },
    /// Logging in.
    LoggingIn(PendingLogin),
}

/// Data to fetch from the server.
#[derive(Debug, Clone, PartialEq)]
pub enum FetchRequest {
    Playlists,
    Playlist(String),
    Albums,
    Album(String),
    LikedSongs,
}

/// What the stored password lookup found.
#[derive(Debug, Clone, PartialEq)]
pub enum PasswordLookup {
    Found(String),
    Missing,
    /// The keyring failed; the message says why.
    Failed(String),
}

/// Work for the outside world, in the order given.
#[derive(Debug, Clone, PartialEq)]
pub enum AppAction {
    /// Send this event to the user interface.
    Emit(AppEvent),
    /// End the session with this error.
    Fail(String),
    /// Give the session a fresh client that is not connected yet.
    ResetClient,
    /// Connect a new client to the server and check that it answers;
    /// report with [`App::on_connected`].
    Connect { server: String, username: String, password: String },
    /// Open the keyring entry of the account; report with
    /// [`App::on_keyring_opened`].
    OpenKeyring { server: String, username: String },
    /// Read the saved password; report with [`App::on_password_lookup`].
    LookupPassword,
    /// Save the password in the keyring; a failure is ignored.
    StorePassword(String),
    /// Open the configuration file; report with [`App::on_config_opened`].
    OpenConfig,
    /// Write the account into the configuration and save it; report with
    /// [`App::on_credentials_saved`].
    SaveCredentials { server: String, username: String },
    /// The client connected for the login becomes the session's client.
    AdoptClient,
    /// The session drops its client.
    DropClient,
    /// Delete the saved password; a failure ends the session.
    DeleteCredential,
    /// Fetch from the server and store the result in the library.
    Fetch(FetchRequest),
    /// Play a track and queue the tracks of its source.
    Play { track_id: String, from: PlayFrom },
    /// Step the queue forward.
    AdvanceQueue,
    /// Step the queue back.
    RewindQueue,
    /// Play the track at the front of the queue, if there is one.
    PlayQueueFront,
    PausePlayback,
    ResumePlayback,
    StopPlayback,
    /// Record in the library whether music plays.
    SetPlaying(bool),
}

/// The session.
#[derive(Debug, Clone, PartialEq)]
pub struct App {
    pub state: AppState,
    /// Whether the session holds a client (connected or not).
    pub has_client: bool,
    /// Whether the keyring entry of the account is open.
    pub has_keyring: bool,
    pub step: Step,
}

/// The warning shown when logging in with the saved account fails.
pub open spec fn auto_login_failed_text() -> Seq<char> {
    "Auto-login failed: could not reach server"@
}

/// The warning shown when no password is saved for the account.
pub open spec fn no_saved_password_text() -> Seq<char> {
    "No saved password found in keyring"@
}

/// `prefix` followed by `msg`, as a new string.
fn joined(prefix: &str, msg: &str) -> (r: String)
    ensures
        r@ == prefix@ + msg@,
{
    let mut r = String::new();
    push_str(&mut r, prefix);
    push_str(&mut r, msg);
    r
}

/// A notification to send to the user interface.
fn notify(prefix: &str, msg: &str, level: NotifLevel) -> (r: AppAction)
    ensures
        r matches AppAction::Emit(AppEvent::Notify(m, l)) && m@ == prefix@ + msg@ && l == level,
{
    AppAction::Emit(AppEvent::Notify(joined(prefix, msg), level))
}

/// Whether `a` sends a notification with text `text` at `level`.
pub open spec fn is_notification(a: AppAction, text: Seq<char>, level: NotifLevel) -> bool {
    a matches AppAction::Emit(AppEvent::Notify(m, l)) && m@ == text && l == level
}

/// Whether `a` asks the user to log in, with the fields prefilled.
pub open spec fn is_login_request(a: AppAction, server: Seq<char>, username: Seq<char>) -> bool {
    a matches AppAction::Emit(AppEvent::NeedsLogin { server: s, username: u }) && s@ == server && u@ == username
}

/// The work a command gives while no login is under way.
pub open spec fn command_actions(cmd: UiCmd, has_client: bool) -> Seq<AppAction> {
    match cmd {
        UiCmd::FetchPlaylists => if has_client { seq![AppAction::Fetch(FetchRequest::Playlists)] } else { seq![] },
        UiCmd::FetchPlaylist(id) => if has_client { seq![AppAction::Fetch(FetchRequest::Playlist(id))] } else { seq![] },
        UiCmd::FetchAlbums => if has_client { seq![AppAction::Fetch(FetchRequest::Albums)] } else { seq![] },
        UiCmd::FetchAlbum(id) => if has_client { seq![AppAction::Fetch(FetchRequest::Album(id))] } else { seq![] },
        UiCmd::FetchLikedSongs => if has_client { seq![AppAction::Fetch(FetchRequest::LikedSongs)] } else { seq![] },
        UiCmd::PlayTrack(id, from) => if has_client { seq![AppAction::Play { track_id: id, from }] } else { seq![] },
        UiCmd::Pause => seq![AppAction::PausePlayback, AppAction::SetPlaying(false)],
        UiCmd::Resume => seq![AppAction::ResumePlayback, AppAction::SetPlaying(true)],
        UiCmd::Next => if has_client { seq![AppAction::AdvanceQueue, AppAction::PlayQueueFront] } else { seq![] },
        UiCmd::Prev => if has_client { seq![AppAction::RewindQueue, AppAction::PlayQueueFront] } else { seq![] },
        UiCmd::StopTrack => seq![AppAction::StopPlayback],
        _ => seq![],
    }
}

/// Without a client, a command gives no work that needs the server: at
/// most it acts on the player.
pub proof fn lemma_no_client_no_server_work(cmd: UiCmd)
    ensures
        forall|i: int| 0 <= i < command_actions(cmd, false).len() ==> {
            let a = #[trigger] command_actions(cmd, false)[i];
            a is PausePlayback || a is ResumePlayback || a is StopPlayback || a is SetPlaying
        },
{
}

impl App {
    /// A session that has not started.
    pub fn new() -> (app: Self)
        ensures
            app.state == AppState::Uninitialized,
            !app.has_client,
            !app.has_keyring,
            app.step is Idle,
    {
        App { state: AppState::Uninitialized, has_client: false, has_keyring: false, step: Step::Idle }
    }

    /// Starts the session with the account saved in the configuration:
    /// without a complete account the user is asked to log in; otherwise
    /// its keyring entry is opened.
    pub fn begin(&mut self, creds: &Credentials) -> (r: Vec<AppAction>)
        requires
            old(self).state == AppState::Uninitialized,
        ensures
            final(self).has_client,
            final(self).has_keyring == old(self).has_keyring,
            creds.spec_is_complete() ==> {
                &&& final(self).state == AppState::Uninitialized
                &&& final(self).step matches Step::Starting { server, username }
                &&& server@ == creds.server@ && username@ == creds.username@
                &&& r@.len() == 2 && r@[0] is ResetClient
                &&& r@[1] matches AppAction::OpenKeyring { server: s, username: u }
                &&& s@ == creds.server@ && u@ == creds.username@
            },
            !creds.spec_is_complete() ==> {
                &&& final(self).state == AppState::NeedsLogin
                &&& final(self).step is Idle
                &&& r@.len() == 2 && r@[0] is ResetClient
                &&& is_login_request(r@[1], Seq::empty(), Seq::empty())
            },
    {
        self.has_client = true;
        let mut r: Vec<AppAction> = Vec::new();
        r.push(AppAction::ResetClient);
        if !creds.is_complete() {
            self.state = AppState::NeedsLogin;
            self.step = Step::Idle;
            r.push(AppAction::Emit(AppEvent::NeedsLogin { server: String::new(), username: String::new() }));
        } else {
            self.step = Step::Starting { server: creds.server.clone(), username: creds.username.clone() };
            r.push(AppAction::OpenKeyring { server: creds.server.clone(), username: creds.username.clone() });
        }
        r
    }

    /// The login `p` failed with `msg` after the server answered: a login
    /// the user submitted reports the error; the saved account warns that
    /// it could not log in. Either way the user is asked to log in.
    fn login_failed(&mut self, p: PendingLogin, msg: &str) -> (r: Vec<AppAction>)
        ensures
            final(self).step is Idle,
            final(self).has_client == old(self).has_client,
            final(self).has_keyring == old(self).has_keyring,
            r@.len() == 2,
            is_login_request(r@[1], p.server@, p.username@),
            p.origin == LoginOrigin::Submitted ==> {
                &&& is_notification(r@[0], "Could not login: "@ + msg@, NotifLevel::Error)
                &&& final(self).state == old(self).state
            },
            p.origin == LoginOrigin::Saved ==> {
                &&& is_notification(r@[0], auto_login_failed_text(), NotifLevel::Warning)
                &&& final(self).state == AppState::NeedsLogin
            },
    {
        self.step = Step::Idle;
        let mut r: Vec<AppAction> = Vec::new();
        match p.origin {
            LoginOrigin::Submitted => {
                r.push(notify("Could not login: ", msg, NotifLevel::Error));
            },
            LoginOrigin::Saved => {
                r.push(notify("Auto-login failed: could not reach server", "", NotifLevel::Warning));
                proof { reveal_strlit(""); }
                assert("Auto-login failed: could not reach server"@ + ""@ =~= auto_login_failed_text());
                self.state = AppState::NeedsLogin;
            },
        }
        r.push(AppAction::Emit(AppEvent::NeedsLogin { server: p.server, username: p.username }));
        r
    }

    /// The keyring entry was opened, or could not be. At start a failure
    /// ends the session, and success leads to the password lookup. During a
    /// login a failure fails the login, and success goes on to save the
    /// password and open the configuration.
    pub fn on_keyring_opened(&mut self, result: Result<(), String>) -> (r: Vec<AppAction>)
        ensures
            final(self).has_client == old(self).has_client,
            match old(self).step {
                Step::Starting { .. } => match result {
                    Ok(()) => {
                        &&& final(self).has_keyring
                        &&& final(self).step == old(self).step
                        &&& final(self).state == old(self).state
                        &&& r@ == seq![AppAction::LookupPassword]
                    },
                    Err(e) => {
                        &&& final(self).has_keyring == old(self).has_keyring
                        &&& final(self).step is Idle
                        &&& final(self).state == old(self).state
                        &&& r@ == seq![AppAction::Fail(e)]
                    },
                },
                Step::LoggingIn(p) => match result {
                    Ok(()) => {
                        &&& final(self).has_keyring
                        &&& final(self).step == old(self).step
                        &&& final(self).state == old(self).state
                        &&& r@ == seq![AppAction::StorePassword(p.password), AppAction::OpenConfig]
                    },
                    Err(e) => {
                        &&& final(self).has_keyring == old(self).has_keyring
                        &&& final(self).step is Idle
                        &&& r@.len() == 2
                        &&& is_login_request(r@[1], p.server@, p.username@)
                        &&& (p.origin == LoginOrigin::Submitted ==> {
                            &&& is_notification(r@[0], "Could not login: "@ + e@, NotifLevel::Error)
                            &&& final(self).state == old(self).state
                        })
                        &&& (p.origin == LoginOrigin::Saved ==> {
                            &&& is_notification(r@[0], auto_login_failed_text(), NotifLevel::Warning)
                            &&& final(self).state == AppState::NeedsLogin
                        })
                    },
                },
                Step::Idle => *final(self) == *old(self) && r@ == Seq::<AppAction>::empty(),
            },
    {
        let mut step = Step::Idle;
        std::mem::swap(&mut self.step, &mut step);
        match step {
            Step::Starting { server, username } => match result {
                Ok(()) => {
                    self.has_keyring = true;
                    self.step = Step::Starting { server, username };
                    let mut r: Vec<AppAction> = Vec::new();
                    r.push(AppAction::LookupPassword);
                    r
                },
                Err(e) => {
                    let mut r: Vec<AppAction> = Vec::new();
                    r.push(AppAction::Fail(e));
                    r
                },
            },
            Step::LoggingIn(p) => match result {
                Ok(()) => {
                    self.has_keyring = true;
                    let mut r: Vec<AppAction> = Vec::new();
                    r.push(AppAction::StorePassword(p.password.clone()));
                    r.push(AppAction::OpenConfig);
                    self.step = Step::LoggingIn(p);
                    r
                },
                Err(e) => self.login_failed(p, e.as_str()),
            },
            Step::Idle => Vec::new(),
        }
    }

    /// The saved password was looked up, at start: with a password the
    /// saved account logs in; without one the user is warned and asked to
    /// log in; a keyring error is reported as an error.
    pub fn on_password_lookup(&mut self, lookup: PasswordLookup) -> (r: Vec<AppAction>)
        ensures
            final(self).has_client == old(self).has_client,
            final(self).has_keyring == old(self).has_keyring,
            match old(self).step {
                Step::Starting { server, username } => match lookup {
                    PasswordLookup::Found(pw) => {
                        &&& final(self).state == old(self).state
                        &&& final(self).step == Step::LoggingIn(
                            PendingLogin { server, username, password: pw, origin: LoginOrigin::Saved })
                        &&& r@ == seq![AppAction::Connect { server, username, password: pw }]
                    },
                    PasswordLookup::Missing => {
                        &&& final(self).state == AppState::NeedsLogin
                        &&& final(self).step is Idle
                        &&& r@.len() == 2
                        &&& is_notification(r@[0], no_saved_password_text(), NotifLevel::Warning)
                        &&& is_login_request(r@[1], server@, username@)
                    },
                    PasswordLookup::Failed(e) => {
                        &&& final(self).state == old(self).state
                        &&& final(self).step is Idle
                        &&& r@ == seq![AppAction::Emit(AppEvent::Error(e))]
                    },
                },
                _ => *final(self) == *old(self) && r@ == Seq::<AppAction>::empty(),
            },
    {
        let mut step = Step::Idle;
        std::mem::swap(&mut self.step, &mut step);
        match step {
            Step::Starting { server, username } => {
                let mut r: Vec<AppAction> = Vec::new();
                match lookup {
                    PasswordLookup::Found(pw) => {
                        r.push(AppAction::Connect { server: server.clone(), username: username.clone(), password: pw.clone() });
                        self.step = Step::LoggingIn(PendingLogin { server, username, password: pw, origin: LoginOrigin::Saved });
                    },
                    PasswordLookup::Missing => {
                        r.push(notify("No saved password found in keyring", "", NotifLevel::Warning));
                        proof { reveal_strlit(""); }
                        assert("No saved password found in keyring"@ + ""@ =~= no_saved_password_text());
                        r.push(AppAction::Emit(AppEvent::NeedsLogin { server, username }));
                        self.state = AppState::NeedsLogin;
                    },
                    PasswordLookup::Failed(e) => {
                        r.push(AppAction::Emit(AppEvent::Error(e)));
                    },
                }
                r
            },
            other => {
                self.step = other;
                Vec::new()
            },
        }
    }

    /// The new client connected, or could not. Failure reports the error
    /// to the login form; success opens the keyring entry unless one is
    /// open, and otherwise goes on to save the password and open the
    /// configuration.
    pub fn on_connected(&mut self, result: Result<(), String>) -> (r: Vec<AppAction>)
        ensures
            final(self).has_client == old(self).has_client,
            final(self).has_keyring == old(self).has_keyring,
            final(self).state == old(self).state,
            match old(self).step {
                Step::LoggingIn(p) => match result {
                    Err(e) => final(self).step is Idle && r@ == seq![AppAction::Emit(AppEvent::LoginError(e))],
                    Ok(()) => final(self).step == old(self).step && if old(self).has_keyring {
                        r@ == seq![AppAction::StorePassword(p.password), AppAction::OpenConfig]
                    } else {
                        r@ == seq![AppAction::OpenKeyring { server: p.server, username: p.username }]
                    },
                },
                _ => *final(self) == *old(self) && r@ == Seq::<AppAction>::empty(),
            },
    {
        let mut step = Step::Idle;
        std::mem::swap(&mut self.step, &mut step);
        match step {
            Step::LoggingIn(p) => {
                let mut r: Vec<AppAction> = Vec::new();
                match result {
                    Err(e) => {
                        r.push(AppAction::Emit(AppEvent::LoginError(e)));
                    },
                    Ok(()) => {
                        if self.has_keyring {
                            r.push(AppAction::StorePassword(p.password.clone()));
                            r.push(AppAction::OpenConfig);
                        } else {
                            r.push(AppAction::OpenKeyring { server: p.server.clone(), username: p.username.clone() });
                        }
                        self.step = Step::LoggingIn(p);
                    },
                }
                r
            },
            other => {
                self.step = other;
                Vec::new()
            },
        }
    }

    /// The configuration file was opened, or could not be: failure fails
    /// the login; success goes on to store the account in it.
    pub fn on_config_opened(&mut self, result: Result<(), String>) -> (r: Vec<AppAction>)
        ensures
            final(self).has_client == old(self).has_client,
            final(self).has_keyring == old(self).has_keyring,
            match old(self).step {
                Step::LoggingIn(p) => match result {
                    Ok(()) => {
                        &&& final(self).step == old(self).step
                        &&& final(self).state == old(self).state
                        &&& r@ == seq![AppAction::SaveCredentials { server: p.server, username: p.username }]
                    },
                    Err(e) => {
                        &&& final(self).step is Idle
                        &&& r@.len() == 2
                        &&& is_login_request(r@[1], p.server@, p.username@)
                        &&& (p.origin == LoginOrigin::Submitted ==> {
                            &&& is_notification(r@[0], "Could not login: "@ + e@, NotifLevel::Error)
                            &&& final(self).state == old(self).state
                        })
                        &&& (p.origin == LoginOrigin::Saved ==> {
                            &&& is_notification(r@[0], auto_login_failed_text(), NotifLevel::Warning)
                            &&& final(self).state == AppState::NeedsLogin
                        })
                    },
                },
                _ => *final(self) == *old(self) && r@ == Seq::<AppAction>::empty(),
            },
    {
        let mut step = Step::Idle;
        std::mem::swap(&mut self.step, &mut step);
        match step {
            Step::LoggingIn(p) => match result {
                Ok(()) => {
                    let mut r: Vec<AppAction> = Vec::new();
                    r.push(AppAction::SaveCredentials { server: p.server.clone(), username: p.username.clone() });
                    self.step = Step::LoggingIn(p);
                    r
                },
                Err(e) => self.login_failed(p, e.as_str()),
            },
            other => {
                self.step = other;
                Vec::new()
            },
        }
    }

    /// The account was written to the configuration, and saving it
    /// succeeded or failed; a failure is only a warning. The login is
    /// done: the new client becomes the session's and the user interface
    /// is told it is ready.
    pub fn on_credentials_saved(&mut self, result: Result<(), String>) -> (r: Vec<AppAction>)
        ensures
            final(self).has_keyring == old(self).has_keyring,
            match old(self).step {
                Step::LoggingIn(_) => {
                    &&& final(self).step is Idle
                    &&& final(self).has_client
                    &&& final(self).state == AppState::LoggedIn
                    &&& match result {
                        Ok(()) => r@ == seq![AppAction::AdoptClient, AppAction::Emit(AppEvent::Ready)],
                        Err(e) => {
                            &&& r@.len() == 3
                            &&& is_notification(r@[0], "Failed to save config: "@ + e@, NotifLevel::Warning)
                            &&& r@[1] is AdoptClient
                            &&& r@[2] == AppAction::Emit(AppEvent::Ready)
                        },
                    }
                },
                _ => *final(self) == *old(self) && r@ == Seq::<AppAction>::empty(),
            },
    {
        let mut step = Step::Idle;
        std::mem::swap(&mut self.step, &mut step);
        match step {
            Step::LoggingIn(_) => {
                let mut r: Vec<AppAction> = Vec::new();
                if let Err(e) = result {
                    r.push(notify("Failed to save config: ", e.as_str(), NotifLevel::Warning));
                }
                r.push(AppAction::AdoptClient);
                r.push(AppAction::Emit(AppEvent::Ready));
                self.has_client = true;
                self.state = AppState::LoggedIn;
                r
            },
            other => {
                self.step = other;
                Vec::new()
            },
        }
    }

    /// Handles a command of the user interface. A login starts with
    /// connecting; logging out drops the client, deletes the saved password
    /// and asks to log in; exiting drops the client. Fetching and playing
    /// need a client; pausing, resuming and stopping act on the player.
    pub fn on_command(&mut self, cmd: UiCmd) -> (r: Vec<AppAction>)
        requires
            cmd is Logout ==> old(self).has_keyring,
        ensures
            final(self).has_keyring == old(self).has_keyring,
            match cmd {
                UiCmd::SubmitLogin { url, uname, password } => {
                    &&& final(self).step == Step::LoggingIn(
                        PendingLogin { server: url, username: uname, password, origin: LoginOrigin::Submitted })
                    &&& final(self).state == old(self).state
                    &&& final(self).has_client == old(self).has_client
                    &&& r@ == seq![AppAction::Connect { server: url, username: uname, password }]
                },
                UiCmd::Logout => {
                    &&& final(self).step == old(self).step
                    &&& final(self).state == AppState::NeedsLogin
                    &&& !final(self).has_client
                    &&& r@.len() == 3
                    &&& r@[0] is DropClient
                    &&& r@[1] is DeleteCredential
                    &&& is_login_request(r@[2], Seq::empty(), Seq::empty())
                },
                UiCmd::Exit => {
                    &&& final(self).step == old(self).step
                    &&& final(self).state == AppState::Exited
                    &&& !final(self).has_client
                    &&& r@ == seq![AppAction::DropClient]
                },
                _ => {
                    &&& *final(self) == *old(self)
                    &&& r@ == command_actions(cmd, old(self).has_client)
                },
            },
    {
        let mut r: Vec<AppAction> = Vec::new();
        match cmd {
            UiCmd::SubmitLogin { url, uname, password } => {
                r.push(AppAction::Connect { server: url.clone(), username: uname.clone(), password: password.clone() });
                self.step = Step::LoggingIn(PendingLogin { server: url, username: uname, password, origin: LoginOrigin::Submitted });
            },
            UiCmd::Logout => {
                self.has_client = false;
                r.push(AppAction::DropClient);
                r.push(AppAction::DeleteCredential);
                self.state = AppState::NeedsLogin;
                r.push(AppAction::Emit(AppEvent::NeedsLogin { server: String::new(), username: String::new() }));
            },
            UiCmd::Exit => {
                self.has_client = false;
                self.state = AppState::Exited;
                r.push(AppAction::DropClient);
            },
            UiCmd::FetchPlaylists => if self.has_client {
                r.push(AppAction::Fetch(FetchRequest::Playlists));
            },
            UiCmd::FetchPlaylist(id) => if self.has_client {
                r.push(AppAction::Fetch(FetchRequest::Playlist(id)));
            },
            UiCmd::FetchAlbums => if self.has_client {
                r.push(AppAction::Fetch(FetchRequest::Albums));
            },
            UiCmd::FetchAlbum(id) => if self.has_client {
                r.push(AppAction::Fetch(FetchRequest::Album(id)));
            },
            UiCmd::FetchLikedSongs => if self.has_client {
                r.push(AppAction::Fetch(FetchRequest::LikedSongs));
            },
            UiCmd::PlayTrack(id, from) => if self.has_client {
                r.push(AppAction::Play { track_id: id, from });
            },
            UiCmd::Pause => {
                r.push(AppAction::PausePlayback);
                r.push(AppAction::SetPlaying(false));
            },
            UiCmd::Resume => {
                r.push(AppAction::ResumePlayback);
                r.push(AppAction::SetPlaying(true));
            },
            UiCmd::Next => if self.has_client {
                r.push(AppAction::AdvanceQueue);
                r.push(AppAction::PlayQueueFront);
            },
            UiCmd::Prev => if self.has_client {
                r.push(AppAction::RewindQueue);
                r.push(AppAction::PlayQueueFront);
            },
            UiCmd::StopTrack => {
                r.push(AppAction::StopPlayback);
            },
            UiCmd::FetchLyrics(_) => {},
            UiCmd::AdjustVolume(_) => {},
        }
        r
    }
}

/// With a client, every fetch command gives exactly one action: a fetch
/// of the data the command names, carrying the command's identifier.
/// Fetching liked songs fetches the liked songs, fetching the album list
/// fetches the album list, and so on; without a client none fetches.
pub proof fn lemma_fetch_commands_fetch_what_they_name(id: String)
    ensures
        command_actions(UiCmd::FetchLikedSongs, true) == seq![AppAction::Fetch(FetchRequest::LikedSongs)],
        command_actions(UiCmd::FetchAlbums, true) == seq![AppAction::Fetch(FetchRequest::Albums)],
        command_actions(UiCmd::FetchPlaylists, true) == seq![AppAction::Fetch(FetchRequest::Playlists)],
        command_actions(UiCmd::FetchAlbum(id), true) == seq![AppAction::Fetch(FetchRequest::Album(id))],
        command_actions(UiCmd::FetchPlaylist(id), true) == seq![AppAction::Fetch(FetchRequest::Playlist(id))],
        command_actions(UiCmd::FetchLikedSongs, false).len() == 0,
        command_actions(UiCmd::FetchAlbums, false).len() == 0,
        command_actions(UiCmd::FetchPlaylists, false).len() == 0,
        command_actions(UiCmd::FetchAlbum(id), false).len() == 0,
        command_actions(UiCmd::FetchPlaylist(id), false).len() == 0,
{
}

/// A fetch request for liked songs comes only from the command to fetch
/// liked songs, and the album list only from the command to fetch it.
pub proof fn lemma_fetch_request_has_its_command(cmd: UiCmd, has_client: bool, i: int)
    requires
        0 <= i < command_actions(cmd, has_client).len(),
    ensures
        command_actions(cmd, has_client)[i] == AppAction::Fetch(FetchRequest::LikedSongs) ==> cmd is FetchLikedSongs,
        command_actions(cmd, has_client)[i] == AppAction::Fetch(FetchRequest::Albums) ==> cmd is FetchAlbums,
        command_actions(cmd, has_client)[i] == AppAction::Fetch(FetchRequest::Playlists) ==> cmd is FetchPlaylists,
        command_actions(cmd, has_client)[i] matches AppAction::Fetch(FetchRequest::Album(a)) ==> cmd == UiCmd::FetchAlbum(a),
        command_actions(cmd, has_client)[i] matches AppAction::Fetch(FetchRequest::Playlist(p)) ==> cmd == UiCmd::FetchPlaylist(p),
{
}

} // verus!
