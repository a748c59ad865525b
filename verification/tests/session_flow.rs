use tubgerm::config_store::Credentials;
use tubgerm::event::{AppEvent, NotifLevel, PlayFrom, UiCmd};
use tubgerm::session::{App, AppAction, AppState, FetchRequest, LoginOrigin, PasswordLookup, PendingLogin, Step};

fn creds(server: &str, user: &str) -> Credentials {
    Credentials { server: server.to_string(), username: user.to_string() }
}

fn needs_login(server: &str, user: &str) -> AppAction {
    AppAction::Emit(AppEvent::NeedsLogin { server: server.to_string(), username: user.to_string() })
}

#[test]
fn start_without_saved_account_asks_to_log_in() {
    let mut app = App::new();
    let r = app.begin(&creds("", "me"));
    assert_eq!(r, vec![AppAction::ResetClient, needs_login("", "")]);
    assert_eq!(app.state, AppState::NeedsLogin);
    assert!(app.has_client);
    let mut app = App::new();
    let r = app.begin(&creds("https://s", ""));
    assert_eq!(r, vec![AppAction::ResetClient, needs_login("", "")]);
}

#[test]
fn start_with_saved_account_logs_in() {
    let mut app = App::new();
    let r = app.begin(&creds("https://s", "me"));
    assert_eq!(
        r,
        vec![AppAction::ResetClient, AppAction::OpenKeyring { server: "https://s".to_string(), username: "me".to_string() }]
    );
    assert_eq!(app.on_keyring_opened(Ok(())), vec![AppAction::LookupPassword]);
    assert!(app.has_keyring);
    let r = app.on_password_lookup(PasswordLookup::Found("pw".to_string()));
    assert_eq!(
        r,
        vec![AppAction::Connect { server: "https://s".to_string(), username: "me".to_string(), password: "pw".to_string() }]
    );
    assert_eq!(app.on_connected(Ok(())), vec![AppAction::StorePassword("pw".to_string()), AppAction::OpenConfig]);
    assert_eq!(
        app.on_config_opened(Ok(())),
        vec![AppAction::SaveCredentials { server: "https://s".to_string(), username: "me".to_string() }]
    );
    assert_eq!(app.on_credentials_saved(Ok(())), vec![AppAction::AdoptClient, AppAction::Emit(AppEvent::Ready)]);
    assert_eq!(app.state, AppState::LoggedIn);
    assert_eq!(app.step, Step::Idle);
}

#[test]
fn start_without_saved_password_warns() {
    let mut app = App::new();
    app.begin(&creds("https://s", "me"));
    app.on_keyring_opened(Ok(()));
    let r = app.on_password_lookup(PasswordLookup::Missing);
    assert_eq!(
        r,
        vec![
            AppAction::Emit(AppEvent::Notify("No saved password found in keyring".to_string(), NotifLevel::Warning)),
            needs_login("https://s", "me"),
        ]
    );
    assert_eq!(app.state, AppState::NeedsLogin);
}

#[test]
fn keyring_error_at_start() {
    let mut app = App::new();
    app.begin(&creds("https://s", "me"));
    assert_eq!(app.on_keyring_opened(Err("locked".to_string())), vec![AppAction::Fail("locked".to_string())]);
    let mut app = App::new();
    app.begin(&creds("https://s", "me"));
    app.on_keyring_opened(Ok(()));
    let r = app.on_password_lookup(PasswordLookup::Failed("denied".to_string()));
    assert_eq!(r, vec![AppAction::Emit(AppEvent::Error("denied".to_string()))]);
    assert_eq!(app.state, AppState::Uninitialized);
}

#[test]
fn saved_login_that_fails_after_connecting_warns() {
    let mut app = App::new();
    app.begin(&creds("https://s", "me"));
    app.on_keyring_opened(Ok(()));
    app.on_password_lookup(PasswordLookup::Found("pw".to_string()));
    app.on_connected(Ok(()));
    let r = app.on_config_opened(Err("no home".to_string()));
    assert_eq!(
        r,
        vec![
            AppAction::Emit(AppEvent::Notify("Auto-login failed: could not reach server".to_string(), NotifLevel::Warning)),
            needs_login("https://s", "me"),
        ]
    );
    assert_eq!(app.state, AppState::NeedsLogin);
}

#[test]
fn submitted_login_refused_by_server() {
    let mut app = App::new();
    app.begin(&creds("", ""));
    let r = app.on_command(UiCmd::SubmitLogin { url: "u".to_string(), uname: "n".to_string(), password: "p".to_string() });
    assert_eq!(r, vec![AppAction::Connect { server: "u".to_string(), username: "n".to_string(), password: "p".to_string() }]);
    assert_eq!(
        app.step,
        Step::LoggingIn(PendingLogin {
            server: "u".to_string(),
            username: "n".to_string(),
            password: "p".to_string(),
            origin: LoginOrigin::Submitted,
        })
    );
    assert_eq!(app.on_connected(Err("401".to_string())), vec![AppAction::Emit(AppEvent::LoginError("401".to_string()))]);
    assert_eq!(app.step, Step::Idle);
    assert_eq!(app.state, AppState::NeedsLogin);
}

#[test]
fn submitted_login_opens_keyring_and_reports_failures() {
    let mut app = App::new();
    app.begin(&creds("", ""));
    app.on_command(UiCmd::SubmitLogin { url: "u".to_string(), uname: "n".to_string(), password: "p".to_string() });
    assert_eq!(
        app.on_connected(Ok(())),
        vec![AppAction::OpenKeyring { server: "u".to_string(), username: "n".to_string() }]
    );
    let r = app.on_keyring_opened(Err("no store".to_string()));
    assert_eq!(
        r,
        vec![
            AppAction::Emit(AppEvent::Notify("Could not login: no store".to_string(), NotifLevel::Error)),
            needs_login("u", "n"),
        ]
    );
    assert_eq!(app.state, AppState::NeedsLogin);
}

#[test]
fn failed_config_save_only_warns() {
    let mut app = App::new();
    app.begin(&creds("", ""));
    app.on_command(UiCmd::SubmitLogin { url: "u".to_string(), uname: "n".to_string(), password: "p".to_string() });
    app.on_connected(Ok(()));
    app.on_keyring_opened(Ok(()));
    app.on_config_opened(Ok(()));
    let r = app.on_credentials_saved(Err("read-only".to_string()));
    assert_eq!(
        r,
        vec![
            AppAction::Emit(AppEvent::Notify("Failed to save config: read-only".to_string(), NotifLevel::Warning)),
            AppAction::AdoptClient,
            AppAction::Emit(AppEvent::Ready),
        ]
    );
    assert_eq!(app.state, AppState::LoggedIn);
}

#[test]
fn commands_need_a_client_to_fetch_and_play() {
    let mut app = App::new();
    assert_eq!(app.on_command(UiCmd::FetchAlbums), vec![]);
    assert_eq!(app.on_command(UiCmd::Next), vec![]);
    app.begin(&creds("", ""));
    assert_eq!(app.on_command(UiCmd::FetchAlbums), vec![AppAction::Fetch(FetchRequest::Albums)]);
    assert_eq!(
        app.on_command(UiCmd::FetchPlaylist("p".to_string())),
        vec![AppAction::Fetch(FetchRequest::Playlist("p".to_string()))]
    );
    assert_eq!(
        app.on_command(UiCmd::PlayTrack("t".to_string(), PlayFrom::LikedSongs)),
        vec![AppAction::Play { track_id: "t".to_string(), from: PlayFrom::LikedSongs }]
    );
    assert_eq!(app.on_command(UiCmd::Next), vec![AppAction::AdvanceQueue, AppAction::PlayQueueFront]);
    assert_eq!(app.on_command(UiCmd::Prev), vec![AppAction::RewindQueue, AppAction::PlayQueueFront]);
    assert_eq!(app.on_command(UiCmd::Pause), vec![AppAction::PausePlayback, AppAction::SetPlaying(false)]);
    assert_eq!(app.on_command(UiCmd::Resume), vec![AppAction::ResumePlayback, AppAction::SetPlaying(true)]);
    assert_eq!(app.on_command(UiCmd::StopTrack), vec![AppAction::StopPlayback]);
    assert_eq!(app.on_command(UiCmd::FetchLyrics("t".to_string())), vec![]);
}

#[test]
fn logout_and_exit() {
    let mut app = App::new();
    app.begin(&creds("https://s", "me"));
    app.on_keyring_opened(Ok(()));
    let r = app.on_command(UiCmd::Logout);
    assert_eq!(r, vec![AppAction::DropClient, AppAction::DeleteCredential, needs_login("", "")]);
    assert_eq!(app.state, AppState::NeedsLogin);
    assert!(!app.has_client);
    assert_eq!(app.on_command(UiCmd::FetchPlaylists), vec![]);
    assert_eq!(app.on_command(UiCmd::Exit), vec![AppAction::DropClient]);
    assert_eq!(app.state, AppState::Exited);
}
