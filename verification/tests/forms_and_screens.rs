use tubgerm::library::{Playlist, Track};
use tubgerm::rows::{album_row, artist_album_line, header_text, playlist_row, row_number, similar_to_text, track_row};
use tubgerm::config::ConfigService as AccountConfig;
use tubgerm::config_store::{Config, ConfigService, Credentials};
use tubgerm::event::{AppEvent, Key, KeyInput, NotifLevel, UiCmd};
use tubgerm::keyring_service::service_name;
use tubgerm::layout::{inset, needs_scrollbar, pad_right, queue_title_width, Area};
use tubgerm::library::LibraryState;
use tubgerm::login_form::{LoginField, LoginForm};
use tubgerm::main_view::{MainView, RightPanelState};
use tubgerm::panels::RightPanelKind;
use tubgerm::ui::{fatal_error_text, Event, Ui, UiState};
use tubgerm::user_data::UserData;

fn key(k: Key) -> KeyInput {
    KeyInput { key: k, ctrl: false }
}

#[test]
fn login_form_moves_and_submits() {
    let mut f = LoginForm::with_prefill("https://s", "me");
    assert_eq!(f.server, "https://s");
    assert_eq!(f.username, "me");
    assert_eq!(f.focus, LoginField::Url);
    assert_eq!(f.edit_target(Key::Char('x')), Some(LoginField::Url));
    assert_eq!(f.handle_key(Key::Tab), None);
    assert_eq!(f.focus, LoginField::Username);
    assert_eq!(f.handle_key(Key::Enter), None);
    assert_eq!(f.focus, LoginField::Password);
    f.set_text(LoginField::Password, "secret".to_string());
    assert_eq!(f.handle_key(Key::Char('a')), None);
    assert_eq!(f.handle_key(Key::Enter), None);
    assert_eq!(f.focus, LoginField::Submit);
    assert_eq!(f.edit_target(Key::Char('x')), None);
    assert_eq!(
        f.handle_key(Key::Enter),
        Some(UiCmd::SubmitLogin { url: "https://s".to_string(), uname: "me".to_string(), password: "secret".to_string() })
    );
    assert_eq!(f.handle_key(Key::Tab), None);
    assert_eq!(f.focus, LoginField::Url);
    assert_eq!(LoginField::Submit.next(), None);
    assert_eq!(LoginField::Submit.next_cycle(), LoginField::Url);
}

#[test]
fn four_tabs_go_round_the_form() {
    let mut f = LoginForm::new();
    let order = [LoginField::Username, LoginField::Password, LoginField::Submit, LoginField::Url];
    for want in order {
        assert_eq!(f.handle_key(Key::Tab), None);
        assert_eq!(f.focus, want);
    }
}

#[test]
fn empty_prefill_is_an_empty_form() {
    assert_eq!(LoginForm::with_prefill("", ""), LoginForm::default());
}

#[test]
fn session_events_change_the_screen() {
    let lib = LibraryState::new();
    let mut ui = Ui::new();
    assert_eq!(ui.loading_text(), "Loading... |");
    assert_eq!(ui.handle_app_event(AppEvent::LoginError("bad".to_string())), None);
    match &ui.state {
        UiState::Login(f) => {
            assert_eq!(f.error, Some("bad".to_string()));
            assert_eq!(f.server, "");
        }
        s => panic!("{:?}", s),
    }
    ui.handle_app_event(AppEvent::NeedsLogin { server: "srv".to_string(), username: "u".to_string() });
    ui.handle_app_event(AppEvent::LoginError("again".to_string()));
    match &ui.state {
        UiState::Login(f) => {
            assert_eq!(f.error, Some("again".to_string()));
            assert_eq!(f.server, "srv");
        }
        s => panic!("{:?}", s),
    }
    assert_eq!(
        ui.handle_app_event(AppEvent::Notify("hi".to_string(), NotifLevel::Info)),
        Some(("hi".to_string(), NotifLevel::Info))
    );
    ui.handle_app_event(AppEvent::Ready);
    assert_eq!(ui.state, UiState::Main(MainView::new()));
    let out = ui.handle_event(Event::Key(key(Key::Char(' '))), &lib);
    assert!(out.keep_running);
    assert_eq!(out.command, Some(UiCmd::Resume));
    assert_eq!(ui.state, UiState::Loading);
    ui.handle_app_event(AppEvent::Error("boom".to_string()));
    assert_eq!(ui.state, UiState::FatalError("boom".to_string()));
    assert_eq!(ui.handle_key(key(Key::Char('x')), &lib), (false, None));
    assert_eq!(fatal_error_text("boom"), "Fatal Error: boom");
}

#[test]
fn control_c_and_q_quit() {
    let lib = LibraryState::new();
    let mut ui = Ui::new();
    assert_eq!(ui.handle_key(KeyInput { key: Key::Char('c'), ctrl: true }, &lib), (false, Some(UiCmd::Exit)));
    assert_eq!(ui.handle_key(KeyInput { key: Key::Char('q'), ctrl: true }, &lib), (false, Some(UiCmd::Exit)));
    assert_eq!(ui.handle_key(KeyInput { key: Key::Char('q'), ctrl: false }, &lib), (true, None));
}

#[test]
fn ticks_turn_the_spinner() {
    let lib = LibraryState::new();
    let mut ui = Ui::new();
    let frames = ["|", "/", "-", "\\", "|"];
    for f in frames {
        assert_eq!(ui.spinner_frame(), f);
        let out = ui.handle_event(Event::Tick, &lib);
        assert!(out.keep_running);
    }
    ui.spinner_tick = 255;
    ui.handle_event(Event::Tick, &lib);
    assert_eq!(ui.spinner_tick, 0);
    assert!(ui.handle_event(Event::Other, &lib).keep_running);
}

#[test]
fn layout_measures() {
    assert_eq!(inset(Area { x: 0, y: 0, width: 10, height: 5 }), Area { x: 1, y: 1, width: 8, height: 3 });
    assert_eq!(inset(Area { x: u16::MAX, y: 3, width: 1, height: 0 }), Area { x: u16::MAX, y: 4, width: 0, height: 0 });
    assert!(needs_scrollbar(10, 5));
    assert!(!needs_scrollbar(3, 5));
    assert!(needs_scrollbar(1, 1));
    assert_eq!(pad_right("ab", 5), "ab   ");
    assert_eq!(pad_right("abcdef", 3), "abcdef");
    assert_eq!(pad_right("é", 3), format!("{:<3}", "é"));
    assert_eq!(queue_title_width(20), 12);
    assert_eq!(queue_title_width(100), 28);
    assert_eq!(queue_title_width(3), 0);
}

#[test]
fn tab_strip_scrolls_to_the_active_tab() {
    let mut r = RightPanelState::new();
    assert_eq!(r.scroll_tabs(100), 3);
    assert_eq!(r.tab_offset, 0);
    r.kind = RightPanelKind::Related;
    let end = r.scroll_tabs(14);
    assert_eq!(r.tab_offset, 2);
    assert_eq!(end, 3);
    r.kind = RightPanelKind::Queue;
    let end = r.scroll_tabs(14);
    assert_eq!(r.tab_offset, 0);
    assert_eq!(end, 1);
}

#[test]
fn lyrics_fit_the_area() {
    let mut r = RightPanelState::new();
    assert_eq!(r.fit_lyrics(10), None);
    assert_eq!(r.lyrics_visible_height, 10);
    r.lyrics_timed = true;
    r.lyrics_scroll = 15;
    assert_eq!(r.fit_lyrics(10), Some(19));
    assert_eq!(r.lyrics_scroll, 9);
    r.lyrics_scroll = 2;
    assert_eq!(r.fit_lyrics(10), Some(12));
}

#[test]
fn account_and_configuration() {
    assert_eq!(service_name("https://s", "me"), "org.tubgerm.me@https://s");
    let u = UserData::new("srv".to_string(), "me".to_string());
    assert_eq!(u.server(), "srv");
    assert_eq!(u.username(), "me");
    let c = AccountConfig::new("url", "name");
    assert_eq!(c.user_data().server(), "url");
    assert_eq!(c.user_data().username(), "name");
    let mut svc = ConfigService::from_parts(Config::default(), std::path::PathBuf::from("/tmp/x.toml"));
    assert!(!svc.config().credentials.is_complete());
    svc.set_credentials("https://s", "me");
    assert_eq!(svc.config().credentials, Credentials { server: "https://s".to_string(), username: "me".to_string() });
    assert!(svc.config().credentials.is_complete());
    assert_eq!(svc.path(), &std::path::PathBuf::from("/tmp/x.toml"));
}

#[test]
fn row_texts() {
    let t = Track {
        id: "i".to_string(),
        title: "Song".to_string(),
        name: "Album A".to_string(),
        album: Some("Alb".to_string()),
        artist: None,
        year: Some(1999),
        duration: Some(185),
    };
    assert_eq!(album_row(&t), vec!["Album A".to_string(), "—".to_string(), "1999".to_string()]);
    let no_year = Track { year: None, ..t.clone() };
    assert_eq!(album_row(&no_year)[2], "");
    assert_eq!(
        track_row(0, &t),
        vec![" 1".to_string(), "Song".to_string(), "—".to_string(), "Alb".to_string(), "3:05".to_string()]
    );
    assert_eq!(track_row(9, &t)[0], "10");
    assert_eq!(track_row(122, &t)[0], format!("{:>2}", 123));
    assert_eq!(row_number(4), format!("{:>2}", 5));
    let p = Playlist { id: "p".to_string(), name: "Mix".to_string(), song_count: 12, duration: 3725 };
    assert_eq!(playlist_row(&p), vec!["Mix".to_string(), "12".to_string(), "62:05".to_string()]);
    assert_eq!(artist_album_line(&t), "—  ·  Alb");
    assert_eq!(header_text("Browse"), " Browse ");
    assert_eq!(similar_to_text(&None), "Similar to: —");
    assert_eq!(similar_to_text(&Some(Box::new(t))), "Similar to: Song");
}

#[test]
fn keyring_outcomes_become_the_service_or_its_error() {
    use_keyring_error();
    let opened = tubgerm::keyring_service::KeyringService::new("https://s", "me");
    assert!(opened.is_ok());
}

fn use_keyring_error() {
    let r = tubgerm::keyring_service::KeyringService::from_entry(Err(keyring::Error::NoEntry));
    match r {
        Err(e) => assert!(matches!(e.source, keyring::Error::NoEntry)),
        Ok(_) => panic!("an error must stay an error"),
    }
}

#[test]
fn lyrics_fit_any_height() {
    let mut r = RightPanelState::new();
    r.lyrics_timed = true;
    r.lyrics_scroll = 7;
    assert_eq!(r.fit_lyrics(u16::MAX), Some(19));
    assert_eq!(r.lyrics_scroll, 0);
    assert_eq!(r.lyrics_visible_height, u16::MAX);
    r.lyrics_scroll = 3;
    assert_eq!(r.fit_lyrics(60000), Some(19));
}

#[test]
fn only_the_key_that_moves_a_full_counter_is_refused() {
    let lib = LibraryState::new();
    let mut v = MainView::new();
    v.main.table_state.select(Some(usize::MAX));
    assert!(!v.key_fits(Key::Char('j'), &lib));
    assert!(v.key_fits(Key::Char('k'), &lib));
    assert!(v.key_fits(Key::Tab, &lib));
    v.handle_key(Key::Char('k'), &lib);
    assert_eq!(v.main.table_state.selected(), Some(usize::MAX - 1));
    assert!(v.key_fits(Key::Char('j'), &lib));
    let mut ui = Ui::new();
    ui.handle_app_event(AppEvent::Ready);
    assert!(ui.key_fits(KeyInput { key: Key::Char('c'), ctrl: true }, &lib));
}
