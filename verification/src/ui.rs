//! The screen the user sees (loading, login, main view or a fatal error)
//! and how events move between them.

use vstd::prelude::*;
use crate::event::{AppEvent, Key, KeyInput, NotifLevel, UiCmd};
use crate::library::LibraryState;
use crate::login_form::LoginForm;
use crate::main_view::MainView;
use crate::text::push_str;

verus! {

/// The screen shown.
#[derive(Debug, Clone, PartialEq)]
pub enum UiState {
    Loading,
    Login(LoginForm),
    Main(MainView),
    FatalError(String),
}

/// What reaches the user interface.
#[derive(Debug, Clone, PartialEq)]
pub enum Event {
    /// A key press.
    Key(KeyInput),
    /// An event from the session.
    App(AppEvent),
    /// The periodic tick that animates the screen.
    Tick,
    /// Anything else the terminal reports (such as a resize).
    Other,
}

/// What handling an event leads to.
#[derive(Debug, Clone, PartialEq)]
pub struct EventOutcome {
    /// Whether the interface keeps running.
    pub keep_running: bool,
    /// A command to send to the session.
    pub command: Option<UiCmd>,
    /// A notification to show.
    pub notification: Option<(String, NotifLevel)>,
}

/// The screen state of the user interface.
#[derive(Debug, Clone, PartialEq)]
pub struct Ui {
    pub state: UiState,
    pub spinner_tick: u8,
}

/// Whether the key press asks to quit (Control with `c` or `q`).
pub open spec fn is_quit(input: KeyInput) -> bool {
    input.ctrl && (input.key == Key::Char('c') || input.key == Key::Char('q'))
}

/// Whether the key press asks to quit (Control with `c` or `q`).
pub fn quits(input: &KeyInput) -> (r: bool)
    ensures
        r == is_quit(*input),
{
    input.ctrl && (input.key == Key::Char('c') || input.key == Key::Char('q'))
}

/// The frame of the loading spinner for a tick count.
pub open spec fn spinner_frame_of(tick: u8) -> Seq<char> {
    if tick % 4 == 0 {
        "|"@
    } else if tick % 4 == 1 {
        "/"@
    } else if tick % 4 == 2 {
        "-"@
    } else {
        "\\"@
    }
}

impl Ui {
    /// The loading screen, spinner at its first frame.
    pub fn new() -> (ui: Self)
        ensures
            ui.state is Loading,
            ui.spinner_tick == 0,
    {
        Ui { state: UiState::Loading, spinner_tick: 0 }
    }

    /// Whether a key press can be handled: on the main view the counter
    /// it moves, if any, is not at its largest value (see
    /// [`MainView::key_in_range`]).
    pub open spec fn key_in_range(&self, input: KeyInput, lib: LibraryState) -> bool {
        self.state matches UiState::Main(v) ==> is_quit(input) || v.key_in_range(input.key, lib)
    }

    /// Whether a key press can be handled (see [`Ui::key_in_range`]).
    pub fn key_fits(&self, input: KeyInput, lib: &LibraryState) -> (r: bool)
        ensures
            r == self.key_in_range(input, *lib),
    {
        match &self.state {
            UiState::Main(v) => quits(&input) || v.key_fits(input.key, lib),
            _ => true,
        }
    }

    /// What handling a session event does: see [`Ui::handle_app_event`].
    pub open spec fn app_event_handled(self, after: Ui, event: AppEvent, r: Option<(String, NotifLevel)>) -> bool {
        match event {
            AppEvent::NeedsLogin { server, username } => {
                &&& r is None
                &&& after.spinner_tick == self.spinner_tick
                &&& after.state matches UiState::Login(f)
                &&& f.server@ == server@
                &&& f.username@ == username@
                &&& f.password@.len() == 0
                &&& f.focus == crate::login_form::LoginField::Url
                &&& f.error is None
            },
            AppEvent::LoginError(e) => {
                &&& r is None
                &&& after.spinner_tick == self.spinner_tick
                &&& match self.state {
                    UiState::Login(f) => after.state == UiState::Login(LoginForm { error: Some(e), ..f }),
                    _ => {
                        &&& after.state matches UiState::Login(f)
                        &&& f.error == Some(e)
                        &&& f.server@.len() == 0
                        &&& f.username@.len() == 0
                        &&& f.password@.len() == 0
                        &&& f.focus == crate::login_form::LoginField::Url
                    },
                }
            },
            AppEvent::Ready => {
                &&& r is None
                &&& after.spinner_tick == self.spinner_tick
                &&& after.state == UiState::Main(MainView::initial())
            },
            AppEvent::Notify(m, k) => r == Some((m, k)) && after == self,
            AppEvent::Error(e) => {
                &&& r is None
                &&& after.spinner_tick == self.spinner_tick
                &&& after.state == UiState::FatalError(e)
            },
        }
    }

    /// What handling a key press does: see [`Ui::handle_key`].
    pub open spec fn key_handled(self, after: Ui, input: KeyInput, lib: LibraryState, r: (bool, Option<UiCmd>)) -> bool {
        if is_quit(input) {
            r == (false, Some(UiCmd::Exit)) && after == self
        } else {
            &&& after.spinner_tick == self.spinner_tick
            &&& match self.state {
                UiState::Loading => r == (true, None::<UiCmd>) && after.state is Loading,
                UiState::Login(f) => {
                    let (f2, cmd) = f.after_key(input.key);
                    r == (true, cmd) && (if cmd is Some { after.state is Loading } else { after.state == UiState::Login(f2) })
                },
                UiState::Main(v) => {
                    let (v2, cmd) = v.after_key(input.key, lib);
                    r == (true, cmd) && (if cmd is Some { after.state is Loading } else { after.state == UiState::Main(v2) })
                },
                UiState::FatalError(m) => r == (false, None::<UiCmd>) && after.state == UiState::FatalError(m),
            }
        }
    }

    /// Handles an event from the session. A request to log in shows the
    /// form prefilled; a login error shows on the form (a fresh one when
    /// another screen is shown); readiness shows the main view; an error
    /// shows the fatal error screen; a notification is handed back to show.
    pub fn handle_app_event(&mut self, event: AppEvent) -> (r: Option<(String, NotifLevel)>)
        ensures
            old(self).app_event_handled(*final(self), event, r),
    {
        match event {
            AppEvent::NeedsLogin { server, username } => {
                self.state = UiState::Login(LoginForm::with_prefill(server.as_str(), username.as_str()));
                None
            },
            AppEvent::LoginError(e) => {
                let on_login = match &self.state {
                    UiState::Login(_) => true,
                    _ => false,
                };
                if on_login {
                    let mut old_state = UiState::Loading;
                    std::mem::swap(&mut self.state, &mut old_state);
                    if let UiState::Login(form) = old_state {
                        self.state = UiState::Login(LoginForm { error: Some(e), ..form });
                    }
                } else {
                    let mut form = LoginForm::new();
                    form.error = Some(e);
                    self.state = UiState::Login(form);
                }
                None
            },
            AppEvent::Ready => {
                self.state = UiState::Main(MainView::new());
                None
            },
            AppEvent::Notify(m, k) => Some((m, k)),
            AppEvent::Error(e) => {
                self.state = UiState::FatalError(e);
                None
            },
        }
    }

    /// Handles a key press. Control-C or Control-Q quits and tells the
    /// session to exit. On the login form and the main view a key may give
    /// a command; then the loading screen shows until the session answers.
    /// On the fatal error screen any key quits.
    pub fn handle_key(&mut self, input: KeyInput, lib: &LibraryState) -> (r: (bool, Option<UiCmd>))
        requires
            old(self).key_in_range(input, *lib),
        ensures
            old(self).key_handled(*final(self), input, *lib, r),
    {
        if quits(&input) {
            return (false, Some(UiCmd::Exit));
        }
        let mut state = UiState::Loading;
        std::mem::swap(&mut self.state, &mut state);
        match state {
            UiState::Loading => (true, None),
            UiState::Login(mut form) => {
                let cmd = form.handle_key(input.key);
                if cmd.is_none() {
                    self.state = UiState::Login(form);
                }
                (true, cmd)
            },
            UiState::Main(mut view) => {
                let cmd = view.handle_key(input.key, lib);
                if cmd.is_none() {
                    self.state = UiState::Main(view);
                }
                (true, cmd)
            },
            UiState::FatalError(msg) => {
                self.state = UiState::FatalError(msg);
                (false, None)
            },
        }
    }

    /// Handles any event: a tick advances the spinner, a session event or
    /// a key is handled as above, anything else is ignored.
    pub fn handle_event(&mut self, event: Event, lib: &LibraryState) -> (r: EventOutcome)
        requires
            event matches Event::Key(k) ==> old(self).key_in_range(k, *lib),
        ensures
            match event {
                Event::Tick => r.keep_running && r.command is None && r.notification is None
                    && final(self).spinner_tick == (old(self).spinner_tick + 1) % 256
                    && final(self).state == old(self).state,
                Event::Other => r.keep_running && r.command is None && r.notification is None
                    && *final(self) == *old(self),
                Event::Key(k) => r.notification is None
                    && old(self).key_handled(*final(self), k, *lib, (r.keep_running, r.command)),
                Event::App(e) => r.keep_running && r.command is None
                    && old(self).app_event_handled(*final(self), e, r.notification),
            },
    {
        match event {
            Event::Tick => {
                self.spinner_tick = self.spinner_tick.wrapping_add(1);
                EventOutcome { keep_running: true, command: None, notification: None }
            },
            Event::App(e) => {
                let notification = self.handle_app_event(e);
                EventOutcome { keep_running: true, command: None, notification }
            },
            Event::Key(k) => {
                let (keep_running, command) = self.handle_key(k, lib);
                EventOutcome { keep_running, command, notification: None }
            },
            Event::Other => EventOutcome { keep_running: true, command: None, notification: None },
        }
    }

    /// The current frame of the loading spinner.
    pub fn spinner_frame(&self) -> (r: &'static str)
        ensures
            r@ == spinner_frame_of(self.spinner_tick),
    {
        let i = self.spinner_tick % 4;
        if i == 0 {
            "|"
        } else if i == 1 {
            "/"
        } else if i == 2 {
            "-"
        } else {
            "\\"
        }
    }

    /// The text of the loading screen.
    pub fn loading_text(&self) -> (r: String)
        ensures
            r@ == "Loading... "@ + spinner_frame_of(self.spinner_tick),
    {
        let mut r = String::new();
        push_str(&mut r, "Loading... ");
        push_str(&mut r, self.spinner_frame());
        r
    }
}

/// The text of the fatal error screen.
pub fn fatal_error_text(msg: &str) -> (r: String)
    ensures
        r@ == "Fatal Error: "@ + msg@,
{
    let mut r = String::new();
    push_str(&mut r, "Fatal Error: ");
    push_str(&mut r, msg);
    r
}

} // verus!
