//! The login form: three text fields and a submit button.

use vstd::prelude::*;
use crate::event::{Key, UiCmd};

verus! {

/// The parts of the form, in the order that Tab and Enter move through.
#[derive(Debug, PartialEq, Eq, Structural, Clone, Copy)]
pub enum LoginField {
    Url,
    Username,
    Password,
    Submit,
}

impl LoginField {
    /// Position of the part in the form.
    pub open spec fn index(self) -> int {
        match self {
            LoginField::Url => 0,
            LoginField::Username => 1,
            LoginField::Password => 2,
            LoginField::Submit => 3,
        }
    }

    /// The part after this one; none after the submit button.
    pub open spec fn spec_next(self) -> Option<LoginField> {
        match self {
            LoginField::Url => Some(LoginField::Username),
            LoginField::Username => Some(LoginField::Password),
            LoginField::Password => Some(LoginField::Submit),
            LoginField::Submit => None,
        }
    }

    /// The part after this one, the first again after the last.
    pub open spec fn spec_next_cycle(self) -> LoginField {
        match self.spec_next() {
            Some(f) => f,
            None => LoginField::Url,
        }
    }

    /// The part after this one; none after the submit button.
    pub fn next(&self) -> (r: Option<LoginField>)
        ensures
            r == self.spec_next(),
    {
        match self {
            LoginField::Url => Some(LoginField::Username),
            LoginField::Username => Some(LoginField::Password),
            LoginField::Password => Some(LoginField::Submit),
            LoginField::Submit => None,
        }
    }

    /// The part after this one, the first again after the last.
    pub fn next_cycle(&self) -> (r: LoginField)
        ensures
            r == self.spec_next_cycle(),
    {
        match self.next() {
            Some(f) => f,
            None => LoginField::Url,
        }
    }
}

impl Default for LoginField {
    fn default() -> (f: Self)
        ensures
            f == LoginField::Url,
    {
        LoginField::Url
    }
}

/// Four Tabs go once round the form, through each part.
pub proof fn lemma_login_focus_cycle(f: LoginField)
    ensures
        f.spec_next_cycle().spec_next_cycle().spec_next_cycle().spec_next_cycle() == f,
        f.spec_next_cycle() != f,
        f.spec_next_cycle().index() == (f.index() + 1) % 4,
{
}

/// The login form: the text of each field, the part with the focus, and
/// the error from the last attempt.
#[derive(Debug, Clone, PartialEq)]
pub struct LoginForm {
    pub server: String,
    pub username: String,
    pub password: String,
    pub focus: LoginField,
    pub error: Option<String>,
}

impl LoginForm {
    /// An empty form with the focus on the server field.
    pub fn new() -> (f: Self)
        ensures
            f.server@ == Seq::<char>::empty(),
            f.username@ == Seq::<char>::empty(),
            f.password@ == Seq::<char>::empty(),
            f.focus == LoginField::Url,
            f.error is None,
    {
        LoginForm {
            server: String::new(),
            username: String::new(),
            password: String::new(),
            focus: LoginField::Url,
            error: None,
        }
    }

    /// A form with the server and user name filled in.
    pub fn with_prefill(server: &str, username: &str) -> (f: Self)
        ensures
            f.server@ == server@,
            f.username@ == username@,
            f.password@ == Seq::<char>::empty(),
            f.focus == LoginField::Url,
            f.error is None,
    {
        let mut form = LoginForm::new();
        if !server.is_empty() {
            form.server = server.to_owned();
        }
        if !username.is_empty() {
            form.username = username.to_owned();
        }
        assert(server@.len() == 0 ==> server@ =~= Seq::<char>::empty());
        assert(username@.len() == 0 ==> username@ =~= Seq::<char>::empty());
        form
    }

    /// The form after a key: Tab moves the focus round the form; Enter
    /// submits on the button and otherwise moves on. Other keys leave it
    /// as it is (they edit the focused text field).
    pub open spec fn after_key(self, key: Key) -> (LoginForm, Option<UiCmd>) {
        if key == Key::Tab {
            (LoginForm { focus: self.focus.spec_next_cycle(), ..self }, None)
        } else if key == Key::Enter {
            if self.focus == LoginField::Submit {
                (self, Some(UiCmd::SubmitLogin { url: self.server, uname: self.username, password: self.password }))
            } else {
                (LoginForm { focus: self.focus.spec_next_cycle(), ..self }, None)
            }
        } else {
            (self, None)
        }
    }

    /// Handles a key; returns the login request when the form is submitted.
    pub fn handle_key(&mut self, key: Key) -> (r: Option<UiCmd>)
        ensures
            (*final(self), r) == old(self).after_key(key),
    {
        match key {
            Key::Tab => {
                self.focus = self.focus.next_cycle();
            },
            Key::Enter => {
                if self.focus == LoginField::Submit {
                    return Some(UiCmd::SubmitLogin {
                        url: self.server.clone(),
                        uname: self.username.clone(),
                        password: self.password.clone(),
                    });
                } else {
                    self.focus = match self.focus.next() {
                        Some(f) => f,
                        None => LoginField::Url,
                    };
                }
            },
            _ => {},
        }
        None
    }

    /// The text field that a key edits: the focused one, for any key but
    /// Tab and Enter; none while the button has the focus.
    pub fn edit_target(&self, key: Key) -> (r: Option<LoginField>)
        ensures
            r == (if key == Key::Tab || key == Key::Enter || self.focus == LoginField::Submit {
                None
            } else {
                Some(self.focus)
            }),
    {
        match key {
            Key::Tab | Key::Enter => None,
            _ => if self.focus == LoginField::Submit { None } else { Some(self.focus) },
        }
    }

    /// Replaces the text of a field after it was edited.
    pub fn set_text(&mut self, field: LoginField, text: String)
        ensures
            final(self).server == (if field == LoginField::Url { text } else { old(self).server }),
            final(self).username == (if field == LoginField::Username { text } else { old(self).username }),
            final(self).password == (if field == LoginField::Password { text } else { old(self).password }),
            final(self).focus == old(self).focus,
            final(self).error == old(self).error,
    {
        match field {
            LoginField::Url => self.server = text,
            LoginField::Username => self.username = text,
            LoginField::Password => self.password = text,
            LoginField::Submit => {},
        }
    }
}

impl Default for LoginForm {
    fn default() -> (f: Self)
        ensures
            f.server@ == Seq::<char>::empty(),
            f.username@ == Seq::<char>::empty(),
            f.password@ == Seq::<char>::empty(),
            f.focus == LoginField::Url,
            f.error is None,
    {
        LoginForm::new()
    }
}

/// Enter submits only when the button has the focus, and then sends the
/// three texts as they stand; on a text field Enter sends nothing and moves
/// the focus to the next part. No key but Enter sends anything.
pub proof fn lemma_enter_submits_only_on_the_button(f: LoginForm, key: Key)
    ensures
        f.after_key(key).1 is Some ==> key == Key::Enter && f.focus == LoginField::Submit,
        key == Key::Enter && f.focus == LoginField::Submit ==> f.after_key(key).1 == Some(
            UiCmd::SubmitLogin { url: f.server, uname: f.username, password: f.password }),
        key == Key::Enter && f.focus != LoginField::Submit ==> {
            &&& f.after_key(key).1 is None
            &&& f.after_key(key).0.focus.index() == f.focus.index() + 1
            &&& f.after_key(key).0.server == f.server
            &&& f.after_key(key).0.username == f.username
            &&& f.after_key(key).0.password == f.password
        },
{
}

} // verus!
