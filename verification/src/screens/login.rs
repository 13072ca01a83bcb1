//! The sign-in form: two text fields, one of them active.

use crate::app::{App, HostView};
use crate::event::{event_key, key_of, Event, KeyCode};
use crate::screens::loading::{PendingOperation, PendingOperationView};
use crate::screens::{handled_by, Handled, ScreenAction, ScreenActionView};
use crate::text::{backspace, byte_len, repeat_char, repeated, text_len, without_last};
use vstd::prelude::*;

verus! {

/// The field that typed characters go to.
#[derive(Clone, Copy, Debug, PartialEq, Eq, Structural)]
pub enum ActiveField {
    Email,
    Password,
}

/// What the user has typed into the form.
#[derive(Debug, PartialEq, Eq)]
pub struct UserCreds {
    pub email: String,
    pub password: String,
}

/// The view of a `UserCreds`.
pub struct UserCredsView {
    pub email: Seq<char>,
    pub password: Seq<char>,
}

/// The sign-in form: the active field, the error of the last attempt if it
/// failed, and what the fields hold.
#[derive(Debug, PartialEq, Eq)]
pub struct LoginScreen {
    pub active_field: ActiveField,
    pub error_message: Option<String>,
    pub user_creds: UserCreds,
}

/// The view of a `LoginScreen`.
pub struct LoginView {
    pub active_field: ActiveField,
    pub error_message: Option<Seq<char>>,
    pub user_creds: UserCredsView,
}

impl UserCreds {
    pub open spec fn view(&self) -> UserCredsView {
        UserCredsView { email: self.email@, password: self.password@ }
    }
}

impl Clone for UserCreds {
    fn clone(&self) -> (r: Self)
        ensures
            r == *self,
    {
        UserCreds { email: self.email.clone(), password: self.password.clone() }
    }
}

impl LoginView {
    /// The form as it opens: nothing typed, no error, the address field
    /// active.
    pub open spec fn empty() -> LoginView {
        LoginView {
            active_field: ActiveField::Email,
            error_message: None,
            user_creds: UserCredsView { email: Seq::empty(), password: Seq::empty() },
        }
    }

    /// The form as it opens for a known account.
    pub open spec fn prefilled(creds: UserCredsView) -> LoginView {
        LoginView { active_field: ActiveField::Email, error_message: None, user_creds: creds }
    }

    /// The form that reports a failed sign-in: the address kept, the
    /// password cleared.
    pub open spec fn failed(email: Seq<char>, error: Seq<char>) -> LoginView {
        LoginView {
            active_field: ActiveField::Email,
            error_message: Some(error),
            user_creds: UserCredsView { email, password: Seq::empty() },
        }
    }
}

impl ActiveField {
    /// The other field.
    pub open spec fn toggled(self) -> ActiveField {
        match self {
            ActiveField::Email => ActiveField::Password,
            ActiveField::Password => ActiveField::Email,
        }
    }

    /// The other field.
    pub fn toggle(self) -> (r: ActiveField)
        ensures
            r == self.toggled(),
    {
        match self {
            ActiveField::Email => ActiveField::Password,
            ActiveField::Password => ActiveField::Email,
        }
    }
}

impl LoginView {
    /// The form after `c` was typed into the active field.
    pub open spec fn typed(self, c: char) -> LoginView {
        match self.active_field {
            ActiveField::Email => LoginView {
                user_creds: UserCredsView { email: self.user_creds.email.push(c), ..self.user_creds },
                ..self
            },
            ActiveField::Password => LoginView {
                user_creds: UserCredsView {
                    password: self.user_creds.password.push(c),
                    ..self.user_creds
                },
                ..self
            },
        }
    }

    /// The form after the last character of the active field was deleted.
    pub open spec fn erased(self) -> LoginView {
        match self.active_field {
            ActiveField::Email => LoginView {
                user_creds: UserCredsView {
                    email: without_last(self.user_creds.email),
                    ..self.user_creds
                },
                ..self
            },
            ActiveField::Password => LoginView {
                user_creds: UserCredsView {
                    password: without_last(self.user_creds.password),
                    ..self.user_creds
                },
                ..self
            },
        }
    }
}

/// The message shown while the sign-in is under way.
pub open spec fn signing_in_message() -> Seq<char> {
    "Giriş yapılıyor..."@
}

/// How the sign-in form handles one event: `q` and Esc leave the
/// application, Tab and BackTab make the other field active, Enter signs in
/// with what the fields hold, any other character goes to the end of the
/// active field, Backspace deletes the last character of the active field,
/// and everything else is ignored.
pub open spec fn login_step(v: LoginView, host: HostView, event: Option<Event>) -> Handled<
    LoginView,
> {
    match key_of(event) {
        Some(KeyCode::Esc) => Handled { state: v, host, action: ScreenActionView::Terminate },
        Some(KeyCode::Tab) | Some(KeyCode::BackTab) => Handled {
            state: LoginView { active_field: v.active_field.toggled(), ..v },
            host,
            action: ScreenActionView::Stay,
        },
        Some(KeyCode::Enter) => Handled {
            state: v,
            host,
            action: ScreenActionView::SwitchAsync {
                operation: PendingOperationView::Login { creds: v.user_creds },
                message: signing_in_message(),
            },
        },
        Some(KeyCode::Char(c)) => if c == 'q' {
            Handled { state: v, host, action: ScreenActionView::Terminate }
        } else {
            Handled { state: v.typed(c), host, action: ScreenActionView::Stay }
        },
        Some(KeyCode::Backspace) => Handled {
            state: v.erased(),
            host,
            action: ScreenActionView::Stay,
        },
        _ => Handled { state: v, host, action: ScreenActionView::Stay },
    }
}

impl LoginScreen {
    /// Handles one event, as `login_step` says.
    pub fn handle_event(&mut self, app: &mut App, event: Option<Event>) -> (action: ScreenAction)
        ensures
            handled_by(
                login_step(old(self)@, old(app)@.host, event),
                final(self)@,
                old(app)@,
                final(app)@,
                action@,
            ),
    {
        match event_key(event) {
            Some(KeyCode::Esc) => ScreenAction::Terminate,
            Some(KeyCode::Tab) | Some(KeyCode::BackTab) => {
                self.active_field = self.active_field.toggle();
                ScreenAction::Stay
            },
            Some(KeyCode::Enter) => ScreenAction::SwitchAsync {
                operation: PendingOperation::Login { creds: self.user_creds.clone() },
                message: "Giriş yapılıyor...".to_owned(),
            },
            Some(KeyCode::Char(c)) => {
                if c == 'q' {
                    ScreenAction::Terminate
                } else {
                    match self.active_field {
                        ActiveField::Email => self.user_creds.email.push(c),
                        ActiveField::Password => self.user_creds.password.push(c),
                    }
                    ScreenAction::Stay
                }
            },
            Some(KeyCode::Backspace) => {
                match self.active_field {
                    ActiveField::Email => backspace(&mut self.user_creds.email),
                    ActiveField::Password => backspace(&mut self.user_creds.password),
                }
                ScreenAction::Stay
            },
            _ => ScreenAction::Stay,
        }
    }

    pub open spec fn view(&self) -> LoginView {
        LoginView {
            active_field: self.active_field,
            error_message: match self.error_message {
                Some(e) => Some(e@),
                None => None,
            },
            user_creds: self.user_creds@,
        }
    }

    /// The form for a known account.
    pub fn with_creds(user_creds: UserCreds) -> (r: LoginScreen)
        ensures
            r@ == LoginView::prefilled(user_creds@),
    {
        LoginScreen { active_field: ActiveField::Email, error_message: None, user_creds }
    }

    /// The form after a failed sign-in.
    pub fn with_error(email: String, error: String) -> (r: LoginScreen)
        ensures
            r@ == LoginView::failed(email@, error@),
    {
        LoginScreen {
            active_field: ActiveField::Email,
            error_message: Some(error),
            user_creds: UserCreds { email, password: String::new() },
        }
    }
}

/// What stands for the password on the screen: one dot for each of its
/// bytes.
pub open spec fn masked(password: Seq<char>) -> Seq<char> {
    repeated('●', byte_len(password) as nat)
}

/// The title of the address field, marked while the field is active.
pub open spec fn email_title_of(active: ActiveField) -> Seq<char> {
    match active {
        ActiveField::Email => " 👤 Email ▸ "@,
        ActiveField::Password => " 👤 Email "@,
    }
}

/// The title of the password field, marked while the field is active.
pub open spec fn password_title_of(active: ActiveField) -> Seq<char> {
    match active {
        ActiveField::Email => " 🔒 Şifre "@,
        ActiveField::Password => " 🔒 Şifre ▸ "@,
    }
}

/// The line that names the keys, which says where Tab leads from the
/// active field.
pub open spec fn instructions_of(active: ActiveField) -> Seq<char> {
    match active {
        ActiveField::Email => "Tab: Şifreye geç | Enter: Giriş yap | Esc: İptal"@,
        ActiveField::Password => "Tab: Kullanıcı adına dön | Enter: Giriş yap | Esc: İptal"@,
    }
}

impl LoginScreen {
    /// The password as it is shown.
    pub fn masked_password(&self) -> (r: String)
        ensures
            r@ == masked(self@.user_creds.password),
    {
        repeat_char('●', text_len(&self.user_creds.password))
    }

    /// The title of the address field.
    pub fn email_title(&self) -> (r: &'static str)
        ensures
            r@ == email_title_of(self@.active_field),
    {
        match self.active_field {
            ActiveField::Email => " 👤 Email ▸ ",
            ActiveField::Password => " 👤 Email ",
        }
    }

    /// The title of the password field.
    pub fn password_title(&self) -> (r: &'static str)
        ensures
            r@ == password_title_of(self@.active_field),
    {
        match self.active_field {
            ActiveField::Email => " 🔒 Şifre ",
            ActiveField::Password => " 🔒 Şifre ▸ ",
        }
    }

    /// The line that names the keys.
    pub fn instructions(&self) -> (r: &'static str)
        ensures
            r@ == instructions_of(self@.active_field),
    {
        match self.active_field {
            ActiveField::Email => "Tab: Şifreye geç | Enter: Giriş yap | Esc: İptal",
            ActiveField::Password => "Tab: Kullanıcı adına dön | Enter: Giriş yap | Esc: İptal",
        }
    }
}

impl Default for LoginScreen {
    fn default() -> (r: Self)
        ensures
            r@ == LoginView::empty(),
    {
        LoginScreen {
            active_field: ActiveField::Email,
            error_message: None,
            user_creds: UserCreds { email: String::new(), password: String::new() },
        }
    }
}

impl Clone for LoginScreen {
    fn clone(&self) -> (r: Self)
        ensures
            r@ == self@,
    {
        LoginScreen {
            active_field: self.active_field,
            error_message: match &self.error_message {
                Some(e) => Some(e.clone()),
                None => None,
            },
            user_creds: self.user_creds.clone(),
        }
    }
}

} // verus!
