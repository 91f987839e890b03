//! The user interface's state rules and its theming rules.
use vstd::prelude::*;

pub mod theme;

verus! {

/// Different screens of the application.
#[derive(Debug, Clone, Copy, PartialEq, Eq, Structural)]
pub enum AppScreen {
    Login,
    Home,
    Library,
    Settings,
}

/// Whether the interface is busy and which error it shows.
#[derive(Debug, Clone)]
pub struct UiState {
    pub loading: bool,
    pub error_message: Option<String>,
}

impl Default for UiState {
    /// Not busy and no error.
    fn default() -> (s: UiState)
        ensures
            !s.loading,
            s.error_message is None,
    {
        UiState { loading: false, error_message: None }
    }
}

impl UiState {
    /// Marks the interface busy or not; becoming busy clears the error shown.
    pub fn set_loading(&mut self, loading: bool)
        ensures
            final(self).loading == loading,
            final(self).error_message == if loading {
                None
            } else {
                old(self).error_message
            },
    {
        self.loading = loading;
        if loading {
            self.error_message = None;
        }
    }

    /// Shows an error, which ends being busy.
    pub fn set_error(&mut self, message: String)
        ensures
            final(self).error_message == Some(message),
            !final(self).loading,
    {
        self.error_message = Some(message);
        self.loading = false;
    }

    /// Stops showing the error.
    pub fn clear_error(&mut self)
        ensures
            final(self).error_message is None,
            final(self).loading == old(self).loading,
    {
        self.error_message = None;
    }
}

/// What a click on the sign-in button leads to.
#[derive(Debug, Clone, Copy, PartialEq, Eq, Structural)]
pub enum LoginClick {
    /// Nothing happens: a sign-in is already under way, or no one listens for sign-ins.
    Ignored,
    /// The user name or the password is empty; the form says that both are required.
    Refused,
    /// The sign-in starts with the user name, the password and the remember-me choice.
    Submit,
}

/// The message shown when the user name or the password is missing.
pub open spec fn credentials_required_text() -> Seq<char> {
    "Username and password are required"@
}

/// The sign-in screen's state: the server's name, the remember-me choice, the error shown
/// and whether a sign-in is under way. (Its fields and buttons are drawn by the interface.)
#[derive(Debug, Clone)]
pub struct AuthView {
    pub server_name: String,
    pub remember_me: bool,
    pub error_message: Option<String>,
    pub is_authenticating: bool,
}

impl AuthView {
    /// The screen for a server: remember-me checked, no error, no sign-in under way.
    pub fn new(server_name: String) -> (v: AuthView)
        ensures
            v.server_name == server_name,
            v.remember_me,
            v.error_message is None,
            !v.is_authenticating,
    {
        AuthView { server_name, remember_me: true, error_message: None, is_authenticating: false }
    }

    /// Shows an error, which ends the sign-in under way.
    pub fn set_error(&mut self, message: String)
        ensures
            final(self).error_message == Some(message),
            !final(self).is_authenticating,
            final(self).server_name == old(self).server_name,
            final(self).remember_me == old(self).remember_me,
    {
        self.error_message = Some(message);
        self.is_authenticating = false;
    }

    /// Records whether a sign-in is under way.
    pub fn set_authenticating(&mut self, authenticating: bool)
        ensures
            final(self).is_authenticating == authenticating,
            final(self).error_message == old(self).error_message,
            final(self).server_name == old(self).server_name,
            final(self).remember_me == old(self).remember_me,
    {
        self.is_authenticating = authenticating;
    }

    /// The label of the sign-in button.
    pub fn login_button_label(&self) -> (s: &'static str)
        ensures
            s@ == if self.is_authenticating { "Logging in..."@ } else { "Login"@ },
    {
        if self.is_authenticating {
            "Logging in..."
        } else {
            "Login"
        }
    }

    /// A click on the sign-in button with what the fields hold. While a sign-in is under
    /// way the click is ignored; an empty user name or password is refused with a message;
    /// otherwise, when someone listens for sign-ins, the sign-in starts and the error is
    /// cleared.
    pub fn login_clicked(&mut self, username: &str, password: &str, has_listener: bool) -> (c: LoginClick)
        ensures
            old(self).is_authenticating ==> c == LoginClick::Ignored && *final(self) == *old(self),
            !old(self).is_authenticating && (username@.len() == 0 || password@.len() == 0) ==>
                c == LoginClick::Refused && final(self).is_authenticating == old(self).is_authenticating
                && (final(self).error_message matches Some(m) && m@ == credentials_required_text()),
            !old(self).is_authenticating && username@.len() > 0 && password@.len() > 0 && has_listener ==>
                c == LoginClick::Submit && final(self).is_authenticating && final(self).error_message is None,
            !old(self).is_authenticating && username@.len() > 0 && password@.len() > 0 && !has_listener ==>
                c == LoginClick::Ignored && *final(self) == *old(self),
            final(self).server_name == old(self).server_name,
            final(self).remember_me == old(self).remember_me,
    {
        if self.is_authenticating {
            return LoginClick::Ignored;
        }
        if username.unicode_len() == 0 || password.unicode_len() == 0 {
            self.error_message = Some(String::from_str("Username and password are required"));
            return LoginClick::Refused;
        }
        if has_listener {
            self.is_authenticating = true;
            self.error_message = None;
            LoginClick::Submit
        } else {
            LoginClick::Ignored
        }
    }
}

/// What a click on the connect button leads to.
#[derive(Debug, Clone, Copy, PartialEq, Eq, Structural)]
pub enum ConnectClick {
    /// Nothing happens: a connection attempt is under way, or no one listens for it.
    Ignored,
    /// The connection attempt starts with the URL the field holds.
    Submit,
}

/// The add-server screen's state: the error shown and whether a connection attempt is
/// under way. (Its field and buttons are drawn by the interface.)
#[derive(Debug, Clone)]
pub struct AddServerView {
    pub error_message: Option<String>,
    pub is_connecting: bool,
}

impl AddServerView {
    /// The screen with no error and no attempt under way.
    pub fn new() -> (v: AddServerView)
        ensures
            v.error_message is None,
            !v.is_connecting,
    {
        AddServerView { error_message: None, is_connecting: false }
    }

    /// Shows an error, which ends the attempt under way.
    pub fn set_error(&mut self, message: String)
        ensures
            final(self).error_message == Some(message),
            !final(self).is_connecting,
    {
        self.error_message = Some(message);
        self.is_connecting = false;
    }

    /// Records whether a connection attempt is under way.
    pub fn set_connecting(&mut self, connecting: bool)
        ensures
            final(self).is_connecting == connecting,
            final(self).error_message == old(self).error_message,
    {
        self.is_connecting = connecting;
    }

    /// The label of the connect button.
    pub fn connect_button_label(&self) -> (s: &'static str)
        ensures
            s@ == if self.is_connecting { "Connecting..."@ } else { "Connect"@ },
    {
        if self.is_connecting {
            "Connecting..."
        } else {
            "Connect"
        }
    }

    /// A click on the connect button: ignored while an attempt is under way or when no
    /// one listens; otherwise the attempt starts and the error is cleared.
    pub fn connect_clicked(&mut self, has_listener: bool) -> (c: ConnectClick)
        ensures
            old(self).is_connecting ==> c == ConnectClick::Ignored && *final(self) == *old(self),
            !old(self).is_connecting && has_listener ==> c == ConnectClick::Submit && final(self).is_connecting
                && final(self).error_message is None,
            !old(self).is_connecting && !has_listener ==> c == ConnectClick::Ignored && *final(self) == *old(self),
    {
        if self.is_connecting {
            return ConnectClick::Ignored;
        }
        if has_listener {
            self.is_connecting = true;
            self.error_message = None;
            ConnectClick::Submit
        } else {
            ConnectClick::Ignored
        }
    }
}

} // verus!
