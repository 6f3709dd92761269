//! The login page: two states, three kinds of event.
//!
//! | state      | event                      | action                                   | next state |
//! |------------|----------------------------|------------------------------------------|------------|
//! | idle       | submit                     | start an authentication exchange         | processing |
//! | processing | submit                     | none: the event is dropped               | processing |
//! | either     | toggle the save preference | write it; if off, forget the credentials | unchanged  |
//! | either     | completion, logged in      | hand `LoggedIn` to the caller            | idle       |
//! | either     | completion, unauthorized   | report bad credentials                   | idle       |
//! | either     | completion, error          | report the error                         | idle       |
//!
//! A submit that arrives while an exchange is in flight is dropped, never
//! queued. A completion is the only event that clears the processing flag, and
//! one that arrives while the page is idle changes nothing in its state.
use crate::utils::auth::{AuthOutcome, AuthOutcomeView};
use crate::utils::config::{Config, ConfigView};
use vstd::prelude::*;

verus! {

/// What a [`LoginPage`] holds.
pub struct LoginPageView {
    /// Whether an authentication exchange is in flight.
    pub is_processing: bool,
    /// The save preference as the page shows it.
    pub save_credentials: bool,
}

/// The login page. It is idle until a submit is accepted and processing from
/// then until the completion of that exchange is handled.
#[derive(Debug, PartialEq, Eq)]
pub struct LoginPage {
    is_processing: bool,
    save_credentials: bool,
}

impl View for LoginPage {
    type V = LoginPageView;

    closed spec fn view(&self) -> LoginPageView {
        LoginPageView {
            is_processing: self.is_processing,
            save_credentials: self.save_credentials,
        }
    }
}

/// What a [`LoginPageInput`] holds.
pub enum LoginPageInputView {
    Submit { username: Seq<char>, password: Seq<char> },
    ToggleSavePassword { active: bool },
}

/// What the user asks of the page.
#[derive(Debug, PartialEq, Eq)]
pub enum LoginPageInput {
    /// Log in with these credentials. Neither is examined here: an empty one
    /// is for the authentication client to refuse.
    Submit { username: String, password: String },
    /// Keep the credentials from now on (`active`), or stop keeping them.
    ToggleSavePassword { active: bool },
}

impl View for LoginPageInput {
    type V = LoginPageInputView;

    open spec fn view(&self) -> LoginPageInputView {
        match self {
            LoginPageInput::Submit { username, password } => LoginPageInputView::Submit {
                username: username@,
                password: password@,
            },
            LoginPageInput::ToggleSavePassword { active } => LoginPageInputView::ToggleSavePassword {
                active: *active,
            },
        }
    }
}

/// What the page tells its caller.
#[derive(Debug, Clone, Copy, PartialEq, Eq, Structural)]
pub enum LoginPageOutput {
    /// The user is logged in: the caller can leave the login page.
    LoggedIn,
}

/// What a [`LoginPageMessage`] holds.
pub enum LoginPageMessageView {
    LoggedIn,
    Unauthorized,
    Error(Seq<char>),
}

/// The completion of an authentication exchange, as the page receives it.
#[derive(Debug, PartialEq, Eq)]
pub enum LoginPageMessage {
    /// The exchange succeeded.
    LoggedIn,
    /// The credentials were refused.
    Unauthorized,
    /// The exchange failed; the text is what the user is told.
    Error(String),
}

impl View for LoginPageMessage {
    type V = LoginPageMessageView;

    open spec fn view(&self) -> LoginPageMessageView {
        match self {
            LoginPageMessage::LoggedIn => LoginPageMessageView::LoggedIn,
            LoginPageMessage::Unauthorized => LoginPageMessageView::Unauthorized,
            LoginPageMessage::Error(error) => LoginPageMessageView::Error(error@),
        }
    }
}

/// What a [`LoginPageReport`] holds.
pub enum LoginPageReportView {
    BadCredentials,
    Error(Seq<char>),
}

/// A failure that the user is told of. Neither kind stops the page: it is idle
/// again and the user may submit anew.
#[derive(Debug, PartialEq, Eq)]
pub enum LoginPageReport {
    /// The credentials were refused.
    BadCredentials,
    /// The exchange failed, as the text says.
    Error(String),
}

impl View for LoginPageReport {
    type V = LoginPageReportView;

    open spec fn view(&self) -> LoginPageReportView {
        match self {
            LoginPageReport::BadCredentials => LoginPageReportView::BadCredentials,
            LoginPageReport::Error(error) => LoginPageReportView::Error(error@),
        }
    }
}

/// What a [`LoginPageAction`] holds.
pub enum LoginPageActionView {
    Login { username: Seq<char>, password: Seq<char> },
    RemoveAuth,
    Output(LoginPageOutput),
    Report(LoginPageReportView),
}

/// What the host has to do after a handler has returned.
#[derive(Debug, PartialEq, Eq)]
pub enum LoginPageAction {
    /// Start one authentication exchange with these credentials, without
    /// waiting for it, and deliver its completion to [`LoginPage::update_cmd`].
    Login { username: String, password: String },
    /// Ask the credential store to forget the credentials, without waiting for
    /// it; whether that succeeds is of no concern to the page.
    RemoveAuth,
    /// Hand this output to the caller.
    Output(LoginPageOutput),
    /// Tell the user of this failure.
    Report(LoginPageReport),
}

impl View for LoginPageAction {
    type V = LoginPageActionView;

    open spec fn view(&self) -> LoginPageActionView {
        match self {
            LoginPageAction::Login { username, password } => LoginPageActionView::Login {
                username: username@,
                password: password@,
            },
            LoginPageAction::RemoveAuth => LoginPageActionView::RemoveAuth,
            LoginPageAction::Output(output) => LoginPageActionView::Output(*output),
            LoginPageAction::Report(report) => LoginPageActionView::Report(report@),
        }
    }
}

impl DeepView for LoginPageAction {
    type V = LoginPageActionView;

    open spec fn deep_view(&self) -> LoginPageActionView {
        self@
    }
}

/// The page, the settings and the action that handling an input results in.
pub struct LoginPageStep {
    pub page: LoginPageView,
    pub config: ConfigView,
    pub action: Option<LoginPageActionView>,
}

impl LoginPageView {
    /// The page as it is set up: idle, showing the save preference of `config`.
    pub open spec fn init(config: ConfigView) -> LoginPageView {
        LoginPageView { is_processing: false, save_credentials: config.save_credentials }
    }

    /// A submit starts an exchange with the credentials as given, unless one
    /// is in flight: then the page stays as it is and nothing is to be done.
    pub open spec fn submit(self, username: Seq<char>, password: Seq<char>) -> (
        LoginPageView,
        Option<LoginPageActionView>,
    ) {
        if self.is_processing {
            (self, None)
        } else {
            (
                LoginPageView { is_processing: true, ..self },
                Some(LoginPageActionView::Login { username, password }),
            )
        }
    }

    /// A toggle sets the save preference, on the page and in the settings,
    /// whatever either held. Switching it off also has the credentials
    /// forgotten. The processing flag stays as it is.
    pub open spec fn toggle_save_preference(self, active: bool) -> LoginPageStep {
        LoginPageStep {
            page: LoginPageView { save_credentials: active, ..self },
            config: ConfigView { save_credentials: active },
            action: if active {
                None
            } else {
                Some(LoginPageActionView::RemoveAuth)
            },
        }
    }

    /// What an input leads to. A submit leaves the settings alone.
    pub open spec fn update(self, config: ConfigView, msg: LoginPageInputView) -> LoginPageStep {
        match msg {
            LoginPageInputView::Submit { username, password } => LoginPageStep {
                page: self.submit(username, password).0,
                config,
                action: self.submit(username, password).1,
            },
            LoginPageInputView::ToggleSavePassword { active } => self.toggle_save_preference(
                active,
            ),
        }
    }

    /// What a completion leads to: an idle page with the save preference as
    /// before, and the action that the message calls for.
    pub open spec fn update_cmd(self, message: LoginPageMessageView) -> (
        LoginPageView,
        LoginPageActionView,
    ) {
        (LoginPageView { is_processing: false, ..self }, message.action())
    }
}

impl LoginPageMessageView {
    /// The message that stands for an outcome. A transport error is passed on
    /// under one general text, whatever its own description said.
    pub open spec fn from_outcome(outcome: AuthOutcomeView) -> LoginPageMessageView {
        match outcome {
            AuthOutcomeView::Success => LoginPageMessageView::LoggedIn,
            AuthOutcomeView::Unauthorized => LoginPageMessageView::Unauthorized,
            AuthOutcomeView::TransportError(_) => LoginPageMessageView::Error(GENERIC_ERROR@),
        }
    }

    /// What a completion asks of the host: success is handed to the caller,
    /// every failure is reported to the user.
    pub open spec fn action(self) -> LoginPageActionView {
        match self {
            LoginPageMessageView::LoggedIn => LoginPageActionView::Output(
                LoginPageOutput::LoggedIn,
            ),
            LoginPageMessageView::Unauthorized => LoginPageActionView::Report(
                LoginPageReportView::BadCredentials,
            ),
            LoginPageMessageView::Error(error) => LoginPageActionView::Report(
                LoginPageReportView::Error(error),
            ),
        }
    }
}

impl LoginPageReportView {
    /// The line that the user reads.
    pub open spec fn text(self) -> Seq<char> {
        match self {
            LoginPageReportView::BadCredentials => BAD_CREDENTIALS@,
            LoginPageReportView::Error(error) => ERROR_PREFIX@ + error,
        }
    }
}

/// What the user is told of an exchange that failed for another reason than
/// the credentials.
pub const GENERIC_ERROR: &'static str = "An error occurred";

/// What the user is told of credentials that were refused.
pub const BAD_CREDENTIALS: &'static str = "Bad credentials";

/// What stands before the text of an error.
pub const ERROR_PREFIX: &'static str = "Error: ";

impl LoginPageMessage {
    /// Turns the answer of the authentication client into the message that
    /// completes the exchange.
    pub fn from_outcome(outcome: AuthOutcome) -> (message: LoginPageMessage)
        ensures
            message@ == LoginPageMessageView::from_outcome(outcome@),
    {
        match outcome {
            AuthOutcome::Success => LoginPageMessage::LoggedIn,
            AuthOutcome::Unauthorized => LoginPageMessage::Unauthorized,
            AuthOutcome::TransportError(_) => LoginPageMessage::Error(GENERIC_ERROR.to_owned()),
        }
    }
}

impl LoginPageReport {
    /// The line that tells the user of this failure.
    pub fn text(&self) -> (line: String)
        ensures
            line@ == self@.text(),
    {
        match self {
            LoginPageReport::BadCredentials => BAD_CREDENTIALS.to_owned(),
            LoginPageReport::Error(error) => ERROR_PREFIX.to_owned().concat(error.as_str()),
        }
    }
}

impl LoginPage {
    /// Sets the page up: idle, and showing the save preference that `config`
    /// holds.
    pub fn init(config: &Config) -> (page: LoginPage)
        ensures
            page@ == LoginPageView::init(config@),
    {
        LoginPage { is_processing: false, save_credentials: config.save_credentials() }
    }

    /// Whether an authentication exchange is in flight.
    pub fn is_processing(&self) -> (flag: bool)
        ensures
            flag == self@.is_processing,
    {
        self.is_processing
    }

    /// The save preference as the page shows it.
    pub fn save_credentials(&self) -> (flag: bool)
        ensures
            flag == self@.save_credentials,
    {
        self.save_credentials
    }

    /// Handles a submit. While idle, the page starts processing and asks for
    /// one exchange with exactly these credentials. While processing, the
    /// submit is dropped: the page stays as it is and asks for nothing.
    pub fn submit(&mut self, username: String, password: String) -> (action: Option<
        LoginPageAction,
    >)
        ensures
            (final(self)@, action.deep_view()) == old(self)@.submit(username@, password@),
            old(self)@.is_processing ==> action is None && final(self)@ == old(self)@,
    {
        if self.is_processing {
            None
        } else {
            self.is_processing = true;
            Some(LoginPageAction::Login { username, password })
        }
    }

    /// Handles a toggle of the save preference. The preference is written to
    /// `config` before the call returns, and the page shows the same value.
    /// Switching it off also asks for the credentials to be forgotten; that
    /// request is only handed out here, so the write never waits for it.
    pub fn toggle_save_preference(&mut self, active: bool, config: &mut Config) -> (action: Option<
        LoginPageAction,
    >)
        ensures
            (LoginPageStep {
                page: final(self)@,
                config: final(config)@,
                action: action.deep_view(),
            }) == old(self)@.toggle_save_preference(active),
            final(config)@.save_credentials == active,
    {
        config.set_save_credentials(active);
        self.save_credentials = active;
        if active {
            None
        } else {
            Some(LoginPageAction::RemoveAuth)
        }
    }

    /// Handles an input of the user: a submit as [`LoginPage::submit`] does,
    /// which leaves `config` alone, and a toggle as
    /// [`LoginPage::toggle_save_preference`] does.
    pub fn update(&mut self, msg: LoginPageInput, config: &mut Config) -> (action: Option<
        LoginPageAction,
    >)
        ensures
            (LoginPageStep {
                page: final(self)@,
                config: final(config)@,
                action: action.deep_view(),
            }) == old(self)@.update(old(config)@, msg@),
    {
        match msg {
            LoginPageInput::Submit { username, password } => self.submit(username, password),
            LoginPageInput::ToggleSavePassword { active } => self.toggle_save_preference(
                active,
                config,
            ),
        }
    }

    /// Handles the completion of an exchange. Whatever the message, the page
    /// is idle afterwards and its save preference is untouched. `LoggedIn`
    /// yields the output for the caller, and only `LoggedIn` does; a failure
    /// yields its report. A completion that arrives while the page is idle
    /// yields the same action and leaves the page as it was.
    pub fn update_cmd(&mut self, message: LoginPageMessage) -> (action: LoginPageAction)
        ensures
            (final(self)@, action@) == old(self)@.update_cmd(message@),
            !final(self)@.is_processing,
            final(self)@.save_credentials == old(self)@.save_credentials,
            action@ is Output <==> message@ is LoggedIn,
    {
        self.is_processing = false;
        match message {
            LoginPageMessage::LoggedIn => LoginPageAction::Output(LoginPageOutput::LoggedIn),
            LoginPageMessage::Unauthorized => LoginPageAction::Report(
                LoginPageReport::BadCredentials,
            ),
            LoginPageMessage::Error(error) => LoginPageAction::Report(LoginPageReport::Error(error)),
        }
    }
}

} // verus!
