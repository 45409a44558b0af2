//! # Greetd IPC interactions
//!
//! The messages that travel between a greeter and greetd, and the states a
//! connection moves through while a session is created, authenticated and
//! started.
//!
//! Nothing in this module reads or writes the connection.  Each operation is
//! split in two: a function that builds the [`Request`] to send, and a
//! function that consumes the current state together with what came back,
//! the daemon's [`Response`] or the failure of the connection, and gives
//! either the next state, or the state it was called on paired with the
//! error.  A caller therefore never loses the state it may retry or cancel
//! from.
//!
//! ## Handling responses
//!
//! Each operation returns a [`session::Outcome`], a nested result:
//!
//! - `Err`: the state it was called on + the failure of the connection
//! - `Ok`: the exchange took place, but:
//!   - `Err`: the state it was called on + the error reported by greetd
//!   - `Ok`: everything is fine; contains the new state.
//!
//! Brief description of each state:
//!
//! - [`Greetd`] - The starting point: no session exists.
//! - [`StartableSession`] - A session that can be started without further
//!   authentication.
//! - [`session::AuthMessage`] - A prompt of the daemon: a question that has to
//!   be answered with a credential, or a message that only has to be
//!   acknowledged.
//! - [`SessionStarted`] - The daemon has been told to run the session.
use vstd::prelude::*;
use vstd::string::*;

pub mod demo;
pub mod mock;
pub mod session;

pub use demo::DemoGreetd;
pub use mock::MockGreetd;
pub use session::CreateSessionResponse;
pub use session::Greetd;
pub use session::Outcome;
pub use session::SessionStarted;
pub use session::StartableSession;

verus! {

/// The kind of a prompt that the daemon sends during authentication.
#[derive(Debug, Clone, Copy, PartialEq, Eq, Structural)]
pub enum AuthMessageType {
    /// A question whose answer should be visible during input.
    Visible,
    /// A question whose answer should be kept secret during input.
    Secret,
    /// An information message.
    Info,
    /// An error message.
    Error,
}

impl AuthMessageType {
    /// Whether a prompt of this kind asks for a credential.
    pub open spec fn is_question(self) -> bool {
        self is Visible || self is Secret
    }

    /// Whether a prompt of this kind only has to be acknowledged.
    pub open spec fn is_informative(self) -> bool {
        self is Info || self is Error
    }
}

/// The kind of an error that the daemon reports.
#[derive(Debug, Clone, Copy, PartialEq, Eq, Structural)]
pub enum ErrorType {
    /// A generic error.
    Error,
    /// An error caused by failed authentication.
    AuthError,
}

/// A message from a greeter to the daemon.
#[derive(Debug, Clone, PartialEq, Eq)]
pub enum Request {
    /// Creates a session for the user and starts its authentication.
    CreateSession { username: String },
    /// Answers the last prompt; `None` acknowledges an informative one.
    PostAuthMessageResponse { response: Option<String> },
    /// Starts the authenticated session with this command and environment.
    StartSession { cmd: Vec<String>, env: Vec<String> },
    /// Cancels the session that is being set up.
    CancelSession,
}

/// What a [`Request`] holds, as mathematical values.
pub enum RequestView {
    CreateSession { username: Seq<char> },
    PostAuthMessageResponse { response: Option<Seq<char>> },
    StartSession { cmd: Seq<Seq<char>>, env: Seq<Seq<char>> },
    CancelSession,
}

/// The view of an optional string.
pub open spec fn option_text(s: Option<String>) -> Option<Seq<char>> {
    match s {
        Some(text) => Some(text@),
        None => None,
    }
}

impl View for Request {
    type V = RequestView;

    open spec fn view(&self) -> RequestView {
        match *self {
            Request::CreateSession { username } => RequestView::CreateSession {
                username: username@,
            },
            Request::PostAuthMessageResponse { response } => RequestView::PostAuthMessageResponse {
                response: option_text(response),
            },
            Request::StartSession { cmd, env } => RequestView::StartSession {
                cmd: cmd.deep_view(),
                env: env.deep_view(),
            },
            Request::CancelSession => RequestView::CancelSession,
        }
    }
}

/// A message from the daemon to a greeter.
#[derive(Debug, Clone, PartialEq, Eq)]
pub enum Response {
    /// The request was successful.
    Success,
    /// The request failed.
    Error { error_type: ErrorType, description: String },
    /// A prompt that has to be answered before authentication goes on.
    AuthMessage { auth_message_type: AuthMessageType, auth_message: String },
}

/// What a [`Response`] holds, as mathematical values.
pub enum ResponseView {
    Success,
    Error { error_type: ErrorType, description: Seq<char> },
    AuthMessage { auth_message_type: AuthMessageType, auth_message: Seq<char> },
}

impl View for Response {
    type V = ResponseView;

    open spec fn view(&self) -> ResponseView {
        match *self {
            Response::Success => ResponseView::Success,
            Response::Error { error_type, description } => ResponseView::Error {
                error_type,
                description: description@,
            },
            Response::AuthMessage { auth_message_type, auth_message } => ResponseView::AuthMessage {
                auth_message_type,
                auth_message: auth_message@,
            },
        }
    }
}

/// A prompt of the daemon, borrowed from the state that holds it.
#[derive(Debug, Clone, Copy, PartialEq, Eq)]
pub enum AuthMessage<'a> {
    Visible(&'a str),
    Secret(&'a str),
    Info(&'a str),
    Error(&'a str),
}

impl<'a> AuthMessage<'a> {
    /// The kind of this prompt.
    pub open spec fn kind(self) -> AuthMessageType {
        match self {
            AuthMessage::Visible(_) => AuthMessageType::Visible,
            AuthMessage::Secret(_) => AuthMessageType::Secret,
            AuthMessage::Info(_) => AuthMessageType::Info,
            AuthMessage::Error(_) => AuthMessageType::Error,
        }
    }

    /// The text of this prompt.
    pub open spec fn text(self) -> Seq<char> {
        match self {
            AuthMessage::Visible(t) => t@,
            AuthMessage::Secret(t) => t@,
            AuthMessage::Info(t) => t@,
            AuthMessage::Error(t) => t@,
        }
    }
}

/// A question with an answer being some kind of credential.
#[derive(Debug, Clone, Copy, PartialEq, Eq)]
pub enum AuthQuestion<'a> {
    Visible(&'a str),
    Secret(&'a str),
}

impl<'a> AuthQuestion<'a> {
    /// The kind of this question.
    pub open spec fn kind(self) -> AuthMessageType {
        match self {
            AuthQuestion::Visible(_) => AuthMessageType::Visible,
            AuthQuestion::Secret(_) => AuthMessageType::Secret,
        }
    }

    /// The text of this question.
    pub open spec fn text(self) -> Seq<char> {
        match self {
            AuthQuestion::Visible(t) => t@,
            AuthQuestion::Secret(t) => t@,
        }
    }

    /// The text to show beside the input.
    pub fn prompt(&self) -> (r: &str)
        ensures
            r@ == self.text(),
    {
        match self {
            AuthQuestion::Visible(prompt) => prompt,
            AuthQuestion::Secret(prompt) => prompt,
        }
    }
}

/// A message that simply requires acknowledgement from the user, but no input.
#[derive(Debug, Clone, Copy, PartialEq, Eq)]
pub enum AuthInformative<'a> {
    Info(&'a str),
    Error(&'a str),
}

impl<'a> AuthInformative<'a> {
    /// The kind of this message.
    pub open spec fn kind(self) -> AuthMessageType {
        match self {
            AuthInformative::Info(_) => AuthMessageType::Info,
            AuthInformative::Error(_) => AuthMessageType::Error,
        }
    }

    /// The text of this message.
    pub open spec fn text(self) -> Seq<char> {
        match self {
            AuthInformative::Info(t) => t@,
            AuthInformative::Error(t) => t@,
        }
    }

    /// The text to show to the user.
    pub fn prompt(&self) -> (r: &str)
        ensures
            r@ == self.text(),
    {
        match self {
            AuthInformative::Info(prompt) => prompt,
            AuthInformative::Error(prompt) => prompt,
        }
    }
}

/// An error that the daemon reported in answer to a request.  The state the
/// request was made from is still valid.
#[derive(Debug, Clone, PartialEq, Eq)]
pub enum RequestError {
    /// The daemon reported a general failure.
    Protocol(String),
    /// The daemon reported that authentication failed.
    Auth(String),
}

/// What a [`RequestError`] holds, as mathematical values.
pub enum RequestErrorView {
    Protocol(Seq<char>),
    Auth(Seq<char>),
}

impl View for RequestError {
    type V = RequestErrorView;

    open spec fn view(&self) -> RequestErrorView {
        match *self {
            RequestError::Protocol(description) => RequestErrorView::Protocol(description@),
            RequestError::Auth(description) => RequestErrorView::Auth(description@),
        }
    }
}

/// The error that a daemon's error response stands for.
pub open spec fn reported_error(error_type: ErrorType, description: Seq<char>) -> RequestErrorView {
    match error_type {
        ErrorType::Error => RequestErrorView::Protocol(description),
        ErrorType::AuthError => RequestErrorView::Auth(description),
    }
}

/// The text that describes an error to the user.
pub open spec fn error_text(error: RequestErrorView) -> Seq<char> {
    match error {
        RequestErrorView::Protocol(description) => "Greetd error: "@ + description,
        RequestErrorView::Auth(description) => "Greetd authentication error: "@ + description,
    }
}

impl RequestError {
    /// Builds the error that an error response of the daemon stands for.
    pub fn new(error_type: ErrorType, description: String) -> (r: Self)
        ensures
            r@ == reported_error(error_type, description@),
    {
        match error_type {
            ErrorType::Error => RequestError::Protocol(description),
            ErrorType::AuthError => RequestError::Auth(description),
        }
    }

    /// The text that describes this error to the user.
    pub fn message(&self) -> (r: String)
        ensures
            r@ == error_text(self@),
    {
        match self {
            RequestError::Protocol(description) => {
                let mut text = String::from_str("Greetd error: ");
                text.append(description.as_str());
                text
            },
            RequestError::Auth(description) => {
                let mut text = String::from_str("Greetd authentication error: ");
                text.append(description.as_str());
                text
            },
        }
    }
}

} // verus!
