//! The session controller: it holds the current state of the connection to
//! greetd and sequences the protocol's operations into the three things a
//! user can ask for: to log in, to cancel, and to log in as someone else.
//!
//! The controller decides; it does not talk to the daemon.  Where a step
//! needs the daemon, the controller hands out an [`Exchange`]: the request to
//! send, together with the state to resume from.  Whoever runs the controller
//! sends the request, completes the exchange with what came back, and feeds
//! the result to [`GreetdControls::update_cmd`].
use vstd::prelude::*;
use vstd::string::*;

use crate::greetd::error_text;
use crate::greetd::option_text;
use crate::greetd::session::authentication_step;
use crate::greetd::session::cancel_session_request;
use crate::greetd::session::completion_step;
use crate::greetd::session::AuthMessage;
use crate::greetd::session::AuthMessageView;
use crate::greetd::session::CreateSessionResponse;
use crate::greetd::session::CreateSessionResponseView;
use crate::greetd::session::Greetd;
use crate::greetd::session::StartableSession;
use crate::greetd::Request;
use crate::greetd::RequestView;
use crate::greetd::Response;
use crate::greetd::ResponseView;
use crate::text::clone_strings;

verus! {

/// How a message should be styled.
#[derive(Debug, Clone, Copy, PartialEq, Eq, Structural)]
pub enum MessageType {
    Info,
    Warning,
    Question,
    Error,
    Other,
}

/// The state of the connection to greetd, as the controller holds it.
#[derive(Debug)]
pub enum GreetdState<C> {
    /// No session exists.  Advancing creates one for the stored username.
    NotCreated(Greetd<C>),
    /// The session requires no further authentication and can be started.
    Startable(StartableSession<C>),
    /// An auth prompt (either secret or visible).
    AuthQuestion {
        /// Holds the prompt's text and kind.
        session: AuthMessage<C>,
    },
    /// An informative auth prompt from greetd: an info or an error.
    AuthInformative(AuthMessage<C>),
    /// A placeholder that is held while an exchange with greetd is under way:
    /// the state that the exchange started from has moved into the
    /// [`Exchange`].
    Loading {
        /// The text to show meanwhile.
        message: String,
        /// How the text should be styled.
        message_type: MessageType,
    },
    /// A session start request has succeeded and it is time to exit.
    SessionStarted,
}

/// What a [`GreetdState`] holds, as mathematical values.
pub enum GreetdStateView<C> {
    NotCreated(C),
    Startable(C),
    AuthQuestion(AuthMessageView<C>),
    AuthInformative(AuthMessageView<C>),
    Loading { message: Seq<char>, message_type: MessageType },
    SessionStarted,
}

/// The kind of a state, without what it holds.
#[derive(Debug, Clone, Copy, PartialEq, Eq, Structural)]
pub enum StateCategory {
    NotCreated,
    Startable,
    AuthQuestion,
    AuthInformative,
    Loading,
    SessionStarted,
}

impl<C> GreetdStateView<C> {
    /// A question holds a visible or secret prompt, an informative message an
    /// info or an error.
    pub open spec fn wf(self) -> bool {
        match self {
            GreetdStateView::AuthQuestion(prompt) => prompt.kind.is_question(),
            GreetdStateView::AuthInformative(prompt) => prompt.kind.is_informative(),
            _ => true,
        }
    }

    /// The category that this state belongs to.
    pub open spec fn category(self) -> StateCategory {
        match self {
            GreetdStateView::NotCreated(_) => StateCategory::NotCreated,
            GreetdStateView::Startable(_) => StateCategory::Startable,
            GreetdStateView::AuthQuestion(_) => StateCategory::AuthQuestion,
            GreetdStateView::AuthInformative(_) => StateCategory::AuthInformative,
            GreetdStateView::Loading { .. } => StateCategory::Loading,
            GreetdStateView::SessionStarted => StateCategory::SessionStarted,
        }
    }

    /// Whether this state holds the connection.
    pub open spec fn is_live(self) -> bool {
        !(self is Loading) && !(self is SessionStarted)
    }

    /// Whether a session exists that can be cancelled.
    pub open spec fn can_cancel(self) -> bool {
        self is Startable || self is AuthQuestion || self is AuthInformative
    }

    /// Whether the daemon waits for the answer to a prompt.
    pub open spec fn is_prompt(self) -> bool {
        self is AuthQuestion || self is AuthInformative
    }

    /// The connection that a live state holds.
    pub open spec fn connection(self) -> C
        recommends
            self.is_live(),
    {
        match self {
            GreetdStateView::NotCreated(conn) => conn,
            GreetdStateView::Startable(conn) => conn,
            GreetdStateView::AuthQuestion(prompt) => prompt.conn,
            GreetdStateView::AuthInformative(prompt) => prompt.conn,
            _ => arbitrary(),
        }
    }

    /// This state with another connection in place of its own.
    pub open spec fn with_connection(self, conn: C) -> Self {
        match self {
            GreetdStateView::NotCreated(_) => GreetdStateView::NotCreated(conn),
            GreetdStateView::Startable(_) => GreetdStateView::Startable(conn),
            GreetdStateView::AuthQuestion(prompt) => GreetdStateView::AuthQuestion(
                AuthMessageView { conn, ..prompt },
            ),
            GreetdStateView::AuthInformative(prompt) => GreetdStateView::AuthInformative(
                AuthMessageView { conn, ..prompt },
            ),
            other => other,
        }
    }
}

impl<C> View for GreetdState<C> {
    type V = GreetdStateView<C>;

    open spec fn view(&self) -> GreetdStateView<C> {
        match *self {
            GreetdState::NotCreated(client) => GreetdStateView::NotCreated(client.connection()),
            GreetdState::Startable(session) => GreetdStateView::Startable(session.connection()),
            GreetdState::AuthQuestion { session } => GreetdStateView::AuthQuestion(session@),
            GreetdState::AuthInformative(session) => GreetdStateView::AuthInformative(session@),
            GreetdState::Loading { message, message_type } => GreetdStateView::Loading {
                message: message@,
                message_type,
            },
            GreetdState::SessionStarted => GreetdStateView::SessionStarted,
        }
    }
}

/// The placeholder state that shows `message` as an information.
pub open spec fn loading_view<C>(message: Seq<char>) -> GreetdStateView<C> {
    GreetdStateView::Loading { message, message_type: MessageType::Info }
}

/// The state that a successful `create_session` or `respond` leads to.
pub open spec fn next_state<C>(next: CreateSessionResponseView<C>) -> GreetdStateView<C> {
    match next {
        CreateSessionResponseView::Success(conn) => GreetdStateView::Startable(conn),
        CreateSessionResponseView::AuthQuestion(prompt) => GreetdStateView::AuthQuestion(prompt),
        CreateSessionResponseView::AuthInformative(prompt) => GreetdStateView::AuthInformative(
            prompt,
        ),
    }
}

impl<C> GreetdState<C> {
    /// The placeholder state that shows `msg` as an information.
    pub fn loading(msg: &str) -> (r: Self)
        ensures
            r@ == loading_view::<C>(msg@),
    {
        GreetdState::Loading { message: msg.to_owned(), message_type: MessageType::Info }
    }

    /// The placeholder state that shows `error` as an error.
    pub fn loading_with_error(error: &str) -> (r: Self)
        ensures
            r@ == (GreetdStateView::<C>::Loading {
                message: error@,
                message_type: MessageType::Error,
            }),
    {
        GreetdState::Loading { message: error.to_owned(), message_type: MessageType::Error }
    }

    /// Whether the state is well-formed: a question holds a visible or secret
    /// prompt, an informative message an info or an error.
    pub fn is_well_formed(&self) -> (r: bool)
        ensures
            r == self@.wf(),
    {
        match self {
            GreetdState::AuthQuestion { session } => match session.message() {
                crate::greetd::AuthMessage::Visible(_) => true,
                crate::greetd::AuthMessage::Secret(_) => true,
                _ => false,
            },
            GreetdState::AuthInformative(session) => match session.message() {
                crate::greetd::AuthMessage::Info(_) => true,
                crate::greetd::AuthMessage::Error(_) => true,
                _ => false,
            },
            _ => true,
        }
    }

    /// Lends out the connection that a live state holds.
    pub fn connection_mut(&mut self) -> (c: &mut C)
        requires
            old(self)@.is_live(),
        ensures
            *c == old(self)@.connection(),
            final(self)@ == old(self)@.with_connection(*final(c)),
        no_unwind
    {
        match self {
            GreetdState::NotCreated(client) => client.connection_mut(),
            GreetdState::Startable(session) => session.connection_mut(),
            GreetdState::AuthQuestion { session } => session.connection_mut(),
            GreetdState::AuthInformative(session) => session.connection_mut(),
            // The other states hold no connection.
            _ => vstd::pervasive::unreached(),
        }
    }

    /// The state that a successful `create_session` or `respond` leads to.
    pub fn from_response(next: CreateSessionResponse<C>) -> (r: Self)
        ensures
            r@ == next_state(next@),
    {
        match next {
            CreateSessionResponse::Success(startable) => GreetdState::Startable(startable),
            CreateSessionResponse::AuthQuestion(question) => GreetdState::AuthQuestion {
                session: question,
            },
            CreateSessionResponse::AuthInformative(informative) => GreetdState::AuthInformative(
                informative,
            ),
        }
    }
}

/// How an exchange with the daemon ended: with the daemon's response, or with
/// the text of the failure of the connection.
pub open spec fn outcome_view(outcome: Result<Response, String>) -> Result<
    ResponseView,
    Seq<char>,
> {
    match outcome {
        Ok(response) => Ok(response@),
        Err(failure) => Err(failure@),
    }
}

/// The result of an exchange: the state to go on from and, where the exchange
/// failed, the text of the error.
#[derive(Debug)]
pub enum CommandOutput<C> {
    GreetdResponse { greetd_state: GreetdState<C>, error: Option<String> },
}

/// What a [`CommandOutput`] holds, as mathematical values.
pub struct CommandOutputView<C> {
    pub greetd_state: GreetdStateView<C>,
    pub error: Option<Seq<char>>,
}

impl<C> View for CommandOutput<C> {
    type V = CommandOutputView<C>;

    open spec fn view(&self) -> CommandOutputView<C> {
        match *self {
            CommandOutput::GreetdResponse { greetd_state, error } => CommandOutputView {
                greetd_state: greetd_state@,
                error: option_text(error),
            },
        }
    }
}

/// Where `create_session` or `respond`, made from `state`, leaves the
/// controller.  A failure of the connection and an error of the daemon both
/// keep `state` and report the error; a response that is no error leads to the
/// state that the daemon's answer selects.
pub open spec fn authentication_completion<C>(
    state: GreetdStateView<C>,
    outcome: Result<ResponseView, Seq<char>>,
) -> CommandOutputView<C> {
    match outcome {
        Err(failure) => CommandOutputView { greetd_state: state, error: Some(failure) },
        Ok(response) => match authentication_step(state.connection(), response) {
            Ok(next) => CommandOutputView { greetd_state: next_state(next), error: None },
            Err(error) => CommandOutputView {
                greetd_state: state,
                error: Some(error_text(error)),
            },
        },
    }
}

/// Where `start_session`, made from `state`, leaves the controller: started on
/// success, else in `state` with the error.
pub open spec fn start_session_completion<C>(
    state: GreetdStateView<C>,
    outcome: Result<ResponseView, Seq<char>>,
) -> CommandOutputView<C> {
    match outcome {
        Err(failure) => CommandOutputView { greetd_state: state, error: Some(failure) },
        Ok(response) => match completion_step(response) {
            Ok(_) => CommandOutputView {
                greetd_state: GreetdStateView::SessionStarted,
                error: None,
            },
            Err(error) => CommandOutputView {
                greetd_state: state,
                error: Some(error_text(error)),
            },
        },
    }
}

/// Where `cancel_session`, made from `state`, leaves the controller: without a
/// session on success, else in `state` with the error.
pub open spec fn cancel_completion<C>(
    state: GreetdStateView<C>,
    outcome: Result<ResponseView, Seq<char>>,
) -> CommandOutputView<C> {
    match outcome {
        Err(failure) => CommandOutputView {
            greetd_state: state,
            error: Some("IPC error: "@ + failure),
        },
        Ok(response) => match completion_step(response) {
            Ok(_) => CommandOutputView {
                greetd_state: GreetdStateView::NotCreated(state.connection()),
                error: None,
            },
            Err(error) => CommandOutputView {
                greetd_state: state,
                error: Some("Reported error: "@ + error_text(error)),
            },
        },
    }
}

/// The text of a failure of the connection while a session was cancelled.
fn ipc_error_text(failure: &String) -> (r: String)
    ensures
        r@ == "IPC error: "@ + failure@,
{
    let mut text = String::from_str("IPC error: ");
    text.append(failure.as_str());
    text
}

/// The text of an error that the daemon gave to a cancel request.
fn reported_error_text(error: &crate::greetd::RequestError) -> (r: String)
    ensures
        r@ == "Reported error: "@ + error_text(error@),
{
    let mut text = String::from_str("Reported error: ");
    let message = error.message();
    text.append(message.as_str());
    text
}

/// Completes the cancelling of the session that `state` holds.
pub fn try_cancel<C>(state: GreetdState<C>, outcome: Result<Response, String>) -> (r: (
    GreetdState<C>,
    Option<String>,
))
    requires
        state@.can_cancel(),
        state@.wf(),
        !(outcome matches Ok(response) && response is AuthMessage),
    ensures
        r.0@ == cancel_completion(state@, outcome_view(outcome)).greetd_state,
        option_text(r.1) == cancel_completion(state@, outcome_view(outcome)).error,
        r.0@.wf(),
{
    match state {
        GreetdState::Startable(session) => match session.cancel_session(outcome) {
            Ok(Ok(client)) => (GreetdState::NotCreated(client), None),
            Ok(Err((session, error))) => (
                GreetdState::Startable(session),
                Some(reported_error_text(&error)),
            ),
            Err((session, failure)) => (
                GreetdState::Startable(session),
                Some(ipc_error_text(&failure)),
            ),
        },
        GreetdState::AuthQuestion { session } => match session.cancel_session(outcome) {
            Ok(Ok(client)) => (GreetdState::NotCreated(client), None),
            Ok(Err((session, error))) => (
                GreetdState::AuthQuestion { session },
                Some(reported_error_text(&error)),
            ),
            Err((session, failure)) => (
                GreetdState::AuthQuestion { session },
                Some(ipc_error_text(&failure)),
            ),
        },
        GreetdState::AuthInformative(session) => match session.cancel_session(outcome) {
            Ok(Ok(client)) => (GreetdState::NotCreated(client), None),
            Ok(Err((session, error))) => (
                GreetdState::AuthInformative(session),
                Some(reported_error_text(&error)),
            ),
            Err((session, failure)) => (
                GreetdState::AuthInformative(session),
                Some(ipc_error_text(&failure)),
            ),
        },
        other => (other, None),
    }
}

/// Completes the creation of a session on `client`.  The session is not
/// started here.
pub fn try_create_session<C>(client: Greetd<C>, outcome: Result<Response, String>) -> (r: (
    GreetdState<C>,
    Option<String>,
))
    ensures
        r.0@ == authentication_completion(
            GreetdStateView::NotCreated(client.connection()),
            outcome_view(outcome),
        ).greetd_state,
        option_text(r.1) == authentication_completion(
            GreetdStateView::NotCreated(client.connection()),
            outcome_view(outcome),
        ).error,
        r.0@.wf(),
{
    let res = match client.create_session(outcome) {
        Ok(res) => res,
        Err((client, failure)) => {
            return (GreetdState::NotCreated(client), Some(failure));
        },
    };
    match res {
        Ok(session) => (GreetdState::from_response(session), None),
        Err((client, error)) => (GreetdState::NotCreated(client), Some(error.message())),
    }
}

/// Completes the start of the session that `session` holds.
pub fn try_start_session<C>(session: StartableSession<C>, outcome: Result<Response, String>) -> (r:
    (GreetdState<C>, Option<String>))
    requires
        !(outcome matches Ok(response) && response is AuthMessage),
    ensures
        r.0@ == start_session_completion(
            GreetdStateView::Startable(session.connection()),
            outcome_view(outcome),
        ).greetd_state,
        option_text(r.1) == start_session_completion(
            GreetdStateView::Startable(session.connection()),
            outcome_view(outcome),
        ).error,
        r.0@.wf(),
{
    let res = match session.start_session(outcome) {
        Ok(res) => res,
        Err((session, failure)) => {
            return (GreetdState::Startable(session), Some(failure));
        },
    };
    match res {
        Ok(_) => (GreetdState::SessionStarted, None),
        Err((session, error)) => (GreetdState::Startable(session), Some(error.message())),
    }
}

/// Completes the answer to the prompt that `state` holds.
pub fn try_auth<C>(state: GreetdState<C>, outcome: Result<Response, String>) -> (r: (
    GreetdState<C>,
    Option<String>,
))
    requires
        state@.is_prompt(),
        state@.wf(),
    ensures
        r.0@ == authentication_completion(state@, outcome_view(outcome)).greetd_state,
        option_text(r.1) == authentication_completion(state@, outcome_view(outcome)).error,
        r.0@.wf(),
{
    match state {
        GreetdState::AuthQuestion { session } => match session.respond(outcome) {
            Ok(Ok(next)) => (GreetdState::from_response(next), None),
            Ok(Err((session, error))) => (
                GreetdState::AuthQuestion { session },
                Some(error.message()),
            ),
            Err((session, failure)) => (GreetdState::AuthQuestion { session }, Some(failure)),
        },
        GreetdState::AuthInformative(session) => match session.respond(outcome) {
            Ok(Ok(next)) => (GreetdState::from_response(next), None),
            Ok(Err((session, error))) => (
                GreetdState::AuthInformative(session),
                Some(error.message()),
            ),
            Err((session, failure)) => (GreetdState::AuthInformative(session), Some(failure)),
        },
        other => (other, None),
    }
}

/// An exchange with the daemon that the controller has decided on: the request
/// to send, and the state the exchange starts from, which holds the
/// connection to send it on.
#[derive(Debug)]
pub struct Exchange<C> {
    state: GreetdState<C>,
    request: Request,
}

/// What an [`Exchange`] holds, as mathematical values.
pub struct ExchangeView<C> {
    pub state: GreetdStateView<C>,
    pub request: RequestView,
}

impl<C> ExchangeView<C> {
    /// The request is one that the protocol allows in the state: a session is
    /// created where none exists, a prompt is answered where the daemon waits
    /// for it, a session is started where it is startable, and cancelled
    /// where one exists.
    pub open spec fn wf(self) -> bool {
        &&& self.state.wf()
        &&& match self.request {
            RequestView::CreateSession { .. } => self.state is NotCreated,
            RequestView::PostAuthMessageResponse { .. } => self.state.is_prompt(),
            RequestView::StartSession { .. } => self.state is Startable,
            RequestView::CancelSession => self.state.can_cancel(),
        }
    }

    /// Whether `outcome` can end this exchange.  The daemon answers a request
    /// to start or to cancel a session with success or with an error, never
    /// with a prompt.
    pub open spec fn accepts(self, outcome: Result<ResponseView, Seq<char>>) -> bool {
        (self.request is StartSession || self.request is CancelSession) ==> !(outcome matches Ok(
            response,
        ) && response is AuthMessage)
    }

    /// Where this exchange leaves the controller when it ends with `outcome`.
    pub open spec fn completion(self, outcome: Result<ResponseView, Seq<char>>) -> CommandOutputView<
        C,
    > {
        match self.request {
            RequestView::StartSession { .. } => start_session_completion(self.state, outcome),
            RequestView::CancelSession => cancel_completion(self.state, outcome),
            _ => authentication_completion(self.state, outcome),
        }
    }
}

impl<C> View for Exchange<C> {
    type V = ExchangeView<C>;

    closed spec fn view(&self) -> ExchangeView<C> {
        ExchangeView { state: self.state@, request: self.request@ }
    }
}

/// The view of an exchange that may be absent.
pub open spec fn exchange_view<C>(exchange: Option<Exchange<C>>) -> Option<ExchangeView<C>> {
    match exchange {
        Some(exchange) => Some(exchange@),
        None => None,
    }
}

impl<C> Exchange<C> {
    #[verifier::type_invariant]
    spec fn legal(&self) -> bool {
        self@.wf()
    }

    /// The request to send to the daemon.  It is one that the protocol allows
    /// in the state that the exchange starts from.

    pub fn request(&self) -> (r: &Request)
        ensures
            r@ == self@.request,
            self@.wf(),
    {
        proof {
            use_type_invariant(self);
        }
        &self.request
    }

    /// Lends out the connection to send the request on and to read the
    /// response from.
    pub fn connection_mut(&mut self) -> (c: &mut C)
        ensures
            *c == old(self)@.state.connection(),
            final(self)@ == (ExchangeView {
                state: old(self)@.state.with_connection(*final(c)),
                request: old(self)@.request,
            }),
    {
        proof {
            use_type_invariant(&*self);
        }
        self.state.connection_mut()
    }

    /// Whether `outcome` can end this exchange: see [`ExchangeView::accepts`].
    pub fn accepts(&self, outcome: &Result<Response, String>) -> (r: bool)
        ensures
            r == self@.accepts(outcome_view(*outcome)),
    {
        let prompt = match outcome {
            Ok(Response::AuthMessage { .. }) => true,
            _ => false,
        };
        match self.request {
            Request::StartSession { .. } => !prompt,
            Request::CancelSession => !prompt,
            _ => true,
        }
    }

    /// Ends the exchange with what came back, and gives the state to go on
    /// from.  After an error of the daemon, and after a failure of the
    /// connection, that is the state the exchange started from.
    pub fn complete(self, outcome: Result<Response, String>) -> (r: CommandOutput<C>)
        requires
            self@.accepts(outcome_view(outcome)),
        ensures
            r@ == self@.completion(outcome_view(outcome)),
            r@.greetd_state.wf(),
    {
        proof {
            use_type_invariant(&self);
        }
        let Exchange { state, request } = self;
        let (greetd_state, error) = match request {
            Request::StartSession { .. } => match state {
                GreetdState::Startable(session) => try_start_session(session, outcome),
                other => (other, None),
            },
            Request::CancelSession => try_cancel(state, outcome),
            Request::CreateSession { .. } => match state {
                GreetdState::NotCreated(client) => try_create_session(client, outcome),
                other => (other, None),
            },
            Request::PostAuthMessageResponse { .. } => try_auth(state, outcome),
        };
        CommandOutput::GreetdResponse { greetd_state, error }
    }
}

/// Whether the controller last told its parent that a session exists.
#[derive(Debug, Clone, Copy, PartialEq, Eq, Structural)]
pub enum SessionState {
    NotCreated,
    Created,
}

/// Initializes the login controls of the greeter.
#[derive(Debug)]
pub struct GreetdControlsInit<C> {
    /// Initial session state.  This way a password prompt can be presented
    /// immediately on startup.
    pub greetd_state: GreetdState<C>,
    /// Specifies what username should be used when creating a session.
    pub username: String,
    /// What command to execute when the session is started.
    pub command: Vec<String>,
    /// What env to use when the session is started.
    pub env: Vec<String>,
}

/// What the controller tells its parent.
#[derive(Debug, Clone, PartialEq, Eq)]
pub enum GreetdControlsOutput {
    /// An error occurred and should be shown to the user.
    NotifyError(String),
    /// A session for this username has been created: the username cannot be
    /// changed until [`GreetdControlsOutput::SessionCanceledFor`] follows.
    CreatedSessionFor(String),
    /// The controller is capable of handling user switching again.
    SessionCanceledFor(String),
    /// The request to start the session succeeded.
    SessionStarted,
}

/// What a [`GreetdControlsOutput`] holds, as mathematical values.
pub enum GreetdControlsOutputView {
    NotifyError(Seq<char>),
    CreatedSessionFor(Seq<char>),
    SessionCanceledFor(Seq<char>),
    SessionStarted,
}

impl View for GreetdControlsOutput {
    type V = GreetdControlsOutputView;

    open spec fn view(&self) -> GreetdControlsOutputView {
        match *self {
            GreetdControlsOutput::NotifyError(text) => GreetdControlsOutputView::NotifyError(text@),
            GreetdControlsOutput::CreatedSessionFor(name) => GreetdControlsOutputView::CreatedSessionFor(
                name@,
            ),
            GreetdControlsOutput::SessionCanceledFor(name) => GreetdControlsOutputView::SessionCanceledFor(
                name@,
            ),
            GreetdControlsOutput::SessionStarted => GreetdControlsOutputView::SessionStarted,
        }
    }
}

/// What the controller can be asked to do.
#[derive(Debug, Clone, PartialEq, Eq)]
pub enum GreetdControlsMsg {
    /// Sets the username to be used when creating a session.  It may only be
    /// sent while no session exists: to switch the user, the current session
    /// has to be cancelled first.
    UpdateUser(String),
    /// Sets the command that starts the session; `None` where the selected
    /// session cannot be executed.
    UpdateSession(Option<Vec<String>>),
    /// Cancels the session.
    Cancel,
    /// Advances the authentication to the next step, with the credential that
    /// the user entered where the daemon asked for one.
    AdvanceAuthentication(Option<String>),
}

/// What a [`GreetdControlsMsg`] holds, as mathematical values.
pub enum GreetdControlsMsgView {
    UpdateUser(Seq<char>),
    UpdateSession(Option<Seq<Seq<char>>>),
    Cancel,
    AdvanceAuthentication(Option<Seq<char>>),
}

/// The view of a command that may be absent.
pub open spec fn command_view(command: Option<Vec<String>>) -> Option<Seq<Seq<char>>> {
    match command {
        Some(words) => Some(words.deep_view()),
        None => None,
    }
}

impl View for GreetdControlsMsg {
    type V = GreetdControlsMsgView;

    open spec fn view(&self) -> GreetdControlsMsgView {
        match *self {
            GreetdControlsMsg::UpdateUser(name) => GreetdControlsMsgView::UpdateUser(name@),
            GreetdControlsMsg::UpdateSession(command) => GreetdControlsMsgView::UpdateSession(
                command_view(command),
            ),
            GreetdControlsMsg::Cancel => GreetdControlsMsgView::Cancel,
            GreetdControlsMsg::AdvanceAuthentication(credential) => GreetdControlsMsgView::AdvanceAuthentication(
                option_text(credential),
            ),
        }
    }
}

/// What a step of the controller asks of whoever runs it: the outputs to pass
/// on to the parent, in this order, and the exchange to make with the daemon,
/// if there is one.
#[derive(Debug)]
pub struct Effects<C> {
    pub outputs: Vec<GreetdControlsOutput>,
    pub exchange: Option<Exchange<C>>,
}

/// The views of a list of outputs.
pub open spec fn outputs_view(outputs: Seq<GreetdControlsOutput>) -> Seq<GreetdControlsOutputView> {
    outputs.map_values(|output: GreetdControlsOutput| output@)
}

/// The session controller.
#[derive(Debug)]
pub struct GreetdControls<C> {
    /// Stores the last output session+user state.
    last_communicated_session_state: SessionState,
    /// The current state of the connection.
    greetd_state: GreetdState<C>,
    /// Username to use when creating a new session.
    username: String,
    /// Command to use when starting a session.
    command: Option<Vec<String>>,
    /// Env to use when starting a session.
    env: Vec<String>,
    /// Set by a step after which the inputs of a question are to be emptied.
    reset_question_inputs_event: bool,
    /// Set by a step that may have changed which state is shown.
    just_switched_screens_event: bool,
}

/// What a [`GreetdControls`] holds, as mathematical values.
pub struct GreetdControlsView<C> {
    pub last_communicated_session_state: SessionState,
    pub greetd_state: GreetdStateView<C>,
    pub username: Seq<char>,
    pub command: Option<Seq<Seq<char>>>,
    pub env: Seq<Seq<char>>,
    pub reset_question_inputs_event: bool,
    pub just_switched_screens_event: bool,
}

/// One step of the controller: the controller after it, and what the step
/// asks of whoever runs the controller.
pub struct Step<C> {
    pub model: GreetdControlsView<C>,
    pub outputs: Seq<GreetdControlsOutputView>,
    pub exchange: Option<ExchangeView<C>>,
}

/// The error that is reported where a session should be started and no
/// command is configured for it.
pub open spec fn invalid_session_text() -> Seq<char> {
    "Selected session cannot be executed because it is invalid"@
}

/// A command can start a session if it is there and names an executable.
pub open spec fn command_is_valid(command: Option<Seq<Seq<char>>>) -> bool {
    command matches Some(words) && words.len() > 0
}

impl<C> GreetdControlsView<C> {
    /// The controller as it is made from `init`.
    pub open spec fn init(
        greetd_state: GreetdStateView<C>,
        username: Seq<char>,
        command: Seq<Seq<char>>,
        env: Seq<Seq<char>>,
    ) -> Self {
        GreetdControlsView {
            last_communicated_session_state: if greetd_state is NotCreated {
                SessionState::NotCreated
            } else {
                SessionState::Created
            },
            greetd_state,
            username,
            command: Some(command),
            env,
            reset_question_inputs_event: false,
            just_switched_screens_event: true,
        }
    }

    /// A step that changes nothing and asks for nothing.
    pub open spec fn idle(self) -> Step<C> {
        Step { model: self, outputs: Seq::empty(), exchange: None }
    }

    /// The step that starts an exchange from the current state: the state
    /// moves into the exchange, and the controller shows `message` meanwhile.
    pub open spec fn begin(self, request: RequestView, message: Seq<char>) -> Step<C> {
        Step {
            model: GreetdControlsView { greetd_state: loading_view(message), ..self },
            outputs: Seq::empty(),
            exchange: Some(ExchangeView { state: self.greetd_state, request }),
        }
    }

    /// Cancels the session, where one exists.  Where none exists, and while
    /// an exchange is under way or the session has been started, nothing is
    /// sent and the state stays.
    pub open spec fn cancel_session(self) -> Step<C> {
        if self.greetd_state.can_cancel() {
            self.begin(RequestView::CancelSession, "Canceling session"@)
        } else {
            self.idle()
        }
    }

    /// Starts the session from the startable state with the configured
    /// command; without a valid command it reports an error, sends nothing
    /// and stays startable.
    pub open spec fn start_session(self) -> Step<C> {
        if command_is_valid(self.command) {
            self.begin(
                RequestView::StartSession { cmd: self.command->0, env: self.env },
                "Starting session"@,
            )
        } else {
            Step {
                model: self,
                outputs: seq![GreetdControlsOutputView::NotifyError(invalid_session_text())],
                exchange: None,
            }
        }
    }

    /// Advances the authentication by the one operation that is legal in the
    /// current state.
    pub open spec fn advance_authentication(self, credential: Option<Seq<char>>) -> Step<C> {
        match self.greetd_state {
            GreetdStateView::NotCreated(_) => self.begin(
                RequestView::CreateSession { username: self.username },
                "Authenticating"@,
            ),
            GreetdStateView::Startable(_) => self.start_session(),
            GreetdStateView::AuthQuestion(_) => self.begin(
                RequestView::PostAuthMessageResponse { response: credential },
                "Authenticating"@,
            ),
            GreetdStateView::AuthInformative(_) => self.begin(
                RequestView::PostAuthMessageResponse { response: None },
                "Authenticating"@,
            ),
            _ => self.idle(),
        }
    }

    /// Sets the username for the next session.
    pub open spec fn change_user(self, username: Seq<char>) -> Self
        recommends
            self.greetd_state is NotCreated,
    {
        GreetdControlsView { username, ..self }
    }

    /// Tells the parent, once for each change, whether a session exists.
    pub open spec fn communicate_session_state(self) -> Step<C> {
        if self.last_communicated_session_state is Created && self.greetd_state is NotCreated {
            Step {
                model: GreetdControlsView {
                    last_communicated_session_state: SessionState::NotCreated,
                    ..self
                },
                outputs: seq![GreetdControlsOutputView::SessionCanceledFor(self.username)],
                exchange: None,
            }
        } else if self.last_communicated_session_state is NotCreated && !(self.greetd_state
            is NotCreated) {
            Step {
                model: GreetdControlsView {
                    last_communicated_session_state: SessionState::Created,
                    ..self
                },
                outputs: seq![GreetdControlsOutputView::CreatedSessionFor(self.username)],
                exchange: None,
            }
        } else {
            self.idle()
        }
    }

    /// The step that answers a message.
    pub open spec fn update(self, message: GreetdControlsMsgView) -> Step<C>
        recommends
            message is UpdateUser ==> self.greetd_state is NotCreated,
    {
        let start = GreetdControlsView {
            reset_question_inputs_event: message is Cancel,
            just_switched_screens_event: false,
            ..self
        };
        let acted = match message {
            GreetdControlsMsgView::Cancel => start.cancel_session(),
            GreetdControlsMsgView::AdvanceAuthentication(credential) => start.advance_authentication(
                credential,
            ),
            GreetdControlsMsgView::UpdateUser(username) => start.change_user(username).idle(),
            GreetdControlsMsgView::UpdateSession(command) => GreetdControlsView {
                command,
                ..start
            }.idle(),
        };
        let told = acted.model.communicate_session_state();
        Step {
            model: told.model,
            outputs: acted.outputs + told.outputs,
            exchange: acted.exchange,
        }
    }

    /// The step that takes in the result of an exchange.  An error is passed
    /// on to the parent.  Where the exchange succeeded and left the session
    /// startable, the controller goes on to start it at once.
    pub open spec fn update_cmd(self, message: CommandOutputView<C>) -> Step<C> {
        let start = GreetdControlsView {
            just_switched_screens_event: true,
            greetd_state: message.greetd_state,
            ..self
        };
        let notified = match message.error {
            Some(error) => seq![GreetdControlsOutputView::NotifyError(error)],
            None => Seq::empty(),
        };
        let acted = if message.greetd_state is Startable && message.error is None {
            start.start_session()
        } else if message.greetd_state is SessionStarted {
            Step {
                model: start,
                outputs: seq![GreetdControlsOutputView::SessionStarted],
                exchange: None,
            }
        } else {
            start.idle()
        };
        let told = acted.model.communicate_session_state();
        Step {
            model: GreetdControlsView {
                reset_question_inputs_event: self.reset_question_inputs_event || (message.error
                    is None && told.model.greetd_state is AuthQuestion),
                ..told.model
            },
            outputs: notified + acted.outputs + told.outputs,
            exchange: acted.exchange,
        }
    }
}

impl<C> View for GreetdControls<C> {
    type V = GreetdControlsView<C>;

    closed spec fn view(&self) -> GreetdControlsView<C> {
        GreetdControlsView {
            last_communicated_session_state: self.last_communicated_session_state,
            greetd_state: self.greetd_state@,
            username: self.username@,
            command: command_view(self.command),
            env: self.env.deep_view(),
            reset_question_inputs_event: self.reset_question_inputs_event,
            just_switched_screens_event: self.just_switched_screens_event,
        }
    }
}

/// The outputs of a step that has at most one.
pub open spec fn output_seq(output: Option<GreetdControlsOutput>) -> Seq<GreetdControlsOutputView> {
    match output {
        Some(output) => seq![output@],
        None => Seq::empty(),
    }
}

/// Adds an output to those that a step has collected.
fn emit(outputs: &mut Vec<GreetdControlsOutput>, output: Option<GreetdControlsOutput>)
    ensures
        outputs_view(final(outputs)@) == outputs_view(old(outputs)@) + output_seq(output),
{
    match output {
        Some(output) => {
            outputs.push(output);
            assert(outputs_view(outputs@) =~= outputs_view(old(outputs)@) + seq![output@]);
        },
        None => {
            assert(outputs_view(outputs@) =~= outputs_view(old(outputs)@) + Seq::empty());
        },
    }
}

impl<C> Effects<C> {
    /// The effects of a step with these outputs and this exchange.
    pub open spec fn matches_step(&self, step: Step<C>) -> bool {
        &&& outputs_view(self.outputs@) == step.outputs
        &&& exchange_view(self.exchange) == step.exchange
    }

    /// The effects of a step that asks for nothing but to pass on `output`.
    fn only(output: Option<GreetdControlsOutput>) -> (r: Self)
        ensures
            outputs_view(r.outputs@) == output_seq(output),
            r.exchange is None,
    {
        let mut outputs: Vec<GreetdControlsOutput> = Vec::new();
        assert(outputs_view(outputs@) =~= Seq::empty());
        emit(&mut outputs, output);
        Effects { outputs, exchange: None }
    }
}

impl<C> GreetdControls<C> {
    #[verifier::type_invariant]
    spec fn state_is_well_formed(&self) -> bool {
        self.greetd_state@.wf()
    }

    /// Makes the controller from its initial state, username, command and
    /// environment.
    pub fn init(init: GreetdControlsInit<C>) -> (r: Self)
        requires
            init.greetd_state@.wf(),
        ensures
            r@ == GreetdControlsView::init(
                init.greetd_state@,
                init.username@,
                init.command.deep_view(),
                init.env.deep_view(),
            ),
            r@.greetd_state.wf(),
    {
        let GreetdControlsInit { greetd_state, username, command, env } = init;
        let last_communicated_session_state = match &greetd_state {
            GreetdState::NotCreated(_) => SessionState::NotCreated,
            _ => SessionState::Created,
        };
        GreetdControls {
            last_communicated_session_state,
            greetd_state,
            username,
            command: Some(command),
            env,
            reset_question_inputs_event: false,
            just_switched_screens_event: true,
        }
    }

    /// The current state of the connection.
    pub fn greetd_state(&self) -> (r: &GreetdState<C>)
        ensures
            r@ == self@.greetd_state,
            r@.wf(),
    {
        proof {
            use_type_invariant(self);
        }
        &self.greetd_state
    }

    /// The username that the next session is created for.
    pub fn username(&self) -> (r: &str)
        ensures
            r@ == self@.username,
    {
        self.username.as_str()
    }

    /// Whether the last step asks for the inputs of a question to be emptied.
    pub fn reset_question_inputs_event(&self) -> (r: bool)
        ensures
            r == self@.reset_question_inputs_event,
    {
        self.reset_question_inputs_event
    }

    /// Whether the last step may have changed which state is shown.
    pub fn just_switched_screens_event(&self) -> (r: bool)
        ensures
            r == self@.just_switched_screens_event,
    {
        self.just_switched_screens_event
    }

    /// Whether the username can be changed: only while no session exists.
    pub fn can_change_user(&self) -> (r: bool)
        ensures
            r == (self@.greetd_state is NotCreated),
    {
        match &self.greetd_state {
            GreetdState::NotCreated(_) => true,
            _ => false,
        }
    }

    /// Answers a message: see [`GreetdControlsView::update`].
    pub fn update(&mut self, message: GreetdControlsMsg) -> (effects: Effects<C>)
        requires
            message is UpdateUser ==> old(self)@.greetd_state is NotCreated,
        ensures
            final(self)@ == old(self)@.update(message@).model,
            effects.matches_step(old(self)@.update(message@)),
            final(self)@.greetd_state.wf(),
            effects.exchange matches Some(exchange) ==> exchange@.wf(),
    {
        proof {
            use_type_invariant(&*self);
        }
        self.reset_question_inputs_event = false;
        self.just_switched_screens_event = false;
        let mut effects = match message {
            GreetdControlsMsg::Cancel => {
                self.reset_question_inputs_event = true;
                self.cancel_session()
            },
            GreetdControlsMsg::AdvanceAuthentication(credential) => self.advance_authentication(
                credential,
            ),
            GreetdControlsMsg::UpdateUser(username) => {
                self.change_user(username);
                Effects::only(None)
            },
            GreetdControlsMsg::UpdateSession(command) => {
                self.command = command;
                Effects::only(None)
            },
        };
        let told = self.communicate_session_state();
        emit(&mut effects.outputs, told);
        effects
    }

    /// Takes in the result of an exchange: see
    /// [`GreetdControlsView::update_cmd`].
    pub fn update_cmd(&mut self, message: CommandOutput<C>) -> (effects: Effects<C>)
        requires
            message@.greetd_state.wf(),
        ensures
            final(self)@ == old(self)@.update_cmd(message@).model,
            effects.matches_step(old(self)@.update_cmd(message@)),
            final(self)@.greetd_state.wf(),
            effects.exchange matches Some(exchange) ==> exchange@.wf(),
    {
        proof {
            use_type_invariant(&*self);
        }
        self.just_switched_screens_event = true;
        let CommandOutput::GreetdResponse { greetd_state, error } = message;
        let failed = error.is_some();
        let mut outputs: Vec<GreetdControlsOutput> = Vec::new();
        assert(outputs_view(outputs@) =~= Seq::empty());
        match error {
            Some(error) => {
                emit(&mut outputs, Some(GreetdControlsOutput::NotifyError(error)));
            },
            None => {},
        }
        self.greetd_state = greetd_state;
        let startable = match &self.greetd_state {
            GreetdState::Startable(_) => true,
            _ => false,
        };
        let started = match &self.greetd_state {
            GreetdState::SessionStarted => true,
            _ => false,
        };
        let ghost notified = outputs_view(outputs@);
        let exchange = if startable && !failed {
            let Effects { outputs: mut acted, exchange } = self.start_session();
            let ghost before = outputs_view(acted@);
            outputs.append(&mut acted);
            assert(outputs_view(outputs@) =~= notified + before);
            exchange
        } else if started {
            emit(&mut outputs, Some(GreetdControlsOutput::SessionStarted));
            None
        } else {
            assert(outputs_view(outputs@) =~= notified + Seq::empty());
            None
        };
        let told = self.communicate_session_state();
        emit(&mut outputs, told);
        let question = match &self.greetd_state {
            GreetdState::AuthQuestion { .. } => true,
            _ => false,
        };
        if !failed && question {
            self.reset_question_inputs_event = true;
        }
        Effects { outputs, exchange }
    }

    /// Tells the parent, once for each change, whether a session exists.
    fn communicate_session_state(&mut self) -> (r: Option<GreetdControlsOutput>)
        ensures
            final(self)@ == old(self)@.communicate_session_state().model,
            output_seq(r) == old(self)@.communicate_session_state().outputs,
    {
        proof {
            use_type_invariant(&*self);
        }
        let exists = match &self.greetd_state {
            GreetdState::NotCreated(_) => false,
            _ => true,
        };
        match self.last_communicated_session_state {
            SessionState::Created => {
                if !exists {
                    self.last_communicated_session_state = SessionState::NotCreated;
                    Some(GreetdControlsOutput::SessionCanceledFor(self.username.clone()))
                } else {
                    None
                }
            },
            SessionState::NotCreated => {
                if exists {
                    self.last_communicated_session_state = SessionState::Created;
                    Some(GreetdControlsOutput::CreatedSessionFor(self.username.clone()))
                } else {
                    None
                }
            },
        }
    }

    /// Starts an exchange from the current state, which moves into the
    /// exchange; the controller shows `message` meanwhile.
    fn begin(&mut self, request: Request, message: &str) -> (effects: Effects<C>)
        requires
            (ExchangeView { state: old(self)@.greetd_state, request: request@ }).wf(),
        ensures
            final(self)@ == old(self)@.begin(request@, message@).model,
            effects.matches_step(old(self)@.begin(request@, message@)),
    {
        proof {
            use_type_invariant(&*self);
        }
        let mut state = GreetdState::loading(message);
        core::mem::swap(&mut self.greetd_state, &mut state);
        let outputs: Vec<GreetdControlsOutput> = Vec::new();
        assert(outputs_view(outputs@) =~= Seq::empty());
        Effects { outputs, exchange: Some(Exchange { state, request }) }
    }

    /// Cancels the session, where one exists: see
    /// [`GreetdControlsView::cancel_session`].
    pub fn cancel_session(&mut self) -> (effects: Effects<C>)
        ensures
            final(self)@ == old(self)@.cancel_session().model,
            effects.matches_step(old(self)@.cancel_session()),
    {
        proof {
            use_type_invariant(&*self);
        }
        let can_cancel = match &self.greetd_state {
            GreetdState::Startable(_) => true,
            GreetdState::AuthQuestion { .. } => true,
            GreetdState::AuthInformative(_) => true,
            _ => false,
        };
        if can_cancel {
            self.begin(cancel_session_request(), "Canceling session")
        } else {
            Effects::only(None)
        }
    }

    /// Starts the session with the configured command, or reports that there
    /// is none.
    fn start_session(&mut self) -> (effects: Effects<C>)
        requires
            old(self)@.greetd_state is Startable,
        ensures
            final(self)@ == old(self)@.start_session().model,
            effects.matches_step(old(self)@.start_session()),
    {
        proof {
            use_type_invariant(&*self);
        }
        let request = match (&self.greetd_state, &self.command) {
            (GreetdState::Startable(session), Some(command)) => {
                if command.len() > 0 {
                    Some(
                        session.start_session_request(
                            clone_strings(command),
                            clone_strings(&self.env),
                        ),
                    )
                } else {
                    None
                }
            },
            _ => None,
        };
        match request {
            Some(request) => self.begin(request, "Starting session"),
            None => Effects::only(
                Some(
                    GreetdControlsOutput::NotifyError(
                        String::from_str(
                            "Selected session cannot be executed because it is invalid",
                        ),
                    ),
                ),
            ),
        }
    }

    /// Advances the authentication by the one operation that is legal in the
    /// current state: see [`GreetdControlsView::advance_authentication`].
    pub fn advance_authentication(&mut self, credential: Option<String>) -> (effects: Effects<C>)
        ensures
            final(self)@ == old(self)@.advance_authentication(option_text(credential)).model,
            effects.matches_step(old(self)@.advance_authentication(option_text(credential))),
    {
        proof {
            use_type_invariant(&*self);
        }
        let startable = match &self.greetd_state {
            GreetdState::Startable(_) => true,
            _ => false,
        };
        if startable {
            return self.start_session();
        }
        let request = match &self.greetd_state {
            GreetdState::NotCreated(client) => Some(
                client.create_session_request(self.username.as_str()),
            ),
            GreetdState::AuthQuestion { session } => Some(session.respond_request(credential)),
            GreetdState::AuthInformative(session) => Some(session.respond_request(None)),
            _ => None,
        };
        match request {
            Some(request) => self.begin(request, "Authenticating"),
            None => Effects::only(None),
        }
    }

    /// Sets the username for the next session.  The user can only be changed
    /// while no session exists: to switch the user, the current session has
    /// to be cancelled first.
    pub fn change_user(&mut self, username: String)
        requires
            old(self)@.greetd_state is NotCreated,
        ensures
            final(self)@ == old(self)@.change_user(username@),
    {
        proof {
            use_type_invariant(&*self);
        }
        self.username = username;
    }
}

} // verus!
