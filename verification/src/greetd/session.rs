//! The states of a connection to greetd, each with the operations that are
//! legal in it.
//!
//! Every operation consumes the state it is called on.  It takes what came
//! back for the operation's request, the daemon's response or the failure of
//! the connection, and returns the next state, or the unchanged state
//! together with the error.  The connection itself is a value of any type `C`
//! that the states carry along and never touch.
use vstd::prelude::*;
use vstd::string::*;

use crate::greetd::option_text;
use crate::greetd::reported_error;
use crate::greetd::AuthInformative;
use crate::greetd::AuthMessageType;
use crate::greetd::AuthQuestion;
use crate::greetd::Request;
use crate::greetd::RequestError;
use crate::greetd::RequestErrorView;
use crate::greetd::RequestView;
use crate::greetd::Response;
use crate::greetd::ResponseView;

verus! {

/// A connection on which no session exists: the only thing to do is to create
/// one.
#[derive(Debug)]
pub struct Greetd<C> {
    conn: C,
}

/// A connection whose session is authenticated and can be started.
#[derive(Debug)]
pub struct StartableSession<C> {
    conn: C,
}

/// A connection on which the daemon has been told to run the session.  No
/// operation of the protocol is left.
#[derive(Debug)]
pub struct SessionStarted<C> {
    conn: C,
}

/// A connection on which the daemon waits for the answer to a prompt.
#[derive(Debug)]
pub struct AuthMessage<C> {
    conn: C,
    message: String,
    kind: AuthMessageType,
}

/// What an [`AuthMessage`] holds: the connection and the daemon's last prompt.
pub struct AuthMessageView<C> {
    pub conn: C,
    pub kind: AuthMessageType,
    pub message: Seq<char>,
}

/// The state that follows a successful `create_session` or `respond`.
#[derive(Debug)]
pub enum CreateSessionResponse<C> {
    /// Authentication is complete.
    Success(StartableSession<C>),
    /// The daemon asks for a credential.
    AuthQuestion(AuthMessage<C>),
    /// The daemon sent a message that has to be acknowledged.
    AuthInformative(AuthMessage<C>),
}

/// What a [`CreateSessionResponse`] holds.
pub enum CreateSessionResponseView<C> {
    Success(C),
    AuthQuestion(AuthMessageView<C>),
    AuthInformative(AuthMessageView<C>),
}

/// A nested [`Result`] for how an operation ended.
///
/// - `Err`: the exchange itself failed, with an error of the connection.  The
///   state that the operation was made from comes back, but the connection in
///   it cannot be relied on any more.
/// - `Ok`: the daemon answered, but:
///   - `Err`: it reported an error.  The state that the operation was made
///     from comes back, to retry or to cancel from.
///   - `Ok`: everything is fine; this holds the next state.
pub type Outcome<Current, Next, E> = Result<Result<Next, (Current, RequestError)>, (Current, E)>;

/// The state in which a prompt of the given kind is waited on: a question for
/// a visible or secret prompt, an informative message for the other two.
pub open spec fn prompt_state<C>(
    conn: C,
    kind: AuthMessageType,
    message: Seq<char>,
) -> CreateSessionResponseView<C> {
    let prompt = AuthMessageView { conn, kind, message };
    if kind.is_question() {
        CreateSessionResponseView::AuthQuestion(prompt)
    } else {
        CreateSessionResponseView::AuthInformative(prompt)
    }
}

/// What the daemon's response to `create_session` or `respond` means for the
/// connection `conn`: the next state, or the error to report.
pub open spec fn authentication_step<C>(conn: C, response: ResponseView) -> Result<
    CreateSessionResponseView<C>,
    RequestErrorView,
> {
    match response {
        ResponseView::Success => Ok(CreateSessionResponseView::Success(conn)),
        ResponseView::Error { error_type, description } => Err(
            reported_error(error_type, description),
        ),
        ResponseView::AuthMessage { auth_message_type, auth_message } => Ok(
            prompt_state(conn, auth_message_type, auth_message),
        ),
    }
}

/// What the daemon's response to `start_session` or `cancel_session` means:
/// nothing on success, else the error to report.  A prompt is no answer to
/// either request.
pub open spec fn completion_step(response: ResponseView) -> Result<(), RequestErrorView>
    recommends
        !(response is AuthMessage),
{
    match response {
        ResponseView::Error { error_type, description } => Err(
            reported_error(error_type, description),
        ),
        _ => Ok(()),
    }
}

/// The request that cancels the session that is being set up.
pub fn cancel_session_request() -> (r: Request)
    ensures
        r@ == RequestView::CancelSession,
{
    Request::CancelSession
}

impl<C> Greetd<C> {
    /// The connection that this state holds.
    pub closed spec fn connection(&self) -> C {
        self.conn
    }

    /// Takes ownership of a connection on which no session exists.
    pub fn new(conn: C) -> (r: Self)
        ensures
            r.connection() == conn,
    {
        Greetd { conn }
    }

    /// Lends the connection out for the exchange itself.
    pub fn connection_mut(&mut self) -> (c: &mut C)
        ensures
            *c == old(self).connection(),
            final(self).connection() == *final(c),
        no_unwind
    {
        &mut self.conn
    }

    /// Gives the connection up.
    pub fn into_connection(self) -> (c: C)
        ensures
            c == self.connection(),
    {
        self.conn
    }

    /// The request that creates a session for `username`.
    pub fn create_session_request(&self, username: &str) -> (r: Request)
        ensures
            r@ == (RequestView::CreateSession { username: username@ }),
    {
        Request::CreateSession { username: username.to_owned() }
    }

    /// Completes `create_session` with what came back: success makes the
    /// session startable, a prompt has to be answered first, and an error
    /// leaves the connection without a session, as it was.
    pub fn create_session<E>(self, outcome: Result<Response, E>) -> (r: Outcome<
        Self,
        CreateSessionResponse<C>,
        E,
    >)
        ensures
            match outcome {
                Err(failure) => r matches Err((state, error)) && error == failure
                    && state.connection() == self.connection(),
                Ok(response) => match r {
                    Ok(Ok(next)) => authentication_step(self.connection(), response@) == Ok::<
                        CreateSessionResponseView<C>,
                        RequestErrorView,
                    >(next@) && next.wf(),
                    Ok(Err((state, error))) => authentication_step(self.connection(), response@)
                        == Err::<CreateSessionResponseView<C>, RequestErrorView>(error@)
                        && state.connection() == self.connection(),
                    Err(_) => false,
                },
            },
    {
        match outcome {
            Err(failure) => Err((self, failure)),
            Ok(Response::Success) => Ok(
                Ok(CreateSessionResponse::Success(StartableSession { conn: self.conn })),
            ),
            Ok(Response::Error { error_type, description }) => Ok(
                Err((self, RequestError::new(error_type, description))),
            ),
            Ok(Response::AuthMessage { auth_message_type, auth_message }) => Ok(
                Ok(AuthMessage::new_as_create_session(self.conn, auth_message_type, auth_message)),
            ),
        }
    }
}

impl<C> Greetd<C> {
    /// Completes `cancel_session` with what came back.  To cancel where no
    /// session exists is legal and changes nothing: the connection is without
    /// a session afterwards, as it was before.
    pub fn cancel_session<E>(self, outcome: Result<Response, E>) -> (r: Outcome<Self, Greetd<C>, E>)
        requires
            !(outcome matches Ok(response) && response is AuthMessage),
        ensures
            match outcome {
                Err(failure) => r matches Err((state, error)) && error == failure && state.connection() == self.connection(),
                Ok(response) => match r {
                    Ok(Ok(next)) => completion_step(response@) == Ok::<(), RequestErrorView>(())
                        && next.connection() == self.connection(),
                    Ok(Err((state, error))) => completion_step(response@) == Err::<
                        (),
                        RequestErrorView,
                    >(error@) && state.connection() == self.connection(),
                    Err(_) => false,
                },
            },
    {
        match outcome {
            Err(failure) => Err((self, failure)),
            Ok(Response::Error { error_type, description }) => Ok(
                Err((self, RequestError::new(error_type, description))),
            ),
            Ok(_) => Ok(Ok(self)),
        }
    }
}

impl<C> StartableSession<C> {
    /// The connection that this state holds.
    pub closed spec fn connection(&self) -> C {
        self.conn
    }

    /// Lends the connection out for the exchange itself.
    pub fn connection_mut(&mut self) -> (c: &mut C)
        ensures
            *c == old(self).connection(),
            final(self).connection() == *final(c),
        no_unwind
    {
        &mut self.conn
    }

    /// Gives the connection up.
    pub fn into_connection(self) -> (c: C)
        ensures
            c == self.connection(),
    {
        self.conn
    }

    /// The request that starts the session with this command and environment.
    pub fn start_session_request(&self, cmd: Vec<String>, env: Vec<String>) -> (r: Request)
        ensures
            r@ == (RequestView::StartSession { cmd: cmd.deep_view(), env: env.deep_view() }),
    {
        Request::StartSession { cmd, env }
    }

    /// Completes `start_session` with what came back.  On an error the
    /// session stays startable: that it could not be started does not undo
    /// its authentication.
    pub fn start_session<E>(self, outcome: Result<Response, E>) -> (r: Outcome<Self, SessionStarted<C>, E>)
        requires
            !(outcome matches Ok(response) && response is AuthMessage),
        ensures
            match outcome {
                Err(failure) => r matches Err((state, error)) && error == failure && state.connection() == self.connection(),
                Ok(response) => match r {
                    Ok(Ok(next)) => completion_step(response@) == Ok::<(), RequestErrorView>(())
                        && next.connection() == self.connection(),
                    Ok(Err((state, error))) => completion_step(response@) == Err::<
                        (),
                        RequestErrorView,
                    >(error@) && state.connection() == self.connection(),
                    Err(_) => false,
                },
            },
    {
        match outcome {
            Err(failure) => Err((self, failure)),
            Ok(Response::Error { error_type, description }) => Ok(
                Err((self, RequestError::new(error_type, description))),
            ),
            Ok(_) => Ok(Ok(SessionStarted { conn: self.conn })),
        }
    }

    /// Completes `cancel_session` with what came back.  On success no session
    /// exists any more; on an error the session is still startable.
    pub fn cancel_session<E>(self, outcome: Result<Response, E>) -> (r: Outcome<Self, Greetd<C>, E>)
        requires
            !(outcome matches Ok(response) && response is AuthMessage),
        ensures
            match outcome {
                Err(failure) => r matches Err((state, error)) && error == failure && state.connection() == self.connection(),
                Ok(response) => match r {
                    Ok(Ok(next)) => completion_step(response@) == Ok::<(), RequestErrorView>(())
                        && next.connection() == self.connection(),
                    Ok(Err((state, error))) => completion_step(response@) == Err::<
                        (),
                        RequestErrorView,
                    >(error@) && state.connection() == self.connection(),
                    Err(_) => false,
                },
            },
    {
        match outcome {
            Err(failure) => Err((self, failure)),
            Ok(Response::Error { error_type, description }) => Ok(
                Err((self, RequestError::new(error_type, description))),
            ),
            Ok(_) => Ok(Ok(Greetd { conn: self.conn })),
        }
    }
}

impl<C> SessionStarted<C> {
    /// The connection that this state holds.
    pub closed spec fn connection(&self) -> C {
        self.conn
    }

    /// Gives the connection up.
    pub fn into_connection(self) -> (c: C)
        ensures
            c == self.connection(),
    {
        self.conn
    }
}

impl<C> View for AuthMessage<C> {
    type V = AuthMessageView<C>;

    closed spec fn view(&self) -> AuthMessageView<C> {
        AuthMessageView { conn: self.conn, kind: self.kind, message: self.message@ }
    }
}

impl<C> AuthMessage<C> {
    /// Holds the daemon's prompt together with the connection, as a question
    /// where the prompt is visible or secret and as an informative message
    /// where it is an info or an error.
    pub fn new_as_create_session(conn: C, kind: AuthMessageType, message: String) -> (r:
        CreateSessionResponse<C>)
        ensures
            r@ == prompt_state(conn, kind, message@),
            r.wf(),
    {
        match kind {
            AuthMessageType::Visible | AuthMessageType::Secret => CreateSessionResponse::AuthQuestion(
                AuthMessage { conn, message, kind },
            ),
            AuthMessageType::Info | AuthMessageType::Error => CreateSessionResponse::AuthInformative(
                AuthMessage { conn, message, kind },
            ),
        }
    }

    /// Lends the connection out for the exchange itself.
    pub fn connection_mut(&mut self) -> (c: &mut C)
        ensures
            *c == old(self)@.conn,
            final(self)@ == (AuthMessageView { conn: *final(c), ..old(self)@ }),
        no_unwind
    {
        &mut self.conn
    }

    /// Gives the connection up, and the prompt with it.
    pub fn into_connection(self) -> (c: C)
        ensures
            c == self@.conn,
    {
        self.conn
    }

    /// The message sent by greetd.  It is kept in this state: asking for it
    /// causes no exchange.
    pub fn message(&self) -> (r: crate::greetd::AuthMessage<'_>)
        ensures
            r.kind() == self@.kind,
            r.text() == self@.message,
    {
        match self.kind {
            AuthMessageType::Visible => crate::greetd::AuthMessage::Visible(self.message.as_str()),
            AuthMessageType::Secret => crate::greetd::AuthMessage::Secret(self.message.as_str()),
            AuthMessageType::Info => crate::greetd::AuthMessage::Info(self.message.as_str()),
            AuthMessageType::Error => crate::greetd::AuthMessage::Error(self.message.as_str()),
        }
    }

    /// The prompt as a question.
    pub fn auth_question(&self) -> (r: AuthQuestion<'_>)
        requires
            self@.kind.is_question(),
        ensures
            r.kind() == self@.kind,
            r.text() == self@.message,
    {
        match self.kind {
            AuthMessageType::Visible => AuthQuestion::Visible(self.message.as_str()),
            _ => AuthQuestion::Secret(self.message.as_str()),
        }
    }

    /// The prompt as a message to acknowledge.
    pub fn auth_informative(&self) -> (r: AuthInformative<'_>)
        requires
            self@.kind.is_informative(),
        ensures
            r.kind() == self@.kind,
            r.text() == self@.message,
    {
        match self.kind {
            AuthMessageType::Info => AuthInformative::Info(self.message.as_str()),
            _ => AuthInformative::Error(self.message.as_str()),
        }
    }

    /// The request that answers this prompt: a credential for a question,
    /// `None` to acknowledge an informative message.
    pub fn respond_request(&self, msg: Option<String>) -> (r: Request)
        ensures
            r@ == (RequestView::PostAuthMessageResponse { response: option_text(msg) }),
    {
        Request::PostAuthMessageResponse { response: msg }
    }

    /// Completes `respond` with what came back.  The daemon's response is read
    /// exactly as the response to `create_session` is: the daemon may chain
    /// further prompts.  On an error this state comes back with its prompt.
    pub fn respond<E>(self, outcome: Result<Response, E>) -> (r: Outcome<
        Self,
        CreateSessionResponse<C>,
        E,
    >)
        ensures
            match outcome {
                Err(failure) => r matches Err((state, error)) && error == failure && state@
                    == self@,
                Ok(response) => match r {
                    Ok(Ok(next)) => authentication_step(self@.conn, response@) == Ok::<
                        CreateSessionResponseView<C>,
                        RequestErrorView,
                    >(next@) && next.wf(),
                    Ok(Err((state, error))) => authentication_step(self@.conn, response@) == Err::<
                        CreateSessionResponseView<C>,
                        RequestErrorView,
                    >(error@) && state@ == self@,
                    Err(_) => false,
                },
            },
    {
        match outcome {
            Err(failure) => Err((self, failure)),
            Ok(Response::Success) => Ok(
                Ok(CreateSessionResponse::Success(StartableSession { conn: self.conn })),
            ),
            Ok(Response::Error { error_type, description }) => Ok(
                Err((self, RequestError::new(error_type, description))),
            ),
            Ok(Response::AuthMessage { auth_message_type, auth_message }) => Ok(
                Ok(AuthMessage::new_as_create_session(self.conn, auth_message_type, auth_message)),
            ),
        }
    }

    /// Completes `cancel_session` with what came back.  On success no session
    /// exists any more; on an error this state comes back with its prompt.
    pub fn cancel_session<E>(self, outcome: Result<Response, E>) -> (r: Outcome<Self, Greetd<C>, E>)
        requires
            !(outcome matches Ok(response) && response is AuthMessage),
        ensures
            match outcome {
                Err(failure) => r matches Err((state, error)) && error == failure && state@ == self@,
                Ok(response) => match r {
                    Ok(Ok(next)) => completion_step(response@) == Ok::<(), RequestErrorView>(())
                        && next.connection() == self@.conn,
                    Ok(Err((state, error))) => completion_step(response@) == Err::<
                        (),
                        RequestErrorView,
                    >(error@) && state@ == self@,
                    Err(_) => false,
                },
            },
    {
        match outcome {
            Err(failure) => Err((self, failure)),
            Ok(Response::Error { error_type, description }) => Ok(
                Err((self, RequestError::new(error_type, description))),
            ),
            Ok(_) => Ok(Ok(Greetd { conn: self.conn })),
        }
    }
}

impl<C> View for CreateSessionResponse<C> {
    type V = CreateSessionResponseView<C>;

    open spec fn view(&self) -> CreateSessionResponseView<C> {
        match *self {
            CreateSessionResponse::Success(session) => CreateSessionResponseView::Success(
                session.connection(),
            ),
            CreateSessionResponse::AuthQuestion(prompt) => CreateSessionResponseView::AuthQuestion(
                prompt@,
            ),
            CreateSessionResponse::AuthInformative(prompt) => CreateSessionResponseView::AuthInformative(
                prompt@,
            ),
        }
    }
}

impl<C> CreateSessionResponse<C> {
    /// A question holds a visible or secret prompt, an informative message an
    /// info or an error.
    pub open spec fn wf(&self) -> bool {
        match *self {
            CreateSessionResponse::Success(_) => true,
            CreateSessionResponse::AuthQuestion(prompt) => prompt@.kind.is_question(),
            CreateSessionResponse::AuthInformative(prompt) => prompt@.kind.is_informative(),
        }
    }
}

} // verus!
