//! A stand-in for the daemon, for showing the greeter without greetd.
use vstd::prelude::*;
use vstd::string::*;

use crate::greetd::AuthMessage;
use crate::greetd::AuthMessageType;
use crate::greetd::Request;
use crate::greetd::RequestView;
use crate::greetd::Response;
use crate::greetd::ResponseView;

verus! {

/// A daemon that asks every user to touch the fingerprint sensor, and lets
/// everyone in who acknowledges that.
#[derive(Debug)]
pub struct DemoGreetd {}

/// What [`DemoGreetd`] answers to a request.
pub open spec fn demo_reply(request: RequestView) -> ResponseView {
    match request {
        RequestView::CreateSession { .. } => ResponseView::AuthMessage {
            auth_message_type: AuthMessageType::Info,
            auth_message: "Touch the fingerprint sensor"@,
        },
        _ => ResponseView::Success,
    }
}

impl DemoGreetd {
    /// The answer to a request to create a session: an informative prompt.
    pub fn create_session(&self, username: &str) -> (r: Response)
        ensures
            r@ == demo_reply(RequestView::CreateSession { username: username@ }),
    {
        Response::AuthMessage {
            auth_message_type: AuthMessageType::Info,
            auth_message: String::from_str("Touch the fingerprint sensor"),
        }
    }

    /// The answer to a request to cancel the session.
    pub fn cancel_session(&self) -> (r: Response)
        ensures
            r@ == ResponseView::Success,
    {
        Response::Success
    }

    /// The prompt that this daemon sends.
    pub fn message(&self) -> (r: AuthMessage<'static>)
        ensures
            r.kind() == AuthMessageType::Info,
            r.text() == "Touch the fingerprint sensor"@,
    {
        AuthMessage::Info("Touch the fingerprint sensor")
    }

    /// The answer to the acknowledgement of the prompt.
    pub fn respond(&self, msg: Option<String>) -> (r: Response)
        ensures
            r@ == ResponseView::Success,
    {
        Response::Success
    }

    /// The answer to a request to start the session.
    pub fn start_session(&self, cmd: Vec<String>, env: Vec<String>) -> (r: Response)
        ensures
            r@ == ResponseView::Success,
    {
        Response::Success
    }

    /// The answer to any request.
    pub fn exchange(&self, request: &Request) -> (r: Response)
        ensures
            r@ == demo_reply(request@),
    {
        match request {
            Request::CreateSession { username } => self.create_session(username.as_str()),
            Request::PostAuthMessageResponse { .. } => Response::Success,
            Request::StartSession { .. } => Response::Success,
            Request::CancelSession => self.cancel_session(),
        }
    }
}

} // verus!
