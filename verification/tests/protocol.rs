use regreet::greetd::session::cancel_session_request;
use regreet::greetd::session::AuthMessage as Prompt;
use regreet::greetd::AuthInformative;
use regreet::greetd::AuthMessage;
use regreet::greetd::AuthMessageType;
use regreet::greetd::AuthQuestion;
use regreet::greetd::CreateSessionResponse;
use regreet::greetd::DemoGreetd;
use regreet::greetd::ErrorType;
use regreet::greetd::Greetd;
use regreet::greetd::MockGreetd;
use regreet::greetd::Request;
use regreet::greetd::RequestError;
use regreet::greetd::Response;
use regreet::greetd::StartableSession;

fn ok(response: Response) -> Result<Response, String> {
    Ok(response)
}

fn prompt(kind: AuthMessageType, text: &str) -> Response {
    Response::AuthMessage { auth_message_type: kind, auth_message: text.to_string() }
}

fn failure(error_type: ErrorType, text: &str) -> Response {
    Response::Error { error_type, description: text.to_string() }
}

fn startable(conn: u8) -> StartableSession<u8> {
    match Greetd::new(conn).create_session(ok(Response::Success)) {
        Ok(Ok(CreateSessionResponse::Success(session))) => session,
        other => panic!("unexpected {other:?}"),
    }
}

fn waiting(conn: u8, kind: AuthMessageType, text: &str) -> Prompt<u8> {
    match Greetd::new(conn).create_session(ok(prompt(kind, text))) {
        Ok(Ok(CreateSessionResponse::AuthQuestion(session))) => session,
        Ok(Ok(CreateSessionResponse::AuthInformative(session))) => session,
        other => panic!("unexpected {other:?}"),
    }
}

#[test]
fn requests_carry_their_arguments() {
    let client = Greetd::new(0u8);
    assert_eq!(
        client.create_session_request("alice"),
        Request::CreateSession { username: "alice".to_string() }
    );
    let session = startable(0);
    assert_eq!(
        session.start_session_request(vec!["sway".to_string()], vec!["A=b".to_string()]),
        Request::StartSession { cmd: vec!["sway".to_string()], env: vec!["A=b".to_string()] }
    );
    let question = waiting(0, AuthMessageType::Visible, "Code:");
    assert_eq!(
        question.respond_request(Some("1234".to_string())),
        Request::PostAuthMessageResponse { response: Some("1234".to_string()) }
    );
    assert_eq!(
        question.respond_request(None),
        Request::PostAuthMessageResponse { response: None }
    );
    assert_eq!(cancel_session_request(), Request::CancelSession);
}

#[test]
fn create_session_success_is_startable() {
    match Greetd::new(7u8).create_session(ok(Response::Success)) {
        Ok(Ok(CreateSessionResponse::Success(session))) => assert_eq!(session.into_connection(), 7),
        other => panic!("unexpected {other:?}"),
    }
}

#[test]
fn create_session_sorts_prompts_by_kind() {
    for (kind, question) in [
        (AuthMessageType::Visible, true),
        (AuthMessageType::Secret, true),
        (AuthMessageType::Info, false),
        (AuthMessageType::Error, false),
    ] {
        match Greetd::new(1u8).create_session(ok(prompt(kind, "text"))) {
            Ok(Ok(CreateSessionResponse::AuthQuestion(session))) => {
                assert!(question);
                assert_eq!(session.auth_question().prompt(), "text");
                assert_eq!(session.into_connection(), 1);
            }
            Ok(Ok(CreateSessionResponse::AuthInformative(session))) => {
                assert!(!question);
                assert_eq!(session.auth_informative().prompt(), "text");
                assert_eq!(session.into_connection(), 1);
            }
            other => panic!("unexpected {other:?}"),
        }
    }
}

#[test]
fn prompt_keeps_kind_and_text() {
    assert_eq!(
        waiting(0, AuthMessageType::Visible, "a").message(),
        AuthMessage::Visible("a")
    );
    assert_eq!(waiting(0, AuthMessageType::Secret, "b").message(), AuthMessage::Secret("b"));
    assert_eq!(waiting(0, AuthMessageType::Info, "c").message(), AuthMessage::Info("c"));
    assert_eq!(waiting(0, AuthMessageType::Error, "d").message(), AuthMessage::Error("d"));
    assert_eq!(
        waiting(0, AuthMessageType::Visible, "a").auth_question(),
        AuthQuestion::Visible("a")
    );
    assert_eq!(
        waiting(0, AuthMessageType::Secret, "b").auth_question(),
        AuthQuestion::Secret("b")
    );
    assert_eq!(
        waiting(0, AuthMessageType::Info, "c").auth_informative(),
        AuthInformative::Info("c")
    );
    assert_eq!(
        waiting(0, AuthMessageType::Error, "d").auth_informative(),
        AuthInformative::Error("d")
    );
}

#[test]
fn create_session_error_gives_the_client_back() {
    match Greetd::new(3u8).create_session(ok(failure(ErrorType::Error, "no such user"))) {
        Ok(Err((client, error))) => {
            assert_eq!(error, RequestError::Protocol("no such user".to_string()));
            assert_eq!(client.into_connection(), 3);
        }
        other => panic!("unexpected {other:?}"),
    }
    match Greetd::new(3u8).create_session(ok(failure(ErrorType::AuthError, "locked"))) {
        Ok(Err((_, error))) => assert_eq!(error, RequestError::Auth("locked".to_string())),
        other => panic!("unexpected {other:?}"),
    }
}

#[test]
fn respond_chains_prompts_and_keeps_the_prompt_on_error() {
    let question = waiting(4, AuthMessageType::Secret, "Password:");
    let question = match question.respond(ok(failure(ErrorType::AuthError, "Incorrect password"))) {
        Ok(Err((question, error))) => {
            assert_eq!(error, RequestError::Auth("Incorrect password".to_string()));
            assert_eq!(question.message(), AuthMessage::Secret("Password:"));
            question
        }
        other => panic!("unexpected {other:?}"),
    };
    let informative = match question.respond(ok(prompt(AuthMessageType::Info, "Touch sensor"))) {
        Ok(Ok(CreateSessionResponse::AuthInformative(session))) => session,
        other => panic!("unexpected {other:?}"),
    };
    assert_eq!(informative.message(), AuthMessage::Info("Touch sensor"));
    match informative.respond(ok(Response::Success)) {
        Ok(Ok(CreateSessionResponse::Success(session))) => assert_eq!(session.into_connection(), 4),
        other => panic!("unexpected {other:?}"),
    }
}

#[test]
fn start_session_error_stays_startable() {
    match startable(5).start_session(ok(failure(ErrorType::Error, "bad command"))) {
        Ok(Err((session, error))) => {
            assert_eq!(error, RequestError::Protocol("bad command".to_string()));
            assert_eq!(session.into_connection(), 5);
        }
        other => panic!("unexpected {other:?}"),
    }
    match startable(5).start_session(ok(Response::Success)) {
        Ok(Ok(started)) => assert_eq!(started.into_connection(), 5),
        other => panic!("unexpected {other:?}"),
    }
}

#[test]
fn cancel_session_yields_not_created_or_the_state_back() {
    match startable(6).cancel_session(ok(Response::Success)) {
        Ok(Ok(client)) => assert_eq!(client.into_connection(), 6),
        other => panic!("unexpected {other:?}"),
    }
    match startable(6).cancel_session(ok(failure(ErrorType::Error, "busy"))) {
        Ok(Err((session, error))) => {
            assert_eq!(error, RequestError::Protocol("busy".to_string()));
            assert_eq!(session.into_connection(), 6);
        }
        other => panic!("unexpected {other:?}"),
    }
    match waiting(6, AuthMessageType::Secret, "Password:").cancel_session(ok(Response::Success)) {
        Ok(Ok(client)) => assert_eq!(client.into_connection(), 6),
        other => panic!("unexpected {other:?}"),
    }
    match waiting(6, AuthMessageType::Info, "Wait").cancel_session(ok(failure(
        ErrorType::AuthError,
        "no",
    ))) {
        Ok(Err((session, error))) => {
            assert_eq!(error, RequestError::Auth("no".to_string()));
            assert_eq!(session.message(), AuthMessage::Info("Wait"));
        }
        other => panic!("unexpected {other:?}"),
    }
}

#[test]
fn cancel_twice_is_legal() {
    let client = match startable(8).cancel_session(ok(Response::Success)) {
        Ok(Ok(client)) => client,
        other => panic!("unexpected {other:?}"),
    };
    let client = match client.cancel_session(ok(Response::Success)) {
        Ok(Ok(client)) => client,
        other => panic!("unexpected {other:?}"),
    };
    match client.cancel_session(ok(failure(ErrorType::Error, "nothing to cancel"))) {
        Ok(Err((client, error))) => {
            assert_eq!(error, RequestError::Protocol("nothing to cancel".to_string()));
            assert_eq!(client.into_connection(), 8);
        }
        other => panic!("unexpected {other:?}"),
    }
}

#[test]
fn failure_of_the_connection_gives_the_state_back() {
    match Greetd::new(2u8).create_session(Err("EOF")) {
        Err((client, failure)) => {
            assert_eq!(failure, "EOF");
            assert_eq!(client.into_connection(), 2);
        }
        other => panic!("unexpected {other:?}"),
    }
    match waiting(2, AuthMessageType::Secret, "Password:").respond(Err(5)) {
        Err((question, failure)) => {
            assert_eq!(failure, 5);
            assert_eq!(question.message(), AuthMessage::Secret("Password:"));
        }
        other => panic!("unexpected {other:?}"),
    }
    match startable(2).start_session(Err(())) {
        Err((session, ())) => assert_eq!(session.into_connection(), 2),
        other => panic!("unexpected {other:?}"),
    }
    match startable(2).cancel_session(Err(())) {
        Err((session, ())) => assert_eq!(session.into_connection(), 2),
        other => panic!("unexpected {other:?}"),
    }
    match waiting(2, AuthMessageType::Info, "Wait").cancel_session(Err(())) {
        Err((session, ())) => assert_eq!(session.message(), AuthMessage::Info("Wait")),
        other => panic!("unexpected {other:?}"),
    }
    match Greetd::new(2u8).cancel_session(Err(())) {
        Err((client, ())) => assert_eq!(client.into_connection(), 2),
        other => panic!("unexpected {other:?}"),
    }
}

#[test]
fn connection_can_be_used_between_the_halves_of_an_operation() {
    let mut client = Greetd::new(vec![1u8]);
    client.connection_mut().push(2);
    let mut session = match client.create_session(ok(prompt(AuthMessageType::Visible, "Name:"))) {
        Ok(Ok(CreateSessionResponse::AuthQuestion(session))) => session,
        other => panic!("unexpected {other:?}"),
    };
    session.connection_mut().push(3);
    assert_eq!(session.message(), AuthMessage::Visible("Name:"));
    let mut session = match session.respond(ok(Response::Success)) {
        Ok(Ok(CreateSessionResponse::Success(session))) => session,
        other => panic!("unexpected {other:?}"),
    };
    session.connection_mut().push(4);
    assert_eq!(session.into_connection(), vec![1, 2, 3, 4]);
}

#[test]
fn request_error_messages() {
    assert_eq!(RequestError::Protocol("x".to_string()).message(), "Greetd error: x");
    assert_eq!(
        RequestError::Auth("wrong".to_string()).message(),
        "Greetd authentication error: wrong"
    );
    assert_eq!(
        RequestError::new(ErrorType::Error, "a".to_string()),
        RequestError::Protocol("a".to_string())
    );
    assert_eq!(
        RequestError::new(ErrorType::AuthError, "a".to_string()),
        RequestError::Auth("a".to_string())
    );
}

#[test]
fn demo_daemon_asks_for_the_fingerprint() {
    let demo = DemoGreetd {};
    let touch = prompt(AuthMessageType::Info, "Touch the fingerprint sensor");
    assert_eq!(demo.create_session("anyone"), touch);
    assert_eq!(demo.exchange(&Request::CreateSession { username: "bob".to_string() }), touch);
    assert_eq!(demo.message(), AuthMessage::Info("Touch the fingerprint sensor"));
    assert_eq!(demo.respond(None), Response::Success);
    assert_eq!(demo.start_session(vec![], vec![]), Response::Success);
    assert_eq!(demo.cancel_session(), Response::Success);
    assert_eq!(
        demo.exchange(&Request::PostAuthMessageResponse { response: None }),
        Response::Success
    );
    assert_eq!(demo.exchange(&Request::CancelSession), Response::Success);
}

#[test]
fn mock_daemon_asks_for_a_password() {
    let mock = MockGreetd {};
    let password = prompt(AuthMessageType::Secret, "Password");
    assert_eq!(mock.create_session("anyone"), password);
    assert_eq!(mock.exchange(&Request::CreateSession { username: "bob".to_string() }), password);
    assert_eq!(mock.message(), AuthMessage::Secret("Password"));
    assert_eq!(mock.respond(Some("x".to_string())), Response::Success);
    assert_eq!(mock.start_session(vec![], vec![]), Response::Success);
    assert_eq!(mock.cancel_session(), Response::Success);
    assert_eq!(
        mock.exchange(&Request::StartSession { cmd: vec![], env: vec![] }),
        Response::Success
    );
}
