use regreet::greetd::AuthMessageType;
use regreet::greetd::ErrorType;
use regreet::greetd::Greetd;
use regreet::greetd::Request;
use regreet::greetd::Response;
use regreet::gui::component::greetd_controls::Effects;
use regreet::gui::component::CommandOutput;
use regreet::gui::component::GreetdControls;
use regreet::gui::component::GreetdControlsInit;
use regreet::gui::component::GreetdControlsMsg;
use regreet::gui::component::GreetdControlsOutput;
use regreet::gui::component::GreetdState;

/// A connection that only counts the exchanges made on it.
#[derive(Debug, PartialEq, Eq)]
struct Wire(u32);

fn strings(words: &[&str]) -> Vec<String> {
    words.iter().map(|w| w.to_string()).collect()
}

fn controller(command: &[&str]) -> GreetdControls<Wire> {
    GreetdControls::init(GreetdControlsInit {
        greetd_state: GreetdState::NotCreated(Greetd::new(Wire(0))),
        username: "alice".to_string(),
        command: strings(command),
        env: strings(&["LANG=C"]),
    })
}

/// Makes the exchange that `effects` asks for with a daemon that answers
/// `response`, and gives what the exchange ends in.
fn answer(effects: Effects<Wire>, response: Response) -> (Request, CommandOutput<Wire>) {
    let mut exchange = effects.exchange.expect("the step asks for an exchange");
    exchange.connection_mut().0 += 1;
    let request = exchange.request().clone();
    let outcome = Ok(response);
    assert!(exchange.accepts(&outcome));
    (request, exchange.complete(outcome))
}

fn info(text: &str) -> Response {
    Response::AuthMessage {
        auth_message_type: AuthMessageType::Info,
        auth_message: text.to_string(),
    }
}

fn secret(text: &str) -> Response {
    Response::AuthMessage {
        auth_message_type: AuthMessageType::Secret,
        auth_message: text.to_string(),
    }
}

#[test]
fn informative_prompt_is_acknowledged_with_null_then_startable() {
    let mut controls = controller(&[]);
    controls.update(GreetdControlsMsg::UpdateSession(None));

    let effects = controls.update(GreetdControlsMsg::AdvanceAuthentication(None));
    assert_eq!(
        effects.outputs,
        vec![GreetdControlsOutput::CreatedSessionFor("alice".to_string())]
    );
    assert!(matches!(controls.greetd_state(), GreetdState::Loading { .. }));
    let (request, output) = answer(effects, info("Touch sensor"));
    assert_eq!(request, Request::CreateSession { username: "alice".to_string() });

    let effects = controls.update_cmd(output);
    assert!(effects.exchange.is_none());
    assert!(effects.outputs.is_empty());
    match controls.greetd_state() {
        GreetdState::AuthInformative(session) => {
            assert_eq!(session.auth_informative().prompt(), "Touch sensor");
        }
        other => panic!("unexpected state {other:?}"),
    }

    let effects = controls.update(GreetdControlsMsg::AdvanceAuthentication(None));
    let (request, output) = answer(effects, Response::Success);
    assert_eq!(request, Request::PostAuthMessageResponse { response: None });
    let CommandOutput::GreetdResponse { greetd_state, error } = &output;
    assert!(matches!(greetd_state, GreetdState::Startable(_)));
    assert!(error.is_none());

    // No command is configured, so the session is not started.
    let effects = controls.update_cmd(output);
    assert!(effects.exchange.is_none());
    assert!(matches!(controls.greetd_state(), GreetdState::Startable(_)));
}

#[test]
fn startable_session_is_started_without_further_input() {
    let mut controls = controller(&["sway", "--debug"]);
    let effects = controls.update(GreetdControlsMsg::AdvanceAuthentication(None));
    let (_, output) = answer(effects, Response::Success);

    let effects = controls.update_cmd(output);
    assert!(effects.outputs.is_empty());
    match controls.greetd_state() {
        GreetdState::Loading { message, .. } => assert_eq!(message, "Starting session"),
        other => panic!("unexpected state {other:?}"),
    }
    let (request, output) = answer(effects, Response::Success);
    assert_eq!(
        request,
        Request::StartSession { cmd: strings(&["sway", "--debug"]), env: strings(&["LANG=C"]) }
    );

    let effects = controls.update_cmd(output);
    assert_eq!(effects.outputs, vec![GreetdControlsOutput::SessionStarted]);
    assert!(effects.exchange.is_none());
    assert!(matches!(controls.greetd_state(), GreetdState::SessionStarted));
}

#[test]
fn empty_command_is_a_local_error() {
    let mut controls = controller(&[]);
    let effects = controls.update(GreetdControlsMsg::AdvanceAuthentication(None));
    let (_, output) = answer(effects, Response::Success);

    let invalid = GreetdControlsOutput::NotifyError(
        "Selected session cannot be executed because it is invalid".to_string(),
    );
    let effects = controls.update_cmd(output);
    assert!(effects.exchange.is_none());
    assert_eq!(effects.outputs, vec![invalid.clone()]);
    assert!(matches!(controls.greetd_state(), GreetdState::Startable(_)));

    let effects = controls.update(GreetdControlsMsg::AdvanceAuthentication(None));
    assert!(effects.exchange.is_none());
    assert_eq!(effects.outputs, vec![invalid]);
    assert!(matches!(controls.greetd_state(), GreetdState::Startable(_)));
}

#[test]
fn wrong_password_keeps_the_question_for_a_retry() {
    let mut controls = controller(&["sway"]);
    let effects = controls.update(GreetdControlsMsg::AdvanceAuthentication(None));
    let (_, output) = answer(effects, secret("Password:"));
    let effects = controls.update_cmd(output);
    assert!(effects.exchange.is_none());
    assert!(controls.reset_question_inputs_event());

    let effects =
        controls.update(GreetdControlsMsg::AdvanceAuthentication(Some("hunter1".to_string())));
    assert!(!controls.reset_question_inputs_event());
    let (request, output) = answer(
        effects,
        Response::Error {
            error_type: ErrorType::AuthError,
            description: "Incorrect password".to_string(),
        },
    );
    assert_eq!(
        request,
        Request::PostAuthMessageResponse { response: Some("hunter1".to_string()) }
    );

    let effects = controls.update_cmd(output);
    assert!(effects.exchange.is_none());
    assert_eq!(
        effects.outputs,
        vec![GreetdControlsOutput::NotifyError(
            "Greetd authentication error: Incorrect password".to_string()
        )]
    );
    match controls.greetd_state() {
        GreetdState::AuthQuestion { session } => {
            assert_eq!(session.auth_question().prompt(), "Password:");
        }
        other => panic!("unexpected state {other:?}"),
    }

    let effects =
        controls.update(GreetdControlsMsg::AdvanceAuthentication(Some("hunter2".to_string())));
    let (request, output) = answer(effects, Response::Success);
    assert_eq!(
        request,
        Request::PostAuthMessageResponse { response: Some("hunter2".to_string()) }
    );
    let CommandOutput::GreetdResponse { greetd_state, error } = output;
    assert!(error.is_none());
    match greetd_state {
        GreetdState::Startable(session) => assert_eq!(session.into_connection(), Wire(3)),
        other => panic!("unexpected state {other:?}"),
    }
}

fn error(error_type: ErrorType, text: &str) -> Response {
    Response::Error { error_type, description: text.to_string() }
}

fn category(state: &GreetdState<Wire>) -> &'static str {
    match state {
        GreetdState::NotCreated(_) => "NotCreated",
        GreetdState::Startable(_) => "Startable",
        GreetdState::AuthQuestion { .. } => "AuthQuestion",
        GreetdState::AuthInformative(_) => "AuthInformative",
        GreetdState::Loading { .. } => "Loading",
        GreetdState::SessionStarted => "SessionStarted",
    }
}

/// Brings a controller without a command into the state that the daemon's
/// answer to `create_session` selects.
fn controller_in(response: Response) -> GreetdControls<Wire> {
    let mut controls = controller(&[]);
    controls.update(GreetdControlsMsg::UpdateSession(None));
    let effects = controls.update(GreetdControlsMsg::AdvanceAuthentication(None));
    let (_, output) = answer(effects, response);
    controls.update_cmd(output);
    controls
}

#[test]
fn daemon_error_keeps_the_category_of_every_state() {
    // create_session from NotCreated
    let mut controls = controller(&["sway"]);
    let effects = controls.update(GreetdControlsMsg::AdvanceAuthentication(None));
    let (_, output) = answer(effects, error(ErrorType::Error, "no"));
    let effects = controls.update_cmd(output);
    assert_eq!(category(controls.greetd_state()), "NotCreated");
    assert_eq!(
        effects.outputs,
        vec![
            GreetdControlsOutput::NotifyError("Greetd error: no".to_string()),
            GreetdControlsOutput::SessionCanceledFor("alice".to_string()),
        ]
    );

    // respond and cancel from both kinds of prompt
    for (response, name) in
        [(secret("Password:"), "AuthQuestion"), (info("Touch"), "AuthInformative")]
    {
        let mut controls = controller_in(response.clone());
        assert_eq!(category(controls.greetd_state()), name);
        let effects = controls.update(GreetdControlsMsg::AdvanceAuthentication(None));
        let (_, output) = answer(effects, error(ErrorType::AuthError, "no"));
        let effects = controls.update_cmd(output);
        assert!(effects.exchange.is_none());
        assert_eq!(category(controls.greetd_state()), name);

        let effects = controls.update(GreetdControlsMsg::Cancel);
        let (request, output) = answer(effects, error(ErrorType::Error, "no"));
        assert_eq!(request, Request::CancelSession);
        let effects = controls.update_cmd(output);
        assert_eq!(
            effects.outputs,
            vec![GreetdControlsOutput::NotifyError(
                "Reported error: Greetd error: no".to_string()
            )]
        );
        assert_eq!(category(controls.greetd_state()), name);
    }

    // start_session and cancel from Startable
    let mut controls = controller_in(Response::Success);
    controls.update(GreetdControlsMsg::UpdateSession(Some(strings(&["sway"]))));
    let effects = controls.update(GreetdControlsMsg::AdvanceAuthentication(None));
    let (request, output) = answer(effects, error(ErrorType::Error, "no"));
    assert!(matches!(request, Request::StartSession { .. }));
    let effects = controls.update_cmd(output);
    assert!(effects.exchange.is_none());
    assert_eq!(category(controls.greetd_state()), "Startable");
    let effects = controls.update(GreetdControlsMsg::Cancel);
    let (_, output) = answer(effects, error(ErrorType::Error, "no"));
    let effects = controls.update_cmd(output);
    assert!(effects.exchange.is_none());
    assert_eq!(category(controls.greetd_state()), "Startable");
}

#[test]
fn cancel_yields_not_created_and_cancel_again_sends_nothing() {
    for response in [Response::Success, secret("Password:"), info("Touch")] {
        let mut controls = controller_in(response);
        let effects = controls.update(GreetdControlsMsg::Cancel);
        assert!(controls.reset_question_inputs_event());
        match controls.greetd_state() {
            GreetdState::Loading { message, .. } => assert_eq!(message, "Canceling session"),
            other => panic!("unexpected state {other:?}"),
        }
        let (request, output) = answer(effects, Response::Success);
        assert_eq!(request, Request::CancelSession);
        let effects = controls.update_cmd(output);
        assert_eq!(
            effects.outputs,
            vec![GreetdControlsOutput::SessionCanceledFor("alice".to_string())]
        );
        assert_eq!(category(controls.greetd_state()), "NotCreated");
        assert!(controls.can_change_user());

        let effects = controls.update(GreetdControlsMsg::Cancel);
        assert!(effects.exchange.is_none());
        assert!(effects.outputs.is_empty());
        assert_eq!(category(controls.greetd_state()), "NotCreated");

        // The connection is reusable for a fresh session.
        let effects = controls.update(GreetdControlsMsg::AdvanceAuthentication(None));
        let (request, _) = answer(effects, Response::Success);
        assert_eq!(request, Request::CreateSession { username: "alice".to_string() });
    }
}

#[test]
fn connection_failure_keeps_the_state_and_is_reported() {
    let mut controls = controller(&["sway"]);
    let effects = controls.update(GreetdControlsMsg::AdvanceAuthentication(None));
    let exchange = effects.exchange.expect("an exchange");
    let output = exchange.complete(Err("EOF".to_string()));
    let effects = controls.update_cmd(output);
    assert_eq!(effects.outputs[0], GreetdControlsOutput::NotifyError("EOF".to_string()));
    assert_eq!(category(controls.greetd_state()), "NotCreated");

    let mut controls = controller_in(secret("Password:"));
    let effects = controls.update(GreetdControlsMsg::Cancel);
    let exchange = effects.exchange.expect("an exchange");
    let output = exchange.complete(Err("EOF".to_string()));
    let effects = controls.update_cmd(output);
    assert_eq!(
        effects.outputs,
        vec![GreetdControlsOutput::NotifyError("IPC error: EOF".to_string())]
    );
    assert_eq!(category(controls.greetd_state()), "AuthQuestion");
}

#[test]
fn user_can_be_changed_only_while_no_session_exists() {
    let mut controls = controller(&["sway"]);
    assert!(controls.can_change_user());
    let effects = controls.update(GreetdControlsMsg::UpdateUser("bob".to_string()));
    assert!(effects.outputs.is_empty() && effects.exchange.is_none());
    assert_eq!(controls.username(), "bob");
    let effects = controls.update(GreetdControlsMsg::AdvanceAuthentication(None));
    assert!(!controls.can_change_user());
    let (request, _) = answer(effects, Response::Success);
    assert_eq!(request, Request::CreateSession { username: "bob".to_string() });
}

#[test]
fn prompt_is_not_accepted_as_answer_to_start_or_cancel() {
    let mut controls = controller_in(Response::Success);
    let effects = controls.update(GreetdControlsMsg::Cancel);
    let exchange = effects.exchange.expect("an exchange");
    assert!(!exchange.accepts(&Ok(secret("Password:"))));
    assert!(exchange.accepts(&Ok(Response::Success)));
    assert!(exchange.accepts(&Err("EOF".to_string())));

    let mut controls = controller(&["sway"]);
    let effects = controls.update(GreetdControlsMsg::AdvanceAuthentication(None));
    let exchange = effects.exchange.expect("an exchange");
    assert!(exchange.accepts(&Ok(secret("Password:"))));
}

#[test]
fn controller_starts_in_the_state_it_is_given() {
    let question = match Greetd::new(Wire(9)).create_session(Ok::<_, String>(secret("PIN:"))) {
        Ok(Ok(response)) => GreetdState::from_response(response),
        _ => panic!("a prompt is no error"),
    };
    let mut controls = GreetdControls::init(GreetdControlsInit {
        greetd_state: question,
        username: "carol".to_string(),
        command: strings(&["sway"]),
        env: vec![],
    });
    assert!(controls.just_switched_screens_event());
    assert!(!controls.reset_question_inputs_event());
    assert!(!controls.can_change_user());
    // The session exists already, so nothing is announced.
    let effects = controls.update(GreetdControlsMsg::UpdateSession(None));
    assert!(effects.outputs.is_empty());
    assert!(!controls.just_switched_screens_event());
    assert_eq!(category(controls.greetd_state()), "AuthQuestion");
}

#[test]
fn loading_states_show_their_message() {
    match GreetdState::<Wire>::loading("Wait") {
        GreetdState::Loading { message, message_type } => {
            assert_eq!(message, "Wait");
            assert_eq!(message_type, regreet::gui::component::greetd_controls::MessageType::Info);
        }
        other => panic!("unexpected state {other:?}"),
    }
    match GreetdState::<Wire>::loading_with_error("Bad") {
        GreetdState::Loading { message, message_type } => {
            assert_eq!(message, "Bad");
            assert_eq!(message_type, regreet::gui::component::greetd_controls::MessageType::Error);
        }
        other => panic!("unexpected state {other:?}"),
    }
}

#[test]
fn the_three_workflows_can_be_called_directly() {
    let mut controls = controller(&["sway"]);
    controls.change_user("dave".to_string());
    assert_eq!(controls.username(), "dave");
    let effects = controls.cancel_session();
    assert!(effects.exchange.is_none() && effects.outputs.is_empty());

    let effects = controls.advance_authentication(Some("ignored".to_string()));
    assert!(effects.outputs.is_empty());
    let (request, output) = answer(effects, secret("Password:"));
    assert_eq!(request, Request::CreateSession { username: "dave".to_string() });
    controls.update_cmd(output);

    let effects = controls.advance_authentication(Some("hunter2".to_string()));
    let (request, output) = answer(effects, info("Touch"));
    assert_eq!(
        request,
        Request::PostAuthMessageResponse { response: Some("hunter2".to_string()) }
    );
    controls.update_cmd(output);

    // An informative prompt is acknowledged without a credential.
    let effects = controls.advance_authentication(Some("ignored".to_string()));
    let exchange = effects.exchange.expect("an exchange");
    assert_eq!(exchange.request(), &Request::PostAuthMessageResponse { response: None });
    let effects = controls.update_cmd(exchange.complete(Ok(error(ErrorType::Error, "no"))));
    assert!(effects.exchange.is_none());

    let effects = controls.cancel_session();
    let (request, output) = answer(effects, Response::Success);
    assert_eq!(request, Request::CancelSession);
    controls.update_cmd(output);
    assert_eq!(category(controls.greetd_state()), "NotCreated");

    // While an exchange is under way, nothing else is started.
    let waiting = controls.advance_authentication(None);
    assert!(waiting.exchange.is_some());
    assert_eq!(category(controls.greetd_state()), "Loading");
    assert!(controls.advance_authentication(None).exchange.is_none());
    assert!(controls.cancel_session().exchange.is_none());
    assert_eq!(category(controls.greetd_state()), "Loading");
}
