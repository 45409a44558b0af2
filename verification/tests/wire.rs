use greetd_ipc::codec::SyncCodec;
use regreet::greetd::AuthMessageType;
use regreet::greetd::ErrorType;
use regreet::greetd::Request;
use regreet::greetd::Response;

fn to_wire(request: &Request) -> greetd_ipc::Request {
    match request.clone() {
        Request::CreateSession { username } => greetd_ipc::Request::CreateSession { username },
        Request::PostAuthMessageResponse { response } => {
            greetd_ipc::Request::PostAuthMessageResponse { response }
        }
        Request::StartSession { cmd, env } => greetd_ipc::Request::StartSession { cmd, env },
        Request::CancelSession => greetd_ipc::Request::CancelSession,
    }
}

fn request_from_wire(request: greetd_ipc::Request) -> Request {
    match request {
        greetd_ipc::Request::CreateSession { username } => Request::CreateSession { username },
        greetd_ipc::Request::PostAuthMessageResponse { response } => {
            Request::PostAuthMessageResponse { response }
        }
        greetd_ipc::Request::StartSession { cmd, env } => Request::StartSession { cmd, env },
        greetd_ipc::Request::CancelSession => Request::CancelSession,
    }
}

fn response_to_wire(response: &Response) -> greetd_ipc::Response {
    match response.clone() {
        Response::Success => greetd_ipc::Response::Success,
        Response::Error { error_type, description } => greetd_ipc::Response::Error {
            error_type: match error_type {
                ErrorType::Error => greetd_ipc::ErrorType::Error,
                ErrorType::AuthError => greetd_ipc::ErrorType::AuthError,
            },
            description,
        },
        Response::AuthMessage { auth_message_type, auth_message } => {
            greetd_ipc::Response::AuthMessage {
                auth_message_type: match auth_message_type {
                    AuthMessageType::Visible => greetd_ipc::AuthMessageType::Visible,
                    AuthMessageType::Secret => greetd_ipc::AuthMessageType::Secret,
                    AuthMessageType::Info => greetd_ipc::AuthMessageType::Info,
                    AuthMessageType::Error => greetd_ipc::AuthMessageType::Error,
                },
                auth_message,
            }
        }
    }
}

fn response_from_wire(response: greetd_ipc::Response) -> Response {
    match response {
        greetd_ipc::Response::Success => Response::Success,
        greetd_ipc::Response::Error { error_type, description } => Response::Error {
            error_type: match error_type {
                greetd_ipc::ErrorType::Error => ErrorType::Error,
                greetd_ipc::ErrorType::AuthError => ErrorType::AuthError,
            },
            description,
        },
        greetd_ipc::Response::AuthMessage { auth_message_type, auth_message } => {
            Response::AuthMessage {
                auth_message_type: match auth_message_type {
                    greetd_ipc::AuthMessageType::Visible => AuthMessageType::Visible,
                    greetd_ipc::AuthMessageType::Secret => AuthMessageType::Secret,
                    greetd_ipc::AuthMessageType::Info => AuthMessageType::Info,
                    greetd_ipc::AuthMessageType::Error => AuthMessageType::Error,
                },
                auth_message,
            }
        }
    }
}

fn strings(words: &[&str]) -> Vec<String> {
    words.iter().map(|w| w.to_string()).collect()
}

#[test]
fn requests_survive_the_wire() {
    for request in [
        Request::CreateSession { username: "alice".to_string() },
        Request::CreateSession { username: "".to_string() },
        Request::CreateSession { username: "\"ä\\\n越".to_string() },
        Request::PostAuthMessageResponse { response: None },
        Request::PostAuthMessageResponse { response: Some("".to_string()) },
        Request::PostAuthMessageResponse { response: Some("hunter2 \u{0}".to_string()) },
        Request::StartSession { cmd: strings(&["sway", "--debug"]), env: strings(&["A=b"]) },
        Request::StartSession { cmd: vec![], env: vec![] },
        Request::CancelSession,
    ] {
        let mut frame: Vec<u8> = Vec::new();
        to_wire(&request).write_to(&mut frame).expect("a request can be written");
        assert!(frame.len() > 4);
        let read = greetd_ipc::Request::read_from(&mut frame.as_slice()).expect("and read");
        assert_eq!(request_from_wire(read), request);
    }
}

#[test]
fn responses_survive_the_wire() {
    for response in [
        Response::Success,
        Response::Error { error_type: ErrorType::Error, description: "oops".to_string() },
        Response::Error {
            error_type: ErrorType::AuthError,
            description: "Incorrect password".to_string(),
        },
        Response::AuthMessage {
            auth_message_type: AuthMessageType::Visible,
            auth_message: "Name:".to_string(),
        },
        Response::AuthMessage {
            auth_message_type: AuthMessageType::Secret,
            auth_message: "Password:".to_string(),
        },
        Response::AuthMessage {
            auth_message_type: AuthMessageType::Info,
            auth_message: "Touch sensor".to_string(),
        },
        Response::AuthMessage {
            auth_message_type: AuthMessageType::Error,
            auth_message: "".to_string(),
        },
    ] {
        let mut frame: Vec<u8> = Vec::new();
        response_to_wire(&response).write_to(&mut frame).expect("a response can be written");
        let read = greetd_ipc::Response::read_from(&mut frame.as_slice()).expect("and read");
        assert_eq!(response_from_wire(read), response);
    }
}

#[test]
fn messages_are_written_as_tagged_json() {
    let mut frame: Vec<u8> = Vec::new();
    to_wire(&Request::PostAuthMessageResponse { response: None })
        .write_to(&mut frame)
        .expect("a request can be written");
    assert_eq!(&frame[4..], br#"{"type":"post_auth_message_response","response":null}"#);

    let text = br#"{"type":"auth_message","auth_message_type":"info","auth_message":"Touch sensor"}"#;
    let mut frame = (text.len() as u32).to_ne_bytes().to_vec();
    frame.extend_from_slice(text);
    let read = greetd_ipc::Response::read_from(&mut frame.as_slice()).expect("a response");
    assert_eq!(
        response_from_wire(read),
        Response::AuthMessage {
            auth_message_type: AuthMessageType::Info,
            auth_message: "Touch sensor".to_string(),
        }
    );
}
