use oauth_capture::config::{get_listen_address, get_oauth_redirect_uri, CaptureConfig, Platform};
use oauth_capture::lifecycle::{start_oauth_server, Launch, LifecycleController, SessionError};
use oauth_capture::pages::{Page, CONTENT_TYPE_HEADER, HTML_CONTENT_TYPE};
use oauth_capture::session::{Effect, ListenerEvent, Phase, Topic};
use oauth_capture::signal::Outcome;
use tiny_http::{Header, Response, Server};

#[test]
fn content_type_is_a_header_that_the_server_takes() {
    let header = Header::from_bytes(CONTENT_TYPE_HEADER.as_bytes(), HTML_CONTENT_TYPE.as_bytes())
        .expect("an ASCII header");
    assert!(header.field.equiv("Content-Type"));
    assert_eq!(header.value.as_str(), "text/html");
}

#[test]
fn page_response_is_one_that_the_server_sends() {
    for page in [Page::Callback, Page::Success] {
        let plain = page.response();
        let content_type =
            Header::from_bytes(CONTENT_TYPE_HEADER.as_bytes(), plain.content_type.as_bytes())
                .expect("an ASCII header");
        let response = Response::from_string(plain.body)
            .with_status_code(plain.status)
            .with_header(content_type);
        assert_eq!(response.status_code().0, 200);
        assert_eq!(response.data_length(), Some(page.body().len()));
        let media_types: Vec<&str> = response
            .headers()
            .iter()
            .filter(|header| header.field.equiv("Content-Type"))
            .map(|header| header.value.as_str())
            .collect();
        assert_eq!(media_types, vec!["text/html"]);
        assert_eq!(response.into_reader().into_inner(), page.body().as_bytes());
    }
}

#[test]
fn listen_address_is_one_that_the_server_binds() {
    let mut bound = None;
    for port in 49200u16..49300 {
        let address = get_listen_address(port);
        if let Ok(server) = Server::http(address.as_str()) {
            bound = Some((port, address, server));
            break;
        }
    }
    let (port, address, server) = bound.expect("no port in the range could be bound");
    let listening = server.server_addr().to_ip().expect("an IP listener");
    assert!(listening.ip().is_loopback());
    assert_eq!(listening.port(), port);
    assert_eq!(listening.to_string(), address);
    let config = CaptureConfig { port, external_redirect_uri: String::new() };
    assert_eq!(
        get_oauth_redirect_uri(Platform::Desktop, &config),
        format!("http://{}/callback", listening)
    );
}

#[test]
fn occupied_port_fails_the_session_and_releases_the_caller() {
    let occupant = Server::http("127.0.0.1:0").expect("no loopback port is free");
    let port = occupant.server_addr().to_ip().expect("an IP listener").port();

    let config = CaptureConfig { port, external_redirect_uri: String::new() };
    let mut controller = LifecycleController::new(Platform::Desktop, config);
    let (mut session, mut signal, address) = match start_oauth_server(&mut controller) {
        Ok(Launch::Listen { session, signal, address }) => (session, signal, address),
        other => panic!("no listener was asked for: {:?}", other),
    };
    let cause = match Server::http(address.as_str()) {
        Ok(_) => panic!("a second listener was bound to {}", address),
        Err(error) => error.to_string(),
    };
    assert!(!cause.is_empty());

    let effects = session.step(ListenerEvent::BindFailed(cause.clone()));
    let report = format!("Failed to start server: {}", cause);
    assert_eq!(
        effects,
        vec![
            Effect::Broadcast(Topic::StartFailed, report.clone()),
            Effect::Signal(Outcome::Failed(report.clone())),
        ]
    );
    assert_eq!(session.phase(), Phase::Failed);
    for effect in effects {
        if let Effect::Signal(outcome) = effect {
            assert!(signal.notify(outcome));
        }
    }
    assert!(!signal.is_open());
    assert_eq!(controller.conclude(signal.take()), Err(SessionError::StartFailed(report)));
    assert!(!controller.is_active());
    drop(occupant);
}
