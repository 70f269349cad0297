use registration_bridge::client::{
    classify_status, register_url, registration_request, Action, Event, Phase, RegisterError,
    Registration,
};
use registration_bridge::config::{AppConfig, BindSetting};
use registration_bridge::mac::calculate_mac;

fn config() -> AppConfig {
    AppConfig::from_values(
        Some("token".to_string()),
        Some("http://synapse:8008/".to_string()),
        Some("secret".to_string()),
        BindSetting::Unset,
    )
    .unwrap()
}

fn begin() -> Registration {
    let (registration, action) =
        Registration::start(&config(), "alice".to_string(), "wonderland".to_string());
    match action {
        Action::Get(url) => assert_eq!(url, "http://synapse:8008/_synapse/admin/v1/register"),
        other => panic!("{:?}", other),
    }
    assert_eq!(registration.phase, Phase::AwaitingNonce);
    assert_eq!(registration.username, "alice");
    assert_eq!(registration.password, "wonderland");
    registration
}

fn posted() -> Registration {
    let mut registration = begin();
    registration.advance(&config(), Event::Status(200, String::new()));
    registration.advance(&config(), Event::Nonce("abc".to_string()));
    assert_eq!(registration.phase, Phase::AwaitingVerdict);
    registration
}

fn result_of(action: Action) -> Result<(), RegisterError> {
    match action {
        Action::Done(result) => result,
        other => panic!("{:?}", other),
    }
}

#[test]
fn url_is_the_endpoint_below_the_server() {
    assert_eq!(register_url(&config()), "http://synapse:8008/_synapse/admin/v1/register");
}

#[test]
fn request_is_signed_and_never_for_an_administrator() {
    let body = registration_request(
        &config(),
        "abc".to_string(),
        &"alice".to_string(),
        &"wonderland".to_string(),
    );
    assert_eq!(body.nonce, "abc");
    assert_eq!(body.username, "alice");
    assert_eq!(body.password, "wonderland");
    assert!(!body.admin);
    assert_eq!(body.mac, "64eb900967179cc0af3b80cff09e7e6d055a1e28");
}

#[test]
fn status_200_is_success_and_400_an_existing_user() {
    assert!(matches!(classify_status(200), Some(Ok(()))));
    assert!(matches!(classify_status(400), Some(Err(RegisterError::UserExists))));
    for status in [100, 199, 201, 204, 301, 399, 401, 403, 404, 422, 429, 500, 502, 599] {
        assert!(classify_status(status).is_none(), "{}", status);
    }
}

#[test]
fn good_exchange_registers() {
    let mut registration = begin();
    let config = config();
    let action = registration.advance(&config, Event::Status(200, String::new()));
    assert!(matches!(action, Action::ReadNonce));
    assert_eq!(registration.phase, Phase::AwaitingNonceBody);
    let action = registration.advance(&config, Event::Nonce("abc".to_string()));
    match action {
        Action::Post(url, body) => {
            assert_eq!(url, "http://synapse:8008/_synapse/admin/v1/register");
            assert_eq!(body.nonce, "abc");
            assert_eq!(body.username, "alice");
            assert_eq!(body.password, "wonderland");
            assert!(!body.admin);
            assert_eq!(body.mac, calculate_mac("abc", "alice", "wonderland", "secret"));
        }
        other => panic!("{:?}", other),
    }
    assert_eq!(registration.phase, Phase::AwaitingVerdict);
    let action = registration.advance(&config, Event::Status(200, String::new()));
    assert!(matches!(result_of(action), Ok(())));
    assert_eq!(registration.phase, Phase::Finished);
}

#[test]
fn every_success_status_lets_the_nonce_be_read() {
    for status in [200, 201, 204, 299] {
        let mut registration = begin();
        let action = registration.advance(&config(), Event::Status(status, String::new()));
        assert!(matches!(action, Action::ReadNonce), "{}", status);
    }
}

#[test]
fn nonce_status_outside_success_is_unexpected() {
    for status in [100, 199, 300, 302, 400, 404, 500, 503] {
        let mut registration = begin();
        let action = registration.advance(&config(), Event::Status(status, "why".to_string()));
        match result_of(action) {
            Err(RegisterError::UnexpectedStatus(code, text)) => {
                assert_eq!(code, status);
                assert_eq!(text, "why");
            }
            other => panic!("{:?}", other),
        }
        assert_eq!(registration.phase, Phase::Finished);
    }
}

#[test]
fn unreachable_server_is_an_upstream_failure() {
    let mut registration = begin();
    let action = registration.advance(&config(), Event::Failed("connection refused".to_string()));
    match result_of(action) {
        Err(RegisterError::Upstream(text)) => assert_eq!(text, "connection refused"),
        other => panic!("{:?}", other),
    }
    assert_eq!(registration.phase, Phase::Finished);
}

#[test]
fn malformed_nonce_body_is_an_upstream_failure() {
    let mut registration = begin();
    registration.advance(&config(), Event::Status(200, String::new()));
    let action = registration.advance(&config(), Event::Failed("missing field `nonce`".to_string()));
    match result_of(action) {
        Err(RegisterError::Upstream(text)) => assert_eq!(text, "missing field `nonce`"),
        other => panic!("{:?}", other),
    }
    assert_eq!(registration.phase, Phase::Finished);
}

#[test]
fn failed_first_step_never_posts() {
    let mut registration = begin();
    registration.advance(&config(), Event::Failed("timeout".to_string()));
    for event in [
        Event::Nonce("abc".to_string()),
        Event::Status(200, String::new()),
        Event::Body(String::new()),
        Event::Failed(String::new()),
    ] {
        let action = registration.advance(&config(), event);
        match result_of(action) {
            Err(RegisterError::Upstream(text)) => assert_eq!(text, "reply out of order"),
            other => panic!("{:?}", other),
        }
        assert_eq!(registration.phase, Phase::Finished);
    }
}

#[test]
fn status_400_means_the_user_exists() {
    let mut registration = posted();
    let action = registration.advance(&config(), Event::Status(400, "Bad Request".to_string()));
    assert!(matches!(result_of(action), Err(RegisterError::UserExists)));
    assert_eq!(registration.phase, Phase::Finished);
}

#[test]
fn other_status_is_reported_with_its_body() {
    for status in [201, 204, 302, 401, 403, 404, 409, 422, 500, 503] {
        let mut registration = posted();
        let action = registration.advance(&config(), Event::Status(status, String::new()));
        assert!(matches!(action, Action::ReadBody), "{}", status);
        assert_eq!(registration.phase, Phase::AwaitingErrorBody(status));
        let action = registration.advance(&config(), Event::Body("{\"error\":\"nope\"}".to_string()));
        match result_of(action) {
            Err(RegisterError::UnexpectedStatus(code, text)) => {
                assert_eq!(code, status);
                assert_eq!(text, "{\"error\":\"nope\"}");
            }
            other => panic!("{:?}", other),
        }
        assert_eq!(registration.phase, Phase::Finished);
    }
}

#[test]
fn unreadable_error_body_counts_as_empty() {
    let mut registration = posted();
    registration.advance(&config(), Event::Status(500, String::new()));
    let action = registration.advance(&config(), Event::Failed("reset".to_string()));
    match result_of(action) {
        Err(RegisterError::UnexpectedStatus(code, text)) => {
            assert_eq!(code, 500);
            assert_eq!(text, "");
        }
        other => panic!("{:?}", other),
    }
}

#[test]
fn failed_post_is_an_upstream_failure() {
    let mut registration = posted();
    let action = registration.advance(&config(), Event::Failed("timeout".to_string()));
    match result_of(action) {
        Err(RegisterError::Upstream(text)) => assert_eq!(text, "timeout"),
        other => panic!("{:?}", other),
    }
}

#[test]
fn event_out_of_order_ends_the_exchange() {
    let mut registration = begin();
    let action = registration.advance(&config(), Event::Nonce("abc".to_string()));
    match result_of(action) {
        Err(RegisterError::Upstream(text)) => assert_eq!(text, "reply out of order"),
        other => panic!("{:?}", other),
    }
    assert_eq!(registration.phase, Phase::Finished);

    let mut registration = posted();
    let action = registration.advance(&config(), Event::Body("text".to_string()));
    assert!(matches!(result_of(action), Err(RegisterError::Upstream(_))));
    assert_eq!(registration.phase, Phase::Finished);
}
