use github_device_flow::flow::error_response;
use github_device_flow::json::Field;
use github_device_flow::reply::Reply;
use github_device_flow::util::{credential_error, read_reply};
use github_device_flow::{DeviceFlow, DeviceFlowError, DeviceFlowState};

fn body(text: &str) -> Result<Vec<u8>, DeviceFlowError> {
    Ok(text.as_bytes().to_vec())
}

fn github(text: &str) -> DeviceFlowState {
    DeviceFlowState::Failure(DeviceFlowError::GitHubError(String::from(text)))
}

#[test]
fn new_flow_is_pending_without_codes() {
    let flow = DeviceFlow::new("id", Some("example.com"), Some("repo"));
    assert_eq!(flow.client_id, "id");
    assert_eq!(flow.host, "example.com");
    assert_eq!(flow.scope, "repo");
    assert_eq!(flow.user_code, None);
    assert_eq!(flow.device_code, None);
    assert_eq!(flow.verification_uri, None);
    assert_eq!(flow.state, DeviceFlowState::Pending);
}

#[test]
fn registration_error_with_description_fails_with_the_description() {
    let mut flow = DeviceFlow::new("id", None, None);
    flow.setup(body(r#"{"error": "X", "error_description": "Y"}"#));
    assert_eq!(flow.state, github("Y"));
    assert_eq!(flow.device_code, None);
}

#[test]
fn registration_error_alone_fails_with_the_quoted_code() {
    let mut flow = DeviceFlow::new("id", None, None);
    flow.setup(body(r#"{"error": "X"}"#));
    assert_eq!(flow.state, github("Error response: \"X\""));
}

#[test]
fn quoted_code_is_escaped() {
    let mut flow = DeviceFlow::new("id", None, None);
    flow.setup(body(r#"{"error": "a\"b\nc"}"#));
    assert_eq!(flow.state, github("Error response: \"a\\\"b\\nc\""));
}

#[test]
fn registration_takes_the_three_codes() {
    let mut flow = DeviceFlow::new("id", None, None);
    flow.setup(body(
        r#"{"device_code": "dc", "user_code": "WDJB-MJHT",
            "verification_uri": "https://github.com/login/device",
            "expires_in": 900, "interval": 5}"#,
    ));
    assert_eq!(flow.state, DeviceFlowState::Processing(5));
    assert_eq!(flow.user_code.as_deref(), Some("WDJB-MJHT"));
    assert_eq!(flow.device_code.as_deref(), Some("dc"));
    assert_eq!(flow.verification_uri.as_deref(), Some("https://github.com/login/device"));
}

#[test]
fn description_without_error_is_no_failure() {
    let mut flow = DeviceFlow::new("id", None, None);
    flow.setup(body(
        r#"{"error_description": "ignored", "device_code": "dc", "user_code": "uc",
            "verification_uri": "uri"}"#,
    ));
    assert_eq!(flow.state, DeviceFlowState::Processing(5));
}

#[test]
fn registration_without_a_code_is_malformed() {
    let cases = [
        (r#"{}"#, "malformed response: missing field user_code"),
        (r#"{"user_code": "uc"}"#, "malformed response: missing field device_code"),
        (
            r#"{"user_code": "uc", "device_code": "dc"}"#,
            "malformed response: missing field verification_uri",
        ),
        (
            r#"{"user_code": 7, "device_code": "dc", "verification_uri": "u"}"#,
            "malformed response: invalid field user_code",
        ),
        (
            r#"{"user_code": "uc", "device_code": null, "verification_uri": "u"}"#,
            "malformed response: invalid field device_code",
        ),
        (r#"{"error": 5}"#, "malformed response: invalid field error"),
        (
            r#"{"error": "X", "error_description": ["Y"]}"#,
            "malformed response: invalid field error_description",
        ),
    ];
    for (text, message) in cases {
        let mut flow = DeviceFlow::new("id", None, None);
        flow.setup(body(text));
        assert_eq!(flow.state, github(message), "{text}");
        assert_eq!(flow.user_code, None, "{text}");
        assert_eq!(flow.device_code, None, "{text}");
        assert_eq!(flow.verification_uri, None, "{text}");
    }
}

#[test]
fn transport_failure_ends_registration() {
    let mut flow = DeviceFlow::new("id", None, None);
    flow.setup(Err(DeviceFlowError::HttpError(String::from("connection refused"))));
    assert_eq!(
        flow.state,
        DeviceFlowState::Failure(DeviceFlowError::HttpError(String::from("connection refused")))
    );
}

#[test]
fn body_that_is_no_json_object_is_an_http_error() {
    for text in ["", "not json", "[1, 2]", "\"text\"", "{\"a\": 1", "{} trailing"] {
        let mut flow = DeviceFlow::new("id", None, None);
        flow.setup(body(text));
        match &flow.state {
            DeviceFlowState::Failure(DeviceFlowError::HttpError(detail)) => {
                assert!(!detail.is_empty(), "{text}")
            }
            other => panic!("{text}: {other:?}"),
        }
        assert_eq!(flow.device_code, None);
    }
}

#[test]
fn setup_again_registers_anew() {
    let mut flow = DeviceFlow::new("id", None, None);
    flow.setup(body(r#"{"error": "X", "error_description": "Y"}"#));
    flow.setup(body(r#"{"device_code": "d1", "user_code": "u1", "verification_uri": "v1"}"#));
    assert_eq!(flow.state, DeviceFlowState::Processing(5));
    flow.state = DeviceFlowState::Processing(15);
    flow.setup(body(r#"{"device_code": "d2", "user_code": "u2", "verification_uri": "v2"}"#));
    assert_eq!(flow.state, DeviceFlowState::Processing(5));
    assert_eq!(flow.device_code.as_deref(), Some("d2"));
    flow.setup(body(r#"{"error": "X"}"#));
    assert_eq!(flow.state, github("Error response: \"X\""));
    assert_eq!(flow.device_code.as_deref(), Some("d2"));
}

#[test]
fn start_returns_the_registered_flow() {
    let flow = DeviceFlow::start(
        "id",
        Some("example.com"),
        Some("repo"),
        body(r#"{"device_code": "dc", "user_code": "uc", "verification_uri": "v"}"#),
    )
    .unwrap();
    assert_eq!(flow.host, "example.com");
    assert_eq!(flow.client_id, "id");
    assert_eq!(flow.scope, "repo");
    assert_eq!(flow.device_code.as_deref(), Some("dc"));
    assert_eq!(flow.state, DeviceFlowState::Processing(5));
}

#[test]
fn start_returns_the_error_of_a_failed_registration() {
    let refused = DeviceFlow::start("id", None, None, body(r#"{"error": "X", "error_description": "Y"}"#));
    assert_eq!(refused.unwrap_err(), DeviceFlowError::GitHubError(String::from("Y")));
    let unreachable = DeviceFlow::start(
        "id",
        None,
        None,
        Err(DeviceFlowError::HttpError(String::from("timeout"))),
    );
    assert_eq!(unreachable.unwrap_err(), DeviceFlowError::HttpError(String::from("timeout")));
}

#[test]
fn register_reads_a_reply_given_directly() {
    let mut reply = Reply::empty();
    reply.user_code = Field::Text(String::from("uc"));
    reply.device_code = Field::Text(String::from("dc"));
    reply.verification_uri = Field::Text(String::from("v"));
    let mut flow = DeviceFlow::new("id", None, None);
    flow.register(Ok(reply));
    assert_eq!(flow.state, DeviceFlowState::Processing(5));
    assert_eq!(flow.user_code.as_deref(), Some("uc"));
}

#[test]
fn reply_holds_what_stands_under_each_key() {
    let reply = Reply::parse(
        br#"{"error": "e", "error_description": "d", "user_code": "u", "device_code": "dc",
             "verification_uri": "v", "access_token": "t", "expires_in": 28800,
             "refresh_token": "r", "more": true}"#,
    )
    .unwrap();
    let text = |s: &str| Field::Text(String::from(s));
    assert_eq!(reply.error, text("e"));
    assert_eq!(reply.error_description, text("d"));
    assert_eq!(reply.user_code, text("u"));
    assert_eq!(reply.device_code, text("dc"));
    assert_eq!(reply.verification_uri, text("v"));
    assert_eq!(reply.access_token, text("t"));
    assert_eq!(reply.expires_in, Field::Integer(28800));
    assert_eq!(reply.refresh_token, text("r"));
}

#[test]
fn reply_tells_texts_integers_and_the_rest_apart() {
    let reply = Reply::parse(
        br#"{"error": null, "user_code": 1.5, "device_code": -3, "verification_uri": {},
             "access_token": "", "expires_in": 18446744073709551615, "refresh_token": false}"#,
    )
    .unwrap();
    assert_eq!(reply.error, Field::Other);
    assert_eq!(reply.error_description, Field::Missing);
    assert_eq!(reply.user_code, Field::Other);
    assert_eq!(reply.device_code, Field::Integer(-3));
    assert_eq!(reply.verification_uri, Field::Other);
    assert_eq!(reply.access_token, Field::Text(String::new()));
    assert_eq!(reply.expires_in, Field::Other);
    assert_eq!(reply.refresh_token, Field::Other);
    assert_eq!(Reply::parse(b"{}").unwrap(), Reply::empty());
}

#[test]
fn read_reply_hands_a_transport_error_on() {
    let error = DeviceFlowError::HttpError(String::from("dns"));
    assert_eq!(read_reply(Err(error.clone())), Err(error));
    assert_eq!(read_reply(body("{}")), Ok(Reply::empty()));
    assert!(matches!(read_reply(body("null")), Err(DeviceFlowError::HttpError(_))));
}

#[test]
fn credential_error_is_a_github_error() {
    assert_eq!(
        credential_error(String::from("denied")),
        DeviceFlowError::GitHubError(String::from("denied"))
    );
}

#[test]
fn errors_render_with_a_prefix() {
    assert_eq!(
        DeviceFlowError::HttpError(String::from("timeout")).to_string(),
        "DeviceFlowError: timeout"
    );
    assert_eq!(
        DeviceFlowError::GitHubError(String::from("denied")).to_string(),
        "DeviceFlowError: denied"
    );
}

#[test]
fn error_response_puts_its_prefix_before_the_quoted_code() {
    assert_eq!(
        error_response(String::from("\"X\"")),
        DeviceFlowError::GitHubError(String::from("Error response: \"X\""))
    );
    assert_eq!(
        error_response(String::new()),
        DeviceFlowError::GitHubError(String::from("Error response: "))
    );
}

#[test]
fn started_hands_back_a_waiting_flow_or_its_error() {
    let mut waiting = DeviceFlow::new("id", None, None);
    waiting.state = DeviceFlowState::Processing(15);
    assert_eq!(waiting.clone().started(), Ok(waiting));

    let mut failed = DeviceFlow::new("id", None, None);
    failed.state = DeviceFlowState::Failure(DeviceFlowError::HttpError(String::from("reset")));
    assert_eq!(failed.started(), Err(DeviceFlowError::HttpError(String::from("reset"))));

    let unexpected = DeviceFlowError::GitHubError(String::from("Something truly unexpected happened"));
    assert_eq!(DeviceFlow::new("id", None, None).started(), Err(unexpected.clone()));
    let mut done = DeviceFlow::new("id", None, None);
    done.state = DeviceFlowState::Success(github_device_flow::Credential::empty());
    assert_eq!(done.started(), Err(unexpected));
}
