use github_device_flow::refresh::refresh_access_token_request;
use github_device_flow::request::Request;
use github_device_flow::DeviceFlow;

#[test]
fn registration_request_names_client_and_scope() {
    let flow = DeviceFlow::new("abc123", Some("example.com"), Some("repo"));
    let request = flow.setup_request();
    assert_eq!(request.url, "https://example.com/login/device/code");
    assert_eq!(request.accept, "application/json");
    assert_eq!(request.body, "client_id=abc123&scope=repo");
}

#[test]
fn host_defaults_to_github_and_scope_to_empty() {
    let flow = DeviceFlow::new("abc123", None, None);
    assert_eq!(flow.host, "github.com");
    assert_eq!(flow.scope, "");
    let request = flow.setup_request();
    assert_eq!(request.url, "https://github.com/login/device/code");
    assert_eq!(request.body, "client_id=abc123&scope=");
}

#[test]
fn poll_request_names_the_device_code() {
    let mut flow = DeviceFlow::new("abc123", None, None);
    flow.device_code = Some(String::from("dev-1"));
    let request = flow.update_request();
    assert_eq!(request.url, "https://github.com/login/oauth/access_token");
    assert_eq!(request.accept, "application/json");
    assert_eq!(
        request.body,
        "client_id=abc123&device_code=dev-1&grant_type=urn:ietf:params:oauth:grant-type:device_code"
    );
}

#[test]
fn refresh_request_names_token_and_scope() {
    let request = refresh_access_token_request(
        "abc123",
        "r1",
        Some(String::from("example.com")),
        Some(String::from("repo")),
    );
    assert_eq!(request.url, "https://example.com/login/oauth/access_token");
    assert_eq!(request.accept, "application/json");
    assert_eq!(
        request.body,
        "client_id=abc123&refresh_token=r1&client_secret=&grant_type=refresh_token&scope=repo"
    );
}

#[test]
fn refresh_request_defaults() {
    let request = refresh_access_token_request("abc123", "r1", None, None);
    assert_eq!(request.url, "https://github.com/login/oauth/access_token");
    assert_eq!(
        request.body,
        "client_id=abc123&refresh_token=r1&client_secret=&grant_type=refresh_token&scope="
    );
}

#[test]
fn request_builders_agree_with_the_flow() {
    let flow = DeviceFlow::new("id", Some("h"), Some("s"));
    assert_eq!(flow.setup_request(), Request::registration("h", "id", "s"));
    assert_eq!(
        Request::refresh("h", "id", "r", "s"),
        refresh_access_token_request("id", "r", Some(String::from("h")), Some(String::from("s")))
    );
}
