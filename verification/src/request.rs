//! The requests of the protocol, as data for whoever sends them.

use vstd::prelude::*;

verus! {

/// One POST request: where it goes, the `Accept` header it carries, and its
/// form-encoded body.
#[derive(Debug, PartialEq, Eq)]
pub struct Request {
    pub url: String,
    pub accept: String,
    pub body: String,
}

/// The mathematical value of a [`Request`].
pub struct RequestView {
    pub url: Seq<char>,
    pub accept: Seq<char>,
    pub body: Seq<char>,
}

impl View for Request {
    type V = RequestView;

    open spec fn view(&self) -> RequestView {
        RequestView { url: self.url@, accept: self.accept@, body: self.body@ }
    }
}

/// The host that is asked where the caller names none.
pub open spec fn default_host() -> Seq<char> {
    "github.com"@
}

/// The host named, or the default.
pub open spec fn host_or_default(host: Option<Seq<char>>) -> Seq<char> {
    match host {
        Some(name) => name,
        None => default_host(),
    }
}

/// The scope named, or the empty one.
pub open spec fn scope_or_empty(scope: Option<Seq<char>>) -> Seq<char> {
    match scope {
        Some(name) => name,
        None => Seq::empty(),
    }
}

/// The request that registers a device: to the device-code endpoint of
/// `host`, with the client's id and the scope asked for.
pub open spec fn registration_request(host: Seq<char>, client_id: Seq<char>, scope: Seq<char>)
    -> RequestView {
    RequestView {
        url: "https://"@ + host + "/login/device/code"@,
        accept: "application/json"@,
        body: "client_id="@ + client_id + "&scope="@ + scope,
    }
}

/// The request that asks whether the user has approved the device yet.
pub open spec fn poll_request(host: Seq<char>, client_id: Seq<char>, device_code: Seq<char>)
    -> RequestView {
    RequestView {
        url: "https://"@ + host + "/login/oauth/access_token"@,
        accept: "application/json"@,
        body: "client_id="@ + client_id + "&device_code="@ + device_code
            + "&grant_type=urn:ietf:params:oauth:grant-type:device_code"@,
    }
}

/// The request that exchanges a refresh token for a new access token.
pub open spec fn refresh_request(
    host: Seq<char>,
    client_id: Seq<char>,
    refresh_token: Seq<char>,
    scope: Seq<char>,
) -> RequestView {
    RequestView {
        url: "https://"@ + host + "/login/oauth/access_token"@,
        accept: "application/json"@,
        body: "client_id="@ + client_id + "&refresh_token="@ + refresh_token
            + "&client_secret=&grant_type=refresh_token&scope="@ + scope,
    }
}

impl Request {
    /// Builds the request that registers a device.
    pub fn registration(host: &str, client_id: &str, scope: &str) -> (r: Request)
        ensures
            r@ == registration_request(host@, client_id@, scope@),
    {
        Request {
            url: String::from_str("https://").concat(host).concat("/login/device/code"),
            accept: String::from_str("application/json"),
            body: String::from_str("client_id=").concat(client_id).concat("&scope=").concat(scope),
        }
    }

    /// Builds the request that polls for the token of a device.
    pub fn poll(host: &str, client_id: &str, device_code: &str) -> (r: Request)
        ensures
            r@ == poll_request(host@, client_id@, device_code@),
    {
        Request {
            url: String::from_str("https://").concat(host).concat("/login/oauth/access_token"),
            accept: String::from_str("application/json"),
            body: String::from_str("client_id=").concat(client_id).concat("&device_code=").concat(
                device_code,
            ).concat("&grant_type=urn:ietf:params:oauth:grant-type:device_code"),
        }
    }

    /// Builds the request that exchanges a refresh token.
    pub fn refresh(host: &str, client_id: &str, refresh_token: &str, scope: &str) -> (r: Request)
        ensures
            r@ == refresh_request(host@, client_id@, refresh_token@, scope@),
    {
        Request {
            url: String::from_str("https://").concat(host).concat("/login/oauth/access_token"),
            accept: String::from_str("application/json"),
            body: String::from_str("client_id=").concat(client_id).concat(
                "&refresh_token=",
            ).concat(refresh_token).concat(
                "&client_secret=&grant_type=refresh_token&scope=",
            ).concat(scope),
        }
    }
}

} // verus!
