//! Exchanging a refresh token for a new access token: one request, one
//! reply, no state.

use crate::credential::{Credential, CredentialView};
use crate::error::{DeviceFlowError, ErrorView};
use crate::flow::text_view;
use crate::grant::{expires_after, grant, granted, invalid_field, result_view};
use crate::instant::{now_utc, Instant};
use crate::json::{Field, FieldView};
use crate::reply::{Reply, ReplyView};
use crate::request::{host_or_default, refresh_request, scope_or_empty, Request};
use crate::state::received_view;
use crate::util::{credential_error, decoded, read_reply};
use vstd::prelude::*;

verus! {

/// The result of a refresh, from what came back at `now` for the request.
///
/// A failed exchange fails the refresh with its error. A reply with an
/// `error` fails it with that error code. Any other reply gives the
/// credential it grants, or the error for a reply that grants none.
pub open spec fn refreshed(received: Result<ReplyView, ErrorView>, now: Instant) -> Result<
    CredentialView,
    ErrorView,
> {
    match received {
        Err(error) => Err(error),
        Ok(reply) => match reply.error {
            FieldView::Missing => granted(reply, now),
            FieldView::Text(code) => Err(ErrorView::GitHubError(code)),
            _ => Err(ErrorView::GitHubError(invalid_field("error"@))),
        },
    }
}

/// What a refresh must return for what the transport brought back, where the
/// reply came at `now`.
pub open spec fn refresh_result(
    outcome: Result<Vec<u8>, DeviceFlowError>,
    now: Instant,
    result: Result<CredentialView, ErrorView>,
) -> bool {
    match outcome {
        Err(error) => result == refreshed(Err(error@), now),
        Ok(body) => match decoded(body@) {
            Some(reply) => result == refreshed(Ok(reply), now),
            None => result matches Err(ErrorView::HttpError(_)),
        },
    }
}

/// The request that exchanges `refresh_token` for a new access token.
/// Without a host it goes to `github.com`; without a scope it asks for the
/// empty one.
pub fn refresh_access_token_request(
    client_id: &str,
    refresh_token: &str,
    host: Option<String>,
    scope: Option<String>,
) -> (r: Request)
    ensures
        r@ == refresh_request(
            host_or_default(text_view(host)),
            client_id@,
            refresh_token@,
            scope_or_empty(text_view(scope)),
        ),
{
    let host = match host {
        Some(string) => string,
        None => String::from_str("github.com"),
    };
    let scope = match scope {
        Some(string) => string,
        None => String::new(),
    };
    Request::refresh(host.as_str(), client_id, refresh_token, scope.as_str())
}

/// Reads the result of a refresh out of what came back at `now`.
pub fn refresh_access_token(received: Result<Reply, DeviceFlowError>, now: Instant) -> (r: Result<
    Credential,
    DeviceFlowError,
>)
    ensures
        result_view(r) == refreshed(received_view(received), now),
        match (r, received) {
            (Ok(credential), Ok(reply)) => expires_after(credential@, reply@, now),
            _ => true,
        },
{
    let reply = match received {
        Ok(reply) => reply,
        Err(error) => { return Err(error); },
    };
    match &reply.error {
        Field::Missing => grant(&reply, now),
        Field::Text(code) => Err(credential_error(code.clone())),
        _ => Err(
            credential_error(
                String::from_str("malformed response: invalid field ").concat("error"),
            ),
        ),
    }
}

/// Finishes a refresh: takes in what the transport brought back for
/// [`refresh_access_token_request`], at the time of the system clock.
///
/// The result is what [`refresh_result`] asks for some time of arrival that
/// is not before the Unix epoch and no leap second.
pub fn refresh(outcome: Result<Vec<u8>, DeviceFlowError>) -> (r: Result<
    Credential,
    DeviceFlowError,
>)
    ensures
        exists|now: Instant|
            now.secs >= 0 && now.nanos < 1_000_000_000 && #[trigger] refresh_result(
                outcome,
                now,
                result_view(r),
            ),
{
    let received = read_reply(outcome);
    let now = now_utc();
    let r = refresh_access_token(received, now);
    assert(refresh_result(outcome, now, result_view(r)));
    r
}

} // verus!
