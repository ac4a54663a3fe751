//! From a reply that grants a token to the credential it grants.

use crate::credential::{Credential, CredentialView};
use crate::error::{DeviceFlowError, ErrorView};
use crate::flow::text_view;
use crate::instant::{plus_seconds, rfc3339_text, shifted_instant, to_rfc3339, Instant};
use crate::json::{Field, FieldView};
use crate::reply::{Reply, ReplyView};
use vstd::prelude::*;

verus! {

/// The detail of the error for a reply that lacks the entry `name`.
pub open spec fn missing_field(name: Seq<char>) -> Seq<char> {
    "malformed response: missing field "@ + name
}

/// The detail of the error for a reply whose entry `name` has the wrong type
/// or a value out of range.
pub open spec fn invalid_field(name: Seq<char>) -> Seq<char> {
    "malformed response: invalid field "@ + name
}

/// The text under a key that the protocol requires, or the error for a reply
/// that does not hold one there.
pub open spec fn required_text(field: FieldView, name: Seq<char>) -> Result<Seq<char>, ErrorView> {
    match field {
        FieldView::Text(text) => Ok(text),
        FieldView::Missing => Err(ErrorView::GitHubError(missing_field(name))),
        _ => Err(ErrorView::GitHubError(invalid_field(name))),
    }
}

/// The expiry of a token issued at `now` for `expires_in` seconds, as RFC 3339
/// text; `None` where that moment lies outside the calendar.
pub open spec fn expiry_text(now: Instant, expires_in: int) -> Option<Seq<char>> {
    match shifted_instant(now.secs as int, now.nanos as int, expires_in) {
        Some(end) => rfc3339_text(end.0, end.1),
        None => None,
    }
}

/// The credential that a reply grants, given the expiry worked out for the
/// lifetime it names, if one could be.
///
/// `access_token` is required. Where `expires_in` is absent, expiry and
/// refresh token stay empty. Where it is an integer, the expiry must have
/// been worked out and `refresh_token` is required too. Where it is anything
/// else, the reply grants nothing.
pub open spec fn granted_with(reply: ReplyView, expiry: Option<Seq<char>>) -> Result<
    CredentialView,
    ErrorView,
> {
    match required_text(reply.access_token, "access_token"@) {
        Err(error) => Err(error),
        Ok(token) => match reply.expires_in {
            FieldView::Missing => Ok(
                CredentialView { token, expiry: Seq::empty(), refresh_token: Seq::empty() },
            ),
            FieldView::Integer(_) => match expiry {
                None => Err(ErrorView::GitHubError(invalid_field("expires_in"@))),
                Some(expiry) => match required_text(reply.refresh_token, "refresh_token"@) {
                    Err(error) => Err(error),
                    Ok(refresh_token) => Ok(CredentialView { token, expiry, refresh_token }),
                },
            },
            _ => Err(ErrorView::GitHubError(invalid_field("expires_in"@))),
        },
    }
}

/// The expiry of the token that a reply grants at `now`: that of the
/// lifetime it names, and none where it names no lifetime in whole seconds.
pub open spec fn lifetime_expiry(reply: ReplyView, now: Instant) -> Option<Seq<char>> {
    match reply.expires_in {
        FieldView::Integer(seconds) => expiry_text(now, seconds),
        _ => None,
    }
}

/// The credential that a reply grants at `now`: the expiry is `now` plus the
/// lifetime that the reply names.
pub open spec fn granted(reply: ReplyView, now: Instant) -> Result<CredentialView, ErrorView> {
    granted_with(reply, lifetime_expiry(reply, now))
}

/// Where `reply` names a lifetime and `now` is no leap second, the expiry of
/// `credential` is the RFC 3339 text of the instant that lies that many
/// seconds after `now`: its second count is that of `now` plus the lifetime,
/// its nanoseconds are those of `now`.
pub open spec fn expires_after(credential: CredentialView, reply: ReplyView, now: Instant) -> bool {
    match reply.expires_in {
        FieldView::Integer(seconds) => now.nanos < 1_000_000_000 ==> rfc3339_text(
            now.secs + seconds,
            now.nanos as int,
        ) == Some(credential.expiry),
        _ => true,
    }
}

/// The mathematical value of a result that carries a credential or an error.
pub open spec fn result_view(result: Result<Credential, DeviceFlowError>) -> Result<
    CredentialView,
    ErrorView,
> {
    match result {
        Ok(credential) => Ok(credential@),
        Err(error) => Err(error@),
    }
}

/// Reads the text under a key that the protocol requires.
pub fn require_text(field: &Field, name: &str) -> (r: Result<String, DeviceFlowError>)
    ensures
        match r {
            Ok(text) => required_text(field@, name@) == Ok::<Seq<char>, ErrorView>(text@),
            Err(error) => required_text(field@, name@) == Err::<Seq<char>, ErrorView>(error@),
        },
{
    match field {
        Field::Text(text) => Ok(text.clone()),
        Field::Missing => Err(
            DeviceFlowError::GitHubError(
                String::from_str("malformed response: missing field ").concat(name),
            ),
        ),
        _ => Err(
            DeviceFlowError::GitHubError(
                String::from_str("malformed response: invalid field ").concat(name),
            ),
        ),
    }
}

/// Writes the expiry of a token issued at `now` for `expires_in` seconds.
///
/// Where `now` is no leap second, the text is that of the instant with the
/// second count `now.secs + expires_in` and the nanoseconds of `now`.
pub fn calculate_expiry(now: Instant, expires_in: i64) -> (r: Option<String>)
    ensures
        r.is_some() == expiry_text(now, expires_in as int).is_some(),
        r matches Some(text) ==> expiry_text(now, expires_in as int) == Some(text@),
        r matches Some(text) ==> (now.nanos < 1_000_000_000 ==> rfc3339_text(
            now.secs + expires_in,
            now.nanos as int,
        ) == Some(text@)),
{
    match plus_seconds(now, expires_in) {
        Some(end) => to_rfc3339(end),
        None => None,
    }
}

/// Builds the credential that `reply` grants, given the expiry worked out
/// for the lifetime it names, if one could be.
pub fn grant_with_expiry(reply: &Reply, expiry: Option<String>) -> (r: Result<
    Credential,
    DeviceFlowError,
>)
    ensures
        result_view(r) == granted_with(reply@, text_view(expiry)),
{
    let token = match require_text(&reply.access_token, "access_token") {
        Ok(token) => token,
        Err(error) => { return Err(error); },
    };
    match &reply.expires_in {
        Field::Missing => Ok(
            Credential { token, expiry: String::new(), refresh_token: String::new() },
        ),
        Field::Integer(_) => match expiry {
            None => Err(
                DeviceFlowError::GitHubError(
                    String::from_str("malformed response: invalid field ").concat("expires_in"),
                ),
            ),
            Some(expiry) => match require_text(&reply.refresh_token, "refresh_token") {
                Ok(refresh_token) => Ok(Credential { token, expiry, refresh_token }),
                Err(error) => Err(error),
            },
        },
        _ => Err(
            DeviceFlowError::GitHubError(
                String::from_str("malformed response: invalid field ").concat("expires_in"),
            ),
        ),
    }
}

/// Builds the credential that `reply` grants at `now`.
pub fn grant(reply: &Reply, now: Instant) -> (r: Result<Credential, DeviceFlowError>)
    ensures
        result_view(r) == granted(reply@, now),
        r matches Ok(credential) ==> expires_after(credential@, reply@, now),
{
    let expiry = match &reply.expires_in {
        Field::Integer(seconds) => calculate_expiry(now, *seconds),
        _ => None,
    };
    grant_with_expiry(reply, expiry)
}

} // verus!
