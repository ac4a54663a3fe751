//! Small helpers shared by the flow and the refresh exchange.

use crate::error::DeviceFlowError;
use crate::json::parsed_fields;
use crate::reply::{Reply, ReplyView};
use vstd::prelude::*;

verus! {

/// An error reported by the authorization server, carrying `msg`.
pub fn credential_error(msg: String) -> (r: DeviceFlowError)
    ensures
        r@ == crate::error::ErrorView::GitHubError(msg@),
{
    DeviceFlowError::GitHubError(msg)
}

/// What a request is known to have come to, in terms of the body received:
/// the reply read from it where it is a JSON object.
pub open spec fn decoded(body: Seq<u8>) -> Option<ReplyView> {
    match parsed_fields(body) {
        Some(fields) => Some(ReplyView::of(fields)),
        None => None,
    }
}

/// Reads the reply out of what the transport brought back.
///
/// A transport error is handed on as it is. A body that is a JSON object
/// gives the reply; any other body gives an `HttpError`.
pub fn read_reply(outcome: Result<Vec<u8>, DeviceFlowError>) -> (r: Result<Reply, DeviceFlowError>)
    ensures
        match outcome {
            Err(error) => r matches Err(e) && e@ == error@,
            Ok(body) => match decoded(body@) {
                Some(reply) => r matches Ok(read) && read@ == reply,
                None => r matches Err(e) && e is HttpError,
            },
        },
{
    match outcome {
        Ok(body) => Reply::parse(body.as_slice()),
        Err(error) => Err(error),
    }
}

} // verus!
