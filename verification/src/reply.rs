//! What the authorization server sent back, as far as the protocol reads it.

use crate::error::DeviceFlowError;
use crate::json::{error_detail, field, lookup, parse_object, parsed_fields, Field, FieldView};
use vstd::prelude::*;

verus! {

/// The entries of a reply that the protocol looks at, each under the key of
/// the same name.
#[derive(Debug, PartialEq, Eq)]
pub struct Reply {
    pub error: Field,
    pub error_description: Field,
    pub user_code: Field,
    pub device_code: Field,
    pub verification_uri: Field,
    pub access_token: Field,
    pub expires_in: Field,
    pub refresh_token: Field,
}

/// The mathematical value of a [`Reply`].
pub struct ReplyView {
    pub error: FieldView,
    pub error_description: FieldView,
    pub user_code: FieldView,
    pub device_code: FieldView,
    pub verification_uri: FieldView,
    pub access_token: FieldView,
    pub expires_in: FieldView,
    pub refresh_token: FieldView,
}

impl ReplyView {
    /// The reply read from the entries of a JSON object.
    pub open spec fn of(fields: Map<Seq<char>, FieldView>) -> ReplyView {
        ReplyView {
            error: lookup(fields, "error"@),
            error_description: lookup(fields, "error_description"@),
            user_code: lookup(fields, "user_code"@),
            device_code: lookup(fields, "device_code"@),
            verification_uri: lookup(fields, "verification_uri"@),
            access_token: lookup(fields, "access_token"@),
            expires_in: lookup(fields, "expires_in"@),
            refresh_token: lookup(fields, "refresh_token"@),
        }
    }
}

impl View for Reply {
    type V = ReplyView;

    open spec fn view(&self) -> ReplyView {
        ReplyView {
            error: self.error@,
            error_description: self.error_description@,
            user_code: self.user_code@,
            device_code: self.device_code@,
            verification_uri: self.verification_uri@,
            access_token: self.access_token@,
            expires_in: self.expires_in@,
            refresh_token: self.refresh_token@,
        }
    }
}

impl Reply {
    /// A reply with no entry at all, as the object `{}` gives.
    pub fn empty() -> (r: Reply)
        ensures
            r@ == ReplyView::of(Map::empty()),
    {
        Reply {
            error: Field::Missing,
            error_description: Field::Missing,
            user_code: Field::Missing,
            device_code: Field::Missing,
            verification_uri: Field::Missing,
            access_token: Field::Missing,
            expires_in: Field::Missing,
            refresh_token: Field::Missing,
        }
    }

    /// Reads a reply from the body of a response.
    ///
    /// The body must be a JSON object. Where it is, the reply holds what
    /// stands under each key of the protocol; where it is not, the error is an
    /// `HttpError`.
    pub fn parse(body: &[u8]) -> (r: Result<Reply, DeviceFlowError>)
        ensures
            r.is_ok() == parsed_fields(body@).is_some(),
            r matches Ok(reply) ==> reply@ == ReplyView::of(parsed_fields(body@).unwrap()),
            r matches Err(error) ==> error is HttpError,
    {
        match parse_object(body) {
            Ok(object) => Ok(
                Reply {
                    error: field(&object, "error"),
                    error_description: field(&object, "error_description"),
                    user_code: field(&object, "user_code"),
                    device_code: field(&object, "device_code"),
                    verification_uri: field(&object, "verification_uri"),
                    access_token: field(&object, "access_token"),
                    expires_in: field(&object, "expires_in"),
                    refresh_token: field(&object, "refresh_token"),
                },
            ),
            Err(error) => Err(DeviceFlowError::HttpError(error_detail(&error))),
        }
    }
}

} // verus!
