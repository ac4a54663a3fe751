//! The two ways a device flow can fail.

use vstd::prelude::*;

verus! {

/// A terminal failure of a device flow.
#[derive(Debug, PartialEq, Eq)]
pub enum DeviceFlowError {
    /// The request could not be carried out, or the reply was not JSON.
    HttpError(String),
    /// The authorization server answered with an error, or with a reply that
    /// breaks the protocol.
    GitHubError(String),
}

/// The mathematical value of a [`DeviceFlowError`].
pub enum ErrorView {
    HttpError(Seq<char>),
    GitHubError(Seq<char>),
}

impl View for DeviceFlowError {
    type V = ErrorView;

    open spec fn view(&self) -> ErrorView {
        match self {
            DeviceFlowError::HttpError(detail) => ErrorView::HttpError(detail@),
            DeviceFlowError::GitHubError(detail) => ErrorView::GitHubError(detail@),
        }
    }
}

impl Clone for DeviceFlowError {
    fn clone(&self) -> (r: Self)
        ensures
            r@ == self@,
    {
        match self {
            DeviceFlowError::HttpError(detail) => DeviceFlowError::HttpError(detail.clone()),
            DeviceFlowError::GitHubError(detail) => DeviceFlowError::GitHubError(detail.clone()),
        }
    }
}

impl DeviceFlowError {
    /// The text carried by the error, whichever kind it is.
    pub open spec fn detail(self) -> Seq<char> {
        match self {
            DeviceFlowError::HttpError(detail) => detail@,
            DeviceFlowError::GitHubError(detail) => detail@,
        }
    }

    /// The message shown for the error: a fixed prefix, then the detail.
    pub open spec fn message(self) -> Seq<char> {
        "DeviceFlowError: "@ + self.detail()
    }

    /// Renders the error for display.
    pub fn to_string(&self) -> (r: String)
        ensures
            r@ == self.message(),
    {
        let text = String::from_str("DeviceFlowError: ");
        match self {
            DeviceFlowError::HttpError(detail) => text.concat(detail.as_str()),
            DeviceFlowError::GitHubError(detail) => text.concat(detail.as_str()),
        }
    }
}

} // verus!
