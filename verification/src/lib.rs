//! Client side of the OAuth device authorization grant: a device registers
//! with an authorization server, shows the user a short code, and polls until
//! the server issues a token or reports a terminal error.
//!
//! The library holds the rules of the exchange: which request is sent next,
//! how each reply moves the flow from one state to the next, and when a
//! credential counts as expired. Sending a request and waiting between polls
//! are left to the caller, who hands back what the transport brought: the
//! bytes of the response body, or the error that kept them from arriving.

pub mod credential;
pub mod error;
pub mod flow;
pub mod grant;
pub mod instant;
pub mod json;
pub mod refresh;
pub mod reply;
pub mod request;
pub mod state;
pub mod util;

pub use credential::Credential;
pub use error::DeviceFlowError;
pub use flow::{DeviceFlow, PollStep};
pub use refresh::refresh;
pub use state::DeviceFlowState;
