//! One authorization attempt: its configuration, the codes that registration
//! gave it, and its state.

use crate::credential::{Credential, CredentialView};
use crate::error::{DeviceFlowError, ErrorView};
use crate::grant::{expires_after, require_text, required_text, result_view};
use crate::instant::{now_utc, Instant};
use crate::json::{quoted, Field};
use crate::reply::{Reply, ReplyView};
use crate::request::{
    host_or_default,
    poll_request,
    registration_request,
    scope_or_empty,
    Request,
};
use crate::state::{
    polled,
    received_view,
    registration_error,
    DeviceFlowState,
    StateView,
    FIVE_SECONDS,
};
use crate::util::{credential_error, decoded, read_reply};
use vstd::prelude::*;

verus! {

/// The session of one authorization attempt.
///
/// `host`, `client_id` and `scope` are set when the flow is made. The three
/// codes are filled in by a registration that succeeds.
#[derive(Debug, PartialEq, Eq)]
pub struct DeviceFlow {
    pub host: String,
    pub client_id: String,
    pub scope: String,
    pub user_code: Option<String>,
    pub device_code: Option<String>,
    pub verification_uri: Option<String>,
    pub state: DeviceFlowState,
}

/// The mathematical value of a [`DeviceFlow`].
pub struct FlowView {
    pub host: Seq<char>,
    pub client_id: Seq<char>,
    pub scope: Seq<char>,
    pub user_code: Option<Seq<char>>,
    pub device_code: Option<Seq<char>>,
    pub verification_uri: Option<Seq<char>>,
    pub state: StateView,
}

/// The mathematical value of a text that may be absent.
pub open spec fn text_view(text: Option<String>) -> Option<Seq<char>> {
    match text {
        Some(t) => Some(t@),
        None => None,
    }
}

/// The mathematical value of a borrowed text that may be absent.
pub open spec fn str_view(text: Option<&str>) -> Option<Seq<char>> {
    match text {
        Some(t) => Some(t@),
        None => None,
    }
}

impl View for DeviceFlow {
    type V = FlowView;

    open spec fn view(&self) -> FlowView {
        FlowView {
            host: self.host@,
            client_id: self.client_id@,
            scope: self.scope@,
            user_code: text_view(self.user_code),
            device_code: text_view(self.device_code),
            verification_uri: text_view(self.verification_uri),
            state: self.state@,
        }
    }
}

impl FlowView {
    /// A flow that has sent nothing yet.
    pub open spec fn fresh(client_id: Seq<char>, host: Option<Seq<char>>, scope: Option<Seq<char>>)
        -> FlowView {
        FlowView {
            host: host_or_default(host),
            client_id,
            scope: scope_or_empty(scope),
            user_code: None,
            device_code: None,
            verification_uri: None,
            state: StateView::Pending,
        }
    }

    /// The same flow in another state.
    pub open spec fn with_state(self, state: StateView) -> FlowView {
        FlowView { state, ..self }
    }

    /// The flow after registration, from what came back for the request.
    ///
    /// A failed exchange and a reply that reports an error end the flow and
    /// leave the codes as they were. Otherwise the reply must hold the three
    /// codes as texts: the flow takes them and waits for the user, polling
    /// every five seconds. A reply that lacks one ends the flow with the error
    /// for the first that it lacks.
    pub open spec fn registered(self, received: Result<ReplyView, ErrorView>) -> FlowView {
        match received {
            Err(error) => self.with_state(StateView::Failure(error)),
            Ok(reply) => match registration_error(reply) {
                Some(error) => self.with_state(StateView::Failure(error)),
                None => match required_text(reply.user_code, "user_code"@) {
                    Err(error) => self.with_state(StateView::Failure(error)),
                    Ok(user_code) => match required_text(reply.device_code, "device_code"@) {
                        Err(error) => self.with_state(StateView::Failure(error)),
                        Ok(device_code) => match required_text(
                            reply.verification_uri,
                            "verification_uri"@,
                        ) {
                            Err(error) => self.with_state(StateView::Failure(error)),
                            Ok(verification_uri) => FlowView {
                                user_code: Some(user_code),
                                device_code: Some(device_code),
                                verification_uri: Some(verification_uri),
                                state: StateView::Processing(5),
                                ..self
                            },
                        },
                    },
                },
            },
        }
    }

    /// The flow after one poll: only the state moves, as [`polled`] says.
    pub open spec fn advanced(self, received: Result<ReplyView, ErrorView>, now: Instant)
        -> FlowView {
        self.with_state(polled(self.state, received, now))
    }
}

/// Registration leaves a flow waiting for the user with a pause of five
/// seconds, or failed; the configuration is never touched, and the codes
/// change only where the flow is left waiting.
pub proof fn registration_waits_or_fails(flow: FlowView, received: Result<ReplyView, ErrorView>)
    ensures
        flow.registered(received).state == StateView::Processing(5) || flow.registered(
            received,
        ).state is Failure,
        flow.registered(received).host == flow.host,
        flow.registered(received).client_id == flow.client_id,
        flow.registered(received).scope == flow.scope,
        flow.registered(received).state is Failure ==> flow.registered(received)
            == flow.with_state(flow.registered(received).state),
        flow.registered(received).state is Processing ==> flow.registered(received).device_code
            is Some,
{
}

/// The failure for a registration that the server refused with an error code
/// and no description: `quoted` is the code as `{:?}` writes it.
pub fn error_response(quoted: String) -> (r: DeviceFlowError)
    ensures
        r@ == ErrorView::GitHubError("Error response: "@ + quoted@),
{
    credential_error(String::from_str("Error response: ").concat(quoted.as_str()))
}

/// What the flow must look like after registration, given what the transport
/// brought back for the request.
///
/// A body that is no JSON object ends the flow with an `HttpError` and leaves
/// everything else as it was; otherwise the flow is `before.registered(..)`
/// of the transport error or of the reply read from the body.
pub open spec fn set_up(
    before: FlowView,
    outcome: Result<Vec<u8>, DeviceFlowError>,
    after: FlowView,
) -> bool {
    match outcome {
        Err(error) => after == before.registered(Err(error@)),
        Ok(body) => match decoded(body@) {
            Some(reply) => after == before.registered(Ok(reply)),
            None => after.state matches StateView::Failure(ErrorView::HttpError(_)) && after
                == before.with_state(after.state),
        },
    }
}

/// What the flow must look like after one poll that came back at `now`,
/// given what the transport brought back for the request.
pub open spec fn updated(
    before: FlowView,
    outcome: Result<Vec<u8>, DeviceFlowError>,
    now: Instant,
    after: FlowView,
) -> bool {
    match outcome {
        Err(error) => after == before.advanced(Err(error@), now),
        Ok(body) => match decoded(body@) {
            Some(reply) => after == before.advanced(Ok(reply), now),
            None => exists|detail: Seq<char>|
                after == #[trigger] before.advanced(Err(ErrorView::HttpError(detail)), now),
        },
    }
}

/// The pause of a registered flow leaves room for five more seconds.
pub open spec fn can_slow_down(state: DeviceFlowState) -> bool {
    state matches DeviceFlowState::Processing(interval) ==> interval + 5 <= u64::MAX
}

fn clone_text(text: &Option<String>) -> (r: Option<String>)
    ensures
        text_view(r) == text_view(*text),
{
    match text {
        Some(t) => Some(t.clone()),
        None => None,
    }
}

impl Clone for DeviceFlow {
    fn clone(&self) -> (r: Self)
        ensures
            r@ == self@,
    {
        DeviceFlow {
            host: self.host.clone(),
            client_id: self.client_id.clone(),
            scope: self.scope.clone(),
            user_code: clone_text(&self.user_code),
            device_code: clone_text(&self.device_code),
            verification_uri: clone_text(&self.verification_uri),
            state: self.state.clone(),
        }
    }
}

impl DeviceFlow {
    /// A flow that has sent nothing yet. Without a host it asks `github.com`;
    /// without a scope it asks for the empty one.
    pub fn new(client_id: &str, maybe_host: Option<&str>, scope: Option<&str>) -> (r: Self)
        ensures
            r@ == FlowView::fresh(client_id@, str_view(maybe_host), str_view(scope)),
    {
        Self {
            client_id: String::from_str(client_id),
            scope: match scope {
                Some(string) => String::from_str(string),
                None => String::new(),
            },
            host: match maybe_host {
                Some(string) => String::from_str(string),
                None => String::from_str("github.com"),
            },
            user_code: None,
            device_code: None,
            verification_uri: None,
            state: DeviceFlowState::Pending,
        }
    }

    /// The request that registers this flow's device.
    pub fn setup_request(&self) -> (r: Request)
        ensures
            r@ == registration_request(self.host@, self.client_id@, self.scope@),
    {
        Request::registration(self.host.as_str(), self.client_id.as_str(), self.scope.as_str())
    }

    /// Takes in what came back for the registration request.
    pub fn register(&mut self, received: Result<Reply, DeviceFlowError>)
        ensures
            final(self)@ == old(self)@.registered(received_view(received)),
    {
        let reply = match received {
            Ok(reply) => reply,
            Err(error) => {
                self.state = DeviceFlowState::Failure(error);
                return ;
            },
        };
        let has_error = !matches!(reply.error, Field::Missing);
        let has_description = !matches!(reply.error_description, Field::Missing);
        if has_error && has_description {
            self.state = match &reply.error_description {
                Field::Text(description) => DeviceFlowState::Failure(
                    credential_error(description.clone()),
                ),
                _ => DeviceFlowState::Failure(
                    credential_error(
                        String::from_str("malformed response: invalid field ").concat(
                            "error_description",
                        ),
                    ),
                ),
            };
        } else if has_error {
            self.state = match &reply.error {
                Field::Text(code) => DeviceFlowState::Failure(
                    error_response(quoted(code.as_str())),
                ),
                _ => DeviceFlowState::Failure(
                    credential_error(
                        String::from_str("malformed response: invalid field ").concat("error"),
                    ),
                ),
            };
        } else {
            let user_code = match require_text(&reply.user_code, "user_code") {
                Ok(text) => text,
                Err(error) => {
                    self.state = DeviceFlowState::Failure(error);
                    return ;
                },
            };
            let device_code = match require_text(&reply.device_code, "device_code") {
                Ok(text) => text,
                Err(error) => {
                    self.state = DeviceFlowState::Failure(error);
                    return ;
                },
            };
            let verification_uri = match require_text(
                &reply.verification_uri,
                "verification_uri",
            ) {
                Ok(text) => text,
                Err(error) => {
                    self.state = DeviceFlowState::Failure(error);
                    return ;
                },
            };
            self.user_code = Some(user_code);
            self.device_code = Some(device_code);
            self.verification_uri = Some(verification_uri);
            self.state = DeviceFlowState::Processing(FIVE_SECONDS);
        }
    }

    /// Registers the device: takes in what the transport brought back for
    /// [`DeviceFlow::setup_request`].
    pub fn setup(&mut self, outcome: Result<Vec<u8>, DeviceFlowError>)
        ensures
            set_up(old(self)@, outcome, final(self)@),
    {
        let received = read_reply(outcome);
        self.register(received);
    }
}

/// How many polls one authorization makes at most.
pub const POLL_ITERATIONS: u32 = 20;

/// What the poll driver does next.
#[derive(Debug, PartialEq, Eq)]
pub enum PollStep {
    /// Send this request, hand what comes back to [`DeviceFlow::update`], and
    /// wait for as long as [`DeviceFlow::pause`] says.
    Send(Request),
    /// Stop: this is the result of the flow.
    Finish(Result<Credential, DeviceFlowError>),
}

/// The result of a poll driver that stops in `state`, having been allowed
/// `iterations` polls: the credential of a flow that succeeded and the error
/// of one that failed. A flow that still waits for the user has used up its
/// polls, and the result says so. What is left, a driver that was allowed no
/// poll at all or a flow that never registered, gives the error that no
/// credential could be fetched.
pub open spec fn poll_outcome(state: StateView, iterations: u32) -> Result<
    CredentialView,
    ErrorView,
> {
    match state {
        StateView::Success(credential) => Ok(credential),
        StateView::Failure(error) => Err(error),
        StateView::Processing(_) => if iterations > 0 {
            Err(ErrorView::GitHubError("Max poll iterations reached"@))
        } else {
            Err(ErrorView::GitHubError("Unable to fetch credential, sorry :/"@))
        },
        StateView::Pending => Err(ErrorView::GitHubError("Unable to fetch credential, sorry :/"@)),
    }
}

/// The result of starting a flow that registration left as `flow`.
pub open spec fn start_outcome(flow: FlowView) -> Result<FlowView, ErrorView> {
    match flow.state {
        StateView::Processing(_) => Ok(flow),
        StateView::Failure(error) => Err(error),
        _ => Err(ErrorView::GitHubError("Something truly unexpected happened"@)),
    }
}

/// The mathematical value of a result that carries a flow or an error.
pub open spec fn flow_result_view(result: Result<DeviceFlow, DeviceFlowError>) -> Result<
    FlowView,
    ErrorView,
> {
    match result {
        Ok(flow) => Ok(flow@),
        Err(error) => Err(error@),
    }
}

impl DeviceFlow {
    /// Makes a flow and registers its device, from what the transport brought
    /// back for the registration request of [`DeviceFlow::new`] with the same
    /// arguments.
    ///
    /// The flow comes back exactly where registration left it waiting for the
    /// user; where registration failed, its error comes back.
    pub fn start(
        client_id: &str,
        maybe_host: Option<&str>,
        scope: Option<&str>,
        outcome: Result<Vec<u8>, DeviceFlowError>,
    ) -> (r: Result<DeviceFlow, DeviceFlowError>)
        ensures
            exists|after: FlowView|
                {
                    &&& #[trigger] set_up(
                        FlowView::fresh(client_id@, str_view(maybe_host), str_view(scope)),
                        outcome,
                        after,
                    )
                    &&& flow_result_view(r) == start_outcome(after)
                    &&& !(after.state is Pending) && !(after.state is Success)
                },
    {
        let mut flow = DeviceFlow::new(client_id, maybe_host, scope);
        flow.setup(outcome);
        assert(set_up(
            FlowView::fresh(client_id@, str_view(maybe_host), str_view(scope)),
            outcome,
            flow@,
        ));
        flow.started()
    }

    /// What starting comes to for a flow that registration has been through:
    /// the flow itself where it waits for the user, and its error where it
    /// failed.
    pub fn started(self) -> (r: Result<DeviceFlow, DeviceFlowError>)
        ensures
            flow_result_view(r) == start_outcome(self@),
    {
        match &self.state {
            DeviceFlowState::Processing(_) => Ok(self),
            DeviceFlowState::Failure(error) => Err(error.clone()),
            _ => Err(credential_error(String::from_str("Something truly unexpected happened"))),
        }
    }

    /// The request that asks for this flow's token. The flow must hold a
    /// device code, which registration gives it.
    pub fn update_request(&self) -> (r: Request)
        requires
            self.device_code is Some,
        ensures
            r@ == poll_request(self.host@, self.client_id@, self.device_code.unwrap()@),
    {
        match &self.device_code {
            Some(device_code) => Request::poll(
                self.host.as_str(),
                self.client_id.as_str(),
                device_code.as_str(),
            ),
            None => Request::poll(self.host.as_str(), self.client_id.as_str(), ""),
        }
    }

    /// Takes in what came back at `now` for a poll request.
    pub fn update_at(&mut self, received: Result<Reply, DeviceFlowError>, now: Instant)
        requires
            can_slow_down(old(self).state),
        ensures
            final(self)@ == old(self)@.advanced(received_view(received), now),
            match (final(self).state, received) {
                (DeviceFlowState::Success(credential), Ok(reply)) => !old(
                    self,
                ).state@.is_terminal() ==> expires_after(credential@, reply@, now),
                _ => true,
            },
    {
        self.state = self.state.after_poll(received, now);
    }

    /// Does one poll step: takes in what the transport brought back for
    /// [`DeviceFlow::update_request`], at the time of the system clock.
    ///
    /// The flow moves as [`updated`] says for some time of arrival that is not
    /// before the Unix epoch and no leap second.
    pub fn update(&mut self, outcome: Result<Vec<u8>, DeviceFlowError>)
        requires
            can_slow_down(old(self).state),
        ensures
            exists|now: Instant|
                now.secs >= 0 && now.nanos < 1_000_000_000 && #[trigger] updated(
                    old(self)@,
                    outcome,
                    now,
                    final(self)@,
                ),
    {
        let received = read_reply(outcome);
        let now = now_utc();
        self.update_at(received, now);
        assert(updated(old(self)@, outcome, now, self@));
    }

    /// How long to wait before the next poll, in seconds: the pause of a flow
    /// that waits for the user, and nothing for any other.
    pub fn pause(&self) -> (r: Option<u64>)
        ensures
            match self.state {
                DeviceFlowState::Processing(interval) => r == Some(interval),
                _ => r is None,
            },
    {
        match &self.state {
            DeviceFlowState::Processing(interval) => Some(*interval),
            _ => None,
        }
    }

    /// The result of a poll driver that stops now, having been allowed
    /// `iterations` polls: see [`poll_outcome`].
    pub fn poll_result(&self, iterations: u32) -> (r: Result<Credential, DeviceFlowError>)
        ensures
            result_view(r) == poll_outcome(self.state@, iterations),
    {
        match &self.state {
            DeviceFlowState::Success(credential) => Ok(credential.clone()),
            DeviceFlowState::Failure(error) => Err(error.clone()),
            DeviceFlowState::Processing(_) => {
                if iterations > 0 {
                    Err(credential_error(String::from_str("Max poll iterations reached")))
                } else {
                    Err(credential_error(String::from_str("Unable to fetch credential, sorry :/")))
                }
            },
            DeviceFlowState::Pending => Err(
                credential_error(String::from_str("Unable to fetch credential, sorry :/")),
            ),
        }
    }

    /// Decides what the poll driver does after `attempts` polls out of at most
    /// `iterations`.
    ///
    /// It polls again while attempts are left and the flow is not over, and
    /// stops with the result of [`poll_outcome`] otherwise. A flow that still
    /// waits for the user when its attempts have run out ends with the error
    /// that the iterations are used up. With no attempt allowed the driver
    /// never sends anything.
    pub fn poll_step(&self, attempts: u32, iterations: u32) -> (r: PollStep)
        requires
            attempts < iterations && !self.state@.is_terminal() ==> self.device_code is Some,
        ensures
            iterations == 0 ==> r is Finish,
            match r {
                PollStep::Send(request) => attempts < iterations && !self.state@.is_terminal()
                    && request@ == poll_request(
                    self.host@,
                    self.client_id@,
                    self.device_code.unwrap()@,
                ),
                PollStep::Finish(result) => (attempts >= iterations || self.state@.is_terminal())
                    && result_view(result) == poll_outcome(self.state@, iterations),
            },
            self.state is Processing && iterations > 0 && attempts >= iterations ==> (r
                matches PollStep::Finish(Err(error)) && error@ == ErrorView::GitHubError(
                "Max poll iterations reached"@,
            )),
    {
        let over = match &self.state {
            DeviceFlowState::Success(_) => true,
            DeviceFlowState::Failure(_) => true,
            _ => false,
        };
        if attempts < iterations && !over {
            PollStep::Send(self.update_request())
        } else {
            PollStep::Finish(self.poll_result(iterations))
        }
    }
}

} // verus!
