//! The states of a device flow and the rules that move it between them.

use crate::credential::{Credential, CredentialView};
use crate::error::{DeviceFlowError, ErrorView};
use crate::grant::{expires_after, grant, granted, invalid_field};
use crate::instant::Instant;
use crate::json::{debug_text, Field, FieldView};
use crate::reply::{Reply, ReplyView};
use crate::util::credential_error;
use vstd::prelude::*;

verus! {

/// Where a device flow stands.
#[derive(Debug, PartialEq, Eq)]
pub enum DeviceFlowState {
    /// Nothing has been sent yet.
    Pending,
    /// The device is registered and the user has not yet decided. The number
    /// is the pause between two polls, in seconds.
    Processing(u64),
    /// The server issued a token. The flow is over.
    Success(Credential),
    /// The flow failed for good.
    Failure(DeviceFlowError),
}

/// The mathematical value of a [`DeviceFlowState`].
pub enum StateView {
    Pending,
    Processing(int),
    Success(CredentialView),
    Failure(ErrorView),
}

impl StateView {
    /// The flow is over: no reply changes the state any more.
    pub open spec fn is_terminal(self) -> bool {
        self is Success || self is Failure
    }
}

impl View for DeviceFlowState {
    type V = StateView;

    open spec fn view(&self) -> StateView {
        match self {
            DeviceFlowState::Pending => StateView::Pending,
            DeviceFlowState::Processing(interval) => StateView::Processing(*interval as int),
            DeviceFlowState::Success(credential) => StateView::Success(credential@),
            DeviceFlowState::Failure(error) => StateView::Failure(error@),
        }
    }
}

impl Clone for DeviceFlowState {
    fn clone(&self) -> (r: Self)
        ensures
            r@ == self@,
    {
        match self {
            DeviceFlowState::Pending => DeviceFlowState::Pending,
            DeviceFlowState::Processing(interval) => DeviceFlowState::Processing(*interval),
            DeviceFlowState::Success(credential) => DeviceFlowState::Success(credential.clone()),
            DeviceFlowState::Failure(error) => DeviceFlowState::Failure(error.clone()),
        }
    }
}

/// The pause between two polls right after registration, in seconds.
pub const FIVE_SECONDS: u64 = 5;

/// What came back for a request: the reply read from the response, or the
/// error that kept one from arriving.
pub open spec fn received_view(received: Result<Reply, DeviceFlowError>) -> Result<
    ReplyView,
    ErrorView,
> {
    match received {
        Ok(reply) => Ok(reply@),
        Err(error) => Err(error@),
    }
}

/// The failure that a registration reply reports, if it reports one.
///
/// A reply with both `error` and `error_description` fails with the
/// description; one with `error` alone fails with the quoted error code.
pub open spec fn registration_error(reply: ReplyView) -> Option<ErrorView> {
    if !(reply.error is Missing) && !(reply.error_description is Missing) {
        match reply.error_description {
            FieldView::Text(description) => Some(ErrorView::GitHubError(description)),
            _ => Some(ErrorView::GitHubError(invalid_field("error_description"@))),
        }
    } else if !(reply.error is Missing) {
        match reply.error {
            FieldView::Text(code) => Some(
                ErrorView::GitHubError("Error response: "@ + debug_text(code)),
            ),
            _ => Some(ErrorView::GitHubError(invalid_field("error"@))),
        }
    } else {
        None
    }
}

/// The detail of the failure for a poll that the server refused with `code`.
pub open spec fn poll_refusal(code: Seq<char>) -> Seq<char> {
    "Error checking for token: "@ + code
}

/// The state after one poll, from the state before it, what came back for the
/// request, and the time at which it came back.
///
/// A flow that is over stays as it is. Otherwise a failed exchange ends the
/// flow; `authorization_pending` changes nothing; `slow_down` lengthens the
/// pause of a registered flow by five seconds; any other error code ends the
/// flow; and a reply without `error` ends it with the credential granted, or
/// with the error for a reply that grants none.
pub open spec fn polled(state: StateView, received: Result<ReplyView, ErrorView>, now: Instant)
    -> StateView {
    if state.is_terminal() {
        state
    } else {
        match received {
            Err(error) => StateView::Failure(error),
            Ok(reply) => match reply.error {
                FieldView::Missing => match granted(reply, now) {
                    Ok(credential) => StateView::Success(credential),
                    Err(error) => StateView::Failure(error),
                },
                FieldView::Text(code) => if code == "authorization_pending"@ {
                    state
                } else if code == "slow_down"@ {
                    match state {
                        StateView::Processing(interval) => StateView::Processing(interval + 5),
                        _ => state,
                    }
                } else {
                    StateView::Failure(ErrorView::GitHubError(poll_refusal(code)))
                },
                _ => StateView::Failure(ErrorView::GitHubError(invalid_field("error"@))),
            },
        }
    }
}

impl DeviceFlowState {
    /// The state after one poll: see [`polled`].
    ///
    /// The pause of a registered flow must leave room for five more seconds.
    pub fn after_poll(&self, received: Result<Reply, DeviceFlowError>, now: Instant) -> (r:
        DeviceFlowState)
        requires
            self matches DeviceFlowState::Processing(interval) ==> interval + 5 <= u64::MAX,
        ensures
            r@ == polled(self@, received_view(received), now),
            match (r, received) {
                (DeviceFlowState::Success(credential), Ok(reply)) => !self@.is_terminal()
                    ==> expires_after(credential@, reply@, now),
                _ => true,
            },
    {
        match self {
            DeviceFlowState::Success(_) => self.clone(),
            DeviceFlowState::Failure(_) => self.clone(),
            _ => match received {
                Err(error) => DeviceFlowState::Failure(error),
                Ok(reply) => match &reply.error {
                    Field::Missing => match grant(&reply, now) {
                        Ok(credential) => DeviceFlowState::Success(credential),
                        Err(error) => DeviceFlowState::Failure(error),
                    },
                    Field::Text(code) => {
                        if *code == String::from_str("authorization_pending") {
                            self.clone()
                        } else if *code == String::from_str("slow_down") {
                            match self {
                                DeviceFlowState::Processing(interval) => {
                                    DeviceFlowState::Processing(*interval + FIVE_SECONDS)
                                },
                                _ => self.clone(),
                            }
                        } else {
                            DeviceFlowState::Failure(
                                credential_error(
                                    String::from_str("Error checking for token: ").concat(
                                        code.as_str(),
                                    ),
                                ),
                            )
                        }
                    },
                    _ => DeviceFlowState::Failure(
                        credential_error(
                            String::from_str("malformed response: invalid field ").concat("error"),
                        ),
                    ),
                },
            },
        }
    }
}

/// The reply is the server's `authorization_pending`.
pub open spec fn is_pending_reply(received: Result<ReplyView, ErrorView>) -> bool {
    received matches Ok(reply) && reply.error == FieldView::Text("authorization_pending"@)
}

/// The reply is the server's `slow_down`.
pub open spec fn is_slow_down_reply(received: Result<ReplyView, ErrorView>) -> bool {
    received matches Ok(reply) && reply.error == FieldView::Text("slow_down"@)
}

/// The state after a run of polls, each given by what came back and when:
/// the first of the sequence is taken in first.
pub open spec fn polled_through(
    state: StateView,
    polls: Seq<(Result<ReplyView, ErrorView>, Instant)>,
) -> StateView
    decreases polls.len(),
{
    if polls.len() == 0 {
        state
    } else {
        polled(polled_through(state, polls.drop_last()), polls.last().0, polls.last().1)
    }
}

/// A flow that is over stays exactly as it is, whatever comes back.
pub proof fn terminal_state_is_kept(
    state: StateView,
    received: Result<ReplyView, ErrorView>,
    now: Instant,
)
    requires
        state.is_terminal(),
    ensures
        polled(state, received, now) == state,
{
}

/// A flow that waits for the user goes on waiting or ends, and its pause
/// never shrinks: one poll leaves it as it is or adds five seconds.
pub proof fn waiting_state_moves_forward(
    interval: int,
    received: Result<ReplyView, ErrorView>,
    now: Instant,
)
    ensures
        match polled(StateView::Processing(interval), received, now) {
            StateView::Processing(next) => next == interval || next == interval + 5,
            StateView::Success(_) => true,
            StateView::Failure(_) => true,
            StateView::Pending => false,
        },
{
}

/// A flow that is over stays exactly as it is through any run of polls.
pub proof fn terminal_state_is_kept_through(
    state: StateView,
    polls: Seq<(Result<ReplyView, ErrorView>, Instant)>,
)
    requires
        state.is_terminal(),
    ensures
        polled_through(state, polls) == state,
    decreases polls.len(),
{
    if polls.len() > 0 {
        terminal_state_is_kept_through(state, polls.drop_last());
    }
}

/// Through any run of polls a flow that waits for the user goes on waiting or
/// ends; while it waits its pause never shrinks, and grows by at most five
/// seconds for each poll.
pub proof fn waiting_state_moves_forward_through(
    interval: int,
    polls: Seq<(Result<ReplyView, ErrorView>, Instant)>,
)
    ensures
        match polled_through(StateView::Processing(interval), polls) {
            StateView::Processing(next) => interval <= next <= interval + 5 * polls.len(),
            StateView::Success(_) => true,
            StateView::Failure(_) => true,
            StateView::Pending => false,
        },
    decreases polls.len(),
{
    if polls.len() > 0 {
        waiting_state_moves_forward_through(interval, polls.drop_last());
        let before = polled_through(StateView::Processing(interval), polls.drop_last());
        if let StateView::Processing(reached) = before {
            waiting_state_moves_forward(reached, polls.last().0, polls.last().1);
        }
    }
}

/// `authorization_pending` leaves the state untouched.
pub proof fn pending_reply_keeps_state(
    state: StateView,
    received: Result<ReplyView, ErrorView>,
    now: Instant,
)
    requires
        is_pending_reply(received),
    ensures
        polled(state, received, now) == state,
{
}

/// `slow_down` turns a pause of `interval` seconds into one of
/// `interval + 5`.
pub proof fn slow_down_adds_five_seconds(
    interval: int,
    received: Result<ReplyView, ErrorView>,
    now: Instant,
)
    requires
        is_slow_down_reply(received),
    ensures
        polled(StateView::Processing(interval), received, now) == StateView::Processing(
            interval + 5,
        ),
{
    reveal_strlit("slow_down");
    reveal_strlit("authorization_pending");
    assert("slow_down"@.len() != "authorization_pending"@.len());
}

/// After `n` replies of `slow_down` in a row the pause is `5 * n` seconds
/// longer than it was, and after each of them five seconds longer than before
/// it: the pauses grow strictly, in steps of exactly five seconds.
pub proof fn slow_downs_add_up(
    interval: int,
    polls: Seq<(Result<ReplyView, ErrorView>, Instant)>,
)
    requires
        forall|i: int| 0 <= i < polls.len() ==> is_slow_down_reply(#[trigger] polls[i].0),
    ensures
        forall|n: int|
            0 <= n <= polls.len() ==> #[trigger] polled_through(
                StateView::Processing(interval),
                polls.take(n),
            ) == StateView::Processing(interval + 5 * n),
        polled_through(StateView::Processing(interval), polls) == StateView::Processing(
            interval + 5 * polls.len(),
        ),
    decreases polls.len(),
{
    let start = StateView::Processing(interval);
    if polls.len() == 0 {
        assert forall|n: int| 0 <= n <= polls.len() implies #[trigger] polled_through(
            start,
            polls.take(n),
        ) == StateView::Processing(interval + 5 * n) by {
            assert(polls.take(n).len() == 0);
        }
    } else {
        let before = polls.drop_last();
        slow_downs_add_up(interval, before);
        slow_down_adds_five_seconds(
            interval + 5 * before.len(),
            polls.last().0,
            polls.last().1,
        );
        assert forall|n: int| 0 <= n <= polls.len() implies #[trigger] polled_through(
            start,
            polls.take(n),
        ) == StateView::Processing(interval + 5 * n) by {
            if n < polls.len() {
                assert(polls.take(n) =~= before.take(n));
            } else {
                assert(polls.take(n) =~= polls);
            }
        }
    }
}

} // verus!
