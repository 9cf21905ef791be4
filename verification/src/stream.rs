//! The search session: a state machine that says which call to make next
//! and which snapshots the responses give.
//!
//! The machine makes no call itself. Its driver asks for the next call,
//! performs it, and hands the response back; what the machine gives out in
//! return is the next element of the session's output, if the response
//! brought one.

use crate::decode::{Decode, DecodeError};
use crate::json::{Json, JsonValue};
use crate::req::CreateRequest;
use crate::resp::{
    ContentModel, FlightsLiveSearchContent, ResponseModel, ResultAction, ResultStatus,
    SearchCreateResponse,
};
use crate::schema::{decode_create_response, decode_poll_response, spec_poll_response};
use vstd::prelude::*;
use vstd::string::*;

verus! {

/// Where a session stands.
#[derive(Debug)]
pub enum SessionState {
    /// No call was made yet; the request is still to be sent.
    Created(CreateRequest),
    /// The last response gave this token and this status.
    Polling { token: String, status: ResultStatus },
    /// The session has ended: no call will follow.
    Done,
}

/// A call that the driver of a session is to make.
#[derive(Debug, PartialEq)]
pub enum Call {
    /// The create call, with this body.
    Create(JsonValue),
    /// The poll call, on this session token.
    Poll(String),
}

/// What a response adds to the output of a session: its content where the
/// provider says that the content replaces what was known, else nothing.
pub open spec fn emitted_by(envelope: SearchCreateResponse) -> Option<FlightsLiveSearchContent> {
    if envelope.action == ResultAction::ResultActionReplaced {
        Some(envelope.content)
    } else {
        None
    }
}

impl SessionState {
    /// Whether the session asks for a call: at its start, and for as long
    /// as the provider says that the search is incomplete.
    pub open spec fn wants_call(self) -> bool {
        match self {
            SessionState::Created(_) => true,
            SessionState::Polling { status, .. } => status
                == ResultStatus::ResultStatusIncomplete,
            SessionState::Done => false,
        }
    }

    /// The state once the session has seen that no call is wanted.
    pub open spec fn spec_settle(self) -> SessionState {
        if self.wants_call() {
            self
        } else {
            SessionState::Done
        }
    }

    /// The state after the response `envelope` to the call that the session
    /// asked for, and what the response adds to the output. The token and
    /// the status are those of the response, whatever they were before.
    pub open spec fn spec_advance(self, envelope: SearchCreateResponse) -> (
        SessionState,
        Option<FlightsLiveSearchContent>,
    ) {
        if self.wants_call() {
            (
                SessionState::Polling { token: envelope.session_token, status: envelope.status },
                emitted_by(envelope),
            )
        } else {
            (SessionState::Done, None)
        }
    }

    /// A session that is to send `request`.
    pub fn new(request: CreateRequest) -> (r: SessionState)
        ensures
            r == SessionState::Created(request),
    {
        SessionState::Created(request)
    }

    /// Whether the session has ended.
    pub fn is_done(&self) -> (r: bool)
        ensures
            r == !self.wants_call(),
    {
        match self {
            SessionState::Created(_) => false,
            SessionState::Polling { status, .. } => match status {
                ResultStatus::ResultStatusIncomplete => false,
                _ => true,
            },
            SessionState::Done => true,
        }
    }

    /// The call to make next: the create call with the request's body at
    /// the start, a poll call on the latest token while the search is
    /// incomplete, and none once it is complete or has failed.
    pub fn next_call(&self) -> (r: Option<Call>)
        ensures
            r is Some <==> self.wants_call(),
            match *self {
                SessionState::Created(request) => r matches Some(Call::Create(body)) && body@
                    == request.spec_body(),
                SessionState::Polling { token, status } => status
                    == ResultStatus::ResultStatusIncomplete ==> r == Some(Call::Poll(token)),
                SessionState::Done => true,
            },
    {
        match self {
            SessionState::Created(request) => Some(Call::Create(request.to_body())),
            SessionState::Polling { token, status } => match status {
                ResultStatus::ResultStatusIncomplete => Some(Call::Poll(token.clone())),
                _ => None,
            },
            SessionState::Done => None,
        }
    }

    /// Ends the session where it asks for no call, and leaves it as it is
    /// where it does.
    pub fn settle(self) -> (r: SessionState)
        ensures
            r == self.spec_settle(),
    {
        if self.is_done() {
            SessionState::Done
        } else {
            self
        }
    }

    /// Takes the response to the call that the session asked for. The
    /// session goes on with the token and the status of the response, and
    /// gives out the content where the response's action is `replaced`. A
    /// session that asked for no call ends and gives out nothing.
    pub fn advance(self, envelope: SearchCreateResponse) -> (r: (
        SessionState,
        Option<FlightsLiveSearchContent>,
    ))
        ensures
            r == self.spec_advance(envelope),
    {
        if self.is_done() {
            return (SessionState::Done, None);
        }
        let SearchCreateResponse { session_token, status, action, content } = envelope;
        let emitted = match action {
            ResultAction::ResultActionReplaced => Some(content),
            _ => None,
        };
        (SessionState::Polling { token: session_token, status }, emitted)
    }
}

/// What a decoded response adds to the output of a session.
pub open spec fn emitted_model(envelope: ResponseModel) -> Option<ContentModel> {
    if envelope.action == ResultAction::ResultActionReplaced {
        Some(envelope.content)
    } else {
        None
    }
}

impl SessionState {
    /// The envelope that the raw response `j` to the call that the session
    /// asked for stands for: that of a create call at the start, that of a
    /// poll call later.
    pub open spec fn spec_expected(self, j: Json) -> Result<ResponseModel, DecodeError> {
        match self {
            SessionState::Created(_) => SearchCreateResponse::spec_decode(j),
            _ => spec_poll_response(j),
        }
    }

    /// Whether `r` is what the raw response `j` makes of the session. A
    /// response that does not decode ends the session with the error of
    /// the decoding; one that decodes moves the session on as
    /// [`SessionState::advance`] does. A session that asked for no call ends
    /// and gives out nothing, whatever the response holds.
    pub open spec fn accepted(
        self,
        j: Json,
        r: Result<(SessionState, Option<FlightsLiveSearchContent>), DecodeError>,
    ) -> bool {
        if self.wants_call() {
            match r {
                Ok(step) => {
                    &&& self.spec_expected(j) matches Ok(envelope)
                    &&& step.0 matches SessionState::Polling { token, status }
                    &&& token@ == envelope.session_token
                    &&& status == envelope.status
                    &&& step.1.deep_view() == emitted_model(envelope)
                },
                Err(e) => self.spec_expected(j) == Err::<ResponseModel, _>(e),
            }
        } else {
            r == Ok::<_, DecodeError>((SessionState::Done, None::<FlightsLiveSearchContent>))
        }
    }

    /// Takes the raw response to the call that the session asked for:
    /// decodes it, strictly, and moves on.
    pub fn accept(self, raw: &JsonValue) -> (r: Result<
        (SessionState, Option<FlightsLiveSearchContent>),
        DecodeError,
    >)
        ensures
            self.accepted(raw@, r),
    {
        if self.is_done() {
            return Ok((SessionState::Done, None));
        }
        let decoded = match &self {
            SessionState::Created(_) => decode_create_response(raw),
            _ => decode_poll_response(raw),
        };
        match decoded {
            Ok(envelope) => Ok(self.advance(envelope)),
            Err(e) => Err(e),
        }
    }
}

/// What a session has come to after a number of responses.
pub ghost struct Run {
    /// The state of the session.
    pub state: SessionState,
    /// The number of calls that were answered.
    pub calls: nat,
    /// The snapshots given out, in the order of the calls.
    pub emitted: Seq<FlightsLiveSearchContent>,
}

/// The run of a session that starts in `start` and whose calls are
/// answered by `responses`, one after the other, for as long as the session
/// asks for a call. Responses that are left over when the session has ended
/// are never asked for.
pub open spec fn spec_run(start: SessionState, responses: Seq<SearchCreateResponse>) -> Run
    decreases responses.len(),
{
    if responses.len() == 0 {
        Run { state: start, calls: 0, emitted: Seq::empty() }
    } else {
        let before = spec_run(start, responses.drop_last());
        if before.state.wants_call() {
            let step = before.state.spec_advance(responses.last());
            Run {
                state: step.0,
                calls: before.calls + 1,
                emitted: before.emitted + match step.1 {
                    Some(content) => seq![content],
                    None => Seq::empty(),
                },
            }
        } else {
            Run { state: SessionState::Done, calls: before.calls, emitted: before.emitted }
        }
    }
}

/// A session never makes more calls than it got responses, and one that
/// still asks for a call has used every response.
pub proof fn lemma_run_calls(start: SessionState, responses: Seq<SearchCreateResponse>)
    ensures
        spec_run(start, responses).calls <= responses.len(),
        spec_run(start, responses).state.wants_call() ==> spec_run(start, responses).calls
            == responses.len(),
    decreases responses.len(),
{
    if responses.len() > 0 {
        lemma_run_calls(start, responses.drop_last());
    }
}

/// The output of a session is made of the contents of the responses that it
/// used and whose action is `replaced`, each one whole and in the order of
/// the calls: no response is merged with another, none is given out twice,
/// and every other action gives out nothing.
pub proof fn lemma_run_emits_replaced(start: SessionState, responses: Seq<SearchCreateResponse>)
    ensures
        spec_run(start, responses).emitted == responses.take(
            spec_run(start, responses).calls as int,
        ).filter_map(|envelope: SearchCreateResponse| emitted_by(envelope)),
    decreases responses.len(),
{
    let f = |envelope: SearchCreateResponse| emitted_by(envelope);
    let run = spec_run(start, responses);
    lemma_run_calls(start, responses);
    if responses.len() == 0 {
        assert(responses.take(0) =~= Seq::empty());
    } else {
        let before = spec_run(start, responses.drop_last());
        lemma_run_calls(start, responses.drop_last());
        lemma_run_emits_replaced(start, responses.drop_last());
        if before.state.wants_call() {
            assert(responses.take(run.calls as int) =~= responses);
            assert(responses.drop_last().take(before.calls as int) =~= responses.drop_last());
        } else {
            assert(responses.take(run.calls as int) =~= responses.drop_last().take(
                before.calls as int,
            ));
        }
    }
}

/// A session whose responses say `incomplete` up to, and not including, the
/// `n`-th makes exactly `n` calls, however many responses stand ready, and
/// then asks for no further call.
pub proof fn lemma_run_terminates(
    start: SessionState,
    responses: Seq<SearchCreateResponse>,
    n: nat,
)
    requires
        start.wants_call(),
        1 <= n <= responses.len(),
        forall|i: int|
            0 <= i < n - 1 ==> (#[trigger] responses[i]).status
                == ResultStatus::ResultStatusIncomplete,
        responses[n - 1].status != ResultStatus::ResultStatusIncomplete,
    ensures
        spec_run(start, responses).calls == n,
        !spec_run(start, responses).state.wants_call(),
        spec_run(start, responses).state.spec_settle() == SessionState::Done,
    decreases responses.len(),
{
    let shorter = responses.drop_last();
    if responses.len() == n {
        lemma_run_all_incomplete(start, shorter);
    } else {
        lemma_run_terminates(start, shorter, n);
    }
}

/// A session whose responses all say `incomplete` uses every one of them
/// and asks for another call.
pub proof fn lemma_run_all_incomplete(start: SessionState, responses: Seq<SearchCreateResponse>)
    requires
        start.wants_call(),
        forall|i: int|
            0 <= i < responses.len() ==> (#[trigger] responses[i]).status
                == ResultStatus::ResultStatusIncomplete,
    ensures
        spec_run(start, responses).calls == responses.len(),
        spec_run(start, responses).state.wants_call(),
    decreases responses.len(),
{
    if responses.len() > 0 {
        lemma_run_all_incomplete(start, responses.drop_last());
    }
}

/// A session that has ended stays ended: whatever responses stand ready, it
/// makes no call and gives out nothing.
pub proof fn lemma_done_is_final(start: SessionState, responses: Seq<SearchCreateResponse>)
    requires
        !start.wants_call(),
    ensures
        spec_run(start, responses).calls == 0,
        spec_run(start, responses).emitted == Seq::<FlightsLiveSearchContent>::empty(),
        !spec_run(start, responses).state.wants_call(),
    decreases responses.len(),
{
    if responses.len() > 0 {
        lemma_done_is_final(start, responses.drop_last());
    }
}

/// The address of the create call.
pub open spec fn spec_create_url() -> Seq<char> {
    "https://partners.api.skyscanner.net/apiservices/v3/flights/live/search/create"@
}

/// The address of the poll call, without the token that ends it.
pub open spec fn spec_poll_prefix() -> Seq<char> {
    "https://partners.api.skyscanner.net/apiservices/v3/flights/live/search/poll/"@
}

/// The address of the create call.
pub fn create_url() -> (r: &'static str)
    ensures
        r@ == spec_create_url(),
{
    "https://partners.api.skyscanner.net/apiservices/v3/flights/live/search/create"
}

/// The address of the poll call on `token`: the token is the last part of
/// the path.
pub fn poll_url(token: &str) -> (r: String)
    ensures
        r@ == spec_poll_prefix() + token@,
{
    let mut url =
        "https://partners.api.skyscanner.net/apiservices/v3/flights/live/search/poll/".to_owned();
    url.append(token);
    url
}

} // verus!
