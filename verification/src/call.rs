//! One call of the proxy, as a state machine.
//!
//! The library never touches the network. It is told what happened, one
//! event at a time, and answers with the next thing to do: send this
//! request, read and decode the response body, or hand this envelope back.
//! Whoever runs the machine performs the action and reports its outcome as
//! the next event.

use crate::envelope::{ApiResponse, Envelope};
use crate::json::{empty_object_text, json_text};
use crate::method::{law_letter_case_is_immaterial, HttpMethod};
use crate::request::{request_for, BackendRequest, RequestView};
use crate::text::{same_ignoring_ascii_case, uppercase};
use vstd::prelude::*;
use vstd::utf8::is_ascii_chars;

verus! {

/// The error text of a call whose method is none of the four.
pub const INVALID_METHOD: &'static str = "Invalid HTTP method";

/// Leads the error text of a call whose request could not be delivered.
pub const SEND_FAILED: &'static str = "API call failed: ";

/// Leads the error text of a call whose response body was no JSON.
pub const DECODE_FAILED: &'static str = "Failed to parse response: ";

/// How far a call has come.
#[derive(Clone, Copy, Debug, PartialEq, Eq, Structural)]
pub enum CallState {
    /// Nothing has happened yet.
    Idle,
    /// The request is out; the transport has not answered.
    AwaitingResponse,
    /// A response came in; its body is being read and decoded.
    AwaitingBody,
    /// The envelope has been handed back.
    Done,
}

/// What can happen to a call.
#[derive(Debug, PartialEq)]
pub enum CallEvent {
    /// The command was invoked with these arguments.
    Invoked { endpoint: String, method: String, body: Option<serde_json::Value> },
    /// The request could not be delivered or no response came back.
    SendFailed(String),
    /// A response arrived.
    ResponseReceived,
    /// The response body could not be read as JSON.
    DecodeFailed(String),
    /// The response body was read as this value.
    BodyDecoded(serde_json::Value),
}

/// What the runner of a call has to do next.
#[derive(Debug)]
pub enum CallAction {
    /// Send this request, once.
    Send(BackendRequest),
    /// Read the response body and decode it as JSON.
    DecodeBody,
    /// Hand this envelope back to the caller; the call is over.
    Reply(ApiResponse<serde_json::Value>),
    /// Nothing: the event does not belong to the state the call is in.
    Ignore,
}

/// The content of a [`CallEvent`].
pub enum EventView {
    Invoked { endpoint: Seq<char>, method: Seq<char>, body: Option<serde_json::Value> },
    SendFailed(Seq<char>),
    ResponseReceived,
    DecodeFailed(Seq<char>),
    BodyDecoded(serde_json::Value),
}

/// The content of a [`CallAction`].
pub enum ActionView {
    Send(RequestView),
    DecodeBody,
    Reply(Envelope<serde_json::Value>),
    Ignore,
}

impl View for CallEvent {
    type V = EventView;

    open spec fn view(&self) -> EventView {
        match *self {
            CallEvent::Invoked { endpoint, method, body } => EventView::Invoked {
                endpoint: endpoint@,
                method: method@,
                body,
            },
            CallEvent::SendFailed(diagnostic) => EventView::SendFailed(diagnostic@),
            CallEvent::ResponseReceived => EventView::ResponseReceived,
            CallEvent::DecodeFailed(diagnostic) => EventView::DecodeFailed(diagnostic@),
            CallEvent::BodyDecoded(value) => EventView::BodyDecoded(value),
        }
    }
}

impl View for CallAction {
    type V = ActionView;

    open spec fn view(&self) -> ActionView {
        match *self {
            CallAction::Send(request) => ActionView::Send(request@),
            CallAction::DecodeBody => ActionView::DecodeBody,
            CallAction::Reply(envelope) => ActionView::Reply(envelope@),
            CallAction::Ignore => ActionView::Ignore,
        }
    }
}

/// The envelope for a request that could not be delivered.
pub open spec fn send_failure(diagnostic: Seq<char>) -> Envelope<serde_json::Value> {
    Envelope::failure(SEND_FAILED@ + diagnostic)
}

/// The envelope for a response body that was no JSON.
pub open spec fn decode_failure(diagnostic: Seq<char>) -> Envelope<serde_json::Value> {
    Envelope::failure(DECODE_FAILED@ + diagnostic)
}

/// The envelope for a method that is none of the four.
pub open spec fn invalid_method() -> Envelope<serde_json::Value> {
    Envelope::failure(INVALID_METHOD@)
}

/// The machine: the state after `event` and the action it calls for.
///
/// An invocation with a valid method sends one request; with any other
/// method it replies at once and nothing is sent. A failed send and a failed
/// decode reply with the diagnostic behind a fixed lead; a decoded body is
/// the reply's data. An event that the state does not wait for changes
/// nothing.
pub open spec fn transition(state: CallState, event: EventView) -> (CallState, ActionView) {
    match (state, event) {
        (CallState::Idle, EventView::Invoked { endpoint, method, body }) => {
            match HttpMethod::of_text(method) {
                Some(m) => (
                    CallState::AwaitingResponse,
                    ActionView::Send(request_for(endpoint, m, body)),
                ),
                None => (CallState::Done, ActionView::Reply(invalid_method())),
            }
        },
        (CallState::AwaitingResponse, EventView::SendFailed(diagnostic)) => (
            CallState::Done,
            ActionView::Reply(send_failure(diagnostic)),
        ),
        (CallState::AwaitingResponse, EventView::ResponseReceived) => (
            CallState::AwaitingBody,
            ActionView::DecodeBody,
        ),
        (CallState::AwaitingBody, EventView::DecodeFailed(diagnostic)) => (
            CallState::Done,
            ActionView::Reply(decode_failure(diagnostic)),
        ),
        (CallState::AwaitingBody, EventView::BodyDecoded(value)) => (
            CallState::Done,
            ActionView::Reply(Envelope::success(value)),
        ),
        _ => (state, ActionView::Ignore),
    }
}

/// Joins a fixed lead and a diagnostic into the error text of an envelope.
fn failure(lead: &str, diagnostic: &str) -> (r: ApiResponse<serde_json::Value>)
    ensures
        r@ == Envelope::<serde_json::Value>::failure(lead@ + diagnostic@),
{
    let mut message = lead.to_owned();
    message.append(diagnostic);
    ApiResponse::with_error(message)
}

/// Validates an invocation and builds its request.
///
/// Returns the one request to send exactly when `method`, in any letter
/// case, is `GET`, `POST`, `PUT` or `DELETE`. For any other method it returns
/// the envelope that rejects the call.
pub fn prepare_request(endpoint: &str, method: &str, body: Option<serde_json::Value>) -> (r: Result<
    BackendRequest,
    ApiResponse<serde_json::Value>,
>)
    ensures
        match HttpMethod::of_text(method@) {
            Some(m) => r matches Ok(request) && request@ == request_for(endpoint@, m, body) && (
            body matches Some(value) ==> request.body == value),
            None => r matches Err(envelope) && envelope@ == invalid_method(),
        },
{
    match HttpMethod::parse(method) {
        Some(m) => Ok(BackendRequest::new(endpoint, m, body)),
        None => Err(ApiResponse::with_error(INVALID_METHOD.to_owned())),
    }
}

/// Advances a call by one event.
pub fn step(state: CallState, event: CallEvent) -> (r: (CallState, CallAction))
    ensures
        (r.0, r.1@) == transition(state, event@),
        r.1 matches CallAction::Reply(envelope) ==> envelope@.is_consistent(),
        event matches CallEvent::Invoked { body: Some(value), .. } ==> (r.1 matches
            CallAction::Send(request) ==> request.body == value),
{
    match (state, event) {
        (CallState::Idle, CallEvent::Invoked { endpoint, method, body }) => {
            match prepare_request(endpoint.as_str(), method.as_str(), body) {
                Ok(request) => (CallState::AwaitingResponse, CallAction::Send(request)),
                Err(envelope) => (CallState::Done, CallAction::Reply(envelope)),
            }
        },
        (CallState::AwaitingResponse, CallEvent::SendFailed(diagnostic)) => (
            CallState::Done,
            CallAction::Reply(failure(SEND_FAILED, diagnostic.as_str())),
        ),
        (CallState::AwaitingResponse, CallEvent::ResponseReceived) => (
            CallState::AwaitingBody,
            CallAction::DecodeBody,
        ),
        (CallState::AwaitingBody, CallEvent::DecodeFailed(diagnostic)) => (
            CallState::Done,
            CallAction::Reply(failure(DECODE_FAILED, diagnostic.as_str())),
        ),
        (CallState::AwaitingBody, CallEvent::BodyDecoded(value)) => (
            CallState::Done,
            CallAction::Reply(ApiResponse::with_data(value)),
        ),
        (state, _) => (state, CallAction::Ignore),
    }
}

/// How many requests a run asks to send: the machine starts in `state` and
/// is fed `events` in order.
pub open spec fn requests_sent(state: CallState, events: Seq<EventView>) -> nat
    decreases events.len(),
{
    if events.len() == 0 {
        0
    } else {
        let (next, action) = transition(state, events[0]);
        let now: nat = if action is Send { 1 } else { 0 };
        now + requests_sent(next, events.drop_first())
    }
}

/// How many envelopes a run hands back.
pub open spec fn replies_given(state: CallState, events: Seq<EventView>) -> nat
    decreases events.len(),
{
    if events.len() == 0 {
        0
    } else {
        let (next, action) = transition(state, events[0]);
        let now: nat = if action is Reply { 1 } else { 0 };
        now + replies_given(next, events.drop_first())
    }
}

/// The state a run ends in.
pub open spec fn state_after(state: CallState, events: Seq<EventView>) -> CallState
    decreases events.len(),
{
    if events.len() == 0 {
        state
    } else {
        state_after(transition(state, events[0]).0, events.drop_first())
    }
}

/// The actions that a run calls for, one for each event and in their order.
pub open spec fn actions_of(state: CallState, events: Seq<EventView>) -> Seq<ActionView>
    decreases events.len(),
{
    if events.len() == 0 {
        Seq::empty()
    } else {
        let (next, action) = transition(state, events[0]);
        seq![action] + actions_of(next, events.drop_first())
    }
}

/// Every envelope that the machine hands back is consistent: a success with
/// data and no error, or a failure with an error and no data.
pub proof fn law_replies_are_consistent(state: CallState, event: EventView)
    ensures
        transition(state, event).1 matches ActionView::Reply(envelope) ==> envelope.is_consistent(),
{
}

/// A finished call stays finished: no event makes it send or reply again.
pub proof fn law_done_is_final(events: Seq<EventView>)
    ensures
        requests_sent(CallState::Done, events) == 0,
        replies_given(CallState::Done, events) == 0,
        state_after(CallState::Done, events) == CallState::Done,
    decreases events.len(),
{
    if events.len() > 0 {
        law_done_is_final(events.drop_first());
    }
}

/// Once the request is out, no run sends another one, and it replies at most
/// once.
proof fn lemma_nothing_sent_after_the_request(state: CallState, events: Seq<EventView>)
    requires
        state != CallState::Idle,
    ensures
        requests_sent(state, events) == 0,
        replies_given(state, events) <= 1,
        replies_given(state, events) == 1 <==> state != CallState::Done && state_after(
            state,
            events,
        ) == CallState::Done,
    decreases events.len(),
{
    if events.len() > 0 {
        let next = transition(state, events[0]).0;
        lemma_nothing_sent_after_the_request(next, events.drop_first());
        law_done_is_final(events.drop_first());
    }
}

/// Whatever happens to a call, in whatever order: at most one request is
/// sent and at most one envelope is handed back, and the envelope is handed
/// back exactly in the runs that finish.
pub proof fn law_one_request_one_reply(events: Seq<EventView>)
    ensures
        requests_sent(CallState::Idle, events) <= 1,
        replies_given(CallState::Idle, events) <= 1,
        replies_given(CallState::Idle, events) == 1 <==> state_after(CallState::Idle, events)
            == CallState::Done,
    decreases events.len(),
{
    if events.len() > 0 {
        let next = transition(CallState::Idle, events[0]).0;
        if next == CallState::Idle {
            law_one_request_one_reply(events.drop_first());
        } else {
            lemma_nothing_sent_after_the_request(next, events.drop_first());
            law_done_is_final(events.drop_first());
        }
    }
}

/// An invocation with one of the four methods, in any letter case, sends
/// exactly one request, however the call goes on. With any other method
/// nothing is ever sent, and the call ends at once with the envelope that
/// names the invalid method.
pub proof fn law_valid_methods_send_exactly_once(
    endpoint: Seq<char>,
    method: Seq<char>,
    body: Option<serde_json::Value>,
    later: Seq<EventView>,
)
    ensures
        ({
            let invoked = EventView::Invoked { endpoint, method, body };
            let events = seq![invoked] + later;
            match HttpMethod::of_text(method) {
                Some(m) => {
                    &&& requests_sent(CallState::Idle, events) == 1
                    &&& transition(CallState::Idle, invoked).1 == ActionView::Send(
                        request_for(endpoint, m, body),
                    )
                },
                None => {
                    &&& requests_sent(CallState::Idle, events) == 0
                    &&& replies_given(CallState::Idle, events) == 1
                    &&& transition(CallState::Idle, invoked) == (
                        CallState::Done,
                        ActionView::Reply(invalid_method()),
                    )
                },
            }
        }),
{
    let invoked = EventView::Invoked { endpoint, method, body };
    let events = seq![invoked] + later;
    assert(events[0] == invoked);
    assert(events.drop_first() =~= later);
    let next = transition(CallState::Idle, invoked).0;
    lemma_nothing_sent_after_the_request(next, later);
    law_done_is_final(later);
}

/// The letter case of the method changes nothing: two invocations that
/// differ only in it are dispatched alike, in every state.
pub proof fn law_dispatch_ignores_letter_case(
    state: CallState,
    endpoint: Seq<char>,
    a: Seq<char>,
    b: Seq<char>,
    body: Option<serde_json::Value>,
)
    ensures
        uppercase(a) == uppercase(b) || (is_ascii_chars(a) && is_ascii_chars(b)
            && same_ignoring_ascii_case(a, b)) ==> transition(
            state,
            EventView::Invoked { endpoint, method: a, body },
        ) == transition(state, EventView::Invoked { endpoint, method: b, body }),
{
    law_letter_case_is_immaterial(a, b);
}

/// A call without a body is dispatched like a call with the empty object:
/// the same request goes out, or the same envelope comes back.
pub proof fn law_missing_body_is_dispatched_as_empty_object(
    state: CallState,
    endpoint: Seq<char>,
    method: Seq<char>,
    value: serde_json::Value,
)
    ensures
        json_text(value) == empty_object_text() ==> transition(
            state,
            EventView::Invoked { endpoint, method, body: None },
        ) == transition(state, EventView::Invoked { endpoint, method, body: Some(value) }),
{
}

/// Tells the two calls of a joint run apart.
pub enum Caller {
    First,
    Second,
}

/// The part of a joint run that belongs to `caller`: its events or its
/// actions, in the order in which they stand in `joint`.
pub open spec fn share_of<A>(joint: Seq<(Caller, A)>, caller: Caller) -> Seq<A>
    decreases joint.len(),
{
    if joint.len() == 0 {
        Seq::empty()
    } else if joint[0].0 == caller {
        seq![joint[0].1] + share_of(joint.drop_first(), caller)
    } else {
        share_of(joint.drop_first(), caller)
    }
}

/// Two calls in flight at once. Their events arrive in any order, each
/// marked with the call it belongs to, and each action is marked with the
/// call that has to perform it.
pub open spec fn joint_actions(
    first: CallState,
    second: CallState,
    joint: Seq<(Caller, EventView)>,
) -> Seq<(Caller, ActionView)>
    decreases joint.len(),
{
    if joint.len() == 0 {
        Seq::empty()
    } else {
        let (caller, event) = joint[0];
        match caller {
            Caller::First => {
                let (next, action) = transition(first, event);
                seq![(caller, action)] + joint_actions(next, second, joint.drop_first())
            },
            Caller::Second => {
                let (next, action) = transition(second, event);
                seq![(caller, action)] + joint_actions(first, next, joint.drop_first())
            },
        }
    }
}

/// Two calls in flight at once do not interfere: however their events are
/// interleaved, each call is asked to do exactly what it would be asked had
/// it run alone, so each gets the reply to its own request.
pub proof fn law_calls_do_not_interfere(
    first: CallState,
    second: CallState,
    joint: Seq<(Caller, EventView)>,
)
    ensures
        share_of(joint_actions(first, second, joint), Caller::First) == actions_of(
            first,
            share_of(joint, Caller::First),
        ),
        share_of(joint_actions(first, second, joint), Caller::Second) == actions_of(
            second,
            share_of(joint, Caller::Second),
        ),
    decreases joint.len(),
{
    if joint.len() > 0 {
        let (caller, event) = joint[0];
        let rest = joint.drop_first();
        let actions = joint_actions(first, second, joint);
        match caller {
            Caller::First => {
                let (next, action) = transition(first, event);
                law_calls_do_not_interfere(next, second, rest);
                let tail = joint_actions(next, second, rest);
                assert(actions[0] == (caller, action));
                assert(actions.drop_first() =~= tail);
                let own = share_of(joint, Caller::First);
                assert(own[0] == event);
                assert(own.drop_first() =~= share_of(rest, Caller::First));
            },
            Caller::Second => {
                let (next, action) = transition(second, event);
                law_calls_do_not_interfere(first, next, rest);
                let tail = joint_actions(first, next, rest);
                assert(actions[0] == (caller, action));
                assert(actions.drop_first() =~= tail);
                let own = share_of(joint, Caller::Second);
                assert(own[0] == event);
                assert(own.drop_first() =~= share_of(rest, Caller::Second));
            },
        }
    }
}

} // verus!
