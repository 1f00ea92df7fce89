//! The relay of one request, as a state machine: each outcome of the outside
//! work is an event, and each event decides the next piece of outside work or
//! the reply that ends the relay.

use vstd::multiset::Multiset;
use vstd::prelude::*;
use vstd::string::*;

use crate::assemble::{assemble_redirect_req, assembled, is_host, MAP_ROOM};
use crate::message::is_header_value;
use crate::drain::{drain_message, DrainError, DrainFault, Side};
use crate::error::ConfigError;
use crate::message::{
    diagnostic, OutboundRequest, OutboundRequestView, RequestHead, RequestHeadView, ResponseEnvelope,
    ResponseEnvelopeView, ResponseHead, ResponseHeadView,
};
use crate::target::{
    forward_url, get_forward_addr, resolved, uri_parts, ForwardTarget, ForwardTargetView,
};

verus! {

/// Where the relay of one request stands.
#[derive(Debug, PartialEq, Eq)]
pub enum Relay {
    /// The inbound body is being drained.
    ReadingRequest { head: RequestHead, forward_to: String },
    /// A connection to the backend is being opened.
    Connecting { head: RequestHead, body: Vec<u8>, target: ForwardTarget },
    /// The client handshake with the backend is under way.
    Handshaking { head: RequestHead, body: Vec<u8>, target: ForwardTarget },
    /// The outbound request was handed over; the response is awaited.
    Sending,
    /// The backend's body is being drained.
    ReadingResponse { head: ResponseHead },
    /// The relay has ended, with a reply or with a configuration fault.
    Finished,
}

/// What the outside work reports back.
#[derive(Debug, PartialEq, Eq)]
pub enum Event {
    /// The inbound body was drained, or could not be.
    RequestBody(Result<Vec<u8>, DrainError>),
    /// The connection to the backend was opened (`true`) or refused.
    Connected(bool),
    /// The handshake succeeded (`true`) or failed.
    Handshaken(bool),
    /// The backend answered with this status and these headers, or sending
    /// the request failed.
    Response(Option<ResponseHead>),
    /// The backend's body was drained, or could not be.
    ResponseBody(Result<Vec<u8>, DrainError>),
}

/// The outside work to do next.
#[derive(Debug, PartialEq, Eq)]
pub enum Action {
    /// Open a connection to this `host:port`.
    Connect(String),
    /// Perform the client handshake on the connection.
    Handshake,
    /// Send this request.
    Send(OutboundRequest),
    /// Drain the body of the response.
    ReadResponse,
    /// Answer the caller; the relay is over.
    Reply(ResponseEnvelope),
    /// Give up on the deployment; the relay is over.
    Abort(ConfigError),
}

/// [`Relay`] as plain values.
pub enum RelayView {
    ReadingRequest { head: RequestHeadView, forward_to: Seq<char> },
    Connecting { head: RequestHeadView, body: Seq<u8>, target: ForwardTargetView },
    Handshaking { head: RequestHeadView, body: Seq<u8>, target: ForwardTargetView },
    Sending,
    ReadingResponse { head: ResponseHeadView },
    Finished,
}

/// [`Event`] as plain values.
pub enum EventView {
    RequestBody(Result<Seq<u8>, DrainError>),
    Connected(bool),
    Handshaken(bool),
    Response(Option<ResponseHeadView>),
    ResponseBody(Result<Seq<u8>, DrainError>),
}

/// [`Action`] as plain values.
pub enum ActionView {
    Connect(Seq<char>),
    Handshake,
    Send(OutboundRequestView),
    ReadResponse,
    Reply(ResponseEnvelopeView),
    Abort(ConfigError),
}

/// The outcome of a drain as plain values.
pub open spec fn drained_view(r: Result<Vec<u8>, DrainError>) -> Result<Seq<u8>, DrainError> {
    match r {
        Ok(bytes) => Ok(bytes@),
        Err(e) => Err(e),
    }
}

impl View for Relay {
    type V = RelayView;

    open spec fn view(&self) -> RelayView {
        match self {
            Relay::ReadingRequest { head, forward_to } => RelayView::ReadingRequest {
                head: head@,
                forward_to: forward_to@,
            },
            Relay::Connecting { head, body, target } => RelayView::Connecting {
                head: head@,
                body: body@,
                target: target@,
            },
            Relay::Handshaking { head, body, target } => RelayView::Handshaking {
                head: head@,
                body: body@,
                target: target@,
            },
            Relay::Sending => RelayView::Sending,
            Relay::ReadingResponse { head } => RelayView::ReadingResponse { head: head@ },
            Relay::Finished => RelayView::Finished,
        }
    }
}

impl View for Event {
    type V = EventView;

    open spec fn view(&self) -> EventView {
        match self {
            Event::RequestBody(r) => EventView::RequestBody(drained_view(*r)),
            Event::Connected(ok) => EventView::Connected(*ok),
            Event::Handshaken(ok) => EventView::Handshaken(*ok),
            Event::Response(head) => EventView::Response(
                match head {
                    Some(h) => Some(h@),
                    None => None,
                },
            ),
            Event::ResponseBody(r) => EventView::ResponseBody(drained_view(*r)),
        }
    }
}

impl View for Action {
    type V = ActionView;

    open spec fn view(&self) -> ActionView {
        match self {
            Action::Connect(addr) => ActionView::Connect(addr@),
            Action::Handshake => ActionView::Handshake,
            Action::Send(request) => ActionView::Send(request@),
            Action::ReadResponse => ActionView::ReadResponse,
            Action::Reply(envelope) => ActionView::Reply(envelope@),
            Action::Abort(e) => ActionView::Abort(*e),
        }
    }
}

/// The reply that ends a relay with the message of a failed stage.
pub open spec fn fails_with(message: Seq<char>) -> Option<(RelayView, ActionView)> {
    Some((RelayView::Finished, ActionView::Reply(diagnostic(message))))
}

/// What the relay does on an event: the state it moves to and the work it
/// asks for, or nothing where the state does not await that event. `fits`
/// stands for the one thing that the header map decides: whether it takes
/// the `Host` entry when the outbound request is put together.
///
/// Every failure of the outside work ends the relay with a reply that names
/// the stage; a failed drain is named by the side the relay was reading, and
/// by the fault. Only a forward address that cannot be resolved ends the
/// relay with a configuration fault; a joined address that is no URI at all
/// is answered like any other failure, because a request alone can cause it.
/// The bodies, the method, the status and the response headers pass through
/// as they are.
pub open spec fn relay_step(state: RelayView, event: EventView, fits: bool) -> Option<
    (RelayView, ActionView),
> {
    match (state, event) {
        (RelayView::ReadingRequest { head, forward_to }, EventView::RequestBody(Err(e))) => fails_with(
            drain_message(DrainError { side: Side::Request, fault: e.fault }),
        ),
        (RelayView::ReadingRequest { head, forward_to }, EventView::RequestBody(Ok(body))) => {
            let url = forward_url(forward_to, head.path, head.query);
            match resolved(url, uri_parts(url)) {
                Ok(target) => Some(
                    (RelayView::Connecting { head, body, target }, ActionView::Connect(target.addr)),
                ),
                Err(ConfigError::InvalidUri) => fails_with("forward url error"@),
                Err(e) => Some((RelayView::Finished, ActionView::Abort(e))),
            }
        },
        (RelayView::Connecting { head, body, target }, EventView::Connected(ok)) => if ok {
            Some((RelayView::Handshaking { head, body, target }, ActionView::Handshake))
        } else {
            fails_with("forward connect error"@)
        },
        (RelayView::Handshaking { head, body, target }, EventView::Handshaken(ok)) => if ok {
            match assembled(target, head.method, body, head.headers, fits) {
                Ok(request) => Some((RelayView::Sending, ActionView::Send(request))),
                Err(_) => fails_with("assert req error"@),
            }
        } else {
            fails_with("forward handshake error"@)
        },
        (RelayView::Sending, EventView::Response(Some(head))) => Some(
            (RelayView::ReadingResponse { head }, ActionView::ReadResponse),
        ),
        (RelayView::Sending, EventView::Response(None)) => fails_with("forward request error"@),
        (RelayView::ReadingResponse { head }, EventView::ResponseBody(Ok(body))) => Some(
            (
                RelayView::Finished,
                ActionView::Reply(
                    ResponseEnvelopeView { status: head.status, headers: head.headers, body },
                ),
            ),
        ),
        (RelayView::ReadingResponse { head }, EventView::ResponseBody(Err(e))) => fails_with(
            drain_message(DrainError { side: Side::Response, fault: e.fault }),
        ),
        _ => None,
    }
}

/// Ends the relay with the message of a failed stage.
fn fail(message: &str) -> (res: Option<(Relay, Action)>)
    ensures
        res matches Some((state, action)) && (state@, action@) == (
            RelayView::Finished,
            ActionView::Reply(diagnostic(message@)),
        ),
{
    Some((Relay::Finished, Action::Reply(ResponseEnvelope::diagnostic(message))))
}

impl Relay {
    /// The relay of a request whose head has arrived, towards the backend at
    /// `forward_to`. The first work to do is to drain the inbound body.
    pub fn new(head: RequestHead, forward_to: String) -> (res: Relay)
        ensures
            res@ == (RelayView::ReadingRequest { head: head@, forward_to: forward_to@ }),
    {
        Relay::ReadingRequest { head, forward_to }
    }

    /// Whether the relay has ended.
    pub fn is_finished(&self) -> (res: bool)
        ensures
            res == (self@ is Finished),
    {
        match self {
            Relay::Finished => true,
            _ => false,
        }
    }
}

/// Whether a relay holds so many headers that the map decides by itself
/// whether the outbound request can be put together.
pub open spec fn crowded(state: RelayView) -> bool {
    state matches RelayView::Handshaking { head, .. } && head.headers.len() >= MAP_ROOM
}

/// The view of a step's outcome.
pub open spec fn step_view(res: Option<(Relay, Action)>) -> Option<(RelayView, ActionView)> {
    match res {
        Some((next, action)) => Some((next@, action@)),
        None => None,
    }
}

/// Takes the relay one step on: consumes the state and the event, and gives
/// the next state with the work to do. `None` means that the state does not
/// await this event. The step is the one that `relay_step` gives for a map
/// that takes the `Host` entry; only a relay with `MAP_ROOM` headers or more
/// may instead report that the request could not be put together.
pub fn forward(state: Relay, event: Event) -> (res: Option<(Relay, Action)>)
    ensures
        step_view(res) == relay_step(state@, event@, true) || (crowded(state@) && step_view(res)
            == relay_step(state@, event@, false)),
{
    match (state, event) {
        (Relay::ReadingRequest { head, forward_to }, Event::RequestBody(Err(e))) => {
            let message = DrainError { side: Side::Request, fault: e.fault }.message();
            fail(message.as_str())
        },
        (Relay::ReadingRequest { head, forward_to }, Event::RequestBody(Ok(body))) => {
            let query: Option<&str> = match &head.query {
                Some(q) => Some(q.as_str()),
                None => None,
            };
            match get_forward_addr(head.path.as_str(), query, forward_to.as_str()) {
                Ok(target) => {
                    let addr = target.addr.clone();
                    Some((Relay::Connecting { head, body, target }, Action::Connect(addr)))
                },
                Err(ConfigError::InvalidUri) => fail("forward url error"),
                Err(e) => Some((Relay::Finished, Action::Abort(e))),
            }
        },
        (Relay::Connecting { head, body, target }, Event::Connected(ok)) => {
            if ok {
                Some((Relay::Handshaking { head, body, target }, Action::Handshake))
            } else {
                fail("forward connect error")
            }
        },
        (Relay::Handshaking { head, body, target }, Event::Handshaken(ok)) => {
            if ok {
                let RequestHead { method, path: _, query: _, headers } = head;
                match assemble_redirect_req(target, method, body, &headers) {
                    Ok(request) => Some((Relay::Sending, Action::Send(request))),
                    Err(_) => fail("assert req error"),
                }
            } else {
                fail("forward handshake error")
            }
        },
        (Relay::Sending, Event::Response(Some(head))) => Some(
            (Relay::ReadingResponse { head }, Action::ReadResponse),
        ),
        (Relay::Sending, Event::Response(None)) => fail("forward request error"),
        (Relay::ReadingResponse { head }, Event::ResponseBody(Ok(body))) => {
            let ResponseHead { status, headers } = head;
            Some((Relay::Finished, Action::Reply(ResponseEnvelope { status, headers, body })))
        },
        (Relay::ReadingResponse { head }, Event::ResponseBody(Err(e))) => {
            let message = DrainError { side: Side::Response, fault: e.fault }.message();
            fail(message.as_str())
        },
        _ => None,
    }
}

/// Whether an action ends the relay.
pub open spec fn is_final(action: ActionView) -> bool {
    action is Reply || action is Abort
}

/// A relay ends exactly when it replies or gives up, and once it has ended it
/// takes no further event: one request gets one reply at most.
pub proof fn relay_ends_once(state: RelayView, event: EventView, fits: bool)
    ensures
        state is Finished ==> relay_step(state, event, fits) is None,
        relay_step(state, event, fits) matches Some((next, action)) ==> (next is Finished
            <==> is_final(action)),
{
}

/// Whether an event is an answer to an action: the report of the work that
/// the action asked for.
pub open spec fn answers(action: ActionView, event: EventView) -> bool {
    match (action, event) {
        (ActionView::Connect(_), EventView::Connected(_)) => true,
        (ActionView::Handshake, EventView::Handshaken(_)) => true,
        (ActionView::Send(_), EventView::Response(_)) => true,
        (ActionView::ReadResponse, EventView::ResponseBody(_)) => true,
        _ => false,
    }
}

/// A driver that reports each piece of work it was asked for is never
/// refused: a new relay takes the drained request body, and after every
/// action the next state takes every answer to that action.
pub proof fn every_answer_is_awaited(
    state: RelayView,
    event: EventView,
    fits: bool,
    answer: EventView,
    after: bool,
)
    ensures
        state is ReadingRequest && event is RequestBody ==> relay_step(state, event, fits) is Some,
        relay_step(state, event, fits) matches Some((next, action)) ==> (answers(action, answer)
            ==> relay_step(next, answer, after) is Some),
{
}

/// Whether an event reports that a piece of outside work failed.
pub open spec fn is_failure(event: EventView) -> bool {
    match event {
        EventView::RequestBody(r) => r is Err,
        EventView::Connected(ok) => !ok,
        EventView::Handshaken(ok) => !ok,
        EventView::Response(head) => head is None,
        EventView::ResponseBody(r) => r is Err,
    }
}

/// The message with which a failed piece of outside work is reported.
pub open spec fn failure_message(event: EventView) -> Seq<char> {
    match event {
        EventView::RequestBody(Err(e)) => drain_message(
            DrainError { side: Side::Request, fault: e.fault },
        ),
        EventView::ResponseBody(Err(e)) => drain_message(
            DrainError { side: Side::Response, fault: e.fault },
        ),
        EventView::Connected(_) => "forward connect error"@,
        EventView::Handshaken(_) => "forward handshake error"@,
        _ => "forward request error"@,
    }
}

/// No failure of the outside work goes unanswered: where the relay awaits an
/// event and the event is a failure, the relay ends with a reply of status
/// 200, without headers, whose body names the stage that failed.
pub proof fn every_failure_is_answered(state: RelayView, event: EventView, fits: bool)
    requires
        is_failure(event),
        relay_step(state, event, fits) is Some,
    ensures
        relay_step(state, event, fits) == fails_with(failure_message(event)),
{
}

/// A backend that cannot be reached costs this request only: the caller gets
/// a reply of status 200 whose body is `forward connect error`.
pub proof fn unreachable_backend_is_reported(
    head: RequestHeadView,
    body: Seq<u8>,
    target: ForwardTargetView,
    fits: bool,
)
    ensures
        relay_step(RelayView::Connecting { head, body, target }, EventView::Connected(false), fits)
            == Some(
            (
                RelayView::Finished,
                ActionView::Reply(
                    ResponseEnvelopeView {
                        status: 200,
                        headers: Multiset::empty(),
                        body: vstd::utf8::encode_utf8("forward connect error"@),
                    },
                ),
            ),
        ),
{
}

/// The backend's status, headers and body reach the caller unchanged.
pub proof fn response_passes_untouched(head: ResponseHeadView, body: Seq<u8>, fits: bool)
    ensures
        relay_step(RelayView::ReadingResponse { head }, EventView::ResponseBody(Ok(body)), fits)
            == Some(
            (
                RelayView::Finished,
                ActionView::Reply(
                    ResponseEnvelopeView { status: head.status, headers: head.headers, body },
                ),
            ),
        ),
{
}

/// The inbound body reaches the backend unchanged: the bytes that were
/// drained are kept while the connection is set up, and are the body of the
/// request that is sent.
pub proof fn request_body_passes_untouched(
    head: RequestHeadView,
    forward_to: Seq<char>,
    body: Seq<u8>,
    fits: bool,
)
    ensures
        relay_step(
            RelayView::ReadingRequest { head, forward_to },
            EventView::RequestBody(Ok(body)),
            fits,
        ) matches Some((RelayView::Connecting { head: kept_head, body: kept, target }, _)) ==> {
            &&& kept == body
            &&& kept_head == head
            &&& relay_step(
                RelayView::Connecting { head, body, target },
                EventView::Connected(true),
                fits,
            ) == Some((RelayView::Handshaking { head, body, target }, ActionView::Handshake))
            &&& relay_step(
                RelayView::Handshaking { head, body, target },
                EventView::Handshaken(true),
                fits,
            ) matches Some((_, ActionView::Send(request))) ==> request.body == body
                && request.method == head.method && request.url == target.url
        },
{
}

/// After a handshake, a request whose target has a sound authority is
/// sent, in a map that takes the entry: the relay moves on to await the
/// response, the request carries the inbound method and the drained body
/// byte for byte, it goes to the target's URI, and its one `Host` entry is
/// the target's authority, whatever the inbound request held under `Host`.
pub proof fn handshaken_request_is_sent(
    head: RequestHeadView,
    body: Seq<u8>,
    target: ForwardTargetView,
)
    requires
        is_header_value(vstd::utf8::encode_utf8(target.authority)),
    ensures
        relay_step(
            RelayView::Handshaking { head, body, target },
            EventView::Handshaken(true),
            true,
        ) matches Some((RelayView::Sending, ActionView::Send(request))) && {
            &&& request.body == body
            &&& request.method == head.method
            &&& request.url == target.url
            &&& request.headers.filter(|e: (Seq<char>, Seq<u8>)| is_host(e))
                == Multiset::singleton(("host"@, vstd::utf8::encode_utf8(target.authority)))
        },
{
    crate::assemble::assembled_request_is_faithful(target, head.method, body, head.headers, true);
}

/// The messages of all stages that can fail, in the order of the stages.
pub open spec fn stage_messages() -> Seq<Seq<char>> {
    seq![
        drain_message(DrainError { side: Side::Request, fault: DrainFault::Transport }),
        drain_message(DrainError { side: Side::Request, fault: DrainFault::NotData }),
        "forward url error"@,
        "forward connect error"@,
        "forward handshake error"@,
        "assert req error"@,
        "forward request error"@,
        drain_message(DrainError { side: Side::Response, fault: DrainFault::Transport }),
        drain_message(DrainError { side: Side::Response, fault: DrainFault::NotData }),
    ]
}

/// The caller can tell from the reply which stage failed: no two stages
/// share a message, and no two messages share a reply.
pub proof fn failures_are_told_apart(i: int, j: int)
    requires
        0 <= i < j < stage_messages().len(),
    ensures
        stage_messages()[i] != stage_messages()[j],
        diagnostic(stage_messages()[i]) != diagnostic(stage_messages()[j]),
{
    reveal_strlit("read from ");
    reveal_strlit("read data from ");
    reveal_strlit("reqBody");
    reveal_strlit("respBody");
    reveal_strlit(" error");
    reveal_strlit("forward url error");
    reveal_strlit("forward connect error");
    reveal_strlit("forward handshake error");
    reveal_strlit("assert req error");
    reveal_strlit("forward request error");
    let m = stage_messages();
    assert(m[0].len() == 23 && m[1].len() == 28 && m[2].len() == 17 && m[3].len() == 21);
    assert(m[4].len() == 23 && m[5].len() == 16 && m[6].len() == 21 && m[7].len() == 24);
    assert(m[8].len() == 29);
    assert(m[0][0] == 'r' && m[4][0] == 'f');
    assert(m[3][8] == 'c' && m[6][8] == 'r');
    assert(m[i] != m[j]);
    vstd::utf8::encode_utf8_decode_utf8(m[i]);
    vstd::utf8::encode_utf8_decode_utf8(m[j]);
}

} // verus!
