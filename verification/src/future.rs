//! The exchange as a whole: buffer the body, send, look at the response, and
//! send again or finish. The caller does the reading and the sending; each
//! `poll` takes what that gave and says what to do next.

use vstd::prelude::*;

use crate::body::{buffer_after, fresh_buffer, BodyEvent, BodyEventParts, Buffer, BufferState};
use crate::error::{Error, ErrorParts};
use crate::machine::{
    handle, initial_state, request_of, MachineState, Request, RequestParts, Response,
    ResponseParts, StateMachine, StateMachineDecision,
};

verus! {

/// Where an exchange stands.
pub enum FutureInner {
    /// Nothing has happened yet.
    Lazy(Request, usize),
    /// The body of the request is being read.
    Buffering(StateMachine, Buffer),
    /// A request is with the transport.
    Requesting(StateMachine),
    /// The exchange has given its result and takes no further event.
    Swapping,
}

/// An exchange as a value.
pub enum FutureState {
    Lazy(RequestParts, nat),
    Buffering(MachineState, BufferState),
    Requesting(MachineState),
    Swapping,
}

impl View for FutureInner {
    type V = FutureState;

    open spec fn view(&self) -> FutureState {
        match self {
            FutureInner::Lazy(req, max_redirects) => FutureState::Lazy(
                req@,
                *max_redirects as nat,
            ),
            FutureInner::Buffering(state, buffer) => FutureState::Buffering(state@, buffer@),
            FutureInner::Requesting(state) => FutureState::Requesting(state@),
            FutureInner::Swapping => FutureState::Swapping,
        }
    }
}

/// What the caller reports to the exchange.
#[derive(Debug)]
pub enum Event {
    /// The exchange is polled for the first time.
    Start,
    /// Reading the body gave a chunk, its end or a failure.
    Body(BodyEvent),
    /// The transport answered the request.
    Response(Response),
    /// The transport failed; the text is the failure's message.
    SendFailed(String),
    /// The request could not be put into the form that the transport takes.
    BuildFailed(String),
}

/// An event as a value.
pub enum EventParts {
    Start,
    Body(BodyEventParts),
    Response(ResponseParts),
    SendFailed(Seq<char>),
    BuildFailed(Seq<char>),
}

impl View for Event {
    type V = EventParts;

    open spec fn view(&self) -> EventParts {
        match self {
            Event::Start => EventParts::Start,
            Event::Body(b) => EventParts::Body(b@),
            Event::Response(res) => EventParts::Response(res@),
            Event::SendFailed(m) => EventParts::SendFailed(m@),
            Event::BuildFailed(m) => EventParts::BuildFailed(m@),
        }
    }
}

/// What the caller is to do next.
pub enum Action {
    /// Read on in the body of the request.
    ReadBody,
    /// Hand this request to the transport.
    Send(Request),
    /// The exchange is over: its result is the response that was reported
    /// last, as it is.
    Return,
    /// The exchange is over: its result is this error.
    Fail(Error),
}

/// An action as a value.
pub enum ActionParts {
    ReadBody,
    Send(RequestParts),
    Return,
    Fail(ErrorParts),
}

impl View for Action {
    type V = ActionParts;

    open spec fn view(&self) -> ActionParts {
        match self {
            Action::ReadBody => ActionParts::ReadBody,
            Action::Send(req) => ActionParts::Send(req@),
            Action::Return => ActionParts::Return,
            Action::Fail(e) => ActionParts::Fail(e@),
        }
    }
}

/// Whether a state is one that `poll` leaves behind: while the body is read,
/// its buffer has not given its result.
pub open spec fn well_formed(state: FutureState) -> bool {
    match state {
        FutureState::Buffering(_, buffer) => !buffer.complete,
        _ => true,
    }
}

/// Whether an event can come in a state: the start at the beginning, the
/// body's events while the body is read, the transport's while a request is
/// out, none once the exchange is over.
pub open spec fn expects(state: FutureState, event: EventParts) -> bool {
    match state {
        FutureState::Lazy(_, _) => event is Start,
        FutureState::Buffering(_, _) => event is Body,
        FutureState::Requesting(_) => event is Response || event is SendFailed
            || event is BuildFailed,
        FutureState::Swapping => false,
    }
}

/// The state that sends the request which a machine describes.
pub open spec fn send(s: MachineState) -> (FutureState, ActionParts) {
    (FutureState::Requesting(s), ActionParts::Send(request_of(s)))
}

/// The end of the exchange with an error.
pub open spec fn fail(e: ErrorParts) -> (FutureState, ActionParts) {
    (FutureState::Swapping, ActionParts::Fail(e))
}

/// One step of the exchange: the state after an event that the state
/// expects, and the action that the caller is to take.
pub open spec fn step(state: FutureState, event: EventParts) -> (FutureState, ActionParts) {
    match (state, event) {
        (FutureState::Lazy(req, max_redirects), EventParts::Start) => (
            FutureState::Buffering(initial_state(req, max_redirects), fresh_buffer()),
            ActionParts::ReadBody,
        ),
        (FutureState::Buffering(s, b), EventParts::Body(BodyEventParts::Chunk(c))) => (
            FutureState::Buffering(s, buffer_after(b, BodyEventParts::Chunk(c))),
            ActionParts::ReadBody,
        ),
        (FutureState::Buffering(s, b), EventParts::Body(BodyEventParts::End)) => send(
            MachineState { body: Some(b.collected), ..s },
        ),
        (FutureState::Buffering(_, _), EventParts::Body(BodyEventParts::Failed(m))) => fail(
            ErrorParts::Request(m),
        ),
        (FutureState::Requesting(s), EventParts::Response(res)) => match handle(s, res).1 {
            Ok(StateMachineDecision::Continue) => send(handle(s, res).0),
            Ok(StateMachineDecision::Return) => (FutureState::Swapping, ActionParts::Return),
            Err(text) => fail(ErrorParts::InvalidLocationHeader(text)),
        },
        (FutureState::Requesting(_), EventParts::SendFailed(m)) => fail(ErrorParts::Hyper(m)),
        (FutureState::Requesting(_), EventParts::BuildFailed(m)) => fail(ErrorParts::Http(m)),
        _ => (FutureState::Swapping, ActionParts::Return),
    }
}

impl FutureInner {
    /// An exchange for `req` that follows at most `max_redirects` redirects.
    pub fn new(req: Request, max_redirects: usize) -> (f: FutureInner)
        ensures
            f@ == FutureState::Lazy(req@, max_redirects as nat),
    {
        FutureInner::Lazy(req, max_redirects)
    }

    /// Whether `poll` takes this event in this state.
    pub fn accepts(&self, event: &Event) -> (b: bool)
        ensures
            b == (well_formed(self@) && expects(self@, event@)),
    {
        match self {
            FutureInner::Lazy(_, _) => matches!(event, Event::Start),
            FutureInner::Buffering(_, buffer) => !buffer.is_complete() && matches!(
                event,
                Event::Body(_)
            ),
            FutureInner::Requesting(_) => matches!(
                event,
                Event::Response(_) | Event::SendFailed(_) | Event::BuildFailed(_)
            ),
            FutureInner::Swapping => false,
        }
    }

    /// Takes an event that the state expects, and gives the state after it
    /// and the action for the caller.
    pub fn poll(self, event: Event) -> (r: (FutureInner, Action))
        requires
            well_formed(self@),
            expects(self@, event@),
        ensures
            r.0@ == step(self@, event@).0,
            r.1@ == step(self@, event@).1,
            well_formed(r.0@),
    {
        match self {
            FutureInner::Lazy(req, max_redirects) => Self::buffer(req, max_redirects),
            FutureInner::Buffering(mut state, mut buffer) => match event {
                Event::Body(body_event) => match buffer.poll(body_event) {
                    Some(Ok(body)) => {
                        state.set_body(body);
                        Self::request(state)
                    },
                    Some(Err(message)) => (
                        FutureInner::Swapping,
                        Action::Fail(Error::request(message)),
                    ),
                    None => (FutureInner::Buffering(state, buffer), Action::ReadBody),
                },
                _ => (FutureInner::Swapping, Action::Return),
            },
            FutureInner::Requesting(state) => match event {
                Event::Response(res) => Self::redirect(state, &res),
                Event::SendFailed(message) => (
                    FutureInner::Swapping,
                    Action::Fail(Error::Hyper(message)),
                ),
                Event::BuildFailed(message) => (
                    FutureInner::Swapping,
                    Action::Fail(Error::Http(message)),
                ),
                _ => (FutureInner::Swapping, Action::Return),
            },
            FutureInner::Swapping => (FutureInner::Swapping, Action::Return),
        }
    }

    /// Captures the request and starts to read its body.
    pub fn buffer(req: Request, max_redirects: usize) -> (r: (FutureInner, Action))
        ensures
            r.0@ == FutureState::Buffering(
                initial_state(req@, max_redirects as nat),
                fresh_buffer(),
            ),
            r.1@ == ActionParts::ReadBody,
    {
        let mut req = req;
        let state = StateMachine::new(&mut req, max_redirects);
        (FutureInner::Buffering(state, Buffer::new()), Action::ReadBody)
    }

    /// Builds the request that the machine describes and has it sent.
    pub fn request(state: StateMachine) -> (r: (FutureInner, Action))
        ensures
            r.0@ == send(state@).0,
            r.1@ == send(state@).1,
    {
        let req = state.create_request();
        (FutureInner::Requesting(state), Action::Send(req))
    }

    /// Lets the machine decide on a response: the next request, the end of
    /// the exchange with this response, or its end with an error.
    pub fn redirect(state: StateMachine, res: &Response) -> (r: (FutureInner, Action))
        ensures
            r.0@ == step(FutureState::Requesting(state@), EventParts::Response(res@)).0,
            r.1@ == step(FutureState::Requesting(state@), EventParts::Response(res@)).1,
    {
        let mut state = state;
        match state.handle_response(res) {
            Ok(StateMachineDecision::Continue) => Self::request(state),
            Ok(StateMachineDecision::Return) => (FutureInner::Swapping, Action::Return),
            Err(e) => (FutureInner::Swapping, Action::Fail(e)),
        }
    }
}

} // verus!
