//! What holds of every exchange: how many requests it sends, what a
//! `303 See Other` does to the next request, which header fields cross to
//! another host, and when a redirect is handed back instead of followed.

use vstd::prelude::*;
use vstd::utf8::{decode_utf8, valid_utf8};

use crate::body::{buffer_after, buffer_answer, fresh_buffer, BodyEventParts, BufferState};
use crate::future::{expects, step, ActionParts, EventParts, FutureState};
use crate::machine::{
    handle, is_redirect, request_of, strip_sensitive, MachineState, RequestParts, ResponseParts,
    StateMachineDecision, SEE_OTHER,
};
use crate::uri::{reference_parts, same_host, UriParts};

verus! {

/// The number of requests that an exchange hands to the transport while it
/// takes the events in order, up to the first that the state does not
/// expect.
pub open spec fn sends(state: FutureState, events: Seq<EventParts>) -> nat
    decreases events.len(),
{
    if events.len() == 0 || !expects(state, events[0]) {
        0
    } else {
        let sent: nat = if step(state, events[0]).1 is Send {
            1
        } else {
            0
        };
        sent + sends(step(state, events[0]).0, events.drop_first())
    }
}

/// The number of requests that a state can still send at most.
pub open spec fn budget(state: FutureState) -> nat {
    match state {
        FutureState::Lazy(_, max_redirects) => max_redirects + 1,
        FutureState::Buffering(s, _) => s.remaining_redirects + 1,
        FutureState::Requesting(s) => s.remaining_redirects,
        FutureState::Swapping => 0,
    }
}

/// Whether a URI has a scheme and an authority.
pub open spec fn is_absolute(uri: UriParts) -> bool {
    uri.scheme.is_some() && uri.authority.is_some()
}

/// Whether a response is a redirect whose `Location` value is text that
/// reads as a URI reference with a path.
pub open spec fn names_target(res: ResponseParts) -> bool {
    &&& is_redirect(res.status)
    &&& res.location matches Some(value)
    &&& valid_utf8(value)
    &&& reference_parts(decode_utf8(value)) matches Some(reference)
    &&& reference.path_and_query.is_some()
}

/// The events of an exchange whose body ends at once and whose requests are
/// answered by `responses`, in order.
pub open spec fn chain(responses: Seq<ResponseParts>) -> Seq<EventParts> {
    seq![EventParts::Start, EventParts::Body(BodyEventParts::End)] + responses.map_values(
        |res: ResponseParts| EventParts::Response(res),
    )
}

/// From any state and over any events, an exchange sends no more requests
/// than the state's budget.
pub proof fn sends_within_budget(state: FutureState, events: Seq<EventParts>)
    ensures
        sends(state, events) <= budget(state),
    decreases events.len(),
{
    if events.len() == 0 || !expects(state, events[0]) {
    } else {
        sends_within_budget(step(state, events[0]).0, events.drop_first());
    }
}

/// Whatever the transport answers and however the body arrives, an exchange
/// sends at most one request more than the redirects it may follow.
pub proof fn sends_within_limit(req: RequestParts, max_redirects: nat, events: Seq<EventParts>)
    ensures
        sends(FutureState::Lazy(req, max_redirects), events) <= max_redirects + 1,
{
    sends_within_budget(FutureState::Lazy(req, max_redirects), events);
}

/// A redirect that names a target, answering a request to an absolute URI
/// with budget left, is followed: one redirect is spent, and the next URI is
/// absolute again.
pub proof fn valid_redirect_is_followed(s: MachineState, res: ResponseParts)
    requires
        is_absolute(s.uri),
        names_target(res),
        s.remaining_redirects > 0,
    ensures
        handle(s, res).1 == Ok::<StateMachineDecision, Seq<char>>(StateMachineDecision::Continue),
        handle(s, res).0.remaining_redirects == s.remaining_redirects - 1,
        is_absolute(handle(s, res).0.uri),
{
}

/// While every response is a redirect that names a target, a request that
/// is out is followed by as many more as the budget allows.
pub proof fn redirects_use_up_budget(s: MachineState, responses: Seq<ResponseParts>)
    requires
        is_absolute(s.uri),
        forall|i: int| 0 <= i < responses.len() ==> names_target(#[trigger] responses[i]),
        responses.len() >= s.remaining_redirects,
    ensures
        sends(
            FutureState::Requesting(s),
            responses.map_values(|res: ResponseParts| EventParts::Response(res)),
        ) == s.remaining_redirects,
    decreases responses.len(),
{
    let events = responses.map_values(|res: ResponseParts| EventParts::Response(res));
    if responses.len() == 0 {
    } else {
        let res = responses[0];
        assert(events[0] == EventParts::Response(res));
        assert(events.drop_first() =~= responses.drop_first().map_values(
            |res: ResponseParts| EventParts::Response(res),
        ));
        if s.remaining_redirects == 0 {
            sends_within_budget(FutureState::Swapping, events.drop_first());
        } else {
            valid_redirect_is_followed(s, res);
            redirects_use_up_budget(handle(s, res).0, responses.drop_first());
        }
    }
}

/// Where every response is a redirect that names a target, and there are at
/// least as many of them as redirects may be followed, an exchange for an
/// absolute URI sends exactly one request more than that limit.
pub proof fn sends_reach_limit(
    req: RequestParts,
    max_redirects: nat,
    responses: Seq<ResponseParts>,
)
    requires
        is_absolute(req.uri),
        forall|i: int| 0 <= i < responses.len() ==> names_target(#[trigger] responses[i]),
        responses.len() >= max_redirects,
    ensures
        sends(FutureState::Lazy(req, max_redirects), chain(responses)) == max_redirects + 1,
{
    let events = chain(responses);
    let rest = responses.map_values(|res: ResponseParts| EventParts::Response(res));
    let lazy = FutureState::Lazy(req, max_redirects);
    let buffering = step(lazy, EventParts::Start).0;
    let requesting = step(buffering, EventParts::Body(BodyEventParts::End)).0;
    assert(events[0] == EventParts::Start);
    assert(events.drop_first()[0] == EventParts::Body(BodyEventParts::End));
    assert(events.drop_first().drop_first() =~= rest);
    assert(sends(lazy, events) == sends(buffering, events.drop_first()));
    assert(sends(buffering, events.drop_first()) == 1 + sends(requesting, rest));
    redirects_use_up_budget(requesting->Requesting_0, responses);
}

/// After a `303 See Other` the request in flight is a `GET` without a body,
/// whatever its method and body were, and so is the request built next.
pub proof fn see_other_forces_get(s: MachineState, res: ResponseParts)
    requires
        res.status == SEE_OTHER,
    ensures
        handle(s, res).0.method == "GET"@,
        handle(s, res).0.body.is_none(),
        request_of(handle(s, res).0).method == "GET"@,
        request_of(handle(s, res).0).body == Seq::<u8>::empty(),
{
}

/// A response with any other status than `303 See Other` leaves method and
/// body as they were.
pub proof fn other_status_keeps_method_and_body(s: MachineState, res: ResponseParts)
    requires
        res.status != SEE_OTHER,
    ensures
        handle(s, res).0.method == s.method,
        handle(s, res).0.body == s.body,
{
}

/// The request that follows a redirect to the same host and port has every
/// header field of the one before. The request that follows a redirect to
/// another host or port has none of `authorization`, `cookie`, `cookie2` and
/// `www-authenticate`, and every other field of the one before.
pub proof fn stripping_is_exact(s: MachineState, res: ResponseParts)
    requires
        handle(s, res).1 == Ok::<StateMachineDecision, Seq<char>>(StateMachineDecision::Continue),
    ensures
        same_host(handle(s, res).0.uri, s.uri) ==> request_of(handle(s, res).0).headers
            == s.headers,
        !same_host(handle(s, res).0.uri, s.uri) ==> {
            let fields = request_of(handle(s, res).0).headers;
            &&& !fields.contains_key("authorization"@)
            &&& !fields.contains_key("cookie"@)
            &&& !fields.contains_key("cookie2"@)
            &&& !fields.contains_key("www-authenticate"@)
            &&& forall|name: Seq<char>|
                name != "authorization"@ && name != "cookie"@ && name != "cookie2"@ && name
                    != "www-authenticate"@ ==> (#[trigger] fields.contains_key(name)
                    <==> s.headers.contains_key(name)) && (s.headers.contains_key(name)
                    ==> fields[name] == s.headers[name])
        },
{
}

/// The chunks of a body, one after the other.
pub open spec fn concat(chunks: Seq<Seq<u8>>) -> Seq<u8>
    decreases chunks.len(),
{
    if chunks.len() == 0 {
        Seq::empty()
    } else {
        concat(chunks.drop_last()) + chunks.last()
    }
}

/// The buffer after it has taken the chunks in order.
pub open spec fn buffer_after_chunks(b: BufferState, chunks: Seq<Seq<u8>>) -> BufferState
    decreases chunks.len(),
{
    if chunks.len() == 0 {
        b
    } else {
        buffer_after(
            buffer_after_chunks(b, chunks.drop_last()),
            BodyEventParts::Chunk(chunks.last()),
        )
    }
}

/// A buffer that has taken the chunks of a body holds them all, in order,
/// and is not complete; at the end of the body it answers with all of them,
/// and they are the body of the first request.
pub proof fn buffer_collects_all_chunks(s: MachineState, chunks: Seq<Seq<u8>>)
    ensures
        buffer_after_chunks(fresh_buffer(), chunks).collected == concat(chunks),
        !buffer_after_chunks(fresh_buffer(), chunks).complete,
        buffer_answer(buffer_after_chunks(fresh_buffer(), chunks), BodyEventParts::End) == Some(
            Ok::<Seq<u8>, Seq<char>>(concat(chunks)),
        ),
        step(
            FutureState::Buffering(s, buffer_after_chunks(fresh_buffer(), chunks)),
            EventParts::Body(BodyEventParts::End),
        ).1 matches ActionParts::Send(req) && req.body == concat(chunks),
    decreases chunks.len(),
{
    if chunks.len() > 0 {
        buffer_collects_all_chunks(s, chunks.drop_last());
    }
}

/// To strip the credentials a second time changes nothing.
pub proof fn stripping_is_idempotent(fields: Map<Seq<char>, Seq<Seq<u8>>>)
    ensures
        strip_sensitive(strip_sensitive(fields)) == strip_sensitive(fields),
{
    assert(strip_sensitive(strip_sensitive(fields)) =~= strip_sensitive(fields));
}

/// No response changes the version of the protocol, and none raises the
/// number of redirects that may still be followed. A response that is
/// followed lowers that number by one.
pub proof fn budget_only_decreases(s: MachineState, res: ResponseParts)
    ensures
        handle(s, res).0.version == s.version,
        handle(s, res).0.remaining_redirects <= s.remaining_redirects,
        handle(s, res).1 == Ok::<StateMachineDecision, Seq<char>>(StateMachineDecision::Continue)
            ==> handle(s, res).0.remaining_redirects + 1 == s.remaining_redirects,
{
}

/// Whether each of the responses, taken in order, is followed.
pub open spec fn all_followed(s: MachineState, responses: Seq<ResponseParts>) -> bool
    decreases responses.len(),
{
    responses.len() == 0 || (handle(s, responses[0]).1 == Ok::<
        StateMachineDecision,
        Seq<char>,
    >(StateMachineDecision::Continue) && all_followed(
        handle(s, responses[0]).0,
        responses.drop_first(),
    ))
}

/// The state after the responses, taken in order.
pub open spec fn state_after(s: MachineState, responses: Seq<ResponseParts>) -> MachineState
    decreases responses.len(),
{
    if responses.len() == 0 {
        s
    } else {
        state_after(handle(s, responses[0]).0, responses.drop_first())
    }
}

/// Redirects that were all followed have lowered the budget by their
/// number, so there are never more of them than the limit.
pub proof fn followed_redirects_are_counted(s: MachineState, responses: Seq<ResponseParts>)
    requires
        all_followed(s, responses),
    ensures
        state_after(s, responses).remaining_redirects + responses.len()
            == s.remaining_redirects,
    decreases responses.len(),
{
    if responses.len() > 0 {
        followed_redirects_are_counted(handle(s, responses[0]).0, responses.drop_first());
    }
}

/// After as many followed redirects as the limit allows, the budget is
/// zero, and whatever comes next is handed back: the state stays as it is
/// but for what a `303 See Other` does to method and body.
pub proof fn limit_is_reached_after_as_many_hops(
    s: MachineState,
    responses: Seq<ResponseParts>,
    next: ResponseParts,
)
    requires
        all_followed(s, responses),
        responses.len() == s.remaining_redirects,
    ensures
        state_after(s, responses).remaining_redirects == 0,
        handle(state_after(s, responses), next).1 == Ok::<StateMachineDecision, Seq<char>>(
            StateMachineDecision::Return,
        ),
        handle(state_after(s, responses), next).0.remaining_redirects == 0,
        handle(state_after(s, responses), next).0.uri == state_after(s, responses).uri,
        handle(state_after(s, responses), next).0.headers == state_after(s, responses).headers,
{
    followed_redirects_are_counted(s, responses);
}

/// A response that is no redirect, or a redirect without a `Location`, ends
/// the exchange with that response: nothing is sent after it.
pub proof fn no_location_ends_exchange(
    s: MachineState,
    res: ResponseParts,
    events: Seq<EventParts>,
)
    requires
        res.location.is_none(),
    ensures
        step(FutureState::Requesting(s), EventParts::Response(res)) == (
            FutureState::Swapping,
            ActionParts::Return,
        ),
        sends(FutureState::Swapping, events) == 0,
{
    sends_within_budget(FutureState::Swapping, events);
}

/// Once no redirect may be followed any more, every response ends the
/// exchange with that response, the budget stays at zero, and nothing is
/// sent after it.
pub proof fn exhausted_limit_ends_exchange(
    s: MachineState,
    res: ResponseParts,
    events: Seq<EventParts>,
)
    requires
        s.remaining_redirects == 0,
    ensures
        step(FutureState::Requesting(s), EventParts::Response(res)) == (
            FutureState::Swapping,
            ActionParts::Return,
        ),
        handle(s, res).0.remaining_redirects == 0,
        sends(FutureState::Swapping, events) == 0,
{
    sends_within_budget(FutureState::Swapping, events);
}

} // verus!
