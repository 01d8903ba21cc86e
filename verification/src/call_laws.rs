//! What holds of the calls that start an exchange, take its steps and ask after its
//! connection, and how these calls make up the runs of whole exchanges.

use crate::body::{
    bytes_contents, fed_chunks, fed_end, fixed_item, stream_chunks, stream_ended, HttpBody,
    Payload, ResponseBody, ResponseContents, StreamContents, StreamPayloadPair,
};
use crate::connection::HttpConnection;
use crate::head_request::{is_head_request, set_head_request, HeadRequest};
use crate::http1::{
    Http1Action, Http1Connection, Http1Event, Http1Start, Http1State, Http1Status,
};
use crate::http1_laws::{http1_run, law_http1_open_until_failure, Http1Outset};
use crate::http2::{
    is_open_unless, Http2Action, Http2Connection, Http2Event, Http2Start, Http2State,
    RequestSender,
};
use crate::http2_laws::http2_run;
use crate::message::{Request, Response};
use crate::persistence::Http1Terms;
use crate::pool::Poolable;
use bytes::Bytes;
use monoio_http::common::error::HttpError;
use vstd::prelude::*;

verus! {

/// Whether `read` stands for what was read where a piece of a body was due.
pub open spec fn same_item(
    read: Option<Result<Bytes, HttpError>>,
    item: Option<Result<Seq<u8>, HttpError>>,
) -> bool {
    match read {
        Some(Ok(data)) => item == Some(Ok::<Seq<u8>, HttpError>(bytes_contents(data))),
        Some(Err(e)) => item == Some(Err::<Seq<u8>, HttpError>(e)),
        None => item is None,
    }
}

/// Whether `event` and `step` are the same event of HTTP/1.1, the latter with the bytes of
/// what was read.
pub open spec fn same_http1_event<Q>(
    event: Http1Event<Q, Bytes>,
    step: Http1Event<Q, Seq<u8>>,
) -> bool {
    match (event, step) {
        (Http1Event::Sent(sent), Http1Event::Sent(same)) => sent == same,
        (Http1Event::Head(head), Http1Event::Head(same)) => head == same,
        (Http1Event::Data(read), Http1Event::Data(item)) => same_item(read, item),
        _ => false,
    }
}

/// Whether `state` and `place` are the same state of an exchange over HTTP/1.1, the latter
/// with the chunks that were fed.
pub open spec fn same_http1_state<Q>(
    state: Http1State<Q, StreamPayloadPair>,
    place: Http1State<Q, StreamContents>,
) -> bool {
    match (state, place) {
        (Http1State::AwaitingSent(terms), Http1State::AwaitingSent(same)) => terms == same,
        (Http1State::AwaitingHead(terms), Http1State::AwaitingHead(same)) => terms == same,
        (
            Http1State::AwaitingFixed { parts, outlives },
            Http1State::AwaitingFixed { parts: same, outlives: kept },
        ) => parts == same && outlives == kept,
        (
            Http1State::AwaitingStream { parts, body, outlives },
            Http1State::AwaitingStream { parts: same, body: fed, outlives: kept },
        ) => parts == same && outlives == kept && fed.chunks == fed_chunks(body) && fed.ended
            == fed_end(body),
        (Http1State::Finished, Http1State::Finished) => true,
        _ => false,
    }
}

/// Whether `body` holds over HTTP/1.1 what `held` says.
pub open spec fn same_body<S>(body: ResponseBody<S>, held: ResponseContents<S>) -> bool {
    match (body, held) {
        (HttpBody::H1(Payload::Empty), HttpBody::H1(Payload::Empty)) => true,
        (HttpBody::H1(Payload::Fixed(piece)), HttpBody::H1(Payload::Fixed(item))) => fixed_item(
            piece,
        ) == item,
        (HttpBody::H1(Payload::Stream(stream)), HttpBody::H1(Payload::Stream(fed))) => fed.chunks
            == stream_chunks(stream) && fed.ended == stream_ended(stream),
        (HttpBody::H2(stream), HttpBody::H2(same)) => stream == same,
        _ => false,
    }
}

/// Whether `action` and `asked` ask for the same over HTTP/1.1, the latter with what the
/// body of the response holds.
pub open spec fn same_http1_action<Q, S>(
    action: Http1Action<Response<Q, ResponseBody<S>>>,
    asked: Http1Action<Response<Q, ResponseContents<S>>>,
) -> bool {
    match (action, asked) {
        (Http1Action::ReadHead, Http1Action::ReadHead) => true,
        (Http1Action::ReadBody, Http1Action::ReadBody) => true,
        (
            Http1Action::Finish { result: Ok(response), reusable },
            Http1Action::Finish { result: Ok(same), reusable: kept },
        ) => response.parts == same.parts && same_body(response.body, same.body) && reusable
            == kept,
        (
            Http1Action::Finish { result: Err(e), reusable },
            Http1Action::Finish { result: Err(same), reusable: kept },
        ) => e == same && reusable == kept,
        _ => false,
    }
}

/// A call that takes a step of an exchange over HTTP/1.1 does to the exchange and to its
/// connection what the run of the exchange says of that step: the state, what is asked for,
/// and whether the connection is open and in use.
pub proof fn law_http1_step_takes_the_run_on<Q, S>(
    status: &mut Http1Status,
    state: Http1State<Q, StreamPayloadPair>,
    event: Http1Event<Q, Bytes>,
    next: (Http1State<Q, StreamPayloadPair>, Http1Action<Response<Q, ResponseBody<S>>>),
    outset: Http1Outset,
    events: Seq<Http1Event<Q, Seq<u8>>>,
    step: Http1Event<Q, Seq<u8>>,
)
    requires
        same_http1_event(event, step),
        http1_run::<Q, S>(outset, events.push(step)).valid,
        same_http1_state(state, http1_run::<Q, S>(outset, events).state),
        old(status).using() == http1_run::<Q, S>(outset, events).using,
        old(status).open() == http1_run::<Q, S>(outset, events).open,
        call_ensures(Http1Status::step::<Q, S>, (status, state, event), next),
    ensures
        ({
            let run = http1_run::<Q, S>(outset, events.push(step));
            &&& same_http1_state(next.0, run.state)
            &&& same_http1_action(next.1, run.actions.last())
            &&& final(status).using() == run.using
            &&& final(status).open() == run.open
        }),
{
    assert(events.push(step).drop_last() =~= events);
    assert(state@ =~= http1_run::<Q, S>(outset, events).state);
    assert(event@ == step);
}

/// An exchange over HTTP/1.1 takes a step exactly where its run can be taken on by it.
pub proof fn law_http1_awaited_events<Q, S>(
    state: Http1State<Q, StreamPayloadPair>,
    event: Http1Event<Q, Bytes>,
    awaited: bool,
    outset: Http1Outset,
    events: Seq<Http1Event<Q, Seq<u8>>>,
    step: Http1Event<Q, Seq<u8>>,
)
    requires
        same_http1_event(event, step),
        http1_run::<Q, S>(outset, events).valid,
        same_http1_state(state, http1_run::<Q, S>(outset, events).state),
        call_ensures(
            Http1State::<Q, StreamPayloadPair>::is_awaiting::<Bytes>,
            (&state, &event),
            awaited,
        ),
    ensures
        awaited == http1_run::<Q, S>(outset, events.push(step)).valid,
        awaited <==> state.awaits(event),
{
    assert(events.push(step).drop_last() =~= events);
}

/// Where an exchange over HTTP/1.1 waits for the request to go out it takes that event and
/// no other; where a head is due, a head; where a body is due, a piece of it; and none once
/// it is over.
pub proof fn law_http1_kinds_of_events<Q>(
    state: Http1State<Q, StreamPayloadPair>,
    event: Http1Event<Q, Bytes>,
    awaited: bool,
)
    requires
        call_ensures(
            Http1State::<Q, StreamPayloadPair>::is_awaiting::<Bytes>,
            (&state, &event),
            awaited,
        ),
    ensures
        awaited <==> {
            ||| state is AwaitingSent && event is Sent
            ||| state is AwaitingHead && event is Head
            ||| state is AwaitingFixed && event is Data
            ||| state is AwaitingStream && event is Data
        },
{
}

/// Both ways to start an exchange over HTTP/1.1 send the request as it is, leave the
/// connection as it is, and begin the run of the exchange with the terms that were given.
pub proof fn law_http1_starts_begin_the_run<C, R, Q, S>(
    conn: &mut Http1Connection<C>,
    again: &mut Http1Connection<C>,
    request: R,
    terms: Http1Terms,
    plain: Http1Start<R, Q>,
    rebuilt: Http1Start<R, Q>,
    using: bool,
    open: bool,
)
    requires
        call_ensures(Http1Connection::<C>::send_request::<R, Q>, (conn, request, terms), plain),
        call_ensures(
            Http1Connection::<C>::send_reconstructed_request::<R, Q>,
            (again, request, terms),
            rebuilt,
        ),
    ensures
        plain.request == request,
        rebuilt.request == request,
        plain.state == Http1State::<Q, StreamPayloadPair>::AwaitingSent(terms),
        rebuilt.state == Http1State::<Q, StreamPayloadPair>::AwaitingSent(terms),
        same_http1_state(
            plain.state,
            http1_run::<Q, S>(Http1Outset { terms, using, open }, Seq::empty()).state,
        ),
        *final(conn) == *old(conn),
        *final(again) == *old(again),
{
}

/// A new connection of HTTP/1.1 is open and not in use, and says that it is open.
pub proof fn law_http1_new_connection_is_open<C>(framed: C, conn: Http1Connection<C>, open: bool)
    requires
        call_ensures(Http1Connection::<C>::new, (framed,), conn),
        call_ensures(<Http1Connection<C> as Poolable>::is_open, (&conn,), open),
    ensures
        open,
        conn.status().open(),
        !conn.status().using(),
        conn.framed() == framed,
{
}

/// A connection of HTTP/1.1 says that it is open if and only if it is open and not in use.
pub proof fn law_http1_is_open<C>(conn: Http1Connection<C>, open: bool)
    requires
        call_ensures(<Http1Connection<C> as Poolable>::is_open, (&conn,), open),
    ensures
        open == (conn.status().open() && !conn.status().using()),
{
}

/// The two halves of a connection of HTTP/1.1 are those of the connection, and what is done
/// to them is done to it.
pub proof fn law_http1_halves_make_up_the_connection<C>(
    conn: &mut Http1Connection<C>,
    framed: &mut C,
    status: &mut Http1Status,
)
    requires
        call_ensures(Http1Connection::<C>::split, (conn,), (framed, status)),
    ensures
        *old(framed) == old(conn).framed(),
        *old(status) == old(conn).status(),
        final(conn).framed() == *final(framed),
        final(conn).status() == *final(status),
{
}

/// After the steps of an exchange, a connection of HTTP/1.1 says that it is open if and only
/// if it was open and not in use before, and the exchange did not end with an error.
pub proof fn law_http1_is_open_after_an_exchange<C, Q, S>(
    conn: Http1Connection<C>,
    open: bool,
    outset: Http1Outset,
    events: Seq<Http1Event<Q, Seq<u8>>>,
)
    requires
        http1_run::<Q, S>(outset, events).valid,
        conn.status().open() == http1_run::<Q, S>(outset, events).open,
        conn.status().using() == http1_run::<Q, S>(outset, events).using,
        call_ensures(<Http1Connection<C> as Poolable>::is_open, (&conn,), open),
    ensures
        open == (outset.open && !outset.using && !(events.len() > 0 && (http1_run::<Q, S>(
            outset,
            events,
        ).actions.last() matches Http1Action::Finish { result: Err(_), .. }))),
{
    law_http1_open_until_failure::<Q, S>(outset, events);
}

/// Whether `event` and `step` are the same event of HTTP/2, the latter with the bytes of
/// what was read.
pub open spec fn same_http2_event<Q, S>(
    event: Http2Event<Q, S, Bytes>,
    step: Http2Event<Q, S, Seq<u8>>,
) -> bool {
    match (event, step) {
        (Http2Event::Ready(ready), Http2Event::Ready(same)) => ready == same,
        (Http2Event::HeadSent(sent), Http2Event::HeadSent(same)) => sent == same,
        (Http2Event::Body(read), Http2Event::Body(item)) => same_item(read, item),
        (Http2Event::DataSent(sent), Http2Event::DataSent(same)) => sent == same,
        (Http2Event::Response(response), Http2Event::Response(same)) => response == same,
        _ => false,
    }
}

/// Whether `action` and `asked` ask for the same over HTTP/2, the latter with the bytes of
/// what goes out.
pub open spec fn same_http2_action<P, Q, S>(
    action: Http2Action<P, Bytes, Response<Q, ResponseBody<S>>>,
    asked: Http2Action<P, Seq<u8>, Response<Q, ResponseContents<S>>>,
) -> bool {
    match (action, asked) {
        (
            Http2Action::SendHead { request, end_of_stream },
            Http2Action::SendHead { request: same, end_of_stream: end },
        ) => request.parts == same.parts && end_of_stream == end,
        (Http2Action::ReadBody, Http2Action::ReadBody) => true,
        (
            Http2Action::SendData { data, end_of_stream },
            Http2Action::SendData { data: same, end_of_stream: end },
        ) => bytes_contents(data) == same && end_of_stream == end,
        (Http2Action::ReadResponse, Http2Action::ReadResponse) => true,
        (
            Http2Action::Finish { result: Ok(response), reusable },
            Http2Action::Finish { result: Ok(same), reusable: kept },
        ) => response.parts == same.parts && same_body(response.body, same.body) && reusable
            == kept,
        (
            Http2Action::Finish { result: Err(e), reusable },
            Http2Action::Finish { result: Err(same), reusable: kept },
        ) => e == same && reusable == kept,
        _ => false,
    }
}

/// A call that takes a step of an exchange over HTTP/2 does to the exchange what the run of
/// the exchange says of that step: the state, and what is asked for.
pub proof fn law_http2_step_takes_the_run_on<P, Q, S>(
    state: Http2State<P>,
    event: Http2Event<Q, S, Bytes>,
    next: (Http2State<P>, Http2Action<P, Bytes, Response<Q, ResponseBody<S>>>),
    parts: P,
    events: Seq<Http2Event<Q, S, Seq<u8>>>,
    step: Http2Event<Q, S, Seq<u8>>,
)
    requires
        same_http2_event(event, step),
        http2_run::<P, Q, S>(parts, events.push(step)).valid,
        state == http2_run::<P, Q, S>(parts, events).state,
        call_ensures(Http2State::<P>::step::<Q, S>, (state, event), next),
    ensures
        next.0 == http2_run::<P, Q, S>(parts, events.push(step)).state,
        same_http2_action(next.1, http2_run::<P, Q, S>(parts, events.push(step)).actions.last()),
{
    assert(events.push(step).drop_last() =~= events);
    assert(event@ == step);
}

/// An exchange over HTTP/2 takes, where it waits for something, the event of that kind and
/// no other; and none once it is over.
pub proof fn law_http2_kinds_of_events<P, Q, S>(
    state: Http2State<P>,
    event: Http2Event<Q, S, Bytes>,
    awaited: bool,
)
    requires
        call_ensures(Http2State::<P>::is_awaiting::<Q, S, Bytes>, (&state, &event), awaited),
    ensures
        awaited <==> {
            ||| state is AwaitingReady && event is Ready
            ||| state is AwaitingHeadSent && event is HeadSent
            ||| state is AwaitingBody && event is Body
            ||| state is AwaitingDataSent && event is DataSent
            ||| state is AwaitingResponse && event is Response
        },
        awaited <==> state.awaits(event),
{
}

/// The start of an exchange over HTTP/2 leaves the body and the connection as they are, and
/// begins the run of the exchange with the head of the request.
pub proof fn law_http2_start_begins_the_run<P, B, Q, S>(
    conn: &mut Http2Connection,
    request: Request<P, B>,
    start: Http2Start<P, B>,
)
    requires
        call_ensures(Http2Connection::send_request::<P, B>, (conn, request), start),
    ensures
        start.body == request.body,
        start.state == http2_run::<P, Q, S>(request.parts, Seq::empty()).state,
        start.state == Http2State::<P>::AwaitingReady(request.parts),
        *final(conn) == *old(conn),
{
}

/// A connection of HTTP/2 gives back the handle that it was made with.
pub proof fn law_http2_handle_is_given_back(
    tx: RequestSender,
    conn: Http2Connection,
    back: RequestSender,
)
    requires
        call_ensures(Http2Connection::new, (tx,), conn),
        call_ensures(Http2Connection::into_sender, (conn,), back),
    ensures
        back == tx,
{
}

/// What a second handle on a connection of HTTP/2 can say, whichever way it was made, is
/// what the first can say: whether the connection is open, and which error broke it.
pub proof fn law_http2_second_handle_says_the_same(
    conn: Http2Connection,
    cloned: Http2Connection,
    owned: Http2Connection,
    open: bool,
    e: Option<HttpError>,
)
    requires
        call_ensures(<Http2Connection as Clone>::clone, (&conn,), cloned),
        call_ensures(Http2Connection::to_owned, (&conn,), owned),
    ensures
        call_ensures(<Http2Connection as Poolable>::is_open, (&cloned,), open)
            ==> conn.tx().can_answer(!open),
        call_ensures(<Http2Connection as Poolable>::is_open, (&owned,), open)
            ==> conn.tx().can_answer(!open),
        call_ensures(Http2Connection::conn_error, (&cloned,), e) ==> conn.tx().can_report(e),
        call_ensures(Http2Connection::conn_error, (&owned,), e) ==> conn.tx().can_report(e),
{
}

/// A connection is open where no error broke it, and closed where one did.
pub proof fn law_http2_open_unless_broken(open: bool, still: bool)
    requires
        call_ensures(is_open_unless, (false,), open),
        call_ensures(is_open_unless, (true,), still),
    ensures
        open,
        !still,
{
}

/// A connection of either protocol says that it is open where the connection that it holds
/// says so.
pub proof fn law_connection_is_open_as_what_it_holds<C>(
    http1: Http1Connection<C>,
    http2: Http2Connection,
    first: HttpConnection<C>,
    second: HttpConnection<C>,
    open: bool,
)
    requires
        call_ensures(
            <HttpConnection<C> as From<Http1Connection<C>>>::from,
            (http1,),
            first,
        ),
        call_ensures(<HttpConnection<C> as From<Http2Connection>>::from, (http2,), second),
    ensures
        first == HttpConnection::Http1(http1),
        second == HttpConnection::<C>::Http2(http2),
        call_ensures(<HttpConnection<C> as Poolable>::is_open, (&first,), open) ==> open == (
        http1.status().open() && !http1.status().using()),
        call_ensures(<HttpConnection<C> as Poolable>::is_open, (&second,), open)
            ==> http2.tx().can_answer(!open),
{
}

/// What a mark was set to last is what it says, whatever it said before.
pub proof fn law_mark_says_what_it_was_set_to(
    mark: &mut HeadRequest,
    is_head: bool,
    after: HeadRequest,
    said: bool,
)
    requires
        call_ensures(set_head_request, (mark, is_head), ()),
        after == *final(mark),
        call_ensures(is_head_request, (&after,), said),
    ensures
        said == is_head,
{
}

/// A mark that no request has set says that there is no `HEAD` request.
pub proof fn law_new_mark_is_unset(mark: HeadRequest, said: bool)
    requires
        call_ensures(HeadRequest::new, (), mark),
        call_ensures(is_head_request, (&mark,), said),
    ensures
        !said,
{
}

/// Over HTTP/1.1 a body of HTTP/1.1 goes out as it is, and no other body goes out.
pub proof fn law_http1_bodies_go_out<F, T, S>(
    payload: Payload<F, T>,
    data: Option<Bytes>,
    stream: S,
    out: Payload<F, T>,
)
    ensures
        call_ensures(
            HttpBody::<F, T, S>::into_h1_payload,
            (HttpBody::H1(payload),),
            out,
        ) ==> out == payload,
        call_ensures(HttpBody::<F, T, S>::into_h1_payload, (HttpBody::H2(stream),), out)
            ==> out is Empty,
        call_ensures(HttpBody::<F, T, S>::into_h1_payload, (HttpBody::Ready(data),), out)
            ==> out is Empty,
{
}

} // verus!
