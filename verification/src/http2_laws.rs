//! What holds of whole exchanges over HTTP/2.

use crate::body::{HttpBody, ResponseContents};
use crate::error::Error;
use crate::http2::{http2_transition, Http2Action, Http2Event, Http2State};
use crate::message::{Request, Response};
use monoio_http::common::error::HttpError;
use vstd::prelude::*;

verus! {

/// Where an exchange stands after some steps.
pub struct Http2Run<P, Q, S> {
    /// Whether each event was one that the exchange waited for.
    pub valid: bool,
    /// What the exchange waits for.
    pub state: Http2State<P>,
    /// What it asked for, in order: one action for each step.
    pub actions: Seq<Http2Action<P, Seq<u8>, Response<Q, ResponseContents<S>>>>,
}

/// Where an exchange that was started with the request head `parts` stands after
/// the steps `events`.
pub open spec fn http2_run<P, Q, S>(
    parts: P,
    events: Seq<Http2Event<Q, S, Seq<u8>>>,
) -> Http2Run<P, Q, S>
    decreases events.len(),
{
    if events.len() == 0 {
        Http2Run { valid: true, state: Http2State::AwaitingReady(parts), actions: Seq::empty() }
    } else {
        let before = http2_run::<P, Q, S>(parts, events.drop_last());
        let (state, action) = http2_transition::<P, Q, S>(before.state, events.last());
        Http2Run {
            valid: before.valid && before.state.awaits(events.last()),
            state,
            actions: before.actions.push(action),
        }
    }
}

/// A chunk that goes out, and whether it ends the stream.
pub struct Upload {
    /// The chunk.
    pub data: Seq<u8>,
    /// Whether it ends the stream.
    pub end_of_stream: bool,
}

/// The chunks that some actions send, in order.
pub open spec fn uploads<P, A>(actions: Seq<Http2Action<P, Seq<u8>, A>>) -> Seq<Upload>
    decreases actions.len(),
{
    if actions.len() == 0 {
        Seq::empty()
    } else {
        let before = uploads(actions.drop_last());
        match actions.last() {
            Http2Action::SendData { data, end_of_stream } => before.push(
                Upload { data, end_of_stream },
            ),
            _ => before,
        }
    }
}

/// What is to go out for the pieces of the body that were read: each chunk as it
/// is, and behind the last of them an empty one that ends the stream.
pub open spec fn body_uploads<Q, S>(events: Seq<Http2Event<Q, S, Seq<u8>>>) -> Seq<Upload>
    decreases events.len(),
{
    if events.len() == 0 {
        Seq::empty()
    } else {
        let before = body_uploads(events.drop_last());
        match events.last() {
            Http2Event::Body(Some(Ok(data))) => before.push(Upload { data, end_of_stream: false }),
            Http2Event::Body(None) => before.push(Upload { data: Seq::empty(), end_of_stream: true }),
            _ => before,
        }
    }
}

/// Each chunk of the body of the request goes out as it was read and in order,
/// none of them ending the stream. Once the body has ended, and not before, an
/// empty chunk goes out that ends the stream. Nothing else goes out.
pub proof fn law_http2_body_is_sent_whole<P, Q, S>(
    parts: P,
    events: Seq<Http2Event<Q, S, Seq<u8>>>,
)
    requires
        http2_run::<P, Q, S>(parts, events).valid,
    ensures
        uploads(http2_run::<P, Q, S>(parts, events).actions) == body_uploads(events),
    decreases events.len(),
{
    let run = http2_run::<P, Q, S>(parts, events);
    if events.len() > 0 {
        let before = http2_run::<P, Q, S>(parts, events.drop_last());
        law_http2_body_is_sent_whole::<P, Q, S>(parts, events.drop_last());
        assert(run.actions.drop_last() =~= before.actions);
    }
}

/// What holds of every exchange: one action for each step, the head first, the
/// reply last, and the response not before the body has ended.
proof fn lemma_http2_under_way<P, Q, S>(parts: P, events: Seq<Http2Event<Q, S, Seq<u8>>>)
    requires
        http2_run::<P, Q, S>(parts, events).valid,
    ensures
        ({
            let run = http2_run::<P, Q, S>(parts, events);
            &&& run.actions.len() == events.len()
            &&& run.state matches Http2State::AwaitingReady(p) ==> p == parts && events.len() == 0
            &&& run.state is AwaitingHeadSent ==> events.len() == 1
            &&& events.len() > 0 ==> run.actions[0] is Finish || run.actions[0] == Http2Action::<
                P,
                Seq<u8>,
                Response<Q, ResponseContents<S>>,
            >::SendHead { request: Request { parts, body: () }, end_of_stream: false }
            &&& forall|i: int|
                0 <= i < run.actions.len() && (#[trigger] run.actions[i]) is SendHead ==> i == 0
            &&& forall|i: int|
                0 <= i < run.actions.len() && (#[trigger] run.actions[i]) is Finish ==> i
                    == run.actions.len() - 1
            &&& run.state is Finished <==> events.len() > 0 && run.actions.last() is Finish
            &&& run.state is AwaitingResponse || run.state == Http2State::<P>::AwaitingDataSent {
                last: true,
            } ==> exists|i: int|
                0 <= i < events.len() && (#[trigger] events[i]) == Http2Event::<
                    Q,
                    S,
                    Seq<u8>,
                >::Body(None)
        }),
    decreases events.len(),
{
    let run = http2_run::<P, Q, S>(parts, events);
    if events.len() > 0 {
        let init = events.drop_last();
        let before = http2_run::<P, Q, S>(parts, init);
        lemma_http2_under_way::<P, Q, S>(parts, init);
        assert(run.actions.drop_last() =~= before.actions);
        assert forall|i: int| 0 <= i < init.len() implies init[i] == #[trigger] events[i] by {}
        assert(events[events.len() - 1] == events.last());
        if run.state is AwaitingResponse {
            let i = choose|i: int|
                0 <= i < init.len() && (#[trigger] init[i]) == Http2Event::<
                    Q,
                    S,
                    Seq<u8>,
                >::Body(None);
            assert(events[i] == init[i]);
        }
    }
}

/// The first action sends the head of the request, without ending the stream,
/// unless the exchange fails at once. No later action sends a head, and none sends
/// a chunk before it.
pub proof fn law_http2_head_goes_first<P, Q, S>(parts: P, events: Seq<Http2Event<Q, S, Seq<u8>>>)
    requires
        http2_run::<P, Q, S>(parts, events).valid,
    ensures
        ({
            let actions = http2_run::<P, Q, S>(parts, events).actions;
            let head = Http2Action::<P, Seq<u8>, Response<Q, ResponseContents<S>>>::SendHead {
                request: Request { parts, body: () },
                end_of_stream: false,
            };
            &&& actions.len() == events.len()
            &&& actions.len() > 0 ==> actions[0] == head || (actions[0] is Finish && actions.len()
                == 1)
            &&& forall|i: int| 0 < i < actions.len() ==> !((#[trigger] actions[i]) is SendHead)
        }),
{
    lemma_http2_under_way::<P, Q, S>(parts, events);
}

/// The error that an event reports where it ends an exchange.
pub open spec fn http2_error<Q, S, D>(event: Http2Event<Q, S, D>) -> Option<HttpError> {
    match event {
        Http2Event::Ready(Err(e)) => Some(e),
        Http2Event::HeadSent(Err(e)) => Some(e),
        Http2Event::Body(Some(Err(e))) => Some(e),
        Http2Event::DataSent(Err(e)) => Some(e),
        Http2Event::Response(Err(e)) => Some(e),
        _ => None,
    }
}

/// An exchange that is over gave back either the response that was read last, as
/// it was read and after the stream was ended, or the error that was met last. The
/// connection can be reused in the first case and in no other.
pub proof fn law_http2_reply<P, Q, S>(parts: P, events: Seq<Http2Event<Q, S, Seq<u8>>>)
    requires
        http2_run::<P, Q, S>(parts, events).valid,
        http2_run::<P, Q, S>(parts, events).state is Finished,
    ensures
        ({
            &&& events.len() > 0
            &&& http2_run::<P, Q, S>(parts, events).actions.last()
                matches Http2Action::Finish { result, reusable }
            &&& reusable == (result is Ok)
            &&& match result {
                Ok(response) => {
                    &&& events.last() matches Http2Event::Response(Ok(read))
                    &&& response.parts == read.parts
                    &&& response.body == ResponseContents::<S>::H2(read.body)
                    &&& exists|i: int|
                        0 <= i < events.len() && (#[trigger] events[i]) == Http2Event::<
                            Q,
                            S,
                            Seq<u8>,
                        >::Body(None)
                },
                Err(e) => http2_error(events.last()) matches Some(met) && e == Error::Http(met),
            }
        }),
{
    lemma_http2_under_way::<P, Q, S>(parts, events);
    let init = events.drop_last();
    lemma_http2_under_way::<P, Q, S>(parts, init);
    if http2_run::<P, Q, S>(parts, init).state is AwaitingResponse {
        let i = choose|i: int|
            0 <= i < init.len() && (#[trigger] init[i]) == Http2Event::<Q, S, Seq<u8>>::Body(None);
        assert(events[i] == init[i]);
    }
}

/// An exchange gives its reply with the step that ends it, and takes no step
/// after it.
pub proof fn law_http2_one_reply<P, Q, S>(parts: P, events: Seq<Http2Event<Q, S, Seq<u8>>>)
    requires
        http2_run::<P, Q, S>(parts, events).valid,
    ensures
        ({
            let run = http2_run::<P, Q, S>(parts, events);
            &&& run.actions.len() == events.len()
            &&& run.state is Finished <==> run.actions.len() > 0 && run.actions.last() is Finish
            &&& forall|i: int|
                0 <= i < run.actions.len() - 1 ==> !((#[trigger] run.actions[i]) is Finish)
        }),
{
    lemma_http2_under_way::<P, Q, S>(parts, events);
}

/// What comes of sending the chunk that ends the stream changes nothing: the
/// response is read all the same.
pub proof fn law_http2_result_of_ending_is_ignored<P, Q, S>(
    parts: P,
    events: Seq<Http2Event<Q, S, Seq<u8>>>,
    sent: Result<(), HttpError>,
)
    requires
        http2_run::<P, Q, S>(parts, events).valid,
        http2_run::<P, Q, S>(parts, events).actions.len() > 0,
        http2_run::<P, Q, S>(parts, events).actions.last() == (Http2Action::<
            P,
            Seq<u8>,
            Response<Q, ResponseContents<S>>,
        >::SendData { data: Seq::empty(), end_of_stream: true }),
    ensures
        ({
            let run = http2_run::<P, Q, S>(parts, events.push(Http2Event::DataSent(sent)));
            &&& run.valid
            &&& run.state is AwaitingResponse
            &&& run.actions.last() is ReadResponse
        }),
{
    assert(events.push(Http2Event::DataSent(sent)).drop_last() =~= events);
    lemma_http2_under_way::<P, Q, S>(parts, events);
    lemma_http2_under_way::<P, Q, S>(parts, events.drop_last());
}

/// The steps of an exchange up to the last chunk of the body of the request, where
/// nothing fails.
pub open spec fn http2_sending<Q, S>(chunks: Seq<Seq<u8>>) -> Seq<Http2Event<Q, S, Seq<u8>>>
    decreases chunks.len(),
{
    if chunks.len() == 0 {
        seq![Http2Event::Ready(Ok(())), Http2Event::HeadSent(Ok(()))]
    } else {
        http2_sending::<Q, S>(chunks.drop_last()).push(
            Http2Event::Body(Some(Ok(chunks.last()))),
        ).push(Http2Event::DataSent(Ok(())))
    }
}

proof fn lemma_http2_sending<P, Q, S>(parts: P, chunks: Seq<Seq<u8>>)
    ensures
        http2_run::<P, Q, S>(parts, http2_sending::<Q, S>(chunks)).valid,
        http2_run::<P, Q, S>(parts, http2_sending::<Q, S>(chunks)).state is AwaitingBody,
        body_uploads(http2_sending::<Q, S>(chunks)) == chunks.map_values(
            |data: Seq<u8>| Upload { data, end_of_stream: false },
        ),
    decreases chunks.len(),
{
    let events = http2_sending::<Q, S>(chunks);
    if chunks.len() == 0 {
        assert(events.drop_last().drop_last() =~= Seq::empty());
        reveal_with_fuel(http2_run, 3);
        reveal_with_fuel(body_uploads, 3);
        assert(body_uploads(events) =~= chunks.map_values(
            |data: Seq<u8>| Upload { data, end_of_stream: false },
        ));
    } else {
        let before = http2_sending::<Q, S>(chunks.drop_last());
        lemma_http2_sending::<P, Q, S>(parts, chunks.drop_last());
        assert(events.drop_last().drop_last() =~= before);
        reveal_with_fuel(http2_run, 3);
        reveal_with_fuel(body_uploads, 3);
        assert(body_uploads(events) =~= chunks.map_values(
            |data: Seq<u8>| Upload { data, end_of_stream: false },
        ));
    }
}

/// Where nothing fails but perhaps the end of the stream, the exchange sends the
/// chunks of the body and the end of the stream, gives back the response, and
/// leaves the connection to be reused.
pub proof fn law_http2_exchange_succeeds<P, Q, S>(
    parts: P,
    chunks: Seq<Seq<u8>>,
    ended: Result<(), HttpError>,
    response: Response<Q, S>,
)
    ensures
        ({
            let run = http2_run::<P, Q, S>(
                parts,
                http2_sending::<Q, S>(chunks).push(Http2Event::Body(None)).push(
                    Http2Event::DataSent(ended),
                ).push(Http2Event::Response(Ok(response))),
            );
            &&& run.valid
            &&& run.state is Finished
            &&& uploads(run.actions) == chunks.map_values(
                |data: Seq<u8>| Upload { data, end_of_stream: false },
            ).push(Upload { data: Seq::empty(), end_of_stream: true })
            &&& run.actions.last() == Http2Action::<
                P,
                Seq<u8>,
                Response<Q, ResponseContents<S>>,
            >::Finish {
                result: Ok(Response { parts: response.parts, body: HttpBody::H2(response.body) }),
                reusable: true,
            }
        }),
{
    let sent = http2_sending::<Q, S>(chunks);
    let closing = sent.push(Http2Event::Body(None));
    let closed = closing.push(Http2Event::DataSent(ended));
    let done = closed.push(Http2Event::Response(Ok(response)));
    lemma_http2_sending::<P, Q, S>(parts, chunks);
    assert(closing.drop_last() =~= sent);
    assert(closed.drop_last() =~= closing);
    assert(done.drop_last() =~= closed);
    reveal_with_fuel(http2_run, 4);
    reveal_with_fuel(body_uploads, 4);
    law_http2_body_is_sent_whole::<P, Q, S>(parts, done);
}

/// What an exchange asks for goes with what it waits for: to send the head where that is
/// due, to read the body where a chunk is due, to send a chunk where one is to go out, and
/// with it the end of the stream where that is to go out, to read the response where that
/// is due, and to give back the reply where the exchange is over; each nowhere else.
pub proof fn law_http2_action_goes_with_state<P, Q, S>(
    parts: P,
    events: Seq<Http2Event<Q, S, Seq<u8>>>,
)
    requires
        http2_run::<P, Q, S>(parts, events).valid,
    ensures
        ({
            let run = http2_run::<P, Q, S>(parts, events);
            &&& run.actions.len() == events.len()
            &&& run.state is AwaitingReady <==> events.len() == 0
            &&& events.len() > 0 ==> {
                &&& run.actions.last() is SendHead <==> run.state is AwaitingHeadSent
                &&& run.actions.last() is ReadBody <==> run.state is AwaitingBody
                &&& run.actions.last() is SendData <==> run.state is AwaitingDataSent
                &&& run.state matches Http2State::AwaitingDataSent { last } ==> last
                    == run.actions.last()->SendData_end_of_stream
                &&& run.actions.last() is ReadResponse <==> run.state is AwaitingResponse
                &&& run.actions.last() is Finish <==> run.state is Finished
            }
        }),
    decreases events.len(),
{
    if events.len() > 0 {
        law_http2_action_goes_with_state::<P, Q, S>(parts, events.drop_last());
    }
}

/// The one kind of event that an exchange takes next is the outcome of what it asked for
/// last: at first, that the connection takes a stream; none where it gave back its reply.
pub proof fn law_http2_takes_what_it_asked_for<P, Q, S>(
    parts: P,
    events: Seq<Http2Event<Q, S, Seq<u8>>>,
    event: Http2Event<Q, S, Seq<u8>>,
)
    requires
        http2_run::<P, Q, S>(parts, events).valid,
    ensures
        ({
            let actions = http2_run::<P, Q, S>(parts, events).actions;
            http2_run::<P, Q, S>(parts, events.push(event)).valid == if events.len() == 0 {
                event is Ready
            } else {
                match actions.last() {
                    Http2Action::SendHead { .. } => event is HeadSent,
                    Http2Action::ReadBody => event is Body,
                    Http2Action::SendData { .. } => event is DataSent,
                    Http2Action::ReadResponse => event is Response,
                    Http2Action::Finish { .. } => false,
                }
            }
        }),
{
    law_http2_action_goes_with_state::<P, Q, S>(parts, events);
    assert(events.push(event).drop_last() =~= events);
}

/// The response is read only after the end of the stream went out, and right after it:
/// what was asked for before was to send an empty chunk that ends the stream. The stream is
/// ended once at most, and only behind the end of the body.
pub proof fn law_http2_response_is_read_after_the_end<P, Q, S>(
    parts: P,
    events: Seq<Http2Event<Q, S, Seq<u8>>>,
    i: int,
)
    requires
        http2_run::<P, Q, S>(parts, events).valid,
        0 <= i < events.len(),
    ensures
        ({
            let actions = http2_run::<P, Q, S>(parts, events).actions;
            &&& actions[i] is ReadResponse ==> i > 0 && actions[i - 1] == (Http2Action::<
                P,
                Seq<u8>,
                Response<Q, ResponseContents<S>>,
            >::SendData { data: Seq::empty(), end_of_stream: true })
            &&& actions[i] matches Http2Action::SendData { data, end_of_stream } ==> (
            end_of_stream <==> events[i] == Http2Event::<Q, S, Seq<u8>>::Body(None))
            &&& actions[i] matches Http2Action::SendData { data, end_of_stream } ==> (
            !end_of_stream <==> events[i] == Http2Event::<Q, S, Seq<u8>>::Body(Some(Ok(data))))
            &&& actions[i] matches Http2Action::SendData { end_of_stream, .. } ==> (end_of_stream
                && i + 1 < events.len() ==> actions[i + 1] is ReadResponse)
        }),
    decreases events.len(),
{
    let init = events.drop_last();
    let actions = http2_run::<P, Q, S>(parts, events).actions;
    let before = http2_run::<P, Q, S>(parts, init).actions;
    law_http2_action_goes_with_state::<P, Q, S>(parts, events);
    law_http2_action_goes_with_state::<P, Q, S>(parts, init);
    assert(actions.drop_last() =~= before);
    if i < init.len() {
        law_http2_response_is_read_after_the_end::<P, Q, S>(parts, init, i);
        assert(init[i] == events[i]);
        assert(actions[i] == before[i]);
        if i > 0 {
            assert(actions[i - 1] == before[i - 1]);
        }
        if i + 1 < init.len() {
            assert(actions[i + 1] == before[i + 1]);
        } else {
            assert(before[i] == before.last());
        }
    } else if actions[i] is ReadResponse {
        let state = http2_run::<P, Q, S>(parts, init).state;
        assert(state == Http2State::<P>::AwaitingDataSent { last: true });
        assert(init.len() > 0);
        law_http2_response_is_read_after_the_end::<P, Q, S>(parts, init, i - 1);
        lemma_http2_end_is_empty::<P, Q, S>(parts, init);
        assert(before.last() == actions[i - 1]);
    }
}

proof fn lemma_http2_end_is_empty<P, Q, S>(parts: P, events: Seq<Http2Event<Q, S, Seq<u8>>>)
    requires
        http2_run::<P, Q, S>(parts, events).valid,
        http2_run::<P, Q, S>(parts, events).state == (Http2State::<P>::AwaitingDataSent {
            last: true,
        }),
    ensures
        events.len() > 0,
        http2_run::<P, Q, S>(parts, events).actions.last() == (Http2Action::<
            P,
            Seq<u8>,
            Response<Q, ResponseContents<S>>,
        >::SendData { data: Seq::empty(), end_of_stream: true }),
{
    if events.len() > 0 {
        lemma_http2_under_way::<P, Q, S>(parts, events.drop_last());
    }
}

/// Whatever an exchange asked for, where that fails it gives back the error, and the
/// connection is not to be reused. The one thing that may fail is the end of the stream.
pub proof fn law_http2_failure_ends_the_exchange<P, Q, S>(
    parts: P,
    events: Seq<Http2Event<Q, S, Seq<u8>>>,
    failure: Http2Event<Q, S, Seq<u8>>,
    e: HttpError,
)
    requires
        http2_run::<P, Q, S>(parts, events.push(failure)).valid,
        ({
            ||| failure == Http2Event::<Q, S, Seq<u8>>::Ready(Err(e))
            ||| failure == Http2Event::<Q, S, Seq<u8>>::HeadSent(Err(e))
            ||| failure == Http2Event::<Q, S, Seq<u8>>::Body(Some(Err(e)))
            ||| failure == Http2Event::<Q, S, Seq<u8>>::Response(Err(e))
            ||| failure == Http2Event::<Q, S, Seq<u8>>::DataSent(Err(e)) && !(http2_run::<P, Q, S>(
                parts,
                events,
            ).actions.last() matches Http2Action::SendData { end_of_stream, .. } && end_of_stream)
        }),
    ensures
        ({
            let run = http2_run::<P, Q, S>(parts, events.push(failure));
            &&& run.state is Finished
            &&& run.actions.last() == Http2Action::<
                P,
                Seq<u8>,
                Response<Q, ResponseContents<S>>,
            >::Finish { result: Err(Error::Http(e)), reusable: false }
        }),
{
    assert(events.push(failure).drop_last() =~= events);
    law_http2_action_goes_with_state::<P, Q, S>(parts, events);
}

/// What an exchange asks for, up to the last chunk of the body of the request, where
/// nothing fails: to send the head, to read the body, and for each chunk to send it and to
/// read on.
pub open spec fn http2_asking<P, A>(parts: P, chunks: Seq<Seq<u8>>) -> Seq<
    Http2Action<P, Seq<u8>, A>,
>
    decreases chunks.len(),
{
    if chunks.len() == 0 {
        seq![
            Http2Action::SendHead { request: Request { parts, body: () }, end_of_stream: false },
            Http2Action::ReadBody,
        ]
    } else {
        http2_asking::<P, A>(parts, chunks.drop_last()).push(
            Http2Action::SendData { data: chunks.last(), end_of_stream: false },
        ).push(Http2Action::ReadBody)
    }
}

proof fn lemma_http2_asking<P, Q, S>(parts: P, chunks: Seq<Seq<u8>>)
    ensures
        http2_run::<P, Q, S>(parts, http2_sending::<Q, S>(chunks)) == (Http2Run::<P, Q, S> {
            valid: true,
            state: Http2State::AwaitingBody,
            actions: http2_asking(parts, chunks),
        }),
    decreases chunks.len(),
{
    let events = http2_sending::<Q, S>(chunks);
    if chunks.len() == 0 {
        assert(events.drop_last().drop_last() =~= Seq::empty());
        reveal_with_fuel(http2_run, 3);
        assert(http2_run::<P, Q, S>(parts, events).actions =~= http2_asking(parts, chunks));
    } else {
        let before = http2_sending::<Q, S>(chunks.drop_last());
        lemma_http2_asking::<P, Q, S>(parts, chunks.drop_last());
        assert(events.drop_last().drop_last() =~= before);
        reveal_with_fuel(http2_run, 3);
    }
}

/// Where nothing fails but perhaps the end of the stream, an exchange asks for this and for
/// nothing else, in this order: to send the head of the request; to read its body, and to
/// send each chunk as it was read, up to the end of the body; to send an empty chunk that
/// ends the stream; to read the response; and to give it back, with the connection to be
/// reused.
pub proof fn law_http2_course_of_an_exchange<P, Q, S>(
    parts: P,
    chunks: Seq<Seq<u8>>,
    ended: Result<(), HttpError>,
    response: Response<Q, S>,
)
    ensures
        http2_run::<P, Q, S>(
            parts,
            http2_sending::<Q, S>(chunks).push(Http2Event::Body(None)).push(
                Http2Event::DataSent(ended),
            ).push(Http2Event::Response(Ok(response))),
        ) == (Http2Run::<P, Q, S> {
            valid: true,
            state: Http2State::Finished,
            actions: http2_asking(parts, chunks).push(
                Http2Action::SendData { data: Seq::empty(), end_of_stream: true },
            ).push(Http2Action::ReadResponse).push(
                Http2Action::Finish {
                    result: Ok(
                        Response { parts: response.parts, body: HttpBody::H2(response.body) },
                    ),
                    reusable: true,
                },
            ),
        }),
{
    let sent = http2_sending::<Q, S>(chunks);
    let closing = sent.push(Http2Event::Body(None));
    let closed = closing.push(Http2Event::DataSent(ended));
    let done = closed.push(Http2Event::Response(Ok(response)));
    lemma_http2_asking::<P, Q, S>(parts, chunks);
    assert(closing.drop_last() =~= sent);
    assert(closed.drop_last() =~= closing);
    assert(done.drop_last() =~= closed);
    reveal_with_fuel(http2_run, 4);
}

/// After a chunk went out, the next one is read: whatever came before, the exchange asks to
/// read the body, and not for the response.
pub proof fn law_http2_reads_on_after_a_chunk<P, Q, S>(
    parts: P,
    events: Seq<Http2Event<Q, S, Seq<u8>>>,
    chunk: Seq<u8>,
)
    requires
        http2_run::<P, Q, S>(parts, events).valid,
        events.len() > 0,
        http2_run::<P, Q, S>(parts, events).actions.last() is ReadBody,
    ensures
        ({
            let read = events.push(Http2Event::Body(Some(Ok(chunk))));
            let sending = http2_run::<P, Q, S>(parts, read);
            let sent = http2_run::<P, Q, S>(parts, read.push(Http2Event::DataSent(Ok(()))));
            &&& sending.valid
            &&& sending.actions.last() == Http2Action::<
                P,
                Seq<u8>,
                Response<Q, ResponseContents<S>>,
            >::SendData { data: chunk, end_of_stream: false }
            &&& sent.valid
            &&& sent.actions.last() is ReadBody
            &&& sent.state == http2_run::<P, Q, S>(parts, events).state
        }),
{
    let read = events.push(Http2Event::Body(Some(Ok(chunk))));
    law_http2_action_goes_with_state::<P, Q, S>(parts, events);
    assert(read.drop_last() =~= events);
    assert(read.push(Http2Event::DataSent(Ok(()))).drop_last() =~= read);
    reveal_with_fuel(http2_run, 3);
}

} // verus!
