//! What holds of whole exchanges over HTTP/1.1.

use crate::body::{HttpBody, Payload, ResponseContents, StreamContents};
use crate::error::Error;
use crate::head_request::lemma_mark_is_what_it_says;
use crate::http1::{http1_fails, http1_transition, Http1Action, Http1Event, Http1State};
use crate::message::{RequestFacts, Response, ResponseHead};
use crate::persistence::{close_token, keep_alive_token, outlives, says, Http1Terms};
use monoio_http::common::error::HttpError;
use vstd::prelude::*;

verus! {

/// What an exchange begins with: what its request settles, and the status of its
/// connection.
pub struct Http1Outset {
    /// What the request settles.
    pub terms: Http1Terms,
    /// Whether the connection is in use.
    pub using: bool,
    /// Whether the connection is open.
    pub open: bool,
}

/// What an exchange gave back.
pub struct Http1Reply<Q, S> {
    /// The response, or why there is none.
    pub result: Result<Response<Q, ResponseContents<S>>, Error>,
    /// Whether the connection can be reused.
    pub reusable: bool,
}

/// Where an exchange stands after some steps.
pub struct Http1Run<Q, S> {
    /// Whether each event was one that the exchange waited for.
    pub valid: bool,
    /// What the exchange waits for.
    pub state: Http1State<Q, StreamContents>,
    /// What it asked for, in order: one action for each step.
    pub actions: Seq<Http1Action<Response<Q, ResponseContents<S>>>>,
    /// What it gave back, once it has.
    pub reply: Option<Http1Reply<Q, S>>,
    /// Whether the connection is in use.
    pub using: bool,
    /// Whether the connection is open.
    pub open: bool,
}

/// Where an exchange stands before its first step.
pub open spec fn http1_begun<Q, S>(outset: Http1Outset) -> Http1Run<Q, S> {
    Http1Run {
        valid: true,
        state: Http1State::AwaitingSent(outset.terms),
        actions: Seq::empty(),
        reply: None,
        using: outset.using,
        open: outset.open,
    }
}

/// Where an exchange stands after one more step.
pub open spec fn http1_advanced<Q, S>(
    before: Http1Run<Q, S>,
    event: Http1Event<Q, Seq<u8>>,
) -> Http1Run<Q, S> {
    let (state, action) = http1_transition::<Q, S>(
        before.state,
        event,
        before.open && !before.using,
    );
    Http1Run {
        valid: before.valid && before.state.awaits(event),
        state,
        actions: before.actions.push(action),
        reply: match action {
            Http1Action::Finish { result, reusable } => Some(Http1Reply { result, reusable }),
            _ => None,
        },
        using: before.using,
        open: before.open && !http1_fails(action),
    }
}

/// Where an exchange stands after the steps `events`.
pub open spec fn http1_run<Q, S>(
    outset: Http1Outset,
    events: Seq<Http1Event<Q, Seq<u8>>>,
) -> Http1Run<Q, S>
    decreases events.len(),
{
    if events.len() == 0 {
        http1_begun(outset)
    } else {
        http1_advanced(http1_run::<Q, S>(outset, events.drop_last()), events.last())
    }
}

/// Whether a response is there with its body as a whole.
pub open spec fn is_whole_response<Q, S>(
    result: Result<Response<Q, ResponseContents<S>>, Error>,
) -> bool {
    result matches Ok(response) && (response.body matches HttpBody::H1(payload)
        && payload.is_whole())
}

/// The head of the response, as the second step of an exchange read it.
pub open spec fn head_read<Q>(events: Seq<Http1Event<Q, Seq<u8>>>) -> ResponseHead<Q> {
    events[1]->Head_0->0->Ok_0
}

/// Whether the second step of an exchange read the head of a response.
pub open spec fn has_read_head<Q>(events: Seq<Http1Event<Q, Seq<u8>>>) -> bool {
    events.len() >= 2 && events[1] == Http1Event::<Q, Seq<u8>>::Head(Some(Ok(head_read(events))))
}

/// What holds of every exchange: which steps lead to its state, and how the
/// connection fares.
proof fn lemma_http1_under_way<Q, S>(
    outset: Http1Outset,
    events: Seq<Http1Event<Q, Seq<u8>>>,
)
    requires
        http1_run::<Q, S>(outset, events).valid,
    ensures
        ({
            let run = http1_run::<Q, S>(outset, events);
            &&& run.using == outset.using
            &&& run.reply is Some <==> run.state is Finished
            &&& run.reply is None ==> run.open == outset.open
            &&& run.reply matches Some(reply) ==> {
                &&& run.open == (outset.open && reply.result is Ok)
                &&& reply.result is Ok ==> has_read_head(events)
                &&& reply.reusable == (is_whole_response(reply.result) && run.open && !run.using
                    && outlives(outset.terms, head_read(events)))
            }
            &&& run.state matches Http1State::AwaitingSent(terms) ==> events.len() == 0 && terms
                == outset.terms
            &&& run.state matches Http1State::AwaitingHead(terms) ==> events.len() == 1 && terms
                == outset.terms
            &&& run.state matches Http1State::AwaitingFixed { parts, outlives: kept } ==> {
                &&& events.len() == 2
                &&& has_read_head(events)
                &&& head_read(events).parts == parts
                &&& head_read(events).decoder is Fixed
                &&& kept == outlives(outset.terms, head_read(events))
                &&& !outset.terms.mark@
            }
            &&& run.state matches Http1State::AwaitingStream { parts, body, outlives: kept } ==> {
                &&& has_read_head(events)
                &&& head_read(events).parts == parts
                &&& head_read(events).decoder is Streamed
                &&& kept == outlives(outset.terms, head_read(events))
                &&& !outset.terms.mark@
                &&& !body.ended
                &&& body.chunks.len() == events.len() - 2
                &&& forall|i: int|
                    2 <= i < events.len() ==> #[trigger] events[i] == Http1Event::<
                        Q,
                        Seq<u8>,
                    >::Data(Some(Ok(body.chunks[i - 2])))
            }
            &&& run.state is Finished ==> events.len() > 0
        }),
    decreases events.len(),
{
    if events.len() > 0 {
        let init = events.drop_last();
        lemma_http1_under_way::<Q, S>(outset, init);
        assert forall|i: int| 0 <= i < init.len() implies init[i] == #[trigger] events[i] by {}
    }
}

/// The response or the error to which the steps of a finished exchange lead: a
/// failure to send or to read the head is given back; a response to a `HEAD`
/// request, or one that announces no body, is given back without one; a body in one
/// piece is given back as it came, be it an error; and a body in chunks is given
/// back whole, or not at all where a chunk could not be read.
pub open spec fn http1_result_of<Q, S>(events: Seq<Http1Event<Q, Seq<u8>>>) -> Result<
    Response<Q, ResponseContents<S>>,
    Error,
> {
    let announced = head_read(events);
    match events.last() {
        Http1Event::Sent(sent) => Err(Error::Http(sent->Err_0)),
        Http1Event::Head(None) => Err(Error::UnexpectedEof),
        Http1Event::Head(Some(Err(e))) => Err(Error::Http(e)),
        Http1Event::Head(Some(Ok(head))) => Ok(
            Response { parts: head.parts, body: HttpBody::H1(Payload::Empty) },
        ),
        Http1Event::Data(item) => if announced.decoder is Fixed {
            Ok(Response { parts: announced.parts, body: HttpBody::H1(Payload::Fixed(item)) })
        } else {
            match item {
                Some(piece) => Err(Error::Http(piece->Err_0)),
                None => Ok(
                    Response {
                        parts: announced.parts,
                        body: HttpBody::H1(
                            Payload::Stream(
                                StreamContents {
                                    chunks: Seq::new(
                                        (events.len() - 3) as nat,
                                        |i: int| events[i + 2]->Data_0->0->Ok_0,
                                    ),
                                    ended: true,
                                },
                            ),
                        ),
                    },
                ),
            }
        },
    }
}

/// Every exchange that is over gave back what [`http1_result_of`] says of its
/// steps.
pub proof fn law_http1_reply<Q, S>(outset: Http1Outset, events: Seq<Http1Event<Q, Seq<u8>>>)
    requires
        http1_run::<Q, S>(outset, events).valid,
        http1_run::<Q, S>(outset, events).state is Finished,
    ensures
        http1_run::<Q, S>(outset, events).reply matches Some(reply) && reply.result
            == http1_result_of::<Q, S>(events),
{
    let init = events.drop_last();
    lemma_http1_under_way::<Q, S>(outset, events);
    lemma_http1_under_way::<Q, S>(outset, init);
    assert forall|i: int| 0 <= i < init.len() implies init[i] == #[trigger] events[i] by {}
    if http1_run::<Q, S>(outset, init).state is AwaitingStream {
        let body = http1_run::<Q, S>(outset, init).state->body;
        let chunks = Seq::new(
            (events.len() - 3) as nat,
            |i: int| events[i + 2]->Data_0->0->Ok_0,
        );
        assert(body.chunks =~= chunks);
    }
}

/// A connection that was open stays open if and only if the exchange brings a
/// response, and as long as the exchange is under way.
pub proof fn law_http1_open_until_failure<Q, S>(
    outset: Http1Outset,
    events: Seq<Http1Event<Q, Seq<u8>>>,
)
    requires
        http1_run::<Q, S>(outset, events).valid,
    ensures
        ({
            let run = http1_run::<Q, S>(outset, events);
            &&& run.open == (outset.open && match run.reply {
                Some(reply) => reply.result is Ok,
                None => true,
            })
            &&& run.using == outset.using
        }),
{
    lemma_http1_under_way::<Q, S>(outset, events);
}

/// After an exchange the connection can be reused if and only if a response came,
/// its body was read as a whole, the connection can take a request, and it outlives
/// the exchange by what the heads of request and response say.
pub proof fn law_http1_reuse<Q, S>(outset: Http1Outset, events: Seq<Http1Event<Q, Seq<u8>>>)
    requires
        http1_run::<Q, S>(outset, events).valid,
    ensures
        ({
            let run = http1_run::<Q, S>(outset, events);
            run.reply matches Some(reply) ==> {
                &&& reply.reusable == (is_whole_response(reply.result) && run.open && !run.using
                    && outlives(outset.terms, head_read(events)))
                &&& reply.reusable ==> has_read_head(events)
            }
        }),
{
    lemma_http1_under_way::<Q, S>(outset, events);
}

/// No connection is reused that one of its sides is about to close, or on which it is
/// unknown where the response ends: where the request or the response says `close`;
/// where the response is of HTTP/1.0 and does not say `keep-alive`; where it is not a
/// final one; and where it answers no `HEAD` request, is not of status 204 or 304, and
/// has neither a length nor chunks, so that its body runs to the end of the connection.
pub proof fn law_http1_no_reuse_at_the_end<Q, S>(
    outset: Http1Outset,
    events: Seq<Http1Event<Q, Seq<u8>>>,
)
    requires
        http1_run::<Q, S>(outset, events).valid,
        has_read_head(events),
        ({
            let head = head_read(events);
            ||| outset.terms.last
            ||| says(head.connection@, close_token())
            ||| !head.http11 && !says(head.connection@, keep_alive_token())
            ||| head.status < 200
            ||| head.decoder is Empty && !head.has_length && !outset.terms.mark@ && head.status
                != 204 && head.status != 304
        }),
    ensures
        http1_run::<Q, S>(outset, events).reply matches Some(reply) ==> !reply.reusable,
{
    lemma_http1_under_way::<Q, S>(outset, events);
}

/// An exchange gives its reply with the step that ends it, and takes no step
/// after it.
pub proof fn law_http1_one_reply<Q, S>(
    outset: Http1Outset,
    events: Seq<Http1Event<Q, Seq<u8>>>,
    n: int,
)
    requires
        http1_run::<Q, S>(outset, events).valid,
        0 <= n <= events.len(),
    ensures
        http1_run::<Q, S>(outset, events.take(n)).valid,
        http1_run::<Q, S>(outset, events).reply is Some <==> http1_run::<Q, S>(
            outset,
            events,
        ).state is Finished,
        http1_run::<Q, S>(outset, events.take(n)).reply is Some ==> n == events.len(),
    decreases events.len(),
{
    lemma_http1_under_way::<Q, S>(outset, events);
    if n == events.len() {
        assert(events.take(n) =~= events);
    } else {
        let init = events.drop_last();
        law_http1_one_reply::<Q, S>(outset, init, n);
        assert(init.take(n) =~= events.take(n));
        if n == init.len() {
            assert(init.take(n) =~= init);
        }
    }
}

/// An exchange with a `HEAD` request reads no body, whatever the headers of the
/// response announce: once the head of the response is read the exchange is over,
/// and the response has that head and no body.
pub proof fn law_http1_head_reply_has_no_body<Q, S>(
    outset: Http1Outset,
    events: Seq<Http1Event<Q, Seq<u8>>>,
)
    requires
        http1_run::<Q, S>(outset, events).valid,
        outset.terms.mark@,
    ensures
        ({
            let run = http1_run::<Q, S>(outset, events);
            &&& events.len() <= 2
            &&& events.len() == 2 ==> run.reply is Some
            &&& run.reply matches Some(reply) ==> (reply.result matches Ok(response) ==> {
                &&& response.body == ResponseContents::<S>::H1(Payload::Empty)
                &&& events.len() == 2
                &&& has_read_head(events)
                &&& response.parts == head_read(events).parts
            })
        }),
{
    lemma_http1_under_way::<Q, S>(outset, events);
    if events.len() > 0 {
        lemma_http1_under_way::<Q, S>(outset, events.drop_last());
    }
    if events.len() > 2 {
        law_http1_one_reply::<Q, S>(outset, events, 2);
        lemma_http1_under_way::<Q, S>(outset, events.take(2));
        lemma_http1_under_way::<Q, S>(outset, events.take(2).drop_last());
    }
}

/// A response has the head that was read, and no other.
pub proof fn law_http1_reply_keeps_head<Q, S>(
    outset: Http1Outset,
    events: Seq<Http1Event<Q, Seq<u8>>>,
)
    requires
        http1_run::<Q, S>(outset, events).valid,
    ensures
        http1_run::<Q, S>(outset, events).reply matches Some(reply) ==> (reply.result matches Ok(
            response,
        ) ==> has_read_head(events) && response.parts == head_read(events).parts),
{
    lemma_http1_under_way::<Q, S>(outset, events);
    if events.len() > 0 {
        let init = events.drop_last();
        lemma_http1_under_way::<Q, S>(outset, init);
        if init.len() >= 2 {
            assert(init[1] == events[1]);
        }
    }
}

/// A response has the body that its head announces, in one piece or in chunks,
/// unless it answers a `HEAD` request.
pub proof fn law_http1_body_is_as_announced<Q, S>(
    outset: Http1Outset,
    events: Seq<Http1Event<Q, Seq<u8>>>,
)
    requires
        http1_run::<Q, S>(outset, events).valid,
        http1_run::<Q, S>(outset, events).reply matches Some(reply) && reply.result is Ok,
    ensures
        ({
            let body = http1_run::<Q, S>(outset, events).reply->0.result->Ok_0.body;
            let decoder = head_read(events).decoder;
            &&& has_read_head(events)
            &&& body matches HttpBody::H1(payload)
            &&& payload is Empty <==> outset.terms.mark@ || decoder is Empty
            &&& payload is Fixed <==> !outset.terms.mark@ && decoder is Fixed
            &&& payload is Stream <==> !outset.terms.mark@ && decoder is Streamed
        }),
{
    let init = events.drop_last();
    lemma_http1_under_way::<Q, S>(outset, events);
    lemma_http1_under_way::<Q, S>(outset, init);
    if init.len() >= 2 {
        assert(init[1] == events[1]);
    }
}

/// To read a body `n` times.
pub open spec fn body_reads<A>(n: nat) -> Seq<Http1Action<A>> {
    Seq::new(n, |i: int| Http1Action::ReadBody)
}

/// The steps up to the last chunk of a response with the head `head`.
pub open spec fn http1_streaming<Q>(head: ResponseHead<Q>, chunks: Seq<Seq<u8>>) -> Seq<
    Http1Event<Q, Seq<u8>>,
> {
    seq![Http1Event::Sent(Ok(())), Http1Event::Head(Some(Ok(head)))] + chunks.map_values(
        |chunk: Seq<u8>| Http1Event::<Q, Seq<u8>>::Data(Some(Ok(chunk))),
    )
}

proof fn lemma_http1_streaming<Q, S>(
    outset: Http1Outset,
    head: ResponseHead<Q>,
    chunks: Seq<Seq<u8>>,
)
    requires
        !outset.terms.mark@,
        head.decoder is Streamed,
    ensures
        http1_run::<Q, S>(outset, http1_streaming(head, chunks)) == (Http1Run::<Q, S> {
            valid: true,
            state: Http1State::AwaitingStream {
                parts: head.parts,
                body: StreamContents { chunks, ended: false },
                outlives: outlives(outset.terms, head),
            },
            actions: seq![Http1Action::ReadHead] + body_reads(chunks.len() + 1),
            reply: None,
            using: outset.using,
            open: outset.open,
        }),
    decreases chunks.len(),
{
    let events = http1_streaming(head, chunks);
    if chunks.len() == 0 {
        let sent = events.drop_last();
        assert(sent.drop_last().len() == 0);
        assert(chunks =~= Seq::empty());
        reveal_with_fuel(http1_run, 3);
        assert(http1_run::<Q, S>(outset, events).actions =~= seq![Http1Action::ReadHead]
            + body_reads(1));
    } else {
        lemma_http1_streaming::<Q, S>(outset, head, chunks.drop_last());
        assert(seq![Http1Action::<Response<Q, ResponseContents<S>>>::ReadHead] + body_reads(
            chunks.len(),
        ).push(Http1Action::ReadBody) =~= seq![Http1Action::ReadHead] + body_reads(
            chunks.len() + 1,
        ));
        assert(events.drop_last() =~= http1_streaming(head, chunks.drop_last()));
        assert(chunks.drop_last().push(chunks.last()) =~= chunks);
    }
}

/// To a request other than `HEAD`, the head of a response in chunks, of any status, is
/// followed by reading its body and nothing else, up to its end. The response is given
/// back with that head, with all the chunks that came in, in their order, and with its
/// end; the connection can be reused if it could take a request before, and outlives the
/// exchange.
pub proof fn law_http1_streamed_body_is_whole<Q, S>(
    outset: Http1Outset,
    head: ResponseHead<Q>,
    chunks: Seq<Seq<u8>>,
)
    requires
        !outset.terms.mark@,
        head.decoder is Streamed,
    ensures
        http1_run::<Q, S>(outset, http1_streaming(head, chunks).push(Http1Event::Data(None))) == (
        Http1Run::<Q, S> {
            valid: true,
            state: Http1State::Finished,
            actions: (seq![Http1Action::ReadHead] + body_reads(chunks.len() + 1)).push(
                Http1Action::Finish {
                    result: Ok(
                        Response {
                            parts: head.parts,
                            body: HttpBody::H1(
                                Payload::Stream(StreamContents { chunks, ended: true }),
                            ),
                        },
                    ),
                    reusable: outset.open && !outset.using && outlives(outset.terms, head),
                },
            ),
            reply: Some(
                Http1Reply {
                    result: Ok(
                        Response {
                            parts: head.parts,
                            body: HttpBody::H1(
                                Payload::Stream(StreamContents { chunks, ended: true }),
                            ),
                        },
                    ),
                    reusable: outset.open && !outset.using && outlives(outset.terms, head),
                },
            ),
            using: outset.using,
            open: outset.open,
        }),
{
    let events = http1_streaming(head, chunks);
    lemma_http1_streaming::<Q, S>(outset, head, chunks);
    assert(events.push(Http1Event::Data(None)).drop_last() =~= events);
}

/// Where a chunk cannot be read, the error is given back in place of the
/// response, however many chunks came in before, and the connection is closed.
pub proof fn law_http1_broken_stream_fails<Q, S>(
    outset: Http1Outset,
    head: ResponseHead<Q>,
    chunks: Seq<Seq<u8>>,
    e: HttpError,
)
    requires
        !outset.terms.mark@,
        head.decoder is Streamed,
    ensures
        http1_run::<Q, S>(
            outset,
            http1_streaming(head, chunks).push(Http1Event::Data(Some(Err(e)))),
        ) == (Http1Run::<Q, S> {
            valid: true,
            state: Http1State::Finished,
            actions: (seq![Http1Action::ReadHead] + body_reads(chunks.len() + 1)).push(
                Http1Action::Finish { result: Err(Error::Http(e)), reusable: false },
            ),
            reply: Some(Http1Reply { result: Err(Error::Http(e)), reusable: false }),
            using: outset.using,
            open: false,
        }),
{
    let events = http1_streaming(head, chunks);
    lemma_http1_streaming::<Q, S>(outset, head, chunks);
    assert(events.push(Http1Event::Data(Some(Err(e)))).drop_last() =~= events);
}

/// To a request other than `HEAD`, a head that announces a body in one piece, of any
/// status, is followed by reading that body once. The exchange then gives back that head
/// with what was read as its body, be it an error or nothing. The connection stays open,
/// and can be reused if the piece was read, the connection could take a request before,
/// and it outlives the exchange.
pub proof fn law_http1_fixed_body_is_given_back<Q, S>(
    outset: Http1Outset,
    head: ResponseHead<Q>,
    item: Option<Result<Seq<u8>, HttpError>>,
)
    requires
        !outset.terms.mark@,
        head.decoder is Fixed,
    ensures
        ({
            let result = Ok(
                Response { parts: head.parts, body: HttpBody::H1(Payload::Fixed(item)) },
            );
            let reusable = outset.open && !outset.using && (item matches Some(Ok(_)))
                && outlives(outset.terms, head);
            http1_run::<Q, S>(
                outset,
                seq![
                    Http1Event::Sent(Ok(())),
                    Http1Event::Head(Some(Ok(head))),
                    Http1Event::Data(item),
                ],
            ) == (Http1Run::<Q, S> {
                valid: true,
                state: Http1State::Finished,
                actions: seq![
                    Http1Action::ReadHead,
                    Http1Action::ReadBody,
                    Http1Action::Finish { result, reusable },
                ],
                reply: Some(Http1Reply { result, reusable }),
                using: outset.using,
                open: outset.open,
            })
        }),
{
    let events = seq![
        Http1Event::<Q, Seq<u8>>::Sent(Ok(())),
        Http1Event::Head(Some(Ok(head))),
        Http1Event::Data(item),
    ];
    assert(events.drop_last().drop_last().drop_last() =~= Seq::empty());
    reveal_with_fuel(http1_run, 4);
    assert(http1_run::<Q, S>(outset, events).actions =~= seq![
        Http1Action::ReadHead,
        Http1Action::ReadBody,
        http1_run::<Q, S>(outset, events).actions[2],
    ]);
}

/// To a `HEAD` request, and where the head of the response announces no body, the
/// exchange is over with that head, of any status: it is given back without a body. The
/// connection stays open, and can be reused if it could take a request before, and
/// outlives the exchange.
pub proof fn law_http1_no_body_is_read<Q, S>(outset: Http1Outset, head: ResponseHead<Q>)
    requires
        outset.terms.mark@ || head.decoder is Empty,
    ensures
        ({
            let result = Ok(Response { parts: head.parts, body: HttpBody::H1(Payload::Empty) });
            let reusable = outset.open && !outset.using && outlives(outset.terms, head);
            http1_run::<Q, S>(
                outset,
                seq![Http1Event::Sent(Ok(())), Http1Event::Head(Some(Ok(head)))],
            ) == (Http1Run::<Q, S> {
                valid: true,
                state: Http1State::Finished,
                actions: seq![Http1Action::ReadHead, Http1Action::Finish { result, reusable }],
                reply: Some(Http1Reply { result, reusable }),
                using: outset.using,
                open: outset.open,
            })
        }),
{
    let events = seq![
        Http1Event::<Q, Seq<u8>>::Sent(Ok(())),
        Http1Event::Head(Some(Ok(head))),
    ];
    assert(events.drop_last().drop_last() =~= Seq::empty());
    reveal_with_fuel(http1_run, 3);
    assert(http1_run::<Q, S>(outset, events).actions =~= seq![
        Http1Action::ReadHead,
        http1_run::<Q, S>(outset, events).actions[1],
    ]);
}

/// A request that cannot be sent, and a response head that cannot be read, end the
/// exchange with the error, and close the connection; an end of input in place of a head
/// counts as an error.
pub proof fn law_http1_failure_before_the_head<Q, S>(outset: Http1Outset, e: HttpError)
    ensures
        ({
            let run = http1_run::<Q, S>(outset, seq![Http1Event::Sent(Err(e))]);
            &&& run.valid
            &&& run.actions == seq![
                Http1Action::<Response<Q, ResponseContents<S>>>::Finish {
                    result: Err(Error::Http(e)),
                    reusable: false,
                },
            ]
            &&& run.state is Finished
            &&& !run.open
        }),
        ({
            let run = http1_run::<Q, S>(
                outset,
                seq![Http1Event::Sent(Ok(())), Http1Event::Head(Some(Err(e)))],
            );
            &&& run.valid
            &&& run.actions == seq![
                Http1Action::<Response<Q, ResponseContents<S>>>::ReadHead,
                Http1Action::Finish { result: Err(Error::Http(e)), reusable: false },
            ]
            &&& run.state is Finished
            &&& !run.open
        }),
        ({
            let run = http1_run::<Q, S>(
                outset,
                seq![Http1Event::Sent(Ok(())), Http1Event::Head(None)],
            );
            &&& run.valid
            &&& run.actions == seq![
                Http1Action::<Response<Q, ResponseContents<S>>>::ReadHead,
                Http1Action::Finish { result: Err(Error::UnexpectedEof), reusable: false },
            ]
            &&& run.state is Finished
            &&& !run.open
        }),
{
    let unsent = seq![Http1Event::<Q, Seq<u8>>::Sent(Err(e))];
    let broken = seq![
        Http1Event::<Q, Seq<u8>>::Sent(Ok(())),
        Http1Event::Head(Some(Err(e))),
    ];
    let ended = seq![Http1Event::<Q, Seq<u8>>::Sent(Ok(())), Http1Event::Head(None)];
    assert(unsent.drop_last() =~= Seq::empty());
    assert(broken.drop_last().drop_last() =~= Seq::empty());
    assert(ended.drop_last().drop_last() =~= Seq::empty());
    reveal_with_fuel(http1_run, 3);
}

/// What an exchange asks for goes with what it waits for: to read a head where a head is
/// due and nowhere else, to read the body where a body is due and nowhere else, and to
/// give back the reply where the exchange is over and nowhere else.
pub proof fn law_http1_action_goes_with_state<Q, S>(
    outset: Http1Outset,
    events: Seq<Http1Event<Q, Seq<u8>>>,
)
    requires
        http1_run::<Q, S>(outset, events).valid,
    ensures
        ({
            let run = http1_run::<Q, S>(outset, events);
            &&& run.actions.len() == events.len()
            &&& run.state is AwaitingSent <==> events.len() == 0
            &&& events.len() > 0 ==> {
                &&& run.actions.last() is ReadHead <==> run.state is AwaitingHead
                &&& run.actions.last() is ReadBody <==> run.state is AwaitingFixed
                    || run.state is AwaitingStream
                &&& run.actions.last() is Finish <==> run.state is Finished
            }
        }),
    decreases events.len(),
{
    if events.len() > 0 {
        law_http1_action_goes_with_state::<Q, S>(outset, events.drop_last());
    }
}

/// The one kind of event that an exchange takes next is the outcome of what it asked for
/// last: the request sent, at first; then a head where it asked for one, a piece of the
/// body where it asked for that, and none where it gave back its reply.
pub proof fn law_http1_takes_what_it_asked_for<Q, S>(
    outset: Http1Outset,
    events: Seq<Http1Event<Q, Seq<u8>>>,
    event: Http1Event<Q, Seq<u8>>,
)
    requires
        http1_run::<Q, S>(outset, events).valid,
    ensures
        ({
            let actions = http1_run::<Q, S>(outset, events).actions;
            http1_run::<Q, S>(outset, events.push(event)).valid == if events.len() == 0 {
                event is Sent
            } else {
                match actions.last() {
                    Http1Action::ReadHead => event is Head,
                    Http1Action::ReadBody => event is Data,
                    Http1Action::Finish { .. } => false,
                }
            }
        }),
{
    law_http1_action_goes_with_state::<Q, S>(outset, events);
    assert(events.push(event).drop_last() =~= events);
}

/// What was asked for stays asked for: the actions of an exchange begin with those that
/// it asked for before.
pub proof fn law_http1_actions_are_kept<Q, S>(
    outset: Http1Outset,
    events: Seq<Http1Event<Q, Seq<u8>>>,
    n: int,
)
    requires
        0 <= n <= events.len(),
    ensures
        http1_run::<Q, S>(outset, events.take(n)).actions.len() == n,
        http1_run::<Q, S>(outset, events.take(n)).actions == http1_run::<Q, S>(
            outset,
            events,
        ).actions.take(n),
    decreases events.len(),
{
    let actions = http1_run::<Q, S>(outset, events).actions;
    if events.len() > 0 {
        let init = events.drop_last();
        let before = http1_run::<Q, S>(outset, init).actions;
        law_http1_actions_are_kept::<Q, S>(outset, init, init.len() as int);
        assert(init.take(init.len() as int) =~= init);
        assert(actions.len() == events.len());
        if n < events.len() {
            law_http1_actions_are_kept::<Q, S>(outset, init, n);
            assert(init.take(n) =~= events.take(n));
            assert(before.take(n) =~= actions.take(n));
        }
    }
    if n == events.len() {
        assert(events.take(n) =~= events);
        assert(actions.take(n) =~= actions);
    }
}

/// What an earlier request left has no influence: exchanges whose requests settle
/// their terms by the same method and headers, on connections of the same status, run
/// alike, whatever their marks said before.
pub proof fn law_http1_earlier_mark_has_no_influence<Q, S>(
    facts: RequestFacts,
    one: Http1Outset,
    other: Http1Outset,
    events: Seq<Http1Event<Q, Seq<u8>>>,
)
    requires
        one.terms.are_of(facts),
        other.terms.are_of(facts),
        one.using == other.using,
        one.open == other.open,
    ensures
        http1_run::<Q, S>(one, events) == http1_run::<Q, S>(other, events),
{
    lemma_mark_is_what_it_says(one.terms.mark, other.terms.mark);
}

/// One of the exchanges that follow one another on a connection.
pub struct Http1Exchange<Q> {
    /// What its request settles.
    pub terms: Http1Terms,
    /// Its steps.
    pub events: Seq<Http1Event<Q, Seq<u8>>>,
}

/// Whether a connection is open after a row of exchanges, where `open` tells whether
/// it was before.
pub open spec fn http1_open_after<Q, S>(
    using: bool,
    open: bool,
    row: Seq<Http1Exchange<Q>>,
) -> bool
    decreases row.len(),
{
    if row.len() == 0 {
        open
    } else {
        let outset = Http1Outset {
            terms: row.last().terms,
            using,
            open: http1_open_after::<Q, S>(using, open, row.drop_last()),
        };
        http1_run::<Q, S>(outset, row.last().events).open
    }
}

/// Where the exchange `i` of a row of exchanges on one connection stands after its
/// steps.
pub open spec fn http1_run_in_row<Q, S>(
    using: bool,
    open: bool,
    row: Seq<Http1Exchange<Q>>,
    i: int,
) -> Http1Run<Q, S> {
    let outset = Http1Outset {
        terms: row[i].terms,
        using,
        open: http1_open_after::<Q, S>(using, open, row.take(i)),
    };
    http1_run::<Q, S>(outset, row[i].events)
}

/// A connection that is closed stays closed for good: if it is closed after the first
/// `n` exchanges of a row, it is closed in and after the exchange `i` and every other
/// that follows, and none of them says that it can be reused.
pub proof fn law_http1_closed_for_good<Q, S>(
    using: bool,
    open: bool,
    row: Seq<Http1Exchange<Q>>,
    n: int,
    i: int,
)
    requires
        0 <= n <= i < row.len(),
        !http1_open_after::<Q, S>(using, open, row.take(n)),
        http1_run_in_row::<Q, S>(using, open, row, i).valid,
    ensures
        !http1_open_after::<Q, S>(using, open, row.take(i)),
        !http1_open_after::<Q, S>(using, open, row.take(i + 1)),
        !http1_run_in_row::<Q, S>(using, open, row, i).open,
        http1_run_in_row::<Q, S>(using, open, row, i).reply matches Some(reply)
            ==> !reply.reusable,
{
    lemma_http1_stays_closed::<Q, S>(using, open, row, n, i);
    lemma_http1_stays_closed::<Q, S>(using, open, row, n, i + 1);
    let outset = Http1Outset { terms: row[i].terms, using, open: false };
    lemma_http1_under_way::<Q, S>(outset, row[i].events);
}

proof fn lemma_http1_never_opens<Q, S>(
    outset: Http1Outset,
    events: Seq<Http1Event<Q, Seq<u8>>>,
)
    requires
        !outset.open,
    ensures
        !http1_run::<Q, S>(outset, events).open,
    decreases events.len(),
{
    if events.len() > 0 {
        lemma_http1_never_opens::<Q, S>(outset, events.drop_last());
    }
}

proof fn lemma_http1_stays_closed<Q, S>(
    using: bool,
    open: bool,
    row: Seq<Http1Exchange<Q>>,
    n: int,
    i: int,
)
    requires
        0 <= n <= i <= row.len(),
        !http1_open_after::<Q, S>(using, open, row.take(n)),
    ensures
        !http1_open_after::<Q, S>(using, open, row.take(i)),
    decreases i,
{
    if n < i {
        lemma_http1_stays_closed::<Q, S>(using, open, row, n, i - 1);
        assert(row.take(i).drop_last() =~= row.take(i - 1));
        let outset = Http1Outset { terms: row[i - 1].terms, using, open: false };
        lemma_http1_never_opens::<Q, S>(outset, row[i - 1].events);
    }
}

/// One step of one of several exchanges.
pub struct Http1Turn<Q> {
    /// Which of the exchanges takes the step.
    pub who: int,
    /// What came of its last action.
    pub event: Http1Event<Q, Seq<u8>>,
}

/// Where several exchanges stand, each on a connection of its own, after steps that
/// they took in any order.
pub open spec fn http1_interleaved<Q, S>(
    outsets: Seq<Http1Outset>,
    turns: Seq<Http1Turn<Q>>,
) -> Seq<Http1Run<Q, S>>
    decreases turns.len(),
{
    if turns.len() == 0 {
        outsets.map_values(|outset: Http1Outset| http1_begun::<Q, S>(outset))
    } else {
        let before = http1_interleaved::<Q, S>(outsets, turns.drop_last());
        let turn = turns.last();
        before.update(turn.who, http1_advanced(before[turn.who], turn.event))
    }
}

/// The steps that one of several exchanges took.
pub open spec fn own_events<Q>(turns: Seq<Http1Turn<Q>>, who: int) -> Seq<Http1Event<Q, Seq<u8>>>
    decreases turns.len(),
{
    if turns.len() == 0 {
        Seq::empty()
    } else if turns.last().who == who {
        own_events(turns.drop_last(), who).push(turns.last().event)
    } else {
        own_events(turns.drop_last(), who)
    }
}

/// What comes of an exchange rests on its own request, its own connection and its
/// own steps alone: other exchanges, whatever their requests and in whatever order
/// the steps are taken, change nothing.
pub proof fn law_http1_exchanges_are_apart<Q, S>(
    outsets: Seq<Http1Outset>,
    turns: Seq<Http1Turn<Q>>,
    who: int,
)
    requires
        0 <= who < outsets.len(),
        forall|i: int|
            0 <= i < turns.len() ==> 0 <= (#[trigger] turns[i]).who < outsets.len(),
    ensures
        http1_interleaved::<Q, S>(outsets, turns).len() == outsets.len(),
        http1_interleaved::<Q, S>(outsets, turns)[who] == http1_run::<Q, S>(
            outsets[who],
            own_events(turns, who),
        ),
    decreases turns.len(),
{
    if turns.len() > 0 {
        let init = turns.drop_last();
        assert forall|i: int| 0 <= i < init.len() implies 0 <= (#[trigger] init[i]).who
            < outsets.len() by {
            assert(init[i] == turns[i]);
        }
        law_http1_exchanges_are_apart::<Q, S>(outsets, init, who);
        assert(turns[turns.len() - 1] == turns.last());
        if turns.last().who == who {
            assert(own_events(turns, who).drop_last() =~= own_events(init, who));
        }
    }
}

} // verus!
