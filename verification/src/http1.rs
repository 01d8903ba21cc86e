//! Connections of HTTP/1.1.

use crate::body::{
    item_view, FixedContents, FixedPayload, FixedPayloadPair, HttpBody, Payload, ResponseBody,
    ResponseContents, StreamContents, StreamPayload, StreamPayloadPair,
};
use crate::error::Error;
use crate::head_request::is_head_request;
use crate::message::{PayloadDecoder, Response, ResponseHead};
use crate::persistence::{connection_outlives, outlives, Http1Terms};
use crate::pool::Poolable;
use bytes::Bytes;
use monoio_http::common::error::HttpError;
use vstd::pervasive::unreached;
use vstd::prelude::*;

verus! {

/// What an exchange over HTTP/1.1 waits for, where `T` is a body in chunks that is
/// being fed.
///
/// What the request settles belongs to the exchange, and is kept until the head of the
/// response is read. From then on it is kept whether the connection outlives the
/// exchange, as the heads have it.
pub enum Http1State<Q, T> {
    /// The request is going out.
    AwaitingSent(Http1Terms),
    /// The head of the response is due.
    AwaitingHead(Http1Terms),
    /// The body of the response is due, in one piece.
    AwaitingFixed {
        /// The head of the response.
        parts: Q,
        /// Whether the connection outlives the exchange.
        outlives: bool,
    },
    /// A chunk of the body is due, after those that came in.
    AwaitingStream {
        /// The head of the response.
        parts: Q,
        /// The chunks that came in.
        body: T,
        /// Whether the connection outlives the exchange.
        outlives: bool,
    },
    /// The reply was given.
    Finished,
}

/// What came of the action that an exchange over HTTP/1.1 asked for, where `D` is
/// a chunk of a body.
pub enum Http1Event<Q, D> {
    /// The request was sent and flushed.
    Sent(Result<(), HttpError>),
    /// The head of a response was read; `None` where the peer sent no more.
    Head(Option<Result<ResponseHead<Q>, HttpError>>),
    /// A piece of a body was read; `None` behind the last one.
    Data(Option<Result<D, HttpError>>),
}

/// What an exchange over HTTP/1.1 asks for next, where `A` is a response.
pub enum Http1Action<A> {
    /// Read the head of the response.
    ReadHead,
    /// Read the next piece of the body, as the head announced it.
    ReadBody,
    /// Give back the result, and whether the connection can be reused.
    Finish {
        /// The response, or why there is none.
        result: Result<A, Error>,
        /// Whether the connection can be reused.
        reusable: bool,
    },
}

/// The start of an exchange over HTTP/1.1.
pub struct Http1Start<R, Q> {
    /// The request to send and flush.
    pub request: R,
    /// What the exchange waits for.
    pub state: Http1State<Q, StreamPayloadPair>,
}

impl<Q> View for Http1State<Q, StreamPayloadPair> {
    type V = Http1State<Q, StreamContents>;

    open spec fn view(&self) -> Http1State<Q, StreamContents> {
        match self {
            Http1State::AwaitingSent(terms) => Http1State::AwaitingSent(*terms),
            Http1State::AwaitingHead(terms) => Http1State::AwaitingHead(*terms),
            Http1State::AwaitingFixed { parts, outlives } => Http1State::AwaitingFixed {
                parts: *parts,
                outlives: *outlives,
            },
            Http1State::AwaitingStream { parts, body, outlives } => Http1State::AwaitingStream {
                parts: *parts,
                body: body@,
                outlives: *outlives,
            },
            Http1State::Finished => Http1State::Finished,
        }
    }
}

impl<Q> View for Http1Event<Q, Bytes> {
    type V = Http1Event<Q, Seq<u8>>;

    open spec fn view(&self) -> Http1Event<Q, Seq<u8>> {
        match self {
            Http1Event::Sent(sent) => Http1Event::Sent(*sent),
            Http1Event::Head(head) => Http1Event::Head(*head),
            Http1Event::Data(item) => Http1Event::Data(item_view(*item)),
        }
    }
}

impl<Q, S> View for Http1Action<Response<Q, ResponseBody<S>>> {
    type V = Http1Action<Response<Q, ResponseContents<S>>>;

    open spec fn view(&self) -> Http1Action<Response<Q, ResponseContents<S>>> {
        match self {
            Http1Action::ReadHead => Http1Action::ReadHead,
            Http1Action::ReadBody => Http1Action::ReadBody,
            Http1Action::Finish { result: Ok(response), reusable } => Http1Action::Finish {
                result: Ok(response@),
                reusable: *reusable,
            },
            Http1Action::Finish { result: Err(e), reusable } => Http1Action::Finish {
                result: Err(*e),
                reusable: *reusable,
            },
        }
    }
}

impl<Q, T> Http1State<Q, T> {
    /// Whether `event` is of the kind that the exchange waits for.
    pub open spec fn awaits<D>(self, event: Http1Event<Q, D>) -> bool {
        match self {
            Http1State::AwaitingSent(_) => event is Sent,
            Http1State::AwaitingHead(_) => event is Head,
            Http1State::AwaitingFixed { .. } => event is Data,
            Http1State::AwaitingStream { .. } => event is Data,
            Http1State::Finished => false,
        }
    }

    /// Tells whether `event` is of the kind that the exchange waits for.
    pub fn is_awaiting<D>(&self, event: &Http1Event<Q, D>) -> (awaited: bool)
        ensures
            awaited == self.awaits(*event),
    {
        match (self, event) {
            (Http1State::AwaitingSent(_), Http1Event::Sent(_)) => true,
            (Http1State::AwaitingHead(_), Http1Event::Head(_)) => true,
            (Http1State::AwaitingFixed { .. }, Http1Event::Data(_)) => true,
            (Http1State::AwaitingStream { .. }, Http1Event::Data(_)) => true,
            _ => false,
        }
    }
}

/// The end of an exchange over HTTP/1.1 that failed.
pub open spec fn http1_failed<Q, S>(e: Error) -> (
    Http1State<Q, StreamContents>,
    Http1Action<Response<Q, ResponseContents<S>>>,
) {
    (Http1State::Finished, Http1Action::Finish { result: Err(e), reusable: false })
}

/// The end of an exchange over HTTP/1.1 that brought a response: the connection can
/// be reused if `kept` says that it is open, not in use and outlives the exchange, and
/// the body was read as a whole.
pub open spec fn http1_replied<Q, S>(
    parts: Q,
    payload: Payload<FixedContents, StreamContents>,
    kept: bool,
) -> (Http1State<Q, StreamContents>, Http1Action<Response<Q, ResponseContents<S>>>) {
    (
        Http1State::Finished,
        Http1Action::Finish {
            result: Ok(Response { parts, body: HttpBody::H1(payload) }),
            reusable: kept && payload.is_whole(),
        },
    )
}

/// What an exchange over HTTP/1.1 waits for after an event that it waited for,
/// and what it asks for then. `available` tells whether the connection can take a
/// request, unless the event closes it.
pub open spec fn http1_transition<Q, S>(
    state: Http1State<Q, StreamContents>,
    event: Http1Event<Q, Seq<u8>>,
    available: bool,
) -> (Http1State<Q, StreamContents>, Http1Action<Response<Q, ResponseContents<S>>>) {
    match (state, event) {
        (Http1State::AwaitingSent(terms), Http1Event::Sent(Ok(_))) => (
            Http1State::AwaitingHead(terms),
            Http1Action::ReadHead,
        ),
        (Http1State::AwaitingSent(_), Http1Event::Sent(Err(e))) => http1_failed(Error::Http(e)),
        (Http1State::AwaitingHead(_), Http1Event::Head(None)) => http1_failed(
            Error::UnexpectedEof,
        ),
        (Http1State::AwaitingHead(_), Http1Event::Head(Some(Err(e)))) => http1_failed(
            Error::Http(e),
        ),
        (Http1State::AwaitingHead(terms), Http1Event::Head(Some(Ok(head)))) => if terms.mark@
            || head.decoder is Empty {
            http1_replied(head.parts, Payload::Empty, available && outlives(terms, head))
        } else if head.decoder is Fixed {
            (
                Http1State::AwaitingFixed { parts: head.parts, outlives: outlives(terms, head) },
                Http1Action::ReadBody,
            )
        } else {
            (
                Http1State::AwaitingStream {
                    parts: head.parts,
                    body: StreamContents { chunks: Seq::empty(), ended: false },
                    outlives: outlives(terms, head),
                },
                Http1Action::ReadBody,
            )
        },
        (Http1State::AwaitingFixed { parts, outlives }, Http1Event::Data(item)) => http1_replied(
            parts,
            Payload::Fixed(item),
            available && outlives,
        ),
        (
            Http1State::AwaitingStream { parts, body, outlives },
            Http1Event::Data(Some(Ok(chunk))),
        ) => (
            Http1State::AwaitingStream {
                parts,
                body: StreamContents { chunks: body.chunks.push(chunk), ended: body.ended },
                outlives,
            },
            Http1Action::ReadBody,
        ),
        (Http1State::AwaitingStream { .. }, Http1Event::Data(Some(Err(e)))) => http1_failed(
            Error::Http(e),
        ),
        (Http1State::AwaitingStream { parts, body, outlives }, Http1Event::Data(None)) =>
            http1_replied(
            parts,
            Payload::Stream(StreamContents { chunks: body.chunks, ended: true }),
            available && outlives,
        ),
        _ => arbitrary(),
    }
}

/// Whether an action gives back an error.
pub open spec fn http1_fails<A>(action: Http1Action<A>) -> bool {
    action matches Http1Action::Finish { result, .. } && result is Err
}

/// Whether a connection of HTTP/1.1 is in use and open.
#[derive(Debug)]
pub struct Http1Status {
    using: bool,
    open: bool,
}

impl Http1Status {
    /// Whether a request is under way.
    pub closed spec fn using(self) -> bool {
        self.using
    }

    /// Whether no exchange has failed.
    pub closed spec fn open(self) -> bool {
        self.open
    }

    /// Whether the connection can take a request.
    pub open spec fn available(self) -> bool {
        self.open() && !self.using()
    }

    /// Takes what came of the last action, and gives what the exchange waits for
    /// then and what it asks for next. A failed exchange closes the connection.
    pub fn step<Q, S>(
        &mut self,
        state: Http1State<Q, StreamPayloadPair>,
        event: Http1Event<Q, Bytes>,
    ) -> (next: (Http1State<Q, StreamPayloadPair>, Http1Action<Response<Q, ResponseBody<S>>>))
        requires
            state.awaits(event),
        ensures
            (next.0@, next.1@) == http1_transition::<Q, S>(state@, event@, old(self).available()),
            final(self).open() == (old(self).open() && !http1_fails(next.1)),
            final(self).using() == old(self).using(),
    {
        match (state, event) {
            (Http1State::AwaitingSent(terms), Http1Event::Sent(Ok(_))) => (
                Http1State::AwaitingHead(terms),
                Http1Action::ReadHead,
            ),
            (Http1State::AwaitingSent(_), Http1Event::Sent(Err(e))) => self.fail(Error::Http(e)),
            (Http1State::AwaitingHead(terms), Http1Event::Head(Some(Ok(head)))) => {
                let outlives = connection_outlives(&terms, &head);
                let is_head = is_head_request(&terms.mark);
                let ResponseHead { parts, decoder, .. } = head;
                match decoder {
                    PayloadDecoder::Empty => self.reply(parts, Payload::Empty, outlives, true),
                    PayloadDecoder::Fixed => {
                        if is_head {
                            self.reply(parts, Payload::Empty, outlives, true)
                        } else {
                            (Http1State::AwaitingFixed { parts, outlives }, Http1Action::ReadBody)
                        }
                    },
                    PayloadDecoder::Streamed => {
                        if is_head {
                            self.reply(parts, Payload::Empty, outlives, true)
                        } else {
                            let body = StreamPayloadPair::new();
                            (
                                Http1State::AwaitingStream { parts, body, outlives },
                                Http1Action::ReadBody,
                            )
                        }
                    },
                }
            },
            (Http1State::AwaitingHead(_), Http1Event::Head(Some(Err(e)))) => self.fail(
                Error::Http(e),
            ),
            (Http1State::AwaitingHead(_), Http1Event::Head(None)) => self.fail(
                Error::UnexpectedEof,
            ),
            (Http1State::AwaitingFixed { parts, outlives }, Http1Event::Data(item)) => {
                let pair = FixedPayloadPair::new();
                let whole = matches!(item, Some(Ok(_)));
                let body = match item {
                    Some(piece) => pair.feed(piece),
                    None => pair.leave(),
                };
                self.reply(parts, Payload::Fixed(body), outlives, whole)
            },
            (
                Http1State::AwaitingStream { parts, mut body, outlives },
                Http1Event::Data(item),
            ) => match item {
                Some(Ok(chunk)) => {
                    body.feed_data(Some(chunk));
                    (Http1State::AwaitingStream { parts, body, outlives }, Http1Action::ReadBody)
                },
                Some(Err(e)) => self.fail(Error::Http(e)),
                None => {
                    body.feed_data(None);
                    self.reply(parts, Payload::Stream(body.leave()), outlives, true)
                },
            },
            _ => unreached(),
        }
    }

    /// Ends an exchange that failed, and closes the connection.
    fn fail<Q, S>(&mut self, e: Error) -> (next: (
        Http1State<Q, StreamPayloadPair>,
        Http1Action<Response<Q, ResponseBody<S>>>,
    ))
        ensures
            (next.0@, next.1@) == http1_failed::<Q, S>(e),
            !final(self).open(),
            final(self).using() == old(self).using(),
    {
        self.open = false;
        (Http1State::Finished, Http1Action::Finish { result: Err(e), reusable: false })
    }

    /// Ends an exchange that brought a response, whose body was read as a whole if
    /// `whole` says so, and which the connection outlives if `outlives` says so.
    fn reply<Q, S>(
        &self,
        parts: Q,
        payload: Payload<FixedPayload, StreamPayload>,
        outlives: bool,
        whole: bool,
    ) -> (next: (Http1State<Q, StreamPayloadPair>, Http1Action<Response<Q, ResponseBody<S>>>))
        requires
            whole == payload@.is_whole(),
        ensures
            (next.0@, next.1@) == http1_replied::<Q, S>(
                parts,
                payload@,
                self.available() && outlives,
            ),
    {
        let response = Response { parts, body: HttpBody::H1(payload) };
        let reusable = self.open && !self.using && outlives && whole;
        (Http1State::Finished, Http1Action::Finish { result: Ok(response), reusable })
    }
}

/// A connection of HTTP/1.1, where `C` reads and writes its messages.
pub struct Http1Connection<C> {
    framed: C,
    status: Http1Status,
}

impl<C> Http1Connection<C> {
    /// What reads and writes the messages.
    pub closed spec fn framed(self) -> C {
        self.framed
    }

    /// Whether the connection is in use and open.
    pub closed spec fn status(self) -> Http1Status {
        self.status
    }

    /// Whether the connection can take a request.
    pub open spec fn available(self) -> bool {
        self.status().available()
    }

    /// A connection that is open and not in use.
    pub fn new(framed: C) -> (conn: Self)
        ensures
            conn.framed() == framed,
            conn.status().open(),
            !conn.status().using(),
    {
        Http1Connection { framed, status: Http1Status { using: false, open: true } }
    }

    /// Parts the connection into what reads and writes its messages and what an
    /// exchange needs to take its steps.
    pub fn split(&mut self) -> (halves: (&mut C, &mut Http1Status))
        ensures
            *halves.0 == old(self).framed(),
            *halves.1 == old(self).status(),
            final(self).framed() == *final(halves.0),
            final(self).status() == *final(halves.1),
    {
        (&mut self.framed, &mut self.status)
    }

    /// Starts an exchange with `request`, which settles `terms`.
    pub fn send_request<R, Q>(&mut self, request: R, terms: Http1Terms) -> (start: Http1Start<
        R,
        Q,
    >)
        ensures
            start.request == request,
            start.state == Http1State::<Q, StreamPayloadPair>::AwaitingSent(terms),
            *final(self) == *old(self),
    {
        Http1Start { request, state: Http1State::AwaitingSent(terms) }
    }

    /// Starts an exchange with a request that was put together from its parts, and which
    /// settles `terms`.
    pub fn send_reconstructed_request<R, Q>(&mut self, request: R, terms: Http1Terms) -> (start:
        Http1Start<R, Q>)
        ensures
            start.request == request,
            start.state == Http1State::<Q, StreamPayloadPair>::AwaitingSent(terms),
            *final(self) == *old(self),
    {
        Http1Start { request, state: Http1State::AwaitingSent(terms) }
    }
}

impl<C> Poolable for Http1Connection<C> {
    fn is_open(&self) -> (open: bool)
        ensures
            open == self.available(),
    {
        self.status.open && !self.status.using
    }
}

} // verus!
