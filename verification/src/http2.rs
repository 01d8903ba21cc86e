//! Connections of HTTP/2.

use crate::body::{
    bytes_contents, empty_bytes, item_view, HttpBody, ResponseBody, ResponseContents,
};
use crate::error::Error;
use crate::message::{Request, Response};
use crate::pool::Poolable;
use bytes::Bytes;
use monoio_http::common::error::HttpError;
use vstd::pervasive::unreached;
use vstd::prelude::*;

verus! {

/// What an exchange over HTTP/2 waits for.
pub enum Http2State<P> {
    /// The connection is to take a further stream.
    AwaitingReady(P),
    /// The head of the request is going out.
    AwaitingHeadSent,
    /// A chunk of the body of the request is due.
    AwaitingBody,
    /// A chunk of the body is going out.
    AwaitingDataSent {
        /// Whether it ends the stream.
        last: bool,
    },
    /// The response is due.
    AwaitingResponse,
    /// The reply was given.
    Finished,
}

/// What came of the action that an exchange over HTTP/2 asked for, where `S` is a
/// body of HTTP/2 and `D` a chunk of a body.
pub enum Http2Event<Q, S, D> {
    /// The connection takes a further stream.
    Ready(Result<(), HttpError>),
    /// The head of the request was sent.
    HeadSent(Result<(), HttpError>),
    /// A chunk of the body of the request was read; `None` behind the last one.
    Body(Option<Result<D, HttpError>>),
    /// A chunk of the body was sent.
    DataSent(Result<(), HttpError>),
    /// The response was read.
    Response(Result<Response<Q, S>, HttpError>),
}

/// What an exchange over HTTP/2 asks for next, where `D` is a chunk of a body and
/// `A` a response.
pub enum Http2Action<P, D, A> {
    /// Send the head of the request on a new stream.
    SendHead {
        /// The head of the request.
        request: Request<P, ()>,
        /// Whether it ends the stream.
        end_of_stream: bool,
    },
    /// Read the next chunk of the body of the request.
    ReadBody,
    /// Send a chunk of the body.
    SendData {
        /// The chunk.
        data: D,
        /// Whether it ends the stream.
        end_of_stream: bool,
    },
    /// Read the response.
    ReadResponse,
    /// Give back the result, and whether the connection can be reused.
    Finish {
        /// The response, or why there is none.
        result: Result<A, Error>,
        /// Whether the connection can be reused.
        reusable: bool,
    },
}

/// The start of an exchange over HTTP/2, which first waits until the connection
/// takes a further stream.
pub struct Http2Start<P, B> {
    /// The body of the request, to be read as the exchange asks for it.
    pub body: B,
    /// What the exchange waits for.
    pub state: Http2State<P>,
}

impl<Q, S> View for Http2Event<Q, S, Bytes> {
    type V = Http2Event<Q, S, Seq<u8>>;

    open spec fn view(&self) -> Http2Event<Q, S, Seq<u8>> {
        match self {
            Http2Event::Ready(ready) => Http2Event::Ready(*ready),
            Http2Event::HeadSent(sent) => Http2Event::HeadSent(*sent),
            Http2Event::Body(item) => Http2Event::Body(item_view(*item)),
            Http2Event::DataSent(sent) => Http2Event::DataSent(*sent),
            Http2Event::Response(response) => Http2Event::Response(*response),
        }
    }
}

impl<P, Q, S> View for Http2Action<P, Bytes, Response<Q, ResponseBody<S>>> {
    type V = Http2Action<P, Seq<u8>, Response<Q, ResponseContents<S>>>;

    open spec fn view(&self) -> Http2Action<P, Seq<u8>, Response<Q, ResponseContents<S>>> {
        match self {
            Http2Action::SendHead { request, end_of_stream } => Http2Action::SendHead {
                request: *request,
                end_of_stream: *end_of_stream,
            },
            Http2Action::ReadBody => Http2Action::ReadBody,
            Http2Action::SendData { data, end_of_stream } => Http2Action::SendData {
                data: bytes_contents(*data),
                end_of_stream: *end_of_stream,
            },
            Http2Action::ReadResponse => Http2Action::ReadResponse,
            Http2Action::Finish { result: Ok(response), reusable } => Http2Action::Finish {
                result: Ok(response@),
                reusable: *reusable,
            },
            Http2Action::Finish { result: Err(e), reusable } => Http2Action::Finish {
                result: Err(*e),
                reusable: *reusable,
            },
        }
    }
}

/// The end of an exchange over HTTP/2 that failed.
pub open spec fn http2_failed<P, Q, S>(e: HttpError) -> (
    Http2State<P>,
    Http2Action<P, Seq<u8>, Response<Q, ResponseContents<S>>>,
) {
    (Http2State::Finished, Http2Action::Finish { result: Err(Error::Http(e)), reusable: false })
}

/// What an exchange over HTTP/2 waits for after an event that it waited for, and
/// what it asks for then.
pub open spec fn http2_transition<P, Q, S>(
    state: Http2State<P>,
    event: Http2Event<Q, S, Seq<u8>>,
) -> (Http2State<P>, Http2Action<P, Seq<u8>, Response<Q, ResponseContents<S>>>) {
    match (state, event) {
        (Http2State::AwaitingReady(parts), Http2Event::Ready(Ok(_))) => (
            Http2State::AwaitingHeadSent,
            Http2Action::SendHead { request: Request { parts, body: () }, end_of_stream: false },
        ),
        (Http2State::AwaitingReady(_), Http2Event::Ready(Err(e))) => http2_failed(e),
        (Http2State::AwaitingHeadSent, Http2Event::HeadSent(Ok(_))) => (
            Http2State::AwaitingBody,
            Http2Action::ReadBody,
        ),
        (Http2State::AwaitingHeadSent, Http2Event::HeadSent(Err(e))) => http2_failed(e),
        (Http2State::AwaitingBody, Http2Event::Body(Some(Ok(data)))) => (
            Http2State::AwaitingDataSent { last: false },
            Http2Action::SendData { data, end_of_stream: false },
        ),
        (Http2State::AwaitingBody, Http2Event::Body(Some(Err(e)))) => http2_failed(e),
        (Http2State::AwaitingBody, Http2Event::Body(None)) => (
            Http2State::AwaitingDataSent { last: true },
            Http2Action::SendData { data: Seq::empty(), end_of_stream: true },
        ),
        (Http2State::AwaitingDataSent { last: true }, Http2Event::DataSent(_)) => (
            Http2State::AwaitingResponse,
            Http2Action::ReadResponse,
        ),
        (Http2State::AwaitingDataSent { last: false }, Http2Event::DataSent(Ok(_))) => (
            Http2State::AwaitingBody,
            Http2Action::ReadBody,
        ),
        (Http2State::AwaitingDataSent { last: false }, Http2Event::DataSent(Err(e))) =>
            http2_failed(e),
        (Http2State::AwaitingResponse, Http2Event::Response(Ok(response))) => (
            Http2State::Finished,
            Http2Action::Finish {
                result: Ok(
                    Response { parts: response.parts, body: HttpBody::H2(response.body) },
                ),
                reusable: true,
            },
        ),
        (Http2State::AwaitingResponse, Http2Event::Response(Err(e))) => http2_failed(e),
        _ => arbitrary(),
    }
}

impl<P> Http2State<P> {
    /// Whether `event` is of the kind that the exchange waits for.
    pub open spec fn awaits<Q, S, D>(self, event: Http2Event<Q, S, D>) -> bool {
        match self {
            Http2State::AwaitingReady(_) => event is Ready,
            Http2State::AwaitingHeadSent => event is HeadSent,
            Http2State::AwaitingBody => event is Body,
            Http2State::AwaitingDataSent { .. } => event is DataSent,
            Http2State::AwaitingResponse => event is Response,
            Http2State::Finished => false,
        }
    }

    /// Tells whether `event` is of the kind that the exchange waits for.
    pub fn is_awaiting<Q, S, D>(&self, event: &Http2Event<Q, S, D>) -> (awaited: bool)
        ensures
            awaited == self.awaits(*event),
    {
        match (self, event) {
            (Http2State::AwaitingReady(_), Http2Event::Ready(_)) => true,
            (Http2State::AwaitingHeadSent, Http2Event::HeadSent(_)) => true,
            (Http2State::AwaitingBody, Http2Event::Body(_)) => true,
            (Http2State::AwaitingDataSent { .. }, Http2Event::DataSent(_)) => true,
            (Http2State::AwaitingResponse, Http2Event::Response(_)) => true,
            _ => false,
        }
    }

    /// Takes what came of the last action, and gives what the exchange waits for
    /// then and what it asks for next.
    pub fn step<Q, S>(self, event: Http2Event<Q, S, Bytes>) -> (next: (
        Http2State<P>,
        Http2Action<P, Bytes, Response<Q, ResponseBody<S>>>,
    ))
        requires
            self.awaits(event),
        ensures
            (next.0, next.1@) == http2_transition::<P, Q, S>(self, event@),
    {
        match (self, event) {
            (Http2State::AwaitingReady(parts), Http2Event::Ready(ready)) => match ready {
                Ok(_) => {
                    let request = Request { parts, body: () };
                    let action = Http2Action::SendHead { request, end_of_stream: false };
                    (Http2State::AwaitingHeadSent, action)
                },
                Err(e) => Self::fail(e),
            },
            (Http2State::AwaitingHeadSent, Http2Event::HeadSent(sent)) => match sent {
                Ok(_) => (Http2State::AwaitingBody, Http2Action::ReadBody),
                Err(e) => Self::fail(e),
            },
            (Http2State::AwaitingBody, Http2Event::Body(item)) => match item {
                Some(Ok(data)) => {
                    let action = Http2Action::SendData { data, end_of_stream: false };
                    (Http2State::AwaitingDataSent { last: false }, action)
                },
                Some(Err(e)) => Self::fail(e),
                // The end of the stream is marked by an empty chunk.
                None => {
                    let data = empty_bytes();
                    let action = Http2Action::SendData { data, end_of_stream: true };
                    (Http2State::AwaitingDataSent { last: true }, action)
                },
            },
            (Http2State::AwaitingDataSent { last }, Http2Event::DataSent(sent)) => {
                if last {
                    (Http2State::AwaitingResponse, Http2Action::ReadResponse)
                } else {
                    match sent {
                        Ok(_) => (Http2State::AwaitingBody, Http2Action::ReadBody),
                        Err(e) => Self::fail(e),
                    }
                }
            },
            (Http2State::AwaitingResponse, Http2Event::Response(response)) => match response {
                Ok(response) => {
                    let Response { parts, body } = response;
                    let response = Response { parts, body: HttpBody::H2(body) };
                    let action = Http2Action::Finish { result: Ok(response), reusable: true };
                    (Http2State::Finished, action)
                },
                Err(e) => Self::fail(e),
            },
            _ => unreached(),
        }
    }

    /// Ends an exchange that failed.
    fn fail<Q, S>(e: HttpError) -> (next: (
        Http2State<P>,
        Http2Action<P, Bytes, Response<Q, ResponseBody<S>>>,
    ))
        ensures
            (next.0, next.1@) == http2_failed::<P, Q, S>(e),
    {
        let action = Http2Action::Finish { result: Err(Error::Http(e)), reusable: false };
        (Http2State::Finished, action)
    }
}

/// The handle through which requests enter a connection of HTTP/2.
///
/// It is opaque: the answers that it can give are all that is known of it.
#[verifier::external_body]
#[derive(Debug)]
pub struct RequestSender {
    /// The handle.
    pub inner: monoio_http::h2::client::SendRequest<Bytes>,
}

impl RequestSender {
    /// Whether the handle, asked whether an error broke the connection, can answer
    /// `has_error`.
    pub closed spec fn can_answer(self, has_error: bool) -> bool {
        call_ensures(RequestSender::has_conn_error, (&self,), has_error)
    }

    /// Whether the handle, asked for the error that broke the connection, can answer
    /// `e`.
    pub closed spec fn can_report(self, e: Option<HttpError>) -> bool {
        call_ensures(RequestSender::conn_error, (&self,), e)
    }

    /// Calls `monoio_http::h2::client::SendRequest::has_conn_error`. Nothing is
    /// claimed of the answer: the task that drives the connection can change it
    /// from one call to the next.
    #[verifier::external_body]
    fn has_conn_error(&self) -> (has_error: bool) {
        self.inner.has_conn_error()
    }

    /// Calls `monoio_http::h2::client::SendRequest::conn_error`. Nothing is
    /// claimed of the answer: the task that drives the connection can change it
    /// from one call to the next.
    #[verifier::external_body]
    fn conn_error(&self) -> (e: Option<HttpError>) {
        self.inner.conn_error()
    }
}

impl Clone for RequestSender {
    /// Calls `monoio_http::h2::client::SendRequest::clone`. The claim: the new handle
    /// leads to the same connection, so that it can give the answers that the old one
    /// can give, and no others. What waits to be opened on the old handle does not wait
    /// on the new one; nothing is claimed of that.
    #[verifier::external_body]
    fn clone(&self) -> (sender: Self)
        ensures
            forall|b: bool| #[trigger] sender.can_answer(b) == self.can_answer(b),
            forall|e: Option<HttpError>| #[trigger] sender.can_report(e) == self.can_report(e),
    {
        RequestSender { inner: self.inner.clone() }
    }
}

/// A connection of HTTP/2.
#[derive(Debug)]
pub struct Http2Connection {
    tx: RequestSender,
}

impl Clone for Http2Connection {
    fn clone(&self) -> (conn: Self)
        ensures
            vstd::pervasive::strictly_cloned(self.tx(), conn.tx()),
            forall|b: bool| #[trigger] conn.tx().can_answer(b) == self.tx().can_answer(b),
            forall|e: Option<HttpError>| #[trigger]
                conn.tx().can_report(e) == self.tx().can_report(e),
    {
        Http2Connection { tx: self.tx.clone() }
    }
}

impl Http2Connection {
    /// The handle through which requests enter the connection.
    pub closed spec fn tx(self) -> RequestSender {
        self.tx
    }

    /// A connection whose requests enter through `tx`.
    pub fn new(tx: RequestSender) -> (conn: Self)
        ensures
            conn.tx() == tx,
    {
        Http2Connection { tx }
    }

    /// A connection that shares the streams of this one.
    pub fn to_owned(&self) -> (conn: Self)
        ensures
            vstd::pervasive::strictly_cloned(self.tx(), conn.tx()),
            forall|b: bool| #[trigger] conn.tx().can_answer(b) == self.tx().can_answer(b),
            forall|e: Option<HttpError>| #[trigger]
                conn.tx().can_report(e) == self.tx().can_report(e),
    {
        Http2Connection { tx: self.tx.clone() }
    }

    /// Gives up the connection for the handle through which requests enter it.
    pub fn into_sender(self) -> (tx: RequestSender)
        ensures
            tx == self.tx(),
    {
        self.tx
    }

    /// The error that broke the connection, if one did.
    pub fn conn_error(&self) -> (e: Option<HttpError>)
        ensures
            self.tx().can_report(e),
    {
        self.tx.conn_error()
    }

    /// Starts an exchange with `request`.
    pub fn send_request<P, B>(&mut self, request: Request<P, B>) -> (start: Http2Start<P, B>)
        ensures
            start.state == Http2State::AwaitingReady(request.parts),
            start.body == request.body,
            *final(self) == *old(self),
    {
        let Request { parts, body } = request;
        Http2Start { body, state: Http2State::AwaitingReady(parts) }
    }
}

/// Tells whether a connection of HTTP/2 can take a request: it can unless an
/// error broke it.
pub fn is_open_unless(has_conn_error: bool) -> (open: bool)
    ensures
        open == !has_conn_error,
{
    !has_conn_error
}

impl Poolable for Http2Connection {
    fn is_open(&self) -> (open: bool)
        ensures
            self.tx().can_answer(!open),
    {
        is_open_unless(self.tx.has_conn_error())
    }
}

/// A connection of HTTP/2 says that it is open if and only if its handle answered that no
/// error broke it, and reports the error that its handle reports.
proof fn law_http2_connection_asks_its_handle(
    conn: Http2Connection,
    open: bool,
    e: Option<HttpError>,
)
    requires
        call_ensures(<Http2Connection as Poolable>::is_open, (&conn,), open),
        call_ensures(Http2Connection::conn_error, (&conn,), e),
    ensures
        call_ensures(RequestSender::has_conn_error, (&conn.tx,), !open),
        call_ensures(RequestSender::conn_error, (&conn.tx,), e),
        conn.tx().can_answer(!open),
        conn.tx().can_report(e),
{
}

} // verus!
