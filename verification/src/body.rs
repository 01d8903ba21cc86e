//! Bodies of requests and responses.

use bytes::Bytes;
use monoio_http::common::error::HttpError;
use vstd::prelude::*;

verus! {

/// `bytes::Bytes`, the chunks in which bodies travel.
#[verifier::external_type_specification]
#[verifier::external_body]
pub struct ExBytes(bytes::Bytes);

/// The bytes that a `bytes::Bytes` holds.
pub uninterp spec fn bytes_contents(data: Bytes) -> Seq<u8>;

/// Calls `bytes::Bytes::new`. The claim: what it gives holds no bytes.
#[verifier::external_body]
pub(crate) fn empty_bytes() -> (data: Bytes)
    ensures
        bytes_contents(data) == Seq::<u8>::empty(),
{
    Bytes::new()
}

/// What was read where a piece of a body was due, with the bytes of the piece.
pub open spec fn piece_view(piece: Result<Bytes, HttpError>) -> Result<Seq<u8>, HttpError> {
    match piece {
        Ok(data) => Ok(bytes_contents(data)),
        Err(e) => Err(e),
    }
}

/// As [`piece_view`], where the body may have ended instead.
pub open spec fn item_view(item: Option<Result<Bytes, HttpError>>) -> Option<
    Result<Seq<u8>, HttpError>,
> {
    match item {
        Some(piece) => Some(piece_view(piece)),
        None => None,
    }
}

/// A body that comes in one piece, as its reader takes it.
///
/// It is opaque: what was fed is all that is known of it.
#[verifier::external_body]
pub struct FixedPayload {
    /// The end for the reader.
    pub payload: monoio_http::h1::payload::FixedPayload<Bytes, HttpError>,
}

/// What was fed into a body that comes in one piece, if anything was.
pub uninterp spec fn fixed_item(payload: FixedPayload) -> Option<Result<Seq<u8>, HttpError>>;

/// What was fed into a body that comes in one piece.
pub type FixedContents = Option<Result<Seq<u8>, HttpError>>;

impl View for FixedPayload {
    type V = FixedContents;

    open spec fn view(&self) -> FixedContents {
        fixed_item(*self)
    }
}

/// A body that comes in one piece and was not fed yet: the end for its reader, and
/// the end that feeds it, which is used up by feeding.
///
/// It is opaque, and stays within the library until it is fed or left unfed.
#[verifier::external_body]
pub(crate) struct FixedPayloadPair {
    payload: monoio_http::h1::payload::FixedPayload<Bytes, HttpError>,
    sender: monoio_http::h1::payload::FixedPayloadSender<Bytes, HttpError>,
}

impl FixedPayloadPair {
    /// Calls `monoio_http::h1::payload::fixed_payload_pair`. Nothing is claimed of
    /// the two ends but that they are the two ends of one body.
    #[verifier::external_body]
    pub(crate) fn new() -> (pair: FixedPayloadPair) {
        let (payload, sender) = monoio_http::h1::payload::fixed_payload_pair();
        FixedPayloadPair { payload, sender }
    }

    /// Calls `monoio_http::h1::payload::FixedPayloadSender::feed`. The claim: the
    /// given piece, or the given error, was fed into the body.
    #[verifier::external_body]
    pub(crate) fn feed(self, piece: Result<Bytes, HttpError>) -> (body: FixedPayload)
        ensures
            fixed_item(body) == Some(piece_view(piece)),
    {
        let FixedPayloadPair { payload, sender } = self;
        sender.feed(piece);
        FixedPayload { payload }
    }

    /// Drops the `monoio_http::h1::payload::FixedPayloadSender`. The claim: nothing
    /// was fed into the body.
    #[verifier::external_body]
    pub(crate) fn leave(self) -> (body: FixedPayload)
        ensures
            fixed_item(body) is None,
    {
        let FixedPayloadPair { payload, sender } = self;
        drop(sender);
        FixedPayload { payload }
    }
}

/// A body that comes in chunks, as its reader takes it.
///
/// It is opaque: what was fed is all that is known of it.
#[verifier::external_body]
pub struct StreamPayload {
    /// The end for the reader.
    pub payload: monoio_http::h1::payload::StreamPayload<Bytes, HttpError>,
}

/// The chunks that were fed into a body that comes in chunks, in the order in which
/// they were fed.
pub uninterp spec fn stream_chunks(payload: StreamPayload) -> Seq<Seq<u8>>;

/// Whether the end of a body that comes in chunks was fed into it.
pub uninterp spec fn stream_ended(payload: StreamPayload) -> bool;

/// What was fed into a body that comes in chunks.
#[verifier::ext_equal]
pub struct StreamContents {
    /// The chunks, in the order in which they were fed.
    pub chunks: Seq<Seq<u8>>,
    /// Whether the end of the body was fed.
    pub ended: bool,
}

impl View for StreamPayload {
    type V = StreamContents;

    open spec fn view(&self) -> StreamContents {
        StreamContents { chunks: stream_chunks(*self), ended: stream_ended(*self) }
    }
}

/// A body that comes in chunks and is being fed: the end for its reader, and the end
/// that feeds it.
///
/// It is opaque, and neither end is given out while it is fed.
#[verifier::external_body]
pub struct StreamPayloadPair {
    payload: monoio_http::h1::payload::StreamPayload<Bytes, HttpError>,
    sender: monoio_http::h1::payload::StreamPayloadSender<Bytes, HttpError>,
}

/// The chunks that were fed so far into a body that is being fed, in the order in which
/// they were fed.
pub uninterp spec fn fed_chunks(pair: StreamPayloadPair) -> Seq<Seq<u8>>;

/// Whether the end was fed into a body that is being fed.
pub uninterp spec fn fed_end(pair: StreamPayloadPair) -> bool;

impl View for StreamPayloadPair {
    type V = StreamContents;

    open spec fn view(&self) -> StreamContents {
        StreamContents { chunks: fed_chunks(*self), ended: fed_end(*self) }
    }
}

impl StreamPayloadPair {
    /// Calls `monoio_http::h1::payload::stream_payload_pair`. The claim: neither a
    /// chunk nor the end of the body was fed.
    #[verifier::external_body]
    pub(crate) fn new() -> (pair: StreamPayloadPair)
        ensures
            fed_chunks(pair) == Seq::<Seq<u8>>::empty(),
            !fed_end(pair),
    {
        let (payload, sender) = monoio_http::h1::payload::stream_payload_pair();
        StreamPayloadPair { payload, sender }
    }

    /// Calls `monoio_http::h1::payload::StreamPayloadSender::feed_data`. The claim: a
    /// chunk is fed behind those that were fed before; in place of a chunk, `None` feeds
    /// the end of the body and leaves the chunks as they are.
    #[verifier::external_body]
    pub(crate) fn feed_data(&mut self, data: Option<Bytes>)
        ensures
            data matches Some(chunk) ==> fed_chunks(*final(self)) == fed_chunks(*old(self)).push(
                bytes_contents(chunk),
            ),
            data is None ==> fed_chunks(*final(self)) == fed_chunks(*old(self)),
            fed_end(*final(self)) == (fed_end(*old(self)) || data is None),
    {
        self.sender.feed_data(data)
    }

    /// Drops the `monoio_http::h1::payload::StreamPayloadSender`. The claim: what was fed
    /// into the body stays in it.
    #[verifier::external_body]
    pub(crate) fn leave(self) -> (body: StreamPayload)
        ensures
            stream_chunks(body) == fed_chunks(self),
            stream_ended(body) == fed_end(self),
    {
        let StreamPayloadPair { payload, sender } = self;
        drop(sender);
        StreamPayload { payload }
    }
}

/// A body as HTTP/1.1 carries it: none, one in one piece, or one in chunks.
pub enum Payload<F, T> {
    /// No body.
    Empty,
    /// A body in one piece.
    Fixed(F),
    /// A body in chunks.
    Stream(T),
}

impl View for Payload<FixedPayload, StreamPayload> {
    type V = Payload<FixedContents, StreamContents>;

    open spec fn view(&self) -> Payload<FixedContents, StreamContents> {
        match self {
            Payload::Empty => Payload::Empty,
            Payload::Fixed(body) => Payload::Fixed(body@),
            Payload::Stream(body) => Payload::Stream(body@),
        }
    }
}

impl Payload<FixedContents, StreamContents> {
    /// Whether what was announced of the body is there as a whole: nothing was, or its
    /// one piece was read, or its chunks were read up to its end.
    pub open spec fn is_whole(self) -> bool {
        match self {
            Payload::Empty => true,
            Payload::Fixed(item) => item matches Some(Ok(_)),
            Payload::Stream(body) => body.ended,
        }
    }
}

/// A body of either protocol, or one that is at hand as a whole.
pub enum HttpBody<F, T, S> {
    /// A body at hand.
    Ready(Option<Bytes>),
    /// A body of HTTP/1.1.
    H1(Payload<F, T>),
    /// A body of HTTP/2.
    H2(S),
}

/// The body of a response, where `S` is a body of HTTP/2.
pub type ResponseBody<S> = HttpBody<FixedPayload, StreamPayload, S>;

/// What the body of a response holds.
pub type ResponseContents<S> = HttpBody<FixedContents, StreamContents, S>;

impl<S> View for HttpBody<FixedPayload, StreamPayload, S> {
    type V = ResponseContents<S>;

    open spec fn view(&self) -> ResponseContents<S> {
        match self {
            HttpBody::Ready(data) => HttpBody::Ready(*data),
            HttpBody::H1(payload) => HttpBody::H1(payload@),
            HttpBody::H2(stream) => HttpBody::H2(*stream),
        }
    }
}

impl<F, T, S> HttpBody<F, T, S> {
    /// The body that a request carries over HTTP/1.1: a body of HTTP/1.1 as it
    /// is, and none in place of any other.
    pub open spec fn h1_payload(self) -> Payload<F, T> {
        match self {
            HttpBody::H1(payload) => payload,
            _ => Payload::Empty,
        }
    }

    /// Gives the body that a request carries over HTTP/1.1.
    pub fn into_h1_payload(self) -> (payload: Payload<F, T>)
        ensures
            payload == self.h1_payload(),
    {
        match self {
            HttpBody::H1(payload) => payload,
            HttpBody::H2(_) => Payload::Empty,
            HttpBody::Ready(_) => Payload::Empty,
        }
    }
}

} // verus!
