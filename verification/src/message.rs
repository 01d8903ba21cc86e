//! Requests and responses.

use crate::body::{ResponseBody, ResponseContents};
use vstd::prelude::*;

verus! {

/// A request: its head, and its body.
#[derive(Debug)]
pub struct Request<P, B> {
    /// Method, target, version and headers.
    pub parts: P,
    /// What goes out after the head.
    pub body: B,
}

/// A response: its head, and its body.
#[derive(Debug)]
pub struct Response<Q, B> {
    /// Status, version and headers.
    pub parts: Q,
    /// What came in after the head.
    pub body: B,
}

impl<Q, S> View for Response<Q, ResponseBody<S>> {
    type V = Response<Q, ResponseContents<S>>;

    open spec fn view(&self) -> Response<Q, ResponseContents<S>> {
        Response { parts: self.parts, body: self.body@ }
    }
}

/// How the headers of a response of HTTP/1.1 announce its body.
#[derive(Clone, Copy, Debug, PartialEq, Eq, Structural)]
pub enum PayloadDecoder {
    /// No body follows.
    Empty,
    /// A body of a given length follows.
    Fixed,
    /// A body in chunks follows.
    Streamed,
}

/// The head of a response of HTTP/1.1, as it was decoded.
#[derive(Debug)]
pub struct ResponseHead<Q> {
    /// Status, version and headers.
    pub parts: Q,
    /// How the body is announced.
    pub decoder: PayloadDecoder,
    /// The status code.
    pub status: u16,
    /// Whether the version is HTTP/1.1, and not HTTP/1.0.
    pub http11: bool,
    /// The values of the `Connection` headers.
    pub connection: Vec<Vec<u8>>,
    /// Whether there is a `Content-Length` header.
    pub has_length: bool,
}

/// What the head of a request says of its exchange.
#[derive(Debug)]
pub struct RequestFacts {
    /// The name of the method.
    pub method: String,
    /// The values of the `Connection` headers.
    pub connection: Vec<Vec<u8>>,
}

} // verus!
