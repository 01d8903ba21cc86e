//! Errors of an exchange.

use vstd::prelude::*;

verus! {

/// `monoio_http::common::error::HttpError`, carried through without a look inside.
#[verifier::external_type_specification]
#[verifier::external_body]
pub struct ExHttpError(monoio_http::common::error::HttpError);

/// Why an exchange gave no response.
#[derive(Debug)]
pub enum Error {
    /// The peer closed the connection where a response head was due.
    UnexpectedEof,
    /// Sending, receiving or decoding failed.
    Http(monoio_http::common::error::HttpError),
}

} // verus!
