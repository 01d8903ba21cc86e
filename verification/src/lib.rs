//! Decisions of an HTTP client connection.
//!
//! A connection speaks either HTTP/1.1 or HTTP/2. This crate holds what such a
//! connection decides: which request it sends, what it reads next, which reply
//! it gives back, whether it stays open and whether it can be reused. The
//! reading and writing itself is left to the caller, who performs one action at
//! a time and hands its outcome back.

pub mod body;
pub mod call_laws;
pub mod connection;
pub mod error;
pub mod head_request;
pub mod http1;
pub mod http1_laws;
pub mod http2;
pub mod http2_laws;
pub mod message;
pub mod persistence;
pub mod persistence_laws;
pub mod pool;
