//! What a pool of connections asks of a connection.

use vstd::prelude::*;

verus! {

/// A connection that a pool can keep.
pub trait Poolable {
    /// Tells whether the connection can take a request.
    fn is_open(&self) -> bool;
}

} // verus!
