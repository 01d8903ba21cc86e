//! The mark that tells whether a request is a `HEAD` request.

use vstd::prelude::*;

verus! {

/// Whether the current request is a `HEAD` request.
///
/// Each exchange has a mark of its own, which its own request sets.
#[derive(Debug)]
pub struct HeadRequest {
    is_head: bool,
}

impl View for HeadRequest {
    type V = bool;

    closed spec fn view(&self) -> bool {
        self.is_head
    }
}

impl HeadRequest {
    /// The mark before the request is known.
    pub fn new() -> (mark: Self)
        ensures
            mark@ == false,
    {
        HeadRequest { is_head: false }
    }
}

/// Two marks that say the same are the same.
pub proof fn lemma_mark_is_what_it_says(one: HeadRequest, other: HeadRequest)
    requires
        one@ == other@,
    ensures
        one == other,
{
}

/// Sets whether the current request is a `HEAD` request.
pub fn set_head_request(mark: &mut HeadRequest, is_head: bool)
    ensures
        final(mark)@ == is_head,
{
    mark.is_head = is_head;
}

/// Tells whether the current request is a `HEAD` request.
pub fn is_head_request(mark: &HeadRequest) -> (is_head: bool)
    ensures
        is_head == mark@,
{
    mark.is_head
}

/// Whether `method` names the `HEAD` method.
pub open spec fn names_head(method: Seq<char>) -> bool {
    method == "HEAD"@
}

/// Tells whether `method` names the `HEAD` method.
///
/// Calls the comparison of `http::Method` with a string, on
/// `http::Method::HEAD`. The claim: it holds for the text `HEAD`, in capitals,
/// and for no other.
#[verifier::external_body]
pub(crate) fn is_head_method(method: &str) -> (is_head: bool)
    ensures
        is_head == names_head(method@),
{
    http::Method::HEAD == *method
}

} // verus!
