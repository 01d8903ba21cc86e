//! Whether a connection of HTTP/1.1 outlives an exchange, as its messages have it.

use crate::head_request::{
    is_head_method, is_head_request, names_head, set_head_request, HeadRequest,
};
use crate::message::{PayloadDecoder, RequestFacts, ResponseHead};
use vstd::prelude::*;

verus! {

/// Whether `byte` is a blank that may stand around an element of a list.
pub open spec fn is_blank(byte: u8) -> bool {
    byte == 0x20 || byte == 0x09
}

/// Whether blanks alone stand in `text` from `from` up to `to`.
pub open spec fn only_blanks(text: Seq<u8>, from: int, to: int) -> bool {
    forall|i: int| from <= i < to ==> is_blank(#[trigger] text[i])
}

/// Whether an element of the list `text` can begin at `at`: from the start of the
/// text, or from a comma, there are only blanks.
pub open spec fn begins_element(text: Seq<u8>, at: int) -> bool {
    exists|from: int|
        0 <= from <= at && (from == 0 || text[from - 1] == 0x2c) && #[trigger] only_blanks(
            text,
            from,
            at,
        )
}

/// Whether an element of the list `text` can end before `at`: up to the end of the
/// text, or up to a comma, there are only blanks.
pub open spec fn ends_element(text: Seq<u8>, at: int) -> bool {
    exists|to: int|
        at <= to <= text.len() && (to == text.len() || text[to] == 0x2c)
            && #[trigger] only_blanks(text, at, to)
}

/// A letter in lower case, or another byte as it is.
pub open spec fn lower(byte: u8) -> u8 {
    if 0x41 <= byte <= 0x5a {
        (byte + 0x20) as u8
    } else {
        byte
    }
}

/// Whether `token`, which is in lower case, stands in `text` at `at`, in any case.
pub open spec fn stands_at(text: Seq<u8>, token: Seq<u8>, at: int) -> bool {
    &&& 0 <= at
    &&& at + token.len() <= text.len()
    &&& forall|i: int| 0 <= i < token.len() ==> lower(text[at + i]) == #[trigger] token[i]
}

/// Whether `token`, which is in lower case, is an element of `text`, a list whose
/// elements are parted by commas, may have blanks around them, and count the same in
/// any case.
pub open spec fn lists_token(text: Seq<u8>, token: Seq<u8>) -> bool {
    exists|at: int| #[trigger]
        stands_at(text, token, at) && begins_element(text, at) && ends_element(
            text,
            at + token.len(),
        )
}

proof fn lemma_begins_element_after(text: Seq<u8>, at: int)
    requires
        0 <= at < text.len(),
    ensures
        begins_element(text, at + 1) == (text[at] == 0x2c || (is_blank(text[at])
            && begins_element(text, at))),
{
    if begins_element(text, at + 1) {
        let from = choose|from: int|
            0 <= from <= at + 1 && (from == 0 || text[from - 1] == 0x2c)
                && #[trigger] only_blanks(text, from, at + 1);
        if from <= at {
            assert(is_blank(text[at]));
            assert(only_blanks(text, from, at));
        }
    }
    if text[at] == 0x2c {
        assert(only_blanks(text, at + 1, at + 1));
    }
    if is_blank(text[at]) && begins_element(text, at) {
        let from = choose|from: int|
            0 <= from <= at && (from == 0 || text[from - 1] == 0x2c)
                && #[trigger] only_blanks(text, from, at);
        assert(only_blanks(text, from, at + 1));
    }
}

/// Tells whether an element of the list `text` can end before `at`.
fn is_end_of_element(text: &[u8], at: usize) -> (ends: bool)
    requires
        at <= text.len(),
    ensures
        ends == ends_element(text@, at as int),
{
    let mut to: usize = at;
    while to < text.len() && (text[to] == 0x20 || text[to] == 0x09)
        invariant
            at <= to <= text.len(),
            only_blanks(text@, at as int, to as int),
        decreases text.len() - to,
    {
        to += 1;
    }
    let ends = to == text.len() || text[to] == 0x2c;
    proof {
        if ends_element(text@, at as int) && !ends {
            let end = choose|end: int|
                at <= end <= text@.len() && (end == text@.len() || text@[end] == 0x2c)
                    && #[trigger] only_blanks(text@, at as int, end);
            if end > to {
                assert(is_blank(text@[to as int]));
            } else {
                assert(is_blank(text@[end]));
            }
        }
    }
    ends
}

/// Tells whether `token` stands in `text` at `at`, in any case.
fn is_standing_at(text: &[u8], token: &[u8], at: usize) -> (stands: bool)
    requires
        at <= text.len(),
    ensures
        stands == stands_at(text@, token@, at as int),
{
    if token.len() > text.len() - at {
        return false;
    }
    let mut i: usize = 0;
    while i < token.len()
        invariant
            at + token.len() <= text.len(),
            i <= token.len(),
            forall|j: int| 0 <= j < i ==> lower(text@[at + j]) == #[trigger] token@[j],
        decreases token.len() - i,
    {
        let byte: u8 = text[at + i];
        let lowered: u8 = if 0x41 <= byte && byte <= 0x5a {
            byte + 0x20
        } else {
            byte
        };
        if lowered != token[i] {
            assert(lower(text@[at + i]) != token@[i as int]);
            return false;
        }
        i += 1;
    }
    true
}

/// Tells whether `token`, which is in lower case, is an element of the list `text`.
pub fn has_token(text: &[u8], token: &[u8]) -> (found: bool)
    ensures
        found == lists_token(text@, token@),
{
    let mut at: usize = 0;
    let mut begins: bool = true;
    assert(only_blanks(text@, 0, 0));
    loop
        invariant
            at <= text.len(),
            begins == begins_element(text@, at as int),
            forall|i: int|
                0 <= i < at ==> !(#[trigger] stands_at(text@, token@, i) && begins_element(
                    text@,
                    i,
                ) && ends_element(text@, i + token@.len())),
        decreases text.len() - at,
    {
        if begins && is_standing_at(text, token, at) && is_end_of_element(text, at + token.len()) {
            assert(stands_at(text@, token@, at as int));
            return true;
        }
        if at == text.len() {
            return false;
        }
        proof {
            lemma_begins_element_after(text@, at as int);
        }
        begins = text[at] == 0x2c || ((text[at] == 0x20 || text[at] == 0x09) && begins);
        at += 1;
    }
}

/// The connection option `close`.
pub open spec fn close_token() -> Seq<u8> {
    seq![0x63u8, 0x6c, 0x6f, 0x73, 0x65]
}

/// The connection option `keep-alive`.
pub open spec fn keep_alive_token() -> Seq<u8> {
    seq![0x6bu8, 0x65, 0x65, 0x70, 0x2d, 0x61, 0x6c, 0x69, 0x76, 0x65]
}

/// Whether one of the header values `values` lists `token`.
pub open spec fn says(values: Seq<Vec<u8>>, token: Seq<u8>) -> bool {
    exists|i: int| 0 <= i < values.len() && lists_token((#[trigger] values[i])@, token)
}

/// Tells whether one of the header values `values` lists `token`, which is in lower
/// case.
fn is_said(values: &Vec<Vec<u8>>, token: &[u8]) -> (said: bool)
    ensures
        said == says(values@, token@),
{
    let mut i: usize = 0;
    while i < values.len()
        invariant
            i <= values.len(),
            forall|j: int| 0 <= j < i ==> !lists_token((#[trigger] values@[j])@, token@),
        decreases values.len() - i,
    {
        if has_token(values[i].as_slice(), token) {
            return true;
        }
        i += 1;
    }
    false
}

/// Tells whether the values of the `Connection` headers hold the option `close`.
pub fn says_close(values: &Vec<Vec<u8>>) -> (said: bool)
    ensures
        said == says(values@, close_token()),
{
    let token: [u8; 5] = [0x63, 0x6c, 0x6f, 0x73, 0x65];
    assert(token@ =~= close_token());
    is_said(values, token.as_slice())
}

/// Tells whether the values of the `Connection` headers hold the option
/// `keep-alive`.
pub fn says_keep_alive(values: &Vec<Vec<u8>>) -> (said: bool)
    ensures
        said == says(values@, keep_alive_token()),
{
    let token: [u8; 10] = [0x6b, 0x65, 0x65, 0x70, 0x2d, 0x61, 0x6c, 0x69, 0x76, 0x65];
    assert(token@ =~= keep_alive_token());
    is_said(values, token.as_slice())
}

/// What a request settles for its exchange over HTTP/1.1.
#[derive(Debug)]
pub struct Http1Terms {
    /// Whether it is a `HEAD` request.
    pub mark: HeadRequest,
    /// Whether it is a `CONNECT` request, which asks for a tunnel.
    pub tunnel: bool,
    /// Whether it asks to close the connection after the exchange.
    pub last: bool,
}

impl Http1Terms {
    /// Whether these are the terms of a request of which `facts` hold.
    pub open spec fn are_of(self, facts: RequestFacts) -> bool {
        &&& self.mark@ == names_head(facts.method@)
        &&& self.tunnel == (facts.method@ == "CONNECT"@)
        &&& self.last == says(facts.connection@, close_token())
    }

    /// The terms of a request of which `facts` hold.
    pub fn of(facts: &RequestFacts) -> (terms: Self)
        ensures
            terms.are_of(*facts),
    {
        let mut mark = HeadRequest::new();
        set_head_request(&mut mark, is_head_method(facts.method.as_str()));
        let tunnel = facts.method.eq(&"CONNECT".to_owned());
        Http1Terms { mark, tunnel, last: says_close(&facts.connection) }
    }
}

/// Whether the end of a response is known from its head and body alone, and the body
/// was read up to that end and no further.
///
/// No body follows the head of a response to a `HEAD` request, and none that of a
/// response with status 204 or 304. Elsewhere there is to be a length, which may be
/// zero, or chunks, but not both; without either the body runs to the end of the
/// connection.
pub open spec fn is_delimited<Q>(is_head: bool, head: ResponseHead<Q>) -> bool {
    let bare = head.status == 204 || head.status == 304;
    is_head || match head.decoder {
        PayloadDecoder::Empty => bare || head.has_length,
        PayloadDecoder::Fixed => !bare,
        PayloadDecoder::Streamed => !bare && !head.has_length,
    }
}

/// Whether a connection outlives an exchange in which a request with `terms` is
/// answered with `head`.
///
/// It does if the response is a final one, neither side asks to close, no tunnel is
/// opened, the version keeps connections or is made to by `keep-alive`, and the end of
/// the response is known. HTTP/1.0 knows no chunks.
pub open spec fn outlives<Q>(terms: Http1Terms, head: ResponseHead<Q>) -> bool {
    &&& head.status >= 200
    &&& !(terms.tunnel && head.status < 300)
    &&& !terms.last
    &&& !says(head.connection@, close_token())
    &&& head.http11 || (says(head.connection@, keep_alive_token()) && !(head.decoder is Streamed))
    &&& is_delimited(terms.mark@, head)
}

/// Tells whether a connection outlives an exchange in which a request with `terms` is
/// answered with `head`.
pub fn connection_outlives<Q>(terms: &Http1Terms, head: &ResponseHead<Q>) -> (kept: bool)
    ensures
        kept == outlives(*terms, *head),
{
    let bare = head.status == 204 || head.status == 304;
    let delimited = is_head_request(&terms.mark) || match head.decoder {
        PayloadDecoder::Empty => bare || head.has_length,
        PayloadDecoder::Fixed => !bare,
        PayloadDecoder::Streamed => !bare && !head.has_length,
    };
    let chunked = matches!(head.decoder, PayloadDecoder::Streamed);
    head.status >= 200 && !(terms.tunnel && head.status < 300) && !terms.last && !says_close(
        &head.connection,
    ) && (head.http11 || (says_keep_alive(&head.connection) && !chunked)) && delimited
}

} // verus!
