//! What holds of lists of connection options, of the terms of an exchange, and of the
//! connections that outlive one.

use crate::body::{HttpBody, Payload, ResponseContents, StreamContents};
use crate::error::Error;
use crate::head_request::is_head_request;
use crate::http1::{Http1Action, Http1Event};
use crate::http1_laws::{
    has_read_head, head_read, http1_run, http1_streaming, law_http1_fixed_body_is_given_back,
    law_http1_no_body_is_read, law_http1_one_reply, law_http1_open_until_failure, law_http1_reply,
    law_http1_reuse, law_http1_streamed_body_is_whole, Http1Outset,
};
use crate::message::{PayloadDecoder, RequestFacts, Response, ResponseHead};
use crate::persistence::{
    begins_element, close_token, connection_outlives, ends_element, has_token, is_blank,
    keep_alive_token, lists_token, lower, only_blanks, outlives, says_close, says_keep_alive,
    stands_at, Http1Terms,
};
use monoio_http::common::error::HttpError;
use vstd::prelude::*;

verus! {

/// The list that is put together from two, with a comma between them.
spec fn joined_lists(one: Seq<u8>, other: Seq<u8>) -> Seq<u8> {
    one + seq![0x2cu8] + other
}

proof fn lemma_joined_lists_at(one: Seq<u8>, other: Seq<u8>)
    ensures
        joined_lists(one, other).len() == one.len() + 1 + other.len(),
        joined_lists(one, other)[one.len() as int] == 0x2c,
        forall|i: int| 0 <= i < one.len() ==> #[trigger] joined_lists(one, other)[i] == one[i],
        forall|i: int|
            one.len() < i < joined_lists(one, other).len() ==> #[trigger] joined_lists(
                one,
                other,
            )[i] == other[i - one.len() - 1],
{
}

proof fn lemma_only_blanks_moved(
    text: Seq<u8>,
    from: int,
    to: int,
    moved: Seq<u8>,
    offset: int,
)
    requires
        only_blanks(text, from, to),
        forall|i: int| from + offset <= i < to + offset ==> #[trigger] moved[i] == text[i - offset],
    ensures
        only_blanks(moved, from + offset, to + offset),
{
    assert forall|i: int| from + offset <= i < to + offset implies is_blank(
        #[trigger] moved[i],
    ) by {
        assert(is_blank(text[i - offset]));
    }
}

proof fn lemma_stands_at_moved(
    text: Seq<u8>,
    token: Seq<u8>,
    at: int,
    moved: Seq<u8>,
    offset: int,
)
    requires
        stands_at(text, token, at),
        0 <= at + offset,
        at + offset + token.len() <= moved.len(),
        forall|i: int|
            at + offset <= i < at + offset + token.len() ==> #[trigger] moved[i] == text[i
                - offset],
    ensures
        stands_at(moved, token, at + offset),
{
    assert forall|i: int| 0 <= i < token.len() implies lower(moved[at + offset + i])
        == #[trigger] token[i] by {
        assert(moved[at + offset + i] == text[at + i]);
    }
}

#[verifier::spinoff_prover]
proof fn lemma_token_of_one_in_joined(one: Seq<u8>, other: Seq<u8>, token: Seq<u8>)
    requires
        lists_token(one, token),
    ensures
        lists_token(joined_lists(one, other), token),
{
    let text = joined_lists(one, other);
    let n: int = one.len() as int;
    let len: int = token.len() as int;
    lemma_joined_lists_at(one, other);
    let at = choose|at: int| #[trigger]
        stands_at(one, token, at) && begins_element(one, at) && ends_element(one, at + len);
    let from = choose|from: int|
        0 <= from <= at && (from == 0 || one[from - 1] == 0x2c) && #[trigger] only_blanks(
            one,
            from,
            at,
        );
    let to = choose|to: int|
        at + len <= to <= one.len() && (to == one.len() || one[to] == 0x2c)
            && #[trigger] only_blanks(one, at + len, to);
    lemma_stands_at_moved(one, token, at, text, 0);
    lemma_only_blanks_moved(one, from, at, text, 0);
    lemma_only_blanks_moved(one, at + len, to, text, 0);
    assert(from > 0 ==> text[from - 1] == one[from - 1]);
    assert(text[to] == 0x2c);
    assert(begins_element(text, at));
    assert(ends_element(text, at + len));
}

#[verifier::spinoff_prover]
proof fn lemma_token_of_other_in_joined(one: Seq<u8>, other: Seq<u8>, token: Seq<u8>)
    requires
        lists_token(other, token),
    ensures
        lists_token(joined_lists(one, other), token),
{
    let text = joined_lists(one, other);
    let n: int = one.len() as int;
    let len: int = token.len() as int;
    lemma_joined_lists_at(one, other);
    let at = choose|at: int| #[trigger]
        stands_at(other, token, at) && begins_element(other, at) && ends_element(other, at + len);
    let from = choose|from: int|
        0 <= from <= at && (from == 0 || other[from - 1] == 0x2c) && #[trigger] only_blanks(
            other,
            from,
            at,
        );
    let to = choose|to: int|
        at + len <= to <= other.len() && (to == other.len() || other[to] == 0x2c)
            && #[trigger] only_blanks(other, at + len, to);
    lemma_stands_at_moved(other, token, at, text, n + 1);
    lemma_only_blanks_moved(other, from, at, text, n + 1);
    lemma_only_blanks_moved(other, at + len, to, text, n + 1);
    assert(text[from + (n + 1) - 1] == 0x2c);
    assert(to < other.len() ==> text[to + (n + 1)] == other[to]);
    assert(begins_element(text, at + (n + 1)));
    assert(ends_element(text, at + (n + 1) + len));
}

#[verifier::spinoff_prover]
proof fn lemma_token_in_either(one: Seq<u8>, other: Seq<u8>, token: Seq<u8>)
    requires
        lists_token(joined_lists(one, other), token),
        forall|i: int| 0 <= i < token.len() ==> #[trigger] token[i] != 0x2c,
    ensures
        lists_token(one, token) || lists_token(other, token),
{
    let text = joined_lists(one, other);
    let n: int = one.len() as int;
    let len: int = token.len() as int;
    lemma_joined_lists_at(one, other);
    let at = choose|at: int| #[trigger]
        stands_at(text, token, at) && begins_element(text, at) && ends_element(text, at + len);
    let from = choose|from: int|
        0 <= from <= at && (from == 0 || text[from - 1] == 0x2c) && #[trigger] only_blanks(
            text,
            from,
            at,
        );
    let to = choose|to: int|
        at + len <= to <= text.len() && (to == text.len() || text[to] == 0x2c)
            && #[trigger] only_blanks(text, at + len, to);
    if at + len <= n {
        if to > n {
            assert(is_blank(text[n]));
        }
        lemma_stands_at_moved(text, token, at, one, 0);
        lemma_only_blanks_moved(text, from, at, one, 0);
        lemma_only_blanks_moved(text, at + len, to, one, 0);
        assert(from > 0 ==> text[from - 1] == one[from - 1]);
        assert(to < n ==> text[to] == one[to]);
        assert(begins_element(one, at));
        assert(ends_element(one, at + len));
    } else {
        if at <= n {
            assert(lower(text[at + (n - at)]) == token[n - at]);
        }
        if from <= n {
            assert(is_blank(text[n]));
        }
        let offset = -n - 1;
        lemma_stands_at_moved(text, token, at, other, offset);
        lemma_only_blanks_moved(text, from, at, other, offset);
        lemma_only_blanks_moved(text, at + len, to, other, offset);
        assert(from + offset > 0 ==> other[from + offset - 1] == text[from - 1]);
        assert(to < text.len() ==> other[to + offset] == text[to]);
        assert(begins_element(other, at + offset));
        assert(ends_element(other, at + offset + len));
    }
}

proof fn lemma_token_in_joined_lists(one: Seq<u8>, other: Seq<u8>, token: Seq<u8>)
    requires
        forall|i: int| 0 <= i < token.len() ==> #[trigger] token[i] != 0x2c,
    ensures
        lists_token(one + seq![0x2cu8] + other, token) == (lists_token(one, token) || lists_token(
            other,
            token,
        )),
{
    if lists_token(joined_lists(one, other), token) {
        lemma_token_in_either(one, other, token);
    }
    if lists_token(one, token) {
        lemma_token_of_one_in_joined(one, other, token);
    }
    if lists_token(other, token) {
        lemma_token_of_other_in_joined(one, other, token);
    }
}

/// A list that is put together from two, with a comma between them, holds what either of
/// the two holds, and nothing else.
pub proof fn law_token_in_joined_lists(
    one: &[u8],
    other: &[u8],
    joined: &[u8],
    token: &[u8],
    in_one: bool,
    in_other: bool,
    in_joined: bool,
)
    requires
        joined@ == one@ + seq![0x2cu8] + other@,
        forall|i: int| 0 <= i < token@.len() ==> #[trigger] token@[i] != 0x2c,
        call_ensures(has_token, (one, token), in_one),
        call_ensures(has_token, (other, token), in_other),
        call_ensures(has_token, (joined, token), in_joined),
    ensures
        in_joined == (in_one || in_other),
{
    lemma_token_in_joined_lists(one@, other@, token@);
}

/// A list of one element, which may have blanks around it, holds a token if and only if
/// the element is the token, letter by letter, whether its letters are small or capital.
pub proof fn law_token_of_one_element(
    text: &[u8],
    left: Seq<u8>,
    word: Seq<u8>,
    right: Seq<u8>,
    token: &[u8],
    found: bool,
)
    requires
        text@ == left + word + right,
        forall|i: int| 0 <= i < left.len() ==> #[trigger] left[i] == 0x20 || left[i] == 0x09,
        forall|i: int| 0 <= i < right.len() ==> #[trigger] right[i] == 0x20 || right[i] == 0x09,
        forall|i: int| 0 <= i < word.len() ==> #[trigger] word[i] != 0x2c,
        word.len() > 0,
        word[0] != 0x20 && word[0] != 0x09,
        word.last() != 0x20 && word.last() != 0x09,
        token@.len() > 0,
        token@[0] != 0x20 && token@[0] != 0x09,
        token@.last() != 0x20 && token@.last() != 0x09,
        forall|i: int| 0 <= i < token@.len() ==> !(0x41 <= #[trigger] token@[i] <= 0x5a),
        call_ensures(has_token, (text, token), found),
    ensures
        found <==> word.len() == token@.len() && forall|i: int|
            0 <= i < word.len() ==> #[trigger] word[i] == token@[i] || (0x61 <= token@[i] <= 0x7a
                && word[i] == token@[i] - 0x20),
{
    let list = text@;
    let n: int = left.len() as int;
    let m: int = word.len() as int;
    let len: int = token@.len() as int;
    assert forall|i: int| 0 <= i < list.len() implies #[trigger] list[i] != 0x2c by {
        if i < n {
            assert(list[i] == left[i]);
        } else if i < n + m {
            assert(list[i] == word[i - n]);
        } else {
            assert(list[i] == right[i - n - m]);
        }
    }
    assert(list[n] == word[0]);
    assert(list[n + m - 1] == word.last());
    if found {
        let at = choose|at: int| #[trigger]
            stands_at(list, token@, at) && begins_element(list, at) && ends_element(list, at + len);
        let from = choose|from: int|
            0 <= from <= at && (from == 0 || list[from - 1] == 0x2c) && #[trigger] only_blanks(
                list,
                from,
                at,
            );
        let to = choose|to: int|
            at + len <= to <= list.len() && (to == list.len() || list[to] == 0x2c)
                && #[trigger] only_blanks(list, at + len, to);
        assert(from == 0 && to == list.len());
        assert(lower(list[at + 0]) == token@[0]);
        assert(lower(list[at + (len - 1)]) == token@[len - 1]);
        if at > n {
            assert(is_blank(list[n]));
        }
        if at < n {
            assert(list[at] == left[at]);
        }
        if at + len < n + m {
            assert(is_blank(list[n + m - 1]));
        }
        if at + len > n + m {
            assert(list[at + len - 1] == right[at + len - 1 - n - m]);
        }
        assert(at == n && len == m);
        assert forall|i: int| 0 <= i < m implies #[trigger] word[i] == token@[i] || (0x61
            <= token@[i] <= 0x7a && word[i] == token@[i] - 0x20) by {
            assert(list[at + i] == word[i]);
            assert(lower(list[at + i]) == token@[i]);
        }
    }
    if word.len() == token@.len() && forall|i: int|
        0 <= i < word.len() ==> #[trigger] word[i] == token@[i] || (0x61 <= token@[i] <= 0x7a
            && word[i] == token@[i] - 0x20) {
        assert forall|i: int| 0 <= i < len implies lower(list[n + i]) == #[trigger] token@[i] by {
            assert(list[n + i] == word[i]);
        }
        assert(stands_at(list, token@, n));
        assert forall|i: int| 0 <= i < n implies is_blank(#[trigger] list[i]) by {
            assert(list[i] == left[i]);
        }
        assert(only_blanks(list, 0, n));
        assert forall|i: int| n + m <= i < list.len() implies is_blank(#[trigger] list[i]) by {
            assert(list[i] == right[i - n - m]);
        }
        assert(only_blanks(list, n + len, list.len() as int));
    }
}

/// A list of blanks alone holds no token.
pub proof fn law_no_token_in_blanks(text: &[u8], token: &[u8], found: bool)
    requires
        forall|i: int| 0 <= i < text@.len() ==> #[trigger] text@[i] == 0x20 || text@[i] == 0x09,
        token@.len() > 0,
        token@[0] != 0x20 && token@[0] != 0x09,
        call_ensures(has_token, (text, token), found),
    ensures
        !found,
{
    if found {
        let at = choose|at: int| #[trigger]
            stands_at(text@, token@, at) && begins_element(text@, at) && ends_element(
                text@,
                at + token@.len(),
            );
        assert(lower(text@[at + 0]) == token@[0]);
        assert(text@[at] == 0x20 || text@[at] == 0x09);
    }
}

/// The bytes of `text`, which is in ASCII.
pub open spec fn ascii(text: Seq<char>) -> Seq<u8> {
    text.map_values(|c: char| c as u8)
}

/// Whether one of the header values `values` names the connection option `option`.
pub open spec fn names_option(values: Seq<Vec<u8>>, option: Seq<char>) -> bool {
    exists|i: int| 0 <= i < values.len() && lists_token((#[trigger] values[i])@, ascii(option))
}

proof fn lemma_options()
    ensures
        ascii("close"@) == close_token(),
        ascii("keep-alive"@) == keep_alive_token(),
{
    reveal_strlit("close");
    reveal_strlit("keep-alive");
    assert(ascii("close"@) =~= close_token());
    assert(ascii("keep-alive"@) =~= keep_alive_token());
}

/// The options `close` and `keep-alive` are found if one of the values names them,
/// whichever it is, and otherwise not.
pub proof fn law_options_are_found(values: Vec<Vec<u8>>, close: bool, keep_alive: bool)
    requires
        call_ensures(says_close, (&values,), close),
        call_ensures(says_keep_alive, (&values,), keep_alive),
    ensures
        close == names_option(values@, "close"@),
        keep_alive == names_option(values@, "keep-alive"@),
{
    lemma_options();
}

/// What a request settles: that it is a `HEAD` request if and only if that is its method;
/// that it asks for a tunnel if and only if its method is `CONNECT`; and that it is the
/// last on its connection if and only if one of the values of its `Connection` headers
/// names `close`, whatever the method.
pub proof fn law_terms_of_a_request(facts: RequestFacts, terms: Http1Terms, is_head: bool)
    requires
        call_ensures(Http1Terms::of, (&facts,), terms),
        call_ensures(is_head_request, (&terms.mark,), is_head),
    ensures
        is_head == (facts.method@ == "HEAD"@),
        terms.mark@ == (facts.method@ == "HEAD"@),
        terms.tunnel == (facts.method@ == "CONNECT"@),
        terms.last == names_option(facts.connection@, "close"@),
{
    lemma_options();
}

/// What is said of terms that are those of a request, as [`law_terms_of_a_request`] has it
/// of terms that were read from one.
pub proof fn law_terms_are_of_a_request(facts: RequestFacts, terms: Http1Terms)
    ensures
        terms.are_of(facts) <==> {
            &&& terms.mark@ == (facts.method@ == "HEAD"@)
            &&& terms.tunnel == (facts.method@ == "CONNECT"@)
            &&& terms.last == names_option(facts.connection@, "close"@)
        },
{
    lemma_options();
}

/// A connection outlives an exchange unless there is a reason against it, and there are
/// these: the request or the response names `close`; the response is not a final one; a
/// tunnel was opened; the response is of HTTP/1.0, and does not name `keep-alive` or comes
/// in chunks; or it is not known where the response ends.
///
/// Where a response to a request other than `HEAD` ends is not known if it has a body that
/// its status forbids, both a length and chunks, or neither of them while its status does
/// not forbid a body.
pub proof fn law_reasons_to_end_a_connection<Q>(
    terms: Http1Terms,
    head: ResponseHead<Q>,
    kept: bool,
)
    requires
        call_ensures(connection_outlives::<Q>, (&terms, &head), kept),
    ensures
        kept == outlives(terms, head),
        !kept <==> {
            ||| terms.last
            ||| names_option(head.connection@, "close"@)
            ||| head.status < 200
            ||| terms.tunnel && 200 <= head.status <= 299
            ||| !head.http11 && !names_option(head.connection@, "keep-alive"@)
            ||| !head.http11 && head.decoder == PayloadDecoder::Streamed
            ||| !terms.mark@ && head.decoder != PayloadDecoder::Empty && (head.status == 204
                || head.status == 304)
            ||| !terms.mark@ && head.decoder == PayloadDecoder::Streamed && head.has_length
            ||| !terms.mark@ && head.decoder == PayloadDecoder::Empty && !head.has_length
                && head.status != 204 && head.status != 304
        },
{
    lemma_options();
}

/// To every method but `HEAD`, a response with a body in one piece, of any status, is given
/// back with that body: the head is read, then the body, and nothing else.
pub proof fn law_other_methods_get_the_fixed_body<Q, S>(
    facts: RequestFacts,
    outset: Http1Outset,
    head: ResponseHead<Q>,
    item: Option<Result<Seq<u8>, HttpError>>,
)
    requires
        call_ensures(Http1Terms::of, (&facts,), outset.terms),
        facts.method@ != "HEAD"@,
        head.decoder == PayloadDecoder::Fixed,
    ensures
        ({
            let run = http1_run::<Q, S>(
                outset,
                seq![
                    Http1Event::Sent(Ok(())),
                    Http1Event::Head(Some(Ok(head))),
                    Http1Event::Data(item),
                ],
            );
            &&& run.valid
            &&& run.actions.len() == 3
            &&& run.actions[0] is ReadHead
            &&& run.actions[1] is ReadBody
            &&& run.actions[2] matches Http1Action::Finish { result: Ok(response), .. }
            &&& response.parts == head.parts
            &&& response.body == ResponseContents::<S>::H1(Payload::Fixed(item))
        }),
{
    law_http1_fixed_body_is_given_back::<Q, S>(outset, head, item);
}

/// To every method but `HEAD`, a response with a body in chunks, of any status, is given
/// back with all its chunks: the head is read, then the body up to its end, and nothing
/// else.
pub proof fn law_other_methods_get_the_streamed_body<Q, S>(
    facts: RequestFacts,
    outset: Http1Outset,
    head: ResponseHead<Q>,
    chunks: Seq<Seq<u8>>,
)
    requires
        call_ensures(Http1Terms::of, (&facts,), outset.terms),
        facts.method@ != "HEAD"@,
        head.decoder == PayloadDecoder::Streamed,
    ensures
        ({
            let run = http1_run::<Q, S>(
                outset,
                http1_streaming(head, chunks).push(Http1Event::Data(None)),
            );
            &&& run.valid
            &&& run.actions.len() == chunks.len() + 3
            &&& run.actions[0] is ReadHead
            &&& forall|i: int|
                1 <= i <= chunks.len() + 1 ==> (#[trigger] run.actions[i]) is ReadBody
            &&& run.actions.last() matches Http1Action::Finish { result: Ok(response), .. }
            &&& response.parts == head.parts
            &&& response.body == ResponseContents::<S>::H1(
                Payload::Stream(StreamContents { chunks, ended: true }),
            )
        }),
{
    law_http1_streamed_body_is_whole::<Q, S>(outset, head, chunks);
}

/// To the method `HEAD`, and to no other unless the head announces no body, a response is
/// given back as soon as its head is read, and without a body.
pub proof fn law_head_gets_no_body<Q, S>(
    facts: RequestFacts,
    outset: Http1Outset,
    head: ResponseHead<Q>,
)
    requires
        call_ensures(Http1Terms::of, (&facts,), outset.terms),
    ensures
        ({
            let run = http1_run::<Q, S>(
                outset,
                seq![Http1Event::Sent(Ok(())), Http1Event::Head(Some(Ok(head)))],
            );
            &&& run.valid
            &&& run.actions.len() == 2
            &&& run.actions[0] is ReadHead
            &&& run.actions[1] is Finish <==> facts.method@ == "HEAD"@ || head.decoder
                == PayloadDecoder::Empty
            &&& run.actions[1] is ReadBody <==> facts.method@ != "HEAD"@ && head.decoder
                != PayloadDecoder::Empty
            &&& run.actions[1] matches Http1Action::Finish { result, .. } ==> result == Ok::<
                Response<Q, ResponseContents<S>>,
                Error,
            >(Response { parts: head.parts, body: HttpBody::H1(Payload::Empty) })
        }),
{
    let events = seq![
        Http1Event::<Q, Seq<u8>>::Sent(Ok(())),
        Http1Event::Head(Some(Ok(head))),
    ];
    if outset.terms.mark@ || head.decoder is Empty {
        law_http1_no_body_is_read::<Q, S>(outset, head);
    } else {
        assert(events.drop_last().drop_last() =~= Seq::empty());
        reveal_with_fuel(http1_run, 3);
    }
}

/// A request that names `close` in one of its `Connection` headers, whatever its method, is
/// the last on its connection: no reply of the exchange that it starts says that the
/// connection can be reused.
pub proof fn law_close_in_the_request_ends_the_connection<Q, S>(
    facts: RequestFacts,
    outset: Http1Outset,
    events: Seq<Http1Event<Q, Seq<u8>>>,
)
    requires
        call_ensures(Http1Terms::of, (&facts,), outset.terms),
        names_option(facts.connection@, "close"@),
        http1_run::<Q, S>(outset, events).valid,
    ensures
        outset.terms.last,
        http1_run::<Q, S>(outset, events).reply matches Some(reply) ==> !reply.reusable,
        forall|i: int|
            0 <= i < http1_run::<Q, S>(outset, events).actions.len() ==> ((
            #[trigger] http1_run::<Q, S>(outset, events).actions[i]) matches Http1Action::Finish {
                reusable,
                ..
            } ==> !reusable),
    decreases events.len(),
{
    lemma_options();
    law_http1_reuse::<Q, S>(outset, events);
    if events.len() > 0 {
        let actions = http1_run::<Q, S>(outset, events).actions;
        let before = http1_run::<Q, S>(outset, events.drop_last()).actions;
        law_close_in_the_request_ends_the_connection::<Q, S>(facts, outset, events.drop_last());
        assert(actions.drop_last() =~= before);
        assert forall|i: int| 0 <= i < actions.len() implies ((
        #[trigger] actions[i]) matches Http1Action::Finish { reusable, .. } ==> !reusable) by {
            if i < before.len() {
                assert(actions[i] == before[i]);
            }
        }
    }
}

/// What a reply says of the connection, by the request and the head of the response: it can
/// be reused if it was open and not in use, a response came with all of its body, and
/// nothing speaks against it; and otherwise not.
pub proof fn law_reuse_by_the_heads<Q, S>(
    facts: RequestFacts,
    outset: Http1Outset,
    events: Seq<Http1Event<Q, Seq<u8>>>,
)
    requires
        call_ensures(Http1Terms::of, (&facts,), outset.terms),
        http1_run::<Q, S>(outset, events).valid,
        http1_run::<Q, S>(outset, events).reply is Some,
    ensures
        http1_run::<Q, S>(outset, events).actions.last() matches Http1Action::Finish {
            result,
            reusable,
        } && reusable == {
            let head = head_read(events);
            let is_head = facts.method@ == "HEAD"@;
            &&& outset.open && !outset.using
            &&& result matches Ok(response)
            &&& response.body matches HttpBody::H1(payload)
            &&& payload matches Payload::Fixed(item) ==> (item matches Some(Ok(_)))
            &&& has_read_head(events)
            &&& !names_option(facts.connection@, "close"@)
            &&& !names_option(head.connection@, "close"@)
            &&& head.status >= 200
            &&& facts.method@ == "CONNECT"@ ==> head.status >= 300
            &&& !head.http11 ==> names_option(head.connection@, "keep-alive"@) && head.decoder
                != PayloadDecoder::Streamed
            &&& !is_head && (head.status == 204 || head.status == 304) ==> head.decoder
                == PayloadDecoder::Empty
            &&& !is_head && head.decoder == PayloadDecoder::Streamed ==> !head.has_length
            &&& !is_head && head.decoder == PayloadDecoder::Empty ==> head.has_length || head.status
                == 204 || head.status == 304
        },
{
    lemma_options();
    law_http1_reuse::<Q, S>(outset, events);
    law_http1_open_until_failure::<Q, S>(outset, events);
    law_http1_one_reply::<Q, S>(outset, events, events.len() as int);
    law_http1_reply::<Q, S>(outset, events);
}

} // verus!
