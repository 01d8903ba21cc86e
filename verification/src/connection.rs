//! Connections of either protocol.

use crate::body::{HttpBody, Payload, ResponseContents};
use crate::head_request::names_head;
use crate::http1::{Http1Connection, Http1Event, Http1Start, Http1State};
use crate::http1_laws::{
    head_read, http1_interleaved, http1_run, is_whole_response, law_http1_exchanges_are_apart,
    law_http1_head_reply_has_no_body, law_http1_reply, law_http1_reuse, own_events, Http1Outset,
    Http1Turn,
};
use crate::http2::{Http2Action, Http2Connection, Http2Event, Http2Start, Http2State};
use crate::http2_laws::{http2_run, law_http2_reply};
use crate::message::{Request, RequestFacts};
use crate::persistence::{outlives, Http1Terms};
use crate::persistence_laws::{law_terms_are_of_a_request, names_option};
use crate::pool::Poolable;
use vstd::prelude::*;

verus! {

/// A connection that speaks HTTP/1.1 or HTTP/2, where `C` reads and writes the
/// messages of HTTP/1.1.
pub enum HttpConnection<C> {
    /// A connection of HTTP/1.1.
    Http1(Http1Connection<C>),
    /// A connection of HTTP/2.
    Http2(Http2Connection),
}

/// The start of an exchange over either protocol.
pub enum HttpStart<P, B, F, T, Q> {
    /// Over HTTP/1.1.
    Http1(Http1Start<Request<P, Payload<F, T>>, Q>),
    /// Over HTTP/2.
    Http2(Http2Start<P, B>),
}

impl<C> HttpConnection<C> {
    /// Starts an exchange with `request` by the protocol that the connection speaks.
    ///
    /// Over HTTP/1.1 the exchange has the terms that its own request settles, by what
    /// `facts_of` reads from its head. The body is turned by `into_body` into a body of
    /// either protocol; of these, only a body of HTTP/1.1 goes out. Over HTTP/2 the body
    /// is left as it is.
    pub fn send_request<P, B, F, T, S, Q, M, I>(
        &mut self,
        request: Request<P, B>,
        facts_of: M,
        into_body: I,
    ) -> (start: HttpStart<P, B, F, T, Q>) where
        M: FnOnce(&P) -> RequestFacts,
        I: FnOnce(B) -> HttpBody<F, T, S>,

        requires
            *old(self) is Http1 ==> call_requires(facts_of, (&request.parts,)),
            *old(self) is Http1 ==> call_requires(into_body, (request.body,)),
        ensures
            *final(self) == *old(self),
            *old(self) is Http1 ==> {
                &&& start matches HttpStart::Http1(start)
                &&& start.state matches Http1State::AwaitingSent(terms)
                &&& exists|facts: RequestFacts| #[trigger]
                    call_ensures(facts_of, (&request.parts,), facts) && terms.are_of(facts)
                &&& start.request.parts == request.parts
                &&& exists|body: HttpBody<F, T, S>| #[trigger]
                    call_ensures(into_body, (request.body,), body) && start.request.body
                        == body.h1_payload()
            },
            *old(self) is Http2 ==> {
                &&& start matches HttpStart::Http2(start)
                &&& start.state == Http2State::AwaitingReady(request.parts)
                &&& start.body == request.body
            },
    {
        match self {
            HttpConnection::Http1(conn) => {
                let facts = facts_of(&request.parts);
                let terms = Http1Terms::of(&facts);
                let Request { parts, body } = request;
                let payload = into_body(body).into_h1_payload();
                let request = Request { parts, body: payload };
                HttpStart::Http1(conn.send_reconstructed_request(request, terms))
            },
            HttpConnection::Http2(conn) => HttpStart::Http2(conn.send_request(request)),
        }
    }
}

impl<C> Poolable for HttpConnection<C> {
    fn is_open(&self) -> (open: bool)
        ensures
            *self matches HttpConnection::Http1(conn) ==> open == conn.available(),
            *self matches HttpConnection::Http2(conn) ==> conn.tx().can_answer(!open),
    {
        match self {
            HttpConnection::Http1(conn) => conn.is_open(),
            HttpConnection::Http2(conn) => conn.is_open(),
        }
    }
}

impl<C> From<Http1Connection<C>> for HttpConnection<C> {
    fn from(conn: Http1Connection<C>) -> (connection: Self) {
        HttpConnection::Http1(conn)
    }
}

impl<C> vstd::std_specs::convert::FromSpecImpl<Http1Connection<C>> for HttpConnection<C> {
    open spec fn obeys_from_spec() -> bool {
        true
    }

    open spec fn from_spec(conn: Http1Connection<C>) -> Self {
        HttpConnection::Http1(conn)
    }
}

impl<C> From<Http2Connection> for HttpConnection<C> {
    fn from(conn: Http2Connection) -> (connection: Self) {
        HttpConnection::Http2(conn)
    }
}

impl<C> vstd::std_specs::convert::FromSpecImpl<Http2Connection> for HttpConnection<C> {
    open spec fn obeys_from_spec() -> bool {
        true
    }

    open spec fn from_spec(conn: Http2Connection) -> Self {
        HttpConnection::Http2(conn)
    }
}

/// Over HTTP/1.1 the response to a `HEAD` request has no body, and none is read,
/// whatever its headers announce and whatever other exchanges are under way.
///
/// The exchange `who` is one of several, each on a connection of its own and marked
/// with its own method, which take their steps in any order.
pub proof fn law_head_request_gets_no_body<Q, S>(
    methods: Seq<Seq<char>>,
    outsets: Seq<Http1Outset>,
    turns: Seq<Http1Turn<Q>>,
    who: int,
)
    requires
        outsets.len() == methods.len(),
        forall|i: int|
            0 <= i < outsets.len() ==> (#[trigger] outsets[i]).terms.mark@ == names_head(
                methods[i],
            ),
        forall|i: int|
            0 <= i < turns.len() ==> 0 <= (#[trigger] turns[i]).who < outsets.len(),
        0 <= who < outsets.len(),
        names_head(methods[who]),
        http1_interleaved::<Q, S>(outsets, turns)[who].valid,
    ensures
        ({
            let run = http1_interleaved::<Q, S>(outsets, turns)[who];
            &&& own_events(turns, who).len() <= 2
            &&& own_events(turns, who).len() == 2 ==> run.reply is Some
            &&& run.reply matches Some(reply) ==> (reply.result matches Ok(response)
                ==> response.body == ResponseContents::<S>::H1(Payload::Empty))
        }),
{
    law_http1_exchanges_are_apart::<Q, S>(outsets, turns, who);
    law_http1_head_reply_has_no_body::<Q, S>(outsets[who], own_events(turns, who));
}

/// What an exchange says of its connection, whether it can be reused: over HTTP/1.1
/// it can if and only if a response came, its body was read as a whole, and the
/// connection can take a request and outlives the exchange; over HTTP/2 it can if and
/// only if a response came.
pub proof fn law_reuse<P, Q, S>(
    outset: Http1Outset,
    http1_events: Seq<Http1Event<Q, Seq<u8>>>,
    parts: P,
    http2_events: Seq<Http2Event<Q, S, Seq<u8>>>,
)
    requires
        http1_run::<Q, S>(outset, http1_events).valid,
        http1_run::<Q, S>(outset, http1_events).state is Finished,
        http2_run::<P, Q, S>(parts, http2_events).valid,
        http2_run::<P, Q, S>(parts, http2_events).state is Finished,
    ensures
        ({
            let run = http1_run::<Q, S>(outset, http1_events);
            run.reply matches Some(reply) && reply.reusable == (is_whole_response(reply.result)
                && run.open && !run.using && outlives(outset.terms, head_read(http1_events)))
        }),
        http2_run::<P, Q, S>(parts, http2_events).actions.last() matches Http2Action::Finish {
            result,
            reusable,
        } && reusable == (result is Ok),
{
    law_http1_reply::<Q, S>(outset, http1_events);
    law_http1_reuse::<Q, S>(outset, http1_events);
    law_http2_reply::<P, Q, S>(parts, http2_events);
}

/// Over HTTP/1.1 a request is sent with its own head, and with its body if that is a body
/// of HTTP/1.1, and without one otherwise. The exchange is that of a `HEAD` request if and
/// only if the method is `HEAD`, that of a tunnel if and only if it is `CONNECT`, and the
/// last on its connection if and only if a `Connection` header names `close`.
pub proof fn law_http1_request_is_sent<C, P, B, F, T, S, Q, M, I>(
    conn: &mut HttpConnection<C>,
    request: Request<P, B>,
    facts_of: M,
    into_body: I,
    start: HttpStart<P, B, F, T, Q>,
    facts: RequestFacts,
    body: HttpBody<F, T, S>,
) where M: FnOnce(&P) -> RequestFacts, I: FnOnce(B) -> HttpBody<F, T, S>
    requires
        *old(conn) is Http1,
        call_ensures(
            HttpConnection::<C>::send_request::<P, B, F, T, S, Q, M, I>,
            (conn, request, facts_of, into_body),
            start,
        ),
        forall|read: RequestFacts| #[trigger]
            call_ensures(facts_of, (&request.parts,), read) ==> read == facts,
        forall|made: HttpBody<F, T, S>| #[trigger]
            call_ensures(into_body, (request.body,), made) ==> made == body,
    ensures
        *final(conn) == *old(conn),
        start matches HttpStart::Http1(http1) && {
            &&& http1.request.parts == request.parts
            &&& http1.request.body == match body {
                HttpBody::H1(payload) => payload,
                HttpBody::H2(_) => Payload::Empty,
                HttpBody::Ready(_) => Payload::Empty,
            }
            &&& http1.state matches Http1State::AwaitingSent(terms)
            &&& terms.mark@ == (facts.method@ == "HEAD"@)
            &&& terms.tunnel == (facts.method@ == "CONNECT"@)
            &&& terms.last == names_option(facts.connection@, "close"@)
        },
{
    if let HttpStart::Http1(http1) = start {
        if let Http1State::AwaitingSent(terms) = http1.state {
            law_terms_are_of_a_request(facts, terms);
        }
    }
}

/// Over HTTP/2 a request is sent with its own head, and its body is left to be read.
pub proof fn law_http2_request_is_sent<C, P, B, F, T, S, Q, M, I>(
    conn: &mut HttpConnection<C>,
    request: Request<P, B>,
    facts_of: M,
    into_body: I,
    start: HttpStart<P, B, F, T, Q>,
) where M: FnOnce(&P) -> RequestFacts, I: FnOnce(B) -> HttpBody<F, T, S>
    requires
        *old(conn) is Http2,
        call_ensures(
            HttpConnection::<C>::send_request::<P, B, F, T, S, Q, M, I>,
            (conn, request, facts_of, into_body),
            start,
        ),
    ensures
        *final(conn) == *old(conn),
        start matches HttpStart::Http2(http2) && {
            &&& http2.state == Http2State::<P>::AwaitingReady(request.parts)
            &&& http2.body == request.body
        },
{
}

} // verus!
