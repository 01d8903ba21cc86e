use std::future::Future;
use std::sync::Arc;
use std::task::{Context, Poll, Wake, Waker};

use bytes::Bytes;
use http_connection::body::{HttpBody, Payload, ResponseBody, StreamPayloadPair};
use http_connection::error::Error;
use http_connection::head_request::{is_head_request, set_head_request, HeadRequest};
use http_connection::http1::{Http1Action, Http1Connection, Http1Event, Http1State};
use http_connection::message::{PayloadDecoder, RequestFacts, Response, ResponseHead};
use http_connection::persistence::Http1Terms;
use http_connection::pool::Poolable;
use monoio::io::stream::Stream;
use monoio_http::common::error::HttpError;
use monoio_http::h1::codec::decoder::DecodeError;

struct Idle;

impl Wake for Idle {
    fn wake(self: Arc<Self>) {}
}

/// Polls a future once.
fn poll_once<F: Future>(future: F) -> Poll<F::Output> {
    let waker = Waker::from(Arc::new(Idle));
    let mut context = Context::from_waker(&waker);
    Box::pin(future).as_mut().poll(&mut context)
}

type Conn = Http1Connection<&'static str>;
type State = Http1State<&'static str, StreamPayloadPair>;
type Event = Http1Event<&'static str, Bytes>;
type Action = Http1Action<Response<&'static str, ResponseBody<()>>>;
type Reply = (Result<Response<&'static str, ResponseBody<()>>, Error>, bool);

fn step(conn: &mut Conn, state: State, event: Event) -> (State, Action) {
    assert!(state.is_awaiting(&event));
    let (_, status) = conn.split();
    status.step(state, event)
}

fn head(decoder: PayloadDecoder) -> Event {
    Http1Event::Head(Some(Ok(ResponseHead {
        parts: "200 OK",
        decoder,
        status: 200,
        http11: true,
        connection: vec![],
        has_length: decoder != PayloadDecoder::Streamed,
    })))
}

fn chunk(data: &'static [u8]) -> Event {
    Http1Event::Data(Some(Ok(Bytes::from_static(data))))
}

fn chunked_error() -> HttpError {
    HttpError::H1DecodeError(DecodeError::Chunked)
}

/// Runs an exchange through to its reply.
fn run(conn: &mut Conn, terms: Http1Terms, events: Vec<Event>) -> Reply {
    let start = conn.send_request("/", terms);
    assert_eq!(start.request, "/");
    let mut state: State = start.state;
    let mut reply: Option<Reply> = None;
    for event in events {
        assert!(reply.is_none());
        let (next, action) = step(conn, state, event);
        state = next;
        if let Http1Action::Finish { result, reusable } = action {
            assert!(matches!(state, Http1State::Finished));
            reply = Some((result, reusable));
        }
    }
    reply.expect("the exchange is over")
}

/// The terms of a request that says nothing of its connection.
fn marked(is_head: bool) -> Http1Terms {
    let method: &str = if is_head { "HEAD" } else { "GET" };
    Http1Terms::of(&RequestFacts { method: method.to_string(), connection: vec![] })
}

/// What the mark of an exchange says whose request is going out.
fn mark_of(state: &State) -> bool {
    match state {
        Http1State::AwaitingSent(terms) => is_head_request(&terms.mark),
        _ => panic!("the request is going out"),
    }
}

fn assert_no_body(reply: Reply, expected: bool) {
    match reply {
        (Ok(Response { parts, body: HttpBody::H1(Payload::Empty) }), reusable) => {
            assert_eq!(parts, "200 OK");
            assert_eq!(reusable, expected);
        }
        _ => panic!("a response without a body was due"),
    }
}

#[test]
fn new_connection_is_open() {
    let mut conn: Conn = Http1Connection::new("codec");
    assert!(conn.is_open());
    let (framed, _) = conn.split();
    assert_eq!(*framed, "codec");
}

#[test]
fn split_lends_what_reads_and_writes() {
    let mut conn: Conn = Http1Connection::new("codec");
    {
        let (framed, _) = conn.split();
        *framed = "other codec";
    }
    let (framed, _) = conn.split();
    assert_eq!(*framed, "other codec");
    assert!(conn.is_open());
}

#[test]
fn mark_starts_unset_and_keeps_the_last_value() {
    let mut mark = HeadRequest::new();
    assert!(!is_head_request(&mark));
    set_head_request(&mut mark, true);
    assert!(is_head_request(&mark));
    assert!(is_head_request(&mark));
    set_head_request(&mut mark, false);
    assert!(!is_head_request(&mark));
}

#[test]
fn both_starts_send_the_request_as_it_is() {
    let mut conn: Conn = Http1Connection::new("codec");
    for is_head in [false, true] {
        let plain = conn.send_request::<_, &'static str>(7u8, marked(is_head));
        assert_eq!(plain.request, 7u8);
        assert_eq!(mark_of(&plain.state), is_head);
        let rebuilt = conn.send_reconstructed_request::<_, &'static str>(8u8, marked(is_head));
        assert_eq!(rebuilt.request, 8u8);
        assert_eq!(mark_of(&rebuilt.state), is_head);
    }
    assert!(conn.is_open());
}

#[test]
fn failure_to_send_closes_the_connection() {
    let mut conn: Conn = Http1Connection::new("codec");
    let reply = run(&mut conn, marked(false), vec![Http1Event::Sent(Err(chunked_error()))]);
    assert!(matches!(
        reply,
        (Err(Error::Http(HttpError::H1DecodeError(DecodeError::Chunked))), false)
    ));
    assert!(!conn.is_open());
}

#[test]
fn end_of_input_in_place_of_a_head_closes_the_connection() {
    let mut conn: Conn = Http1Connection::new("codec");
    let reply =
        run(&mut conn, marked(false), vec![Http1Event::Sent(Ok(())), Http1Event::Head(None)]);
    assert!(matches!(reply, (Err(Error::UnexpectedEof), false)));
    assert!(!conn.is_open());
}

#[test]
fn broken_head_closes_the_connection() {
    let mut conn: Conn = Http1Connection::new("codec");
    let broken = Http1Event::Head(Some(Err(HttpError::H1DecodeError(DecodeError::Header))));
    let reply = run(&mut conn, marked(false), vec![Http1Event::Sent(Ok(())), broken]);
    assert!(matches!(
        reply,
        (Err(Error::Http(HttpError::H1DecodeError(DecodeError::Header))), false)
    ));
    assert!(!conn.is_open());
}

#[test]
fn closed_connection_stays_closed_after_a_response() {
    let mut conn: Conn = Http1Connection::new("codec");
    run(&mut conn, marked(false), vec![Http1Event::Sent(Err(chunked_error()))]);
    let reply = run(
        &mut conn,
        marked(false),
        vec![Http1Event::Sent(Ok(())), head(PayloadDecoder::Empty)],
    );
    assert_no_body(reply, false);
    assert!(!conn.is_open());
}

#[test]
fn response_without_a_body() {
    let mut conn: Conn = Http1Connection::new("codec");
    for is_head in [false, true] {
        let reply = run(
            &mut conn,
            marked(is_head),
            vec![Http1Event::Sent(Ok(())), head(PayloadDecoder::Empty)],
        );
        assert_no_body(reply, true);
        assert!(conn.is_open());
    }
}

#[test]
fn head_request_gets_no_body_whatever_is_announced() {
    let mut conn: Conn = Http1Connection::new("codec");
    for decoder in [PayloadDecoder::Fixed, PayloadDecoder::Streamed] {
        let reply =
            run(&mut conn, marked(true), vec![Http1Event::Sent(Ok(())), head(decoder)]);
        assert_no_body(reply, true);
        assert!(conn.is_open());
    }
}

#[test]
fn exchanges_do_not_mix_up_their_marks() {
    let mut one: Conn = Http1Connection::new("one");
    let mut other: Conn = Http1Connection::new("other");
    let head_start = one.send_request("/", marked(true));
    let (asked, _) = step(&mut one, head_start.state, Http1Event::Sent(Ok(())));
    // Another request goes out before the response to the first is read.
    let get_start = other.send_request("/", marked(false));
    let (got, _) = step(&mut other, get_start.state, Http1Event::Sent(Ok(())));
    let (_, action) = step(&mut one, asked, head(PayloadDecoder::Fixed));
    assert!(matches!(
        action,
        Http1Action::Finish {
            result: Ok(Response { parts: "200 OK", body: HttpBody::H1(Payload::Empty) }),
            reusable: true,
        }
    ));
    let (_, action) = step(&mut other, got, head(PayloadDecoder::Fixed));
    assert!(matches!(action, Http1Action::ReadBody));
}

#[test]
fn fixed_body_is_handed_to_the_reader() {
    let mut conn: Conn = Http1Connection::new("codec");
    let events = vec![Http1Event::Sent(Ok(())), head(PayloadDecoder::Fixed), chunk(b"hello")];
    let (result, reusable) = run(&mut conn, marked(false), events);
    assert!(reusable);
    assert!(conn.is_open());
    let response = result.unwrap();
    assert_eq!(response.parts, "200 OK");
    let HttpBody::H1(Payload::Fixed(body)) = response.body else {
        panic!("a body in one piece was due")
    };
    let mut payload = body.payload;
    match poll_once(payload.next()) {
        Poll::Ready(Some(Ok(data))) => assert_eq!(data, Bytes::from_static(b"hello")),
        _ => panic!("the piece was due"),
    }
    assert!(matches!(poll_once(payload.next()), Poll::Ready(None)));
}

#[test]
fn fixed_body_that_fails_is_still_a_response() {
    let mut conn: Conn = Http1Connection::new("codec");
    let events = vec![
        Http1Event::Sent(Ok(())),
        head(PayloadDecoder::Fixed),
        Http1Event::Data(Some(Err(chunked_error()))),
    ];
    let (result, reusable) = run(&mut conn, marked(false), events);
    assert!(!reusable);
    assert!(conn.is_open());
    let HttpBody::H1(Payload::Fixed(body)) = result.unwrap().body else {
        panic!("a body in one piece was due")
    };
    let mut payload = body.payload;
    assert!(matches!(
        poll_once(payload.next()),
        Poll::Ready(Some(Err(HttpError::H1DecodeError(DecodeError::Chunked))))
    ));
}

#[test]
fn fixed_body_that_is_never_fed_keeps_its_reader_waiting() {
    let mut conn: Conn = Http1Connection::new("codec");
    let events =
        vec![Http1Event::Sent(Ok(())), head(PayloadDecoder::Fixed), Http1Event::Data(None)];
    let (result, reusable) = run(&mut conn, marked(false), events);
    assert!(!reusable);
    let HttpBody::H1(Payload::Fixed(body)) = result.unwrap().body else {
        panic!("a body in one piece was due")
    };
    let mut payload = body.payload;
    assert!(matches!(poll_once(payload.next()), Poll::Pending));
    assert!(conn.is_open());
}

#[test]
fn streamed_body_is_handed_to_the_reader_in_order() {
    let mut conn: Conn = Http1Connection::new("codec");
    let events = vec![
        Http1Event::Sent(Ok(())),
        head(PayloadDecoder::Streamed),
        chunk(b"one"),
        chunk(b""),
        chunk(b"two"),
        Http1Event::Data(None),
    ];
    let (result, reusable) = run(&mut conn, marked(false), events);
    assert!(reusable);
    assert!(conn.is_open());
    let response = result.unwrap();
    assert_eq!(response.parts, "200 OK");
    let HttpBody::H1(Payload::Stream(body)) = response.body else {
        panic!("a body in chunks was due")
    };
    let mut payload = body.payload;
    for expected in [&b"one"[..], &b""[..], &b"two"[..]] {
        match poll_once(payload.next()) {
            Poll::Ready(Some(Ok(data))) => assert_eq!(&data[..], expected),
            _ => panic!("a chunk was due"),
        }
    }
    assert!(matches!(poll_once(payload.next()), Poll::Ready(None)));
}

#[test]
fn streamed_body_without_chunks() {
    let mut conn: Conn = Http1Connection::new("codec");
    let events =
        vec![Http1Event::Sent(Ok(())), head(PayloadDecoder::Streamed), Http1Event::Data(None)];
    let (result, reusable) = run(&mut conn, marked(false), events);
    assert!(reusable);
    let HttpBody::H1(Payload::Stream(body)) = result.unwrap().body else {
        panic!("a body in chunks was due")
    };
    let mut payload = body.payload;
    assert!(matches!(poll_once(payload.next()), Poll::Ready(None)));
}

#[test]
fn broken_stream_fails_and_closes_the_connection() {
    let mut conn: Conn = Http1Connection::new("codec");
    let events = vec![
        Http1Event::Sent(Ok(())),
        head(PayloadDecoder::Streamed),
        chunk(b"one"),
        chunk(b"two"),
        Http1Event::Data(Some(Err(chunked_error()))),
    ];
    let reply = run(&mut conn, marked(false), events);
    assert!(matches!(
        reply,
        (Err(Error::Http(HttpError::H1DecodeError(DecodeError::Chunked))), false)
    ));
    assert!(!conn.is_open());
}

#[test]
fn events_are_awaited_one_kind_at_a_time() {
    let mut conn: Conn = Http1Connection::new("codec");
    let sent: Event = Http1Event::Sent(Ok(()));
    let state: State = conn.send_request("/", marked(false)).state;
    assert!(state.is_awaiting(&sent));
    assert!(!state.is_awaiting(&head(PayloadDecoder::Empty)));
    assert!(!state.is_awaiting(&chunk(b"")));
    let (state, action) = step(&mut conn, state, sent);
    assert!(matches!(action, Http1Action::ReadHead));
    assert!(state.is_awaiting(&head(PayloadDecoder::Empty)));
    assert!(!state.is_awaiting(&chunk(b"")));
    let (state, _) = step(&mut conn, state, head(PayloadDecoder::Streamed));
    assert!(state.is_awaiting(&chunk(b"")));
    assert!(!state.is_awaiting(&head(PayloadDecoder::Empty)));
    let (state, _) = step(&mut conn, state, Http1Event::Data(None));
    assert!(!state.is_awaiting(&chunk(b"")));
}

#[test]
fn earlier_value_of_a_mark_has_no_influence() {
    for is_head in [false, true] {
        for before in [false, true] {
            let mut conn: Conn = Http1Connection::new("codec");
            let mut mark = HeadRequest::new();
            set_head_request(&mut mark, before);
            set_head_request(&mut mark, is_head);
            let terms = Http1Terms { mark, tunnel: false, last: false };
            let state: State = conn.send_request("/", terms).state;
            let (state, _) = step(&mut conn, state, Http1Event::Sent(Ok(())));
            let (state, action) = step(&mut conn, state, head(PayloadDecoder::Fixed));
            assert_eq!(matches!(state, Http1State::Finished), is_head);
            assert_eq!(matches!(action, Http1Action::Finish { reusable: true, .. }), is_head);
            assert_eq!(matches!(action, Http1Action::ReadBody), !is_head);
        }
    }
}

#[test]
fn connection_stays_closed_over_a_row_of_exchanges() {
    let mut conn: Conn = Http1Connection::new("codec");
    let good = |conn: &mut Conn| {
        let events =
            vec![Http1Event::Sent(Ok(())), head(PayloadDecoder::Streamed), Http1Event::Data(None)];
        let (result, reusable) = run(conn, marked(false), events);
        assert!(result.is_ok());
        reusable
    };
    assert!(good(&mut conn));
    assert!(good(&mut conn));
    assert!(conn.is_open());
    run(&mut conn, marked(false), vec![Http1Event::Sent(Ok(())), Http1Event::Head(None)]);
    for _ in 0..3 {
        assert!(!conn.is_open());
        assert!(!good(&mut conn));
    }
    assert!(!conn.is_open());
}

#[test]
fn head_that_says_close_ends_the_connection() {
    for decoder in [PayloadDecoder::Empty, PayloadDecoder::Fixed, PayloadDecoder::Streamed] {
        let mut conn: Conn = Http1Connection::new("codec");
        let closing = Http1Event::Head(Some(Ok(ResponseHead {
            parts: "200 OK",
            decoder,
            status: 200,
            http11: true,
            connection: vec![b"Close".to_vec()],
            has_length: decoder != PayloadDecoder::Streamed,
        })));
        let mut events = vec![Http1Event::Sent(Ok(())), closing];
        match decoder {
            PayloadDecoder::Empty => {}
            PayloadDecoder::Fixed => events.push(chunk(b"hello")),
            PayloadDecoder::Streamed => {
                events.push(chunk(b"hello"));
                events.push(Http1Event::Data(None));
            }
        }
        let (result, reusable) = run(&mut conn, marked(false), events);
        assert!(result.is_ok());
        assert!(!reusable);
    }
}
