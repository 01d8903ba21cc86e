use bytes::Bytes;
use http_connection::body::{HttpBody, ResponseBody};
use http_connection::error::Error;
use http_connection::http2::{is_open_unless, Http2Action, Http2Event, Http2State};
use http_connection::message::{Request, Response};
use monoio_http::common::error::HttpError;
use monoio_http::h1::codec::decoder::DecodeError;

type State = Http2State<&'static str>;
type Event = Http2Event<&'static str, u32, Bytes>;
type Action = Http2Action<&'static str, Bytes, Response<&'static str, ResponseBody<u32>>>;

fn failure() -> HttpError {
    HttpError::H1DecodeError(DecodeError::TimedOut)
}

fn chunk(data: &'static [u8]) -> Event {
    Http2Event::Body(Some(Ok(Bytes::from_static(data))))
}

/// Takes the steps of an exchange and gives what it asked for.
fn run(events: Vec<Event>) -> (State, Vec<Action>) {
    let mut state: State = Http2State::AwaitingReady("POST /");
    let mut actions: Vec<Action> = Vec::new();
    for event in events {
        assert!(state.is_awaiting(&event));
        let (next, action) = state.step(event);
        state = next;
        actions.push(action);
    }
    (state, actions)
}

fn assert_failed(state: State, actions: &[Action]) {
    assert!(matches!(state, Http2State::Finished));
    assert!(matches!(
        actions.last(),
        Some(Http2Action::Finish {
            result: Err(Error::Http(HttpError::H1DecodeError(DecodeError::TimedOut))),
            reusable: false,
        })
    ));
}

/// The chunks that go out, and whether each ends the stream.
fn uploads(actions: &[Action]) -> Vec<(Bytes, bool)> {
    let mut sent: Vec<(Bytes, bool)> = Vec::new();
    for action in actions {
        if let Http2Action::SendData { data, end_of_stream } = action {
            sent.push((data.clone(), *end_of_stream));
        }
    }
    sent
}

fn uploading(ended: Result<(), HttpError>) -> Vec<Event> {
    vec![
        Http2Event::Ready(Ok(())),
        Http2Event::HeadSent(Ok(())),
        chunk(b"one"),
        Http2Event::DataSent(Ok(())),
        chunk(b"two"),
        Http2Event::DataSent(Ok(())),
        Http2Event::Body(None),
        Http2Event::DataSent(ended),
    ]
}

#[test]
fn http2_exchange_sends_the_body_and_gives_the_response() {
    let mut events = uploading(Ok(()));
    events.push(Http2Event::Response(Ok(Response { parts: "200 OK", body: 9u32 })));
    let (state, actions) = run(events);
    assert!(matches!(state, Http2State::Finished));
    assert!(matches!(
        &actions[0],
        Http2Action::SendHead {
            request: Request { parts: "POST /", body: () },
            end_of_stream: false,
        }
    ));
    assert!(matches!(&actions[1], Http2Action::ReadBody));
    assert_eq!(
        uploads(&actions),
        vec![
            (Bytes::from_static(b"one"), false),
            (Bytes::from_static(b"two"), false),
            (Bytes::new(), true),
        ]
    );
    assert!(matches!(&actions[7], Http2Action::ReadResponse));
    match actions.last() {
        Some(Http2Action::Finish { result: Ok(response), reusable: true }) => {
            assert_eq!(response.parts, "200 OK");
            assert!(matches!(response.body, HttpBody::H2(9u32)));
        }
        _ => panic!("the response was due"),
    }
}

#[test]
fn http2_request_without_a_body_still_ends_the_stream() {
    let (state, actions) = run(vec![
        Http2Event::Ready(Ok(())),
        Http2Event::HeadSent(Ok(())),
        Http2Event::Body(None),
    ]);
    assert!(matches!(state, Http2State::AwaitingDataSent { last: true }));
    assert_eq!(uploads(&actions), vec![(Bytes::new(), true)]);
}

#[test]
fn http2_failure_to_end_the_stream_is_ignored() {
    let mut events = uploading(Err(failure()));
    events.push(Http2Event::Response(Ok(Response { parts: "204", body: 1u32 })));
    let (_, actions) = run(events);
    assert!(matches!(
        actions.last(),
        Some(Http2Action::Finish { result: Ok(Response { parts: "204", .. }), reusable: true })
    ));
}

#[test]
fn http2_connection_that_takes_no_stream_fails() {
    let (state, actions) = run(vec![Http2Event::Ready(Err(failure()))]);
    assert_failed(state, &actions);
    assert_eq!(actions.len(), 1);
}

#[test]
fn http2_head_that_cannot_be_sent_fails() {
    let (state, actions) =
        run(vec![Http2Event::Ready(Ok(())), Http2Event::HeadSent(Err(failure()))]);
    assert_failed(state, &actions);
    assert!(uploads(&actions).is_empty());
}

#[test]
fn http2_chunk_that_cannot_be_sent_fails_and_leaves_the_stream_open() {
    let (state, actions) = run(vec![
        Http2Event::Ready(Ok(())),
        Http2Event::HeadSent(Ok(())),
        chunk(b"one"),
        Http2Event::DataSent(Err(failure())),
    ]);
    assert_failed(state, &actions);
    assert_eq!(uploads(&actions), vec![(Bytes::from_static(b"one"), false)]);
}

#[test]
fn http2_body_that_cannot_be_read_fails_and_leaves_the_stream_open() {
    let (state, actions) = run(vec![
        Http2Event::Ready(Ok(())),
        Http2Event::HeadSent(Ok(())),
        chunk(b"one"),
        Http2Event::DataSent(Ok(())),
        Http2Event::Body(Some(Err(failure()))),
    ]);
    assert_failed(state, &actions);
    assert_eq!(uploads(&actions), vec![(Bytes::from_static(b"one"), false)]);
}

#[test]
fn http2_response_that_fails() {
    let mut events = uploading(Ok(()));
    events.push(Http2Event::Response(Err(failure())));
    let (state, actions) = run(events);
    assert_failed(state, &actions);
}

#[test]
fn http2_events_are_awaited_one_kind_at_a_time() {
    let state: State = Http2State::AwaitingBody;
    let awaited: Event = Http2Event::Body(None);
    let others: Vec<Event> = vec![
        Http2Event::Ready(Ok(())),
        Http2Event::HeadSent(Ok(())),
        Http2Event::DataSent(Ok(())),
        Http2Event::Response(Err(failure())),
    ];
    assert!(state.is_awaiting(&awaited));
    for other in &others {
        assert!(!state.is_awaiting(other));
    }
    let finished: State = Http2State::Finished;
    assert!(!finished.is_awaiting(&awaited));
}

#[test]
fn http2_is_open_unless_an_error_broke_it() {
    assert!(is_open_unless(false));
    assert!(!is_open_unless(true));
}
