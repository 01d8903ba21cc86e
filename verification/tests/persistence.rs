use bytes::Bytes;
use http_connection::body::{ResponseBody, StreamPayloadPair};
use http_connection::http1::{Http1Action, Http1Connection, Http1Event, Http1State};
use http_connection::message::{PayloadDecoder, RequestFacts, Response, ResponseHead};
use http_connection::persistence::{
    connection_outlives, has_token, says_close, says_keep_alive, Http1Terms,
};
use http_connection::pool::Poolable;

type Head = ResponseHead<&'static str>;
type State = Http1State<&'static str, StreamPayloadPair>;
type Action = Http1Action<Response<&'static str, ResponseBody<()>>>;

fn values(texts: &[&str]) -> Vec<Vec<u8>> {
    texts.iter().map(|text| text.as_bytes().to_vec()).collect()
}

fn terms(method: &str, connection: &[&str]) -> Http1Terms {
    Http1Terms::of(&RequestFacts { method: method.to_string(), connection: values(connection) })
}

/// A response of HTTP/1.1 with status 200 whose body is announced as `decoder` says.
fn ok(decoder: PayloadDecoder) -> Head {
    ResponseHead {
        parts: "head",
        decoder,
        status: 200,
        http11: true,
        connection: vec![],
        has_length: decoder == PayloadDecoder::Fixed,
    }
}

/// Runs an exchange in which all goes well, and tells whether the connection can be reused.
fn reusable(terms: Http1Terms, head: Head) -> bool {
    let mut conn = Http1Connection::new("codec");
    let kept: bool = connection_outlives(&terms, &head);
    let mut state: State = conn.send_request("/", terms).state;
    let mut streamed: bool = false;
    let mut next: Option<Http1Event<&'static str, Bytes>> = Some(Http1Event::Sent(Ok(())));
    let mut head: Option<Head> = Some(head);
    while let Some(event) = next.take() {
        assert!(state.is_awaiting(&event));
        let (_, status) = conn.split();
        let (after, action): (State, Action) = status.step(state, event);
        state = after;
        next = match action {
            Http1Action::ReadHead => Some(Http1Event::Head(head.take().map(Ok))),
            Http1Action::ReadBody => match &state {
                Http1State::AwaitingStream { .. } if streamed => Some(Http1Event::Data(None)),
                _ => {
                    streamed = true;
                    Some(Http1Event::Data(Some(Ok(Bytes::from_static(b"piece")))))
                }
            },
            Http1Action::Finish { result, reusable } => {
                assert!(result.is_ok());
                assert!(conn.is_open());
                assert_eq!(reusable, kept);
                return reusable;
            }
        };
    }
    panic!("the exchange is over")
}

#[test]
fn token_is_an_element_of_the_list() {
    for text in [
        "close", "Close", "CLOSE", " close", "close\t", "keep-alive, close", "close,upgrade",
        "te , \t close ,upgrade", ",,close", "close,", "closed, close", "x close, close",
    ] {
        assert!(has_token(text.as_bytes(), b"close"), "{}", text);
    }
}

#[test]
fn token_is_not_a_part_of_an_element() {
    for text in [
        "", ",", " ", "clos", "closed", "xclose", "close x", "x close", "close;q=1", "\"close\"",
        "cl ose", "keep-alive", "c,lose", "close\n",
    ] {
        assert!(!has_token(text.as_bytes(), b"close"), "{}", text);
    }
}

#[test]
fn options_are_looked_for_in_all_values() {
    assert!(says_close(&values(&["te", "upgrade, close"])));
    assert!(!says_close(&values(&["te", "upgrade"])));
    assert!(!says_close(&values(&[])));
    assert!(says_keep_alive(&values(&["Keep-Alive"])));
    assert!(says_keep_alive(&values(&["", "te, KEEP-ALIVE"])));
    assert!(!says_keep_alive(&values(&["keep", "alive"])));
    assert!(!says_keep_alive(&values(&["close"])));
}

#[test]
fn connection_is_reused_after_a_delimited_response() {
    assert!(reusable(terms("GET", &[]), ok(PayloadDecoder::Fixed)));
    assert!(reusable(terms("GET", &["keep-alive"]), ok(PayloadDecoder::Streamed)));
    // A length of zero announces no body.
    let empty = ResponseHead { has_length: true, ..ok(PayloadDecoder::Empty) };
    assert!(reusable(terms("GET", &[]), empty));
}

#[test]
fn close_in_the_response_ends_the_connection() {
    for text in ["close", "Close", "te, close", "keep-alive, close"] {
        for decoder in [PayloadDecoder::Fixed, PayloadDecoder::Streamed] {
            let head = ResponseHead { connection: values(&[text]), ..ok(decoder) };
            assert!(!reusable(terms("GET", &[]), head));
        }
        let head = ResponseHead { connection: values(&["te", text]), ..ok(PayloadDecoder::Fixed) };
        assert!(!reusable(terms("HEAD", &[]), head));
    }
}

#[test]
fn close_in_the_request_ends_the_connection() {
    assert!(!reusable(terms("GET", &["close"]), ok(PayloadDecoder::Fixed)));
    assert!(!reusable(terms("HEAD", &["te", "Close"]), ok(PayloadDecoder::Streamed)));
}

#[test]
fn response_of_the_older_version_has_to_keep_the_connection_alive() {
    let old = |connection: &[&str], decoder: PayloadDecoder| ResponseHead {
        http11: false,
        connection: values(connection),
        ..ok(decoder)
    };
    assert!(!reusable(terms("GET", &[]), old(&[], PayloadDecoder::Fixed)));
    assert!(reusable(terms("GET", &[]), old(&["Keep-Alive"], PayloadDecoder::Fixed)));
    assert!(!reusable(terms("GET", &[]), old(&["keep-alive, close"], PayloadDecoder::Fixed)));
    assert!(!reusable(terms("GET", &[]), old(&["keep-alive"], PayloadDecoder::Streamed)));
}

#[test]
fn body_that_runs_to_the_end_of_the_connection_ends_it() {
    assert!(!reusable(terms("GET", &[]), ok(PayloadDecoder::Empty)));
    assert!(!reusable(terms("POST", &["keep-alive"]), ok(PayloadDecoder::Empty)));
    assert!(reusable(terms("HEAD", &[]), ok(PayloadDecoder::Empty)));
    for status in [204, 304] {
        assert!(reusable(terms("GET", &[]), ResponseHead { status, ..ok(PayloadDecoder::Empty) }));
        for decoder in [PayloadDecoder::Fixed, PayloadDecoder::Streamed] {
            assert!(!reusable(terms("GET", &[]), ResponseHead { status, ..ok(decoder) }));
            assert!(reusable(terms("HEAD", &[]), ResponseHead { status, ..ok(decoder) }));
        }
    }
}

#[test]
fn both_a_length_and_chunks_end_the_connection() {
    let head = ResponseHead { has_length: true, ..ok(PayloadDecoder::Streamed) };
    assert!(!reusable(terms("GET", &[]), head));
}

#[test]
fn response_that_is_not_final_ends_the_connection() {
    for status in [100, 101, 103, 199] {
        let head = ResponseHead { status, has_length: true, ..ok(PayloadDecoder::Empty) };
        assert!(!reusable(terms("GET", &[]), head));
        let head = ResponseHead { status, ..ok(PayloadDecoder::Fixed) };
        assert!(!reusable(terms("HEAD", &[]), head));
    }
}

#[test]
fn tunnel_takes_the_connection_for_itself() {
    assert!(!reusable(terms("CONNECT", &[]), ok(PayloadDecoder::Fixed)));
    let refused = ResponseHead { status: 407, ..ok(PayloadDecoder::Fixed) };
    assert!(reusable(terms("CONNECT", &[]), refused));
    // Methods are told apart by case.
    assert!(reusable(terms("connect", &[]), ok(PayloadDecoder::Fixed)));
}
