use std::cell::RefCell;
use std::future::Future;
use std::pin::Pin;
use std::rc::Rc;
use std::sync::Arc;
use std::task::{Context, Poll, Wake, Waker};

use bytes::Bytes;
use http_connection::body::{HttpBody, Payload};
use http_connection::connection::{HttpConnection, HttpStart};
use http_connection::head_request::is_head_request;
use http_connection::http1::{Http1Connection, Http1State};
use http_connection::http2::{Http2Connection, Http2State, RequestSender};
use http_connection::message::{Request, RequestFacts};
use http_connection::pool::Poolable;
use monoio::buf::{IoBuf, IoBufMut, IoVecBuf, IoVecBufMut};
use monoio::io::{AsyncReadRent, AsyncWriteRent};
use monoio::BufResult;
use monoio_http::h2::client::{handshake, Connection};

type Conn = HttpConnection<&'static str>;
type Body = HttpBody<u8, u16, u32>;
type Start = HttpStart<String, Body, u8, u16, &'static str>;

fn as_it_is(body: Body) -> Body {
    body
}

/// In these tests the head of a request is the name of its method.
fn facts_of(parts: &String) -> RequestFacts {
    RequestFacts { method: parts.clone(), connection: vec![] }
}

fn start(conn: &mut Conn, method: &str, body: Body) -> Start {
    conn.send_request(Request { parts: method.to_string(), body }, facts_of, as_it_is)
}

/// What the mark of an exchange over HTTP/1.1 says.
fn mark_of(start: &Start) -> bool {
    match start {
        HttpStart::Http1(start) => match &start.state {
            Http1State::AwaitingSent(terms) => is_head_request(&terms.mark),
            _ => panic!("the request is going out"),
        },
        HttpStart::Http2(_) => panic!("the connection speaks HTTP/1.1"),
    }
}

fn http1() -> Conn {
    HttpConnection::from(Http1Connection::new("codec"))
}

fn http1_payload(body: Body) -> Payload<u8, u16> {
    match start(&mut http1(), "POST", body) {
        HttpStart::Http1(start) => {
            assert_eq!(start.request.parts, "POST");
            start.request.body
        }
        HttpStart::Http2(_) => panic!("the connection speaks HTTP/1.1"),
    }
}

/// A peer that takes all that is sent; it has closed its side once told so.
struct Peer {
    closed: Rc<RefCell<bool>>,
}

struct UntilClosed {
    closed: Rc<RefCell<bool>>,
}

impl Future for UntilClosed {
    type Output = ();

    fn poll(self: Pin<&mut Self>, _: &mut Context<'_>) -> Poll<()> {
        if *self.closed.borrow() {
            Poll::Ready(())
        } else {
            Poll::Pending
        }
    }
}

impl AsyncReadRent for Peer {
    async fn read<T: IoBufMut>(&mut self, buf: T) -> BufResult<usize, T> {
        UntilClosed { closed: self.closed.clone() }.await;
        (Ok(0), buf)
    }

    async fn readv<T: IoVecBufMut>(&mut self, buf: T) -> BufResult<usize, T> {
        UntilClosed { closed: self.closed.clone() }.await;
        (Ok(0), buf)
    }
}

impl AsyncWriteRent for Peer {
    async fn write<T: IoBuf>(&mut self, buf: T) -> BufResult<usize, T> {
        let taken: usize = buf.bytes_init();
        (Ok(taken), buf)
    }

    async fn writev<T: IoVecBuf>(&mut self, buf: T) -> BufResult<usize, T> {
        (Err(std::io::ErrorKind::Unsupported.into()), buf)
    }

    async fn flush(&mut self) -> std::io::Result<()> {
        Ok(())
    }

    async fn shutdown(&mut self) -> std::io::Result<()> {
        Ok(())
    }
}

struct Idle;

impl Wake for Idle {
    fn wake(self: Arc<Self>) {}
}

/// A connection of HTTP/2, what drives it, and the switch that closes it.
fn http2() -> (Http2Connection, Connection<Peer, Bytes>, Rc<RefCell<bool>>) {
    let closed = Rc::new(RefCell::new(false));
    let waker = Waker::from(Arc::new(Idle));
    let mut context = Context::from_waker(&waker);
    let mut opening = Box::pin(handshake(Peer { closed: closed.clone() }));
    match opening.as_mut().poll(&mut context) {
        Poll::Ready(Ok((tx, driver))) => {
            (Http2Connection::new(RequestSender { inner: tx }), driver, closed)
        }
        _ => panic!("the handshake waits for nothing"),
    }
}

fn drive(driver: Connection<Peer, Bytes>) {
    let waker = Waker::from(Arc::new(Idle));
    let mut context = Context::from_waker(&waker);
    let mut driver = Box::pin(driver);
    for _ in 0..8 {
        if driver.as_mut().poll(&mut context).is_ready() {
            return;
        }
    }
    panic!("the connection is closed");
}

#[test]
fn only_head_in_capitals_is_a_head_request() {
    let mut conn = http1();
    assert!(mark_of(&start(&mut conn, "HEAD", HttpBody::Ready(None))));
    for method in ["GET", "head", "Head", "HEADER", "HEA", "POST", ""] {
        assert!(!mark_of(&start(&mut conn, method, HttpBody::Ready(None))));
    }
    assert!(conn.is_open());
}

#[test]
fn methods_are_compared_by_their_names() {
    let mut conn = http1();
    for method in [http::Method::GET, http::Method::HEAD, http::Method::PATCH] {
        let is_head: bool = mark_of(&start(&mut conn, method.as_str(), HttpBody::Ready(None)));
        assert_eq!(is_head, method == http::Method::HEAD);
    }
}

#[test]
fn later_request_leaves_the_mark_of_an_earlier_one() {
    let head = start(&mut http1(), "HEAD", HttpBody::Ready(None));
    let get = start(&mut http1(), "GET", HttpBody::Ready(None));
    assert!(mark_of(&head));
    assert!(!mark_of(&get));
}

#[test]
fn request_settles_the_terms_of_its_exchange() {
    for (method, connection, tunnel, last) in [
        ("GET", "keep-alive", false, false),
        ("GET", "close", false, true),
        ("CONNECT", "upgrade", true, false),
        ("connect", "Close , upgrade", false, true),
    ] {
        let request = Request { parts: method.to_string(), body: HttpBody::Ready(None) };
        let facts = |parts: &String| RequestFacts {
            method: parts.clone(),
            connection: vec![b"te".to_vec(), connection.as_bytes().to_vec()],
        };
        let start: Start = http1().send_request(request, facts, as_it_is);
        match start {
            HttpStart::Http1(start) => match start.state {
                Http1State::AwaitingSent(terms) => {
                    assert_eq!(terms.tunnel, tunnel);
                    assert_eq!(terms.last, last);
                    assert!(!is_head_request(&terms.mark));
                }
                _ => panic!("the request is going out"),
            },
            HttpStart::Http2(_) => panic!("the connection speaks HTTP/1.1"),
        }
    }
}

#[test]
fn http1_body_goes_out_as_it_is() {
    assert!(matches!(http1_payload(HttpBody::H1(Payload::Empty)), Payload::Empty));
    assert!(matches!(http1_payload(HttpBody::H1(Payload::Fixed(3))), Payload::Fixed(3)));
    assert!(matches!(http1_payload(HttpBody::H1(Payload::Stream(4))), Payload::Stream(4)));
}

#[test]
fn other_bodies_do_not_go_out_over_http1() {
    assert!(matches!(http1_payload(HttpBody::H2(5)), Payload::Empty));
    assert!(matches!(http1_payload(HttpBody::Ready(None)), Payload::Empty));
    let data = Some(Bytes::from_static(b"data"));
    assert!(matches!(http1_payload(HttpBody::Ready(data)), Payload::Empty));
}

#[test]
fn body_is_turned_into_one_of_either_protocol_over_http1() {
    let request = Request { parts: "PUT".to_string(), body: "text" };
    let start: HttpStart<_, _, usize, u16, &'static str> =
        http1().send_request(request, facts_of, |text: &'static str| {
            HttpBody::<usize, u16, u32>::H1(Payload::Fixed(text.len()))
        });
    match start {
        HttpStart::Http1(start) => assert!(matches!(start.request.body, Payload::Fixed(4))),
        HttpStart::Http2(_) => panic!("the connection speaks HTTP/1.1"),
    }
}

#[test]
fn http2_request_is_started_as_it_is() {
    let (conn, _driver, _) = http2();
    let mut conn: Conn = HttpConnection::from(conn);
    let body: Body = HttpBody::Ready(Some(Bytes::from_static(b"data")));
    match start(&mut conn, "HEAD", body) {
        HttpStart::Http2(start) => {
            match start.state {
                Http2State::AwaitingReady(parts) => assert_eq!(parts, "HEAD"),
                _ => panic!("the connection is to take a stream first"),
            }
            match start.body {
                HttpBody::Ready(Some(data)) => assert_eq!(data, Bytes::from_static(b"data")),
                _ => panic!("the body is left as it is"),
            }
        }
        HttpStart::Http1(_) => panic!("the connection speaks HTTP/2"),
    }
}

#[test]
fn http2_connection_is_open_until_an_error_breaks_it() {
    let (conn, driver, closed) = http2();
    let copy = conn.to_owned();
    assert!(conn.is_open());
    assert!(conn.conn_error().is_none());
    assert!(copy.is_open());
    *closed.borrow_mut() = true;
    drive(driver);
    assert!(!conn.is_open());
    assert!(conn.conn_error().is_some());
    assert!(!copy.is_open());
    assert!(!conn.clone().is_open());
    let either: Conn = HttpConnection::from(conn);
    assert!(!either.is_open());
}

#[test]
fn http2_handle_can_be_taken_back() {
    let (conn, _driver, _) = http2();
    let tx = conn.to_owned().into_sender();
    assert!(!tx.inner.has_conn_error());
    assert!(Http2Connection::new(tx).is_open());
}

#[test]
fn http1_connection_of_either_protocol_is_open() {
    assert!(http1().is_open());
}
