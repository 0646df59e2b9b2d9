use std::cell::RefCell;
use std::time::Duration;

use hyper::client::{
    get_host_and_port, with_connector, ClientFsm, Conn, Context, Handler, HandlerFactory, Message,
    Notify, TryRecvError, UrlParts,
};
use hyper::error::Error;
use hyper::header::Host;
use hyper::http::{Next, RequestHead, RequestUri};
use hyper::machine::{Interest, Response, Turn, Wakeup};
use hyper::net::{Connect, Transport};
use hyper::uri::{Url, UrlError};

#[derive(Debug, PartialEq)]
struct Stream(String);

impl Transport for Stream {}

/// Notes what it is asked for, and refuses port 1.
#[derive(Debug, PartialEq)]
struct Dialer(RefCell<Vec<String>>);

impl Connect for Dialer {
    type Output = Stream;
    type IoError = &'static str;
    type SslError = ();

    fn connect(
        &self,
        host: &str,
        port: u16,
        scheme: &str,
    ) -> Result<Stream, Error<&'static str, ()>> {
        let asked = format!("{} {} {}", scheme, host, port);
        self.0.borrow_mut().push(asked.clone());
        if port == 1 {
            Err(Error::Io("refused"))
        } else {
            Ok(Stream(asked))
        }
    }
}

type Fsm = ClientFsm<Dialer, u8, &'static str>;
type Turned = ClientFsm<Dialer, u8, Turn<&'static str>>;

fn url(s: &str) -> Url {
    Url::parse(s).unwrap()
}

fn connect(s: &str) -> Result<Notify, TryRecvError> {
    Ok(Notify::Connect(url(s)))
}

fn start() -> (Fsm, Context<()>) {
    with_connector(Dialer(RefCell::new(vec![])), 6, ())
}

fn calls(fsm: &Fsm) -> Vec<String> {
    match fsm {
        ClientFsm::Connector(dialer, 6) => dialer.0.borrow().clone(),
        _ => panic!("not the connecting machine"),
    }
}

fn host_and_port(s: &str) -> Result<(String, u16), Error<(), ()>> {
    get_host_and_port(&url(s))
}

#[test]
fn where_urls_lead() {
    assert_eq!(host_and_port("http://example.com/"), Ok(("example.com".to_string(), 80)));
    assert_eq!(host_and_port("https://example.com/"), Ok(("example.com".to_string(), 443)));
    assert_eq!(host_and_port("http://[::1]:8080/"), Ok(("[::1]".to_string(), 8080)));
    assert_eq!(host_and_port("mailto:a@b"), Err(Error::Uri(UrlError::EmptyHost)));
    assert_eq!(host_and_port("file:///etc"), Err(Error::Uri(UrlError::InvalidPort)));
}

#[test]
fn a_client_starts_with_nothing_waiting() {
    let (fsm, context) = start();
    assert!(calls(&fsm).is_empty());
    assert!(context.queue.is_empty());
    assert_eq!(Fsm::interest(), Interest::Writable);
}

#[test]
fn a_request_opens_a_connection() {
    let (fsm, mut context) = start();
    match fsm.wakeup(connect("http://example.com:8080/a/b?c"), &mut context.queue) {
        Wakeup::Respond(Response::Spawn(fsm, stream)) => {
            assert_eq!(calls(&fsm), vec!["http example.com 8080"]);
            assert_eq!(stream, Stream("http example.com 8080".to_string()));
        }
        _ => panic!("the stream is handed on"),
    }
    assert_eq!(
        context.queue,
        vec![UrlParts {
            host: "example.com".to_string(),
            port: 8080,
            path: RequestUri::AbsolutePath("/a/b".to_string()),
        }]
    );
}

#[test]
fn a_request_that_leads_nowhere_is_dropped() {
    let (fsm, mut context) = start();
    let fsm = match fsm.wakeup(connect("mailto:a@b"), &mut context.queue) {
        Wakeup::Respond(Response::Wait(fsm)) => fsm,
        _ => panic!("nothing is opened"),
    };
    assert!(calls(&fsm).is_empty());
    let fsm = match fsm.wakeup(connect("file:///etc"), &mut context.queue) {
        Wakeup::Respond(Response::Wait(fsm)) => fsm,
        _ => panic!("nothing is opened"),
    };
    assert!(calls(&fsm).is_empty());
    let fsm = match fsm.wakeup(connect("http://example.com:1/"), &mut context.queue) {
        Wakeup::Respond(Response::Wait(fsm)) => fsm,
        _ => panic!("the connection is refused"),
    };
    assert_eq!(calls(&fsm), vec!["http example.com 1"]);
    assert!(context.queue.is_empty());
}

#[test]
fn what_a_tried_connection_leads_to() {
    let mut queue: Vec<UrlParts> = Vec::new();
    let target = url("http://h:9/p");
    let r: Wakeup<Dialer, Fsm, Stream> = ClientFsm::connected(
        Dialer(RefCell::new(vec![])),
        6,
        &target,
        "h".to_string(),
        9,
        Err(Error::Io("refused")),
        &mut queue,
    );
    assert_eq!(
        r,
        Wakeup::Respond(Response::Wait(ClientFsm::Connector(Dialer(RefCell::new(vec![])), 6)))
    );
    assert!(queue.is_empty());
    let r: Wakeup<Dialer, Fsm, Stream> = ClientFsm::connected(
        Dialer(RefCell::new(vec![])),
        6,
        &target,
        "h".to_string(),
        9,
        Ok(Stream("s".to_string())),
        &mut queue,
    );
    assert_eq!(
        r,
        Wakeup::Respond(Response::Spawn(
            ClientFsm::Connector(Dialer(RefCell::new(vec![])), 6),
            Stream("s".to_string())
        ))
    );
    assert_eq!(queue.len(), 1);
}

#[test]
fn only_shutdown_stops() {
    let (fsm, mut context) = start();
    let fsm = match fsm.wakeup(Err(TryRecvError::Empty), &mut context.queue) {
        Wakeup::Respond(Response::Wait(fsm)) => fsm,
        _ => panic!("a spurious wakeup"),
    };
    let r = fsm.wakeup(Ok(Notify::Shutdown), &mut context.queue);
    assert_eq!(r, Wakeup::Shutdown(Dialer(RefCell::new(vec![]))));
    let socket: Fsm = ClientFsm::Socket("conn");
    let r = socket.wakeup(Ok(Notify::Shutdown), &mut context.queue);
    assert_eq!(r, Wakeup::Respond(Response::Wait(ClientFsm::Socket("conn"))));
    let socket: Fsm = ClientFsm::Socket("conn");
    let r = socket.wakeup(Err(TryRecvError::Disconnected), &mut context.queue);
    assert_eq!(r, Wakeup::Respond(Response::Wait(ClientFsm::Socket("conn"))));
}

#[test]
fn connections_go_on_or_end() {
    let limit = Duration::from_secs(1);
    let go: Turned = ClientFsm::Socket(Some(("conn", None)));
    assert_eq!(go.ready(), Response::Wait(ClientFsm::<Dialer, u8, _>::Socket("conn")));
    let limited: Turned = ClientFsm::Socket(Some(("conn", Some(limit))));
    assert_eq!(limited.ready(), Response::Wait(ClientFsm::<Dialer, u8, _>::Socket("conn")));
    let end: Turned = ClientFsm::Socket(None);
    let r: Response<Fsm, Stream> = end.ready();
    assert_eq!(r, Response::Done);
    let made: Response<Fsm, Stream> = ClientFsm::begun("conn");
    assert_eq!(made, Response::Wait(ClientFsm::Socket("conn")));
    let fsm: Fsm = ClientFsm::Socket("conn");
    assert_eq!(fsm.spawned(), Response::Wait(ClientFsm::Socket("conn")));
}

#[derive(Debug, PartialEq)]
struct Over(Stream);

impl Conn<Stream> for Over {
    fn new(stream: Stream) -> Over {
        Over(stream)
    }
}

#[test]
fn a_connection_runs_over_its_stream() {
    let s = "s".to_string();
    let made: Result<Response<ClientFsm<Dialer, u8, Over>, Stream>, &str> =
        ClientFsm::create(Stream(s.clone()), Ok(()));
    assert_eq!(made, Ok(Response::Wait(ClientFsm::Socket(Over(Stream(s.clone()))))));
    let none: Result<Response<ClientFsm<Dialer, u8, Over>, Stream>, &str> =
        ClientFsm::create(Stream(s), Err("no descriptor"));
    assert_eq!(none, Err("no descriptor"));
}

#[derive(Debug, PartialEq)]
enum Then {
    Write,
    Read,
    Remove,
}

impl Next for Then {
    fn remove() -> Then {
        Then::Remove
    }
}

/// Notes what happens to it.
#[derive(Debug, PartialEq)]
struct Log(Vec<String>);

impl Handler for Log {
    type Next = Then;
    type Rest = u8;
    type Response = &'static str;
    type Encoder = String;
    type Decoder = String;
    type Error = &'static str;

    fn on_request(&mut self, request: &mut RequestHead<u8>) -> Then {
        self.0.push(format!("request {:?} {:?}", request.uri, request.host));
        request.rest += 1;
        Then::Write
    }

    fn on_request_writable(&mut self, request: &mut String) -> Then {
        request.push_str("body");
        self.0.push("writable".to_string());
        Then::Read
    }

    fn on_response(&mut self, response: &'static str) -> Then {
        self.0.push(format!("response {}", response));
        Then::Read
    }

    fn on_response_readable(&mut self, response: &mut String) -> Then {
        self.0.push(format!("readable {}", response));
        response.clear();
        Then::Write
    }
}

struct Logs(u8);

impl HandlerFactory for Logs {
    type Output = Log;
    type Control = &'static str;

    fn create(&mut self, ctrl: &'static str) -> Log {
        self.0 += 1;
        Log(vec![format!("{} {}", ctrl, self.0)])
    }
}

fn parts(host: &str, port: u16, path: &str) -> UrlParts {
    UrlParts {
        host: host.to_string(),
        port,
        path: RequestUri::AbsolutePath(path.to_string()),
    }
}

#[test]
fn requests_keep_their_order() {
    let mut context = Context { queue: vec![parts("a", 1, "/a")], factory: Logs(0) };
    context.queue.push(parts("b", 2, "/b"));
    let first = context.create("one");
    assert_eq!(first.url, Some(parts("a", 1, "/a")));
    assert_eq!(first.handler, Log(vec!["one 1".to_string()]));
    context.queue.push(parts("c", 3, "/c"));
    let second = context.create("two");
    assert_eq!(second.url, Some(parts("b", 2, "/b")));
    assert_eq!(second.handler, Log(vec!["two 2".to_string()]));
    assert_eq!(context.create("three").url, Some(parts("c", 3, "/c")));
    assert!(context.queue.is_empty());
}

#[test]
fn a_request_is_addressed_by_its_url() {
    let dialer = Dialer(RefCell::new(vec![]));
    let (fsm, mut context): (Fsm, Context<Logs>) = with_connector(dialer, 6, Logs(0));
    match fsm.wakeup(connect("http://example.com/x/y"), &mut context.queue) {
        Wakeup::Respond(Response::Spawn(_, _)) => {}
        _ => panic!("the stream is handed on"),
    }
    let mut message = context.create("new");
    let mut head = RequestHead { uri: RequestUri::Star, host: None, rest: 41 };
    assert_eq!(message.on_outgoing(&mut head), Then::Write);
    assert_eq!(
        head,
        RequestHead {
            uri: RequestUri::AbsolutePath("/x/y".to_string()),
            host: Some(Host { hostname: "example.com".to_string(), port: Some(80) }),
            rest: 42,
        }
    );
    assert_eq!(message.url, None);
    assert_eq!(message.handler.0.len(), 2);
    assert!(message.handler.0[1].starts_with("request AbsolutePath(\"/x/y\")"));
}

#[test]
fn addressing_leaves_the_rest_alone() {
    let mut head = RequestHead {
        uri: RequestUri::AbsolutePath("/".to_string()),
        host: Some(Host { hostname: "old".to_string(), port: None }),
        rest: "kept",
    };
    parts("new", 8, "/there").address(&mut head);
    assert_eq!(
        head,
        RequestHead {
            uri: RequestUri::AbsolutePath("/there".to_string()),
            host: Some(Host { hostname: "new".to_string(), port: Some(8) }),
            rest: "kept",
        }
    );
}

#[test]
fn events_reach_the_handler() {
    let mut message = Message { handler: Log(vec![]), url: Some(parts("a", 1, "/")) };
    let mut out = "head ".to_string();
    assert_eq!(message.on_encode(&mut out), Then::Read);
    assert_eq!(out, "head body");
    assert_eq!(message.on_incoming("200"), Then::Read);
    let mut input = "data".to_string();
    assert_eq!(message.on_decode(&mut input), Then::Write);
    assert_eq!(input, "");
    assert_eq!(message.on_error("broken"), Then::Remove);
    assert_eq!(message.handler.0, vec!["writable", "response 200", "readable data"]);
    assert_eq!(message.url, Some(parts("a", 1, "/")));
}
