use std::cell::RefCell;
use std::time::Duration;

use hyper::error::Error;
use hyper::http::Next;
use hyper::machine::{Interest, Response, Turn, Wakeup};
use hyper::net::{Accept, HttpsListener, Ssl, Transport};
use hyper::server::{Conn, Context, Handler, HandlerFactory, Server, ServerFsm};

/// Gives out what it holds, the last first, and then nothing.
#[derive(Debug, PartialEq)]
struct Incoming(RefCell<Vec<Result<Option<u8>, &'static str>>>);

impl Accept for Incoming {
    type Output = u8;
    type Error = &'static str;

    fn accept(&self) -> Result<Option<u8>, &'static str> {
        self.0.borrow_mut().pop().unwrap_or(Ok(None))
    }
}

fn incoming(all: Vec<Result<Option<u8>, &'static str>>) -> Incoming {
    Incoming(RefCell::new(all))
}

#[test]
fn the_settings_of_a_new_server() {
    let server = Server::new(incoming(vec![]));
    let shown = format!("{:?}", server);
    assert!(shown.contains("keep_alive: true"));
    assert!(shown.contains("idle_timeout: 10s"));
    assert!(shown.contains("max_sockets: 4096"));
    let launch = server.handle("factory", "flag");
    assert_eq!(launch.slab_capacity, 4096);
    assert_eq!(launch.notify_capacity, 4096);
    assert_eq!(launch.interest, Interest::Readable);
    assert_eq!(launch.timer_capacity, 4096);
    assert_eq!(
        launch.context,
        Context { keep_alive: true, idle_timeout: Duration::from_secs(10), factory: "factory" }
    );
    assert_eq!(launch.shutdown, "flag");
}

#[test]
fn settings_are_independent() {
    let one = Server::new(incoming(vec![]))
        .keep_alive(true)
        .idle_timeout(Duration::from_secs(3))
        .max_sockets(7)
        .keep_alive(false);
    let other = Server::new(incoming(vec![]))
        .max_sockets(7)
        .keep_alive(false)
        .idle_timeout(Duration::from_secs(3));
    let shown = format!("{:?}", one);
    assert_eq!(shown, format!("{:?}", other));
    assert!(shown.contains("idle_timeout: 3s"));
    let launch = one.handle((), ());
    assert_eq!(launch.slab_capacity, 7);
    assert_eq!(launch.notify_capacity, 7);
    assert_eq!(launch.timer_capacity, 7);
    assert!(!launch.context.keep_alive);
    assert_eq!(launch.context.idle_timeout, Duration::from_secs(3));
}

#[test]
fn a_server_on_what_was_bound() {
    let bound: Result<Incoming, &str> = Ok(incoming(vec![Ok(Some(4))]));
    let server: Result<Server<Incoming>, Error<&str, ()>> = Server::http(bound);
    let launch = server.unwrap().handle((), ());
    assert_eq!(launch.slab_capacity, 4096);
    assert_eq!(launch.listener.accept(), Ok(Some(4)));
    let taken: Result<Incoming, &str> = Err("address in use");
    let server: Result<Server<Incoming>, Error<&str, ()>> = Server::http(taken);
    assert_eq!(server.err(), Some(Error::Io("address in use")));
}

#[derive(Debug, PartialEq)]
struct Protected(u8);

impl Transport for Protected {}

struct Guard;

impl Ssl<u8> for Guard {
    type Stream = Protected;
    type IoError = &'static str;
    type SslError = ();

    fn wrap_client(&self, stream: u8, _: &str) -> Result<Protected, Error<&'static str, ()>> {
        Ok(Protected(stream))
    }

    fn wrap_server(&self, stream: u8) -> Result<Protected, Error<&'static str, ()>> {
        Ok(Protected(stream))
    }
}

type Secure = Server<HttpsListener<Incoming, Guard>>;

#[test]
fn a_protected_server_on_what_was_bound() {
    let bound: Result<Incoming, &str> = Ok(incoming(vec![Ok(Some(4))]));
    let server: Result<Secure, Error<&str, ()>> = Server::https(bound, Guard);
    let launch = server.ok().unwrap().handle((), ());
    assert_eq!(launch.notify_capacity, 4096);
    assert!(launch.context.keep_alive);
    assert_eq!(launch.listener.accept().ok().unwrap(), Some(Protected(4)));
    let taken: Result<Incoming, &str> = Err("address in use");
    let server: Result<Secure, Error<&str, ()>> = Server::https(taken, Guard);
    assert_eq!(server.err(), Some(Error::Io("address in use")));
}

type Fsm = ServerFsm<Incoming, u32, &'static str>;
type Turned = ServerFsm<Incoming, u32, Turn<&'static str>>;

#[test]
fn listening_goes_on_whatever_comes() {
    let all = vec![Ok(None), Err("too many files"), Ok(Some(5))];
    let fsm: Turned = ServerFsm::Listener(incoming(all), 77);
    let r: Response<Fsm, u8> = fsm.ready();
    let rest = match r {
        Response::Spawn(fsm, 5) => fsm,
        _ => panic!("the stream is handed on"),
    };
    let rest = match rest.spawned() {
        Response::Wait(fsm) => fsm,
        _ => panic!("an error is passed over"),
    };
    match rest.spawned() {
        Response::Wait(ServerFsm::Listener(l, 77)) => assert_eq!(l, incoming(vec![])),
        _ => panic!("the same machine listens on"),
    }
}

#[test]
fn what_an_accept_leads_to() {
    let some: Response<Fsm, u8> = ServerFsm::accepted(incoming(vec![]), 1, Ok(Some(8)));
    assert_eq!(some, Response::Spawn(ServerFsm::Listener(incoming(vec![]), 1), 8));
    let none: Response<Fsm, u8> = ServerFsm::accepted(incoming(vec![]), 1, Ok(None));
    assert_eq!(none, Response::Wait(ServerFsm::Listener(incoming(vec![]), 1)));
    let bad: Response<Fsm, u8> = ServerFsm::accepted(incoming(vec![]), 1, Err("bad"));
    assert_eq!(bad, Response::Wait(ServerFsm::Listener(incoming(vec![]), 1)));
}

#[test]
fn connections_decide_for_themselves() {
    let limit = Duration::from_millis(1500);
    let turns: Vec<(Turn<&'static str>, Response<Fsm, u8>)> = vec![
        (Some(("conn", None)), Response::Wait(ServerFsm::Conn("conn"))),
        (Some(("conn", Some(limit))), Response::Deadline(ServerFsm::Conn("conn"), limit)),
        (None, Response::Done),
    ];
    for (turn, expected) in turns {
        let ready: Turned = ServerFsm::Conn(turn);
        assert_eq!(ready.ready(), expected);
        let late: Turned = ServerFsm::Conn(turn);
        assert_eq!(late.timeout(), expected);
        let woken: Turned = ServerFsm::Conn(turn);
        assert_eq!(woken.wakeup(true), Wakeup::Respond(expected));
        let r: Response<Fsm, u8> = ServerFsm::turned(turn);
        let again: Turned = ServerFsm::Conn(turn);
        assert_eq!(r, again.ready());
    }
}

#[test]
fn a_connection_is_made_and_spawns_nothing() {
    assert_eq!(Fsm::interest(), Interest::Readable);
    let limit = Duration::from_millis(250);
    let made: Response<Fsm, u8> = ServerFsm::begun("conn", limit);
    assert_eq!(made, Response::Deadline(ServerFsm::Conn("conn"), limit));
    let fsm: Fsm = ServerFsm::Conn("conn");
    assert_eq!(fsm.spawned(), Response::Wait(ServerFsm::Conn("conn")));
}

#[derive(Debug, PartialEq)]
struct Opened(u8, &'static str, bool, Duration);

impl Conn<u8> for Opened {
    type Notifier = &'static str;

    fn new(stream: u8, notifier: &'static str, keep_alive: bool, idle_timeout: Duration) -> Opened {
        Opened(stream, notifier, keep_alive, idle_timeout)
    }
}

#[test]
fn connections_follow_the_settings() {
    for keep_alive in [true, false] {
        for secs in [0, 3, 600] {
            let limit = Duration::from_secs(secs);
            let server = Server::new(incoming(vec![])).keep_alive(keep_alive).idle_timeout(limit);
            let mut context = server.handle(Counter(0), ()).context;
            context.create(1);
            let r: Result<Response<ServerFsm<Incoming, (), Opened>, u8>, &str> =
                ServerFsm::create(9, "wake", &context, Ok(()));
            assert_eq!(
                r,
                Ok(Response::Deadline(
                    ServerFsm::Conn(Opened(9, "wake", keep_alive, limit)),
                    limit
                ))
            );
        }
    }
}

#[test]
fn an_unregistered_stream_gets_no_machine() {
    let context = Context { keep_alive: true, idle_timeout: Duration::from_secs(1), factory: () };
    let r: Result<Response<ServerFsm<Incoming, (), Opened>, u8>, &str> =
        ServerFsm::create(9, "wake", &context, Err("no descriptor"));
    assert_eq!(r, Err("no descriptor"));
}

#[test]
fn closing_stops_the_listener() {
    let fsm: Turned = ServerFsm::Listener(incoming(vec![Ok(Some(1))]), 3);
    let r: Wakeup<Incoming, Fsm, u8> = fsm.wakeup(false);
    assert_eq!(
        r,
        Wakeup::Respond(Response::Wait(ServerFsm::Listener(incoming(vec![Ok(Some(1))]), 3)))
    );
    let fsm: Turned = ServerFsm::Listener(incoming(vec![Ok(Some(1))]), 3);
    let r: Wakeup<Incoming, Fsm, u8> = fsm.wakeup(true);
    assert_eq!(r, Wakeup::Shutdown(incoming(vec![Ok(Some(1))])));
}

#[derive(Debug, PartialEq)]
enum Then {
    Read,
    Remove,
}

impl Next for Then {
    fn remove() -> Then {
        Then::Remove
    }
}

#[derive(Debug, PartialEq)]
struct Numbered(u32);

impl Handler for Numbered {
    type Next = Then;
    type Request = ();
    type Response = ();
    type Decoder = ();
    type Encoder = ();
    type Error = &'static str;

    fn on_request(&mut self, _: ()) -> Then {
        Then::Read
    }

    fn on_request_readable(&mut self, _: &mut ()) -> Then {
        Then::Read
    }

    fn on_response(&mut self, _: &mut ()) -> Then {
        Then::Read
    }

    fn on_response_writable(&mut self, _: &mut ()) -> Then {
        Then::Read
    }
}

struct Counter(u32);

impl HandlerFactory for Counter {
    type Output = Numbered;
    type Control = u32;

    fn create(&mut self, ctrl: u32) -> Numbered {
        self.0 += 1;
        Numbered(self.0 * 100 + ctrl)
    }
}

#[test]
fn handlers_come_from_the_factory() {
    let limit = Duration::from_secs(2);
    let mut context = Context { keep_alive: false, idle_timeout: limit, factory: Counter(0) };
    assert_eq!(context.create(7), Numbered(107));
    assert_eq!(context.create(8), Numbered(208));
    assert!(!context.keep_alive);
    assert_eq!(context.idle_timeout, limit);
}

#[test]
fn an_error_removes_the_connection_by_default() {
    let mut handler = Numbered(1);
    assert_eq!(handler.on_error("broken"), Then::Remove);
    assert_eq!(handler, Numbered(1));
}
