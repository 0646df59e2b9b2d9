//! The server.

use vstd::prelude::*;

use std::time::Duration;

use crate::error::Error;
use crate::http::Next;
use crate::machine::{after_turn, Interest, Response, Turn, Wakeup};
use crate::net::{Accept, HttpsListener, Log, Ssl};

verus! {

/// The length of time that `Duration::from_secs` makes.
pub uninterp spec fn seconds(secs: u64) -> Duration;

/// Trusted: the result of `Duration::from_secs` depends on the number of
/// seconds alone, which gives it the name `seconds`.
pub assume_specification[ Duration::from_secs ](secs: u64) -> (d: Duration)
    ensures
        d == seconds(secs),
;

/// A server that takes in connections on a listener.
#[derive(Debug)]
pub struct Server<T: Accept> {
    listener: T,
    keep_alive: bool,
    idle_timeout: Duration,
    max_sockets: usize,
}

/// The settings of a server.
pub struct ServerView<T> {
    pub listener: T,
    pub keep_alive: bool,
    pub idle_timeout: Duration,
    pub max_sockets: usize,
}

impl<T: Accept> View for Server<T> {
    type V = ServerView<T>;

    closed spec fn view(&self) -> ServerView<T> {
        ServerView {
            listener: self.listener,
            keep_alive: self.keep_alive,
            idle_timeout: self.idle_timeout,
            max_sockets: self.max_sockets,
        }
    }
}

impl<T> ServerView<T> {
    /// The same settings but for keep-alive.
    pub open spec fn keep_alive(self, val: bool) -> ServerView<T> {
        ServerView { keep_alive: val, ..self }
    }

    /// The same settings but for the idle timeout.
    pub open spec fn idle_timeout(self, val: Duration) -> ServerView<T> {
        ServerView { idle_timeout: val, ..self }
    }

    /// The same settings but for the number of sockets.
    pub open spec fn max_sockets(self, val: usize) -> ServerView<T> {
        ServerView { max_sockets: val, ..self }
    }
}

/// The settings of a new server.
pub open spec fn default_settings<T>(listener: T) -> ServerView<T> {
    ServerView { listener, keep_alive: true, idle_timeout: seconds(10), max_sockets: 4096 }
}

impl<T: Accept> Server<T> {
    /// A server on the given listener, with keep-alive, an idle timeout of ten
    /// seconds and at most 4096 open sockets.
    pub fn new(listener: T) -> (server: Server<T>)
        ensures
            server@ == default_settings(listener),
    {
        Server {
            listener,
            keep_alive: true,
            idle_timeout: Duration::from_secs(10),
            max_sockets: 4096,
        }
    }

    /// Enables or disables HTTP keep-alive.
    ///
    /// Default is true.
    pub fn keep_alive(self, val: bool) -> (server: Server<T>)
        ensures
            server@ == self@.keep_alive(val),
    {
        let mut server = self;
        server.keep_alive = val;
        server
    }

    /// Sets how long an idle connection will be kept before closing.
    ///
    /// Default is 10 seconds.
    pub fn idle_timeout(self, val: Duration) -> (server: Server<T>)
        ensures
            server@ == self@.idle_timeout(val),
    {
        let mut server = self;
        server.idle_timeout = val;
        server
    }

    /// Sets the maximum open sockets for this server.
    ///
    /// Default is 4096, but most servers can handle much more than this.
    pub fn max_sockets(self, val: usize) -> (server: Server<T>)
        ensures
            server@ == self@.max_sockets(val),
    {
        let mut server = self;
        server.max_sockets = val;
        server
    }

    /// A server, with the settings of a new one, on the listener that an
    /// attempt to bind gave, if it gave one.
    pub fn http<I, S>(bound: Result<T, I>) -> (r: Result<Server<T>, Error<I, S>>)
        ensures
            match bound {
                Ok(listener) => r matches Ok(server) && server@ == default_settings(listener),
                Err(e) => r == Err::<Server<T>, Error<I, S>>(Error::Io(e)),
            },
    {
        match bound {
            Ok(listener) => Ok(Server::new(listener)),
            Err(e) => Err(Error::Io(e)),
        }
    }

    /// Prepares the event loop: how large it has to be, what it listens with
    /// and what its connections share. `shutdown` is what the listening
    /// machine will look at to learn that it is to stop.
    pub fn handle<F, B>(self, factory: F, shutdown: B) -> (launch: Launch<T, F, B>)
        ensures
            launch.slab_capacity == self@.max_sockets,
            launch.notify_capacity == self@.max_sockets,
            launch.timer_capacity == self@.max_sockets,
            launch.interest == Interest::Readable,
            launch.context == (Context {
                keep_alive: self@.keep_alive,
                idle_timeout: self@.idle_timeout,
                factory,
            }),
            launch.listener == self@.listener,
            launch.shutdown == shutdown,
    {
        Launch {
            slab_capacity: self.max_sockets,
            notify_capacity: self.max_sockets,
            timer_capacity: self.max_sockets,
            interest: Interest::Readable,
            context: Context {
                keep_alive: self.keep_alive,
                idle_timeout: self.idle_timeout,
                factory,
            },
            listener: self.listener,
            shutdown,
        }
    }
}

impl<L: Accept, P: Ssl<L::Output, IoError = L::Error>> Server<HttpsListener<L, P>> {
    /// A server, with the settings of a new one, that protects what comes in on
    /// the listener that an attempt to bind gave, if it gave one.
    pub fn https<I, S>(bound: Result<L, I>, ssl: P) -> (r: Result<
        Server<HttpsListener<L, P>>,
        Error<I, S>,
    >)
        ensures
            match bound {
                Ok(listener) => r matches Ok(server) && server@ == default_settings(
                    server@.listener,
                ) && server@.listener.listener_spec() == listener
                    && server@.listener.ssl_spec() == ssl,
                Err(e) => r == Err::<Server<HttpsListener<L, P>>, Error<I, S>>(Error::Io(e)),
            },
    {
        Self::http(HttpsListener::new(bound, ssl))
    }
}

/// What an event loop needs to run a server.
#[derive(Debug)]
pub struct Launch<T, F, B> {
    /// How many machines the loop has room for.
    pub slab_capacity: usize,
    /// How many notifications the loop has room for.
    pub notify_capacity: usize,
    /// How many deadlines the loop has room for: every connection may have one.
    pub timer_capacity: usize,
    /// What the listener is watched for.
    pub interest: Interest,
    /// What the connections share.
    pub context: Context<F>,
    /// The listener to watch.
    pub listener: T,
    /// What the listening machine looks at when it is woken.
    pub shutdown: B,
}

/// What the connections of a server share.
#[derive(Debug, PartialEq, Eq)]
pub struct Context<F> {
    /// Whether a connection may carry more than one message.
    pub keep_alive: bool,
    /// How long a connection is kept while it is idle.
    pub idle_timeout: Duration,
    pub factory: F,
}

impl<F: HandlerFactory> Context<F> {
    /// Makes the handler of a new message.
    pub fn create(&mut self, ctrl: F::Control) -> (handler: F::Output)
        ensures
            final(self).keep_alive == old(self).keep_alive,
            final(self).idle_timeout == old(self).idle_timeout,
            exists|factory: &mut F|
                *factory == old(self).factory && *final(factory) == final(self).factory
                    && #[trigger] call_ensures(F::create, (factory, ctrl), handler),
    {
        let factory = &mut self.factory;
        factory.create(ctrl)
    }
}

/// A trait to react to server events that happen for each message.
///
/// Each event handler returns its desired `Next` action.
pub trait Handler: Send + 'static {
    type Next: Next;

    type Request;

    type Response;

    type Decoder;

    type Encoder;

    type Error;

    /// This event occurs first, triggering when a request has been parsed.
    fn on_request(&mut self, request: Self::Request) -> Self::Next;

    /// This event occurs each time the request is ready to be read from.
    fn on_request_readable(&mut self, request: &mut Self::Decoder) -> Self::Next;

    /// This event occurs after the first time this handler asks to write.
    fn on_response(&mut self, response: &mut Self::Response) -> Self::Next;

    /// This event occurs each time the response is ready to be written to.
    fn on_response_writable(&mut self, response: &mut Self::Encoder) -> Self::Next;

    /// This event occurs whenever an error occurs outside of the other events,
    /// such as an I/O error while waiting for events, or a timeout.
    fn on_error(&mut self, err: Self::Error) -> (next: Self::Next) where Self: Sized
        default_ensures
            *final(self) == *old(self),
            call_ensures(<Self::Next as Next>::remove, (), next),
    {
        <Self::Next as Next>::remove()
    }
}

/// Used to create a `Handler` when a new message is received by the server.
pub trait HandlerFactory: Send + 'static {
    /// The `Handler` to use for the incoming message.
    type Output: Handler;

    /// The means by which a handler can be reached from elsewhere.
    type Control;

    /// Creates the associated `Handler`.
    fn create(&mut self, ctrl: Self::Control) -> Self::Output;
}

/// A connection that the message layer runs over a stream `T`.
pub trait Conn<T>: Sized {
    /// The means by which the connection can be woken from elsewhere.
    type Notifier;

    /// The connection over a new stream.
    ///
    /// With `keep_alive` it may carry more than one message. Whenever no message
    /// is under way it is idle: it then asks for a turn after `idle_timeout`,
    /// and is finished once that time has run out.
    fn new(
        stream: T,
        notifier: Self::Notifier,
        keep_alive: bool,
        idle_timeout: Duration,
    ) -> Self;
}

/// A machine of the server: the one that listens, or one of its connections.
/// `B` is what the listening machine looks at to learn that it is to stop.
#[derive(Debug, PartialEq, Eq)]
pub enum ServerFsm<A, B, C> {
    Listener(A, B),
    Conn(C),
}

impl<A: Accept, B, C> ServerFsm<A, B, C> {
    /// What becomes of the listening machine when it has asked for the next
    /// stream: it keeps listening, whatever came.
    pub open spec fn after_accept(
        listener: A,
        shutdown: B,
        accepted: Result<Option<A::Output>, A::Error>,
    ) -> Response<ServerFsm<A, B, C>, A::Output> {
        match accepted {
            Ok(Some(stream)) => Response::Spawn(ServerFsm::Listener(listener, shutdown), stream),
            _ => Response::Wait(ServerFsm::Listener(listener, shutdown)),
        }
    }

    /// What becomes of a connection after its turn.
    pub open spec fn after_conn(turn: Turn<C>) -> Response<ServerFsm<A, B, C>, A::Output> {
        after_turn(turn, |c: C| ServerFsm::Conn(c))
    }

    /// Whether `r` is what may become of the listening machine when it asks for
    /// the next stream.
    pub open spec fn listened(
        listener: A,
        shutdown: B,
        r: Response<ServerFsm<A, B, C>, A::Output>,
    ) -> bool {
        exists|accepted: Result<Option<A::Output>, A::Error>| #[trigger]
            call_ensures(A::accept, (&listener,), accepted) && r == Self::after_accept(
                listener,
                shutdown,
                accepted,
            )
    }

    /// The machine of a new connection. Nothing has come in yet, so it waits no
    /// longer than an idle connection is kept.
    pub fn begun(conn: C, idle_timeout: Duration) -> (r: Response<ServerFsm<A, B, C>, A::Output>)
        ensures
            r == Response::<ServerFsm<A, B, C>, A::Output>::Deadline(
                ServerFsm::Conn(conn),
                idle_timeout,
            ),
    {
        Response::Deadline(ServerFsm::Conn(conn), idle_timeout)
    }

    /// What a new connection is watched for: a server listens first.
    pub fn interest() -> (r: Interest)
        ensures
            r == Interest::Readable,
    {
        Interest::Readable
    }

    /// Keeps listening, and hands on the stream that came, if one did.
    pub fn accepted(
        listener: A,
        shutdown: B,
        accepted: Result<Option<A::Output>, A::Error>,
    ) -> (r: Response<ServerFsm<A, B, C>, A::Output>)
        ensures
            r == Self::after_accept(listener, shutdown, accepted),
    {
        match accepted {
            Ok(Some(stream)) => Response::Spawn(ServerFsm::Listener(listener, shutdown), stream),
            Ok(None) => Response::Wait(ServerFsm::Listener(listener, shutdown)),
            // An error here is usually one of a single stream.
            Err(_) => Response::Wait(ServerFsm::Listener(listener, shutdown)),
        }
    }

    /// Asks for the next stream, once, and takes down the answer. The stream
    /// that came, if one did, is all that is handed on.
    pub fn attend(log: &mut Log<A>) -> (stream: Option<A::Output>)
        ensures
            final(log).listener() == old(log).listener(),
            final(log).given().len() == old(log).given().len() + 1,
            final(log).given().drop_last() == old(log).given(),
            call_ensures(A::accept, (&old(log).listener(),), final(log).given().last()),
            stream == (match final(log).given().last() {
                Ok(stream) => stream,
                Err(_) => None,
            }),
    {
        let answer = log.accept();
        assert(log.given().drop_last() =~= old(log).given());
        match answer {
            Ok(stream) => stream,
            // An error here is usually one of a single stream.
            Err(_) => None,
        }
    }

    /// Asks for the next stream and keeps listening.
    fn listen(listener: A, shutdown: B) -> (r: Response<ServerFsm<A, B, C>, A::Output>)
        ensures
            Self::listened(listener, shutdown, r),
    {
        let mut log = Log::new(listener);
        let stream = Self::attend(&mut log);
        let ghost answer = log.given().last();
        assert(call_ensures(A::accept, (&listener,), answer));
        let listener = log.into_listener();
        let r = Self::accepted(listener, shutdown, Ok(stream));
        assert(r == Self::after_accept(listener, shutdown, answer));
        r
    }

    /// Goes on with a connection after its turn.
    pub fn turned(turn: Turn<C>) -> (r: Response<ServerFsm<A, B, C>, A::Output>)
        ensures
            r == Self::after_conn(turn),
    {
        match turn {
            Some((conn, None)) => Response::Wait(ServerFsm::Conn(conn)),
            Some((conn, Some(dur))) => Response::Deadline(ServerFsm::Conn(conn), dur),
            None => Response::Done,
        }
    }

    /// Called when the machine that this one spawned has been made.
    pub fn spawned(self) -> (r: Response<ServerFsm<A, B, C>, A::Output>)
        ensures
            match self {
                ServerFsm::Listener(listener, shutdown) => Self::listened(listener, shutdown, r),
                ServerFsm::Conn(_) => r == Response::<ServerFsm<A, B, C>, A::Output>::Wait(self),
            },
    {
        match self {
            ServerFsm::Listener(listener, shutdown) => Self::listen(listener, shutdown),
            sock => Response::Wait(sock),
        }
    }
}

impl<A: Accept, B, C: Conn<A::Output>> ServerFsm<A, B, C> {
    /// Whether `r` is what may become of a new stream: a connection with the
    /// keep-alive and the idle timeout of the context, which starts idle.
    pub open spec fn created<F>(
        stream: A::Output,
        notifier: C::Notifier,
        context: Context<F>,
        r: Response<ServerFsm<A, B, C>, A::Output>,
    ) -> bool {
        exists|conn: C| #[trigger]
            call_ensures(
                C::new,
                (stream, notifier, context.keep_alive, context.idle_timeout),
                conn,
            ) && r == Response::<ServerFsm<A, B, C>, A::Output>::Deadline(
                ServerFsm::Conn(conn),
                context.idle_timeout,
            )
    }

    /// Makes the machine of a new stream. `registered` is what came of
    /// registering the stream with the event loop; without that there is no
    /// machine.
    pub fn create<F, E>(
        stream: A::Output,
        notifier: C::Notifier,
        context: &Context<F>,
        registered: Result<(), E>,
    ) -> (r: Result<Response<ServerFsm<A, B, C>, A::Output>, E>)
        ensures
            match registered {
                Ok(()) => r matches Ok(response) && Self::created(
                    stream,
                    notifier,
                    *context,
                    response,
                ),
                Err(e) => r == Err::<Response<ServerFsm<A, B, C>, A::Output>, E>(e),
            },
    {
        match registered {
            Ok(()) => {
                let conn = C::new(stream, notifier, context.keep_alive, context.idle_timeout);
                assert(call_ensures(
                    C::new,
                    (stream, notifier, context.keep_alive, context.idle_timeout),
                    conn,
                ));
                Ok(Self::begun(conn, context.idle_timeout))
            },
            Err(e) => Err(e),
        }
    }
}

/// A machine whose connection, if it is one, has had its turn.
impl<A: Accept, B, C> ServerFsm<A, B, Turn<C>> {
    /// Called when the socket of the machine is ready.
    pub fn ready(self) -> (r: Response<ServerFsm<A, B, C>, A::Output>)
        ensures
            match self {
                ServerFsm::Listener(listener, shutdown) => ServerFsm::<A, B, C>::listened(
                    listener,
                    shutdown,
                    r,
                ),
                ServerFsm::Conn(turn) => r == ServerFsm::<A, B, C>::after_conn(turn),
            },
    {
        match self {
            ServerFsm::Listener(listener, shutdown) => {
                ServerFsm::<A, B, C>::listen(listener, shutdown)
            },
            ServerFsm::Conn(turn) => ServerFsm::<A, B, C>::turned(turn),
        }
    }

    /// Called when the time of a connection has run out. The listening machine
    /// has no deadline.
    pub fn timeout(self) -> (r: Response<ServerFsm<A, B, C>, A::Output>)
        requires
            self is Conn,
        ensures
            r == ServerFsm::<A, B, C>::after_conn(self->Conn_0),
    {
        match self {
            ServerFsm::Listener(_, _) => vstd::pervasive::unreached(),
            ServerFsm::Conn(turn) => ServerFsm::<A, B, C>::turned(turn),
        }
    }

    /// Called when the machine is woken from outside. `closing` says whether
    /// the listening machine was told to stop.
    pub fn wakeup(self, closing: bool) -> (r: Wakeup<A, ServerFsm<A, B, C>, A::Output>)
        ensures
            r == (match self {
                ServerFsm::Listener(listener, shutdown) => if closing {
                    Wakeup::Shutdown(listener)
                } else {
                    Wakeup::Respond(Response::Wait(ServerFsm::Listener(listener, shutdown)))
                },
                ServerFsm::Conn(turn) => Wakeup::Respond(
                    ServerFsm::<A, B, C>::after_conn(turn),
                ),
            }),
    {
        match self {
            ServerFsm::Listener(listener, shutdown) => {
                if closing {
                    Wakeup::Shutdown(listener)
                } else {
                    Wakeup::Respond(Response::Wait(ServerFsm::Listener(listener, shutdown)))
                }
            },
            ServerFsm::Conn(turn) => Wakeup::Respond(ServerFsm::<A, B, C>::turned(turn)),
        }
    }
}

/// Each setting of a server is its own: what one call sets, a call for another
/// setting leaves alone, in whichever order they come, and of two calls for one
/// setting the later one counts.
pub proof fn law_settings_are_independent<T>(
    server: ServerView<T>,
    keep_alive: bool,
    idle_timeout: Duration,
    max_sockets: usize,
    earlier: ServerView<T>,
)
    ensures
        server.keep_alive(keep_alive).idle_timeout(idle_timeout) == server.idle_timeout(
            idle_timeout,
        ).keep_alive(keep_alive),
        server.keep_alive(keep_alive).max_sockets(max_sockets) == server.max_sockets(
            max_sockets,
        ).keep_alive(keep_alive),
        server.idle_timeout(idle_timeout).max_sockets(max_sockets) == server.max_sockets(
            max_sockets,
        ).idle_timeout(idle_timeout),
        server.keep_alive(earlier.keep_alive).keep_alive(keep_alive) == server.keep_alive(
            keep_alive,
        ),
        server.idle_timeout(earlier.idle_timeout).idle_timeout(idle_timeout)
            == server.idle_timeout(idle_timeout),
        server.max_sockets(earlier.max_sockets).max_sockets(max_sockets) == server.max_sockets(
            max_sockets,
        ),
{
}

/// Every connection of a server has keep-alive exactly as it was set there and
/// is told how long it is kept while idle, and it is idle for no longer than
/// that before its first turn. `launched` is the context that the event loop
/// starts with, and `context` is what it has become by the time the stream comes
/// in: handlers that were made meanwhile change the factory alone.
pub proof fn law_connections_follow_the_settings<A: Accept, B, C: Conn<A::Output>, F>(
    server: ServerView<A>,
    launched: Context<F>,
    context: Context<F>,
    stream: A::Output,
    notifier: C::Notifier,
    r: Response<ServerFsm<A, B, C>, A::Output>,
)
    requires
        launched == (Context {
            keep_alive: server.keep_alive,
            idle_timeout: server.idle_timeout,
            factory: launched.factory,
        }),
        context == (Context { factory: context.factory, ..launched }),
        ServerFsm::<A, B, C>::created(stream, notifier, context, r),
    ensures
        r.limit() == Some(server.idle_timeout),
        r.seed() is None,
        exists|conn: C| #[trigger]
            call_ensures(
                C::new,
                (stream, notifier, server.keep_alive, server.idle_timeout),
                conn,
            ) && r.machine() == Some(ServerFsm::<A, B, C>::Conn(conn)),
{
}

/// Whatever comes of asking for the next stream, the server goes on listening
/// with the same listener, and without a time limit.
pub proof fn law_listening_goes_on<A: Accept, B, C>(
    listener: A,
    shutdown: B,
    r: Response<ServerFsm<A, B, C>, A::Output>,
)
    requires
        ServerFsm::listened(listener, shutdown, r),
    ensures
        r.machine() == Some(ServerFsm::<A, B, C>::Listener(listener, shutdown)),
        r.limit() is None,
{
}

/// A stream that comes in is handed on once, and nothing else is.
pub proof fn law_each_stream_is_handed_on<A: Accept, B, C>(
    listener: A,
    shutdown: B,
    accepted: Result<Option<A::Output>, A::Error>,
)
    ensures
        ServerFsm::<A, B, C>::after_accept(listener, shutdown, accepted).seed() == (
        match accepted {
            Ok(stream) => stream,
            Err(_) => None,
        }),
{
}

/// A connection goes on exactly as long as it wants to, with the time limit
/// that it asks for, and never makes another machine.
pub proof fn law_connections_decide_for_themselves<A: Accept, B, C>(turn: Turn<C>)
    ensures
        ({
            let r = ServerFsm::<A, B, C>::after_conn(turn);
            &&& r.seed() is None
            &&& match turn {
                Some((conn, limit)) => r.machine() == Some(ServerFsm::<A, B, C>::Conn(conn))
                    && r.limit() == limit,
                None => r.machine() is None && r.limit() is None,
            }
        }),
{
}

/// What is set is what is read back, for every value, and the other settings
/// stay as they were.
pub proof fn law_settings_read_back<T: Accept>(
    before: Server<T>,
    keep_alive: bool,
    idle_timeout: Duration,
    max_sockets: usize,
    alive: Server<T>,
    idle: Server<T>,
    sockets: Server<T>,
)
    requires
        call_ensures(Server::<T>::keep_alive, (before, keep_alive), alive),
        call_ensures(Server::<T>::idle_timeout, (before, idle_timeout), idle),
        call_ensures(Server::<T>::max_sockets, (before, max_sockets), sockets),
    ensures
        alive@.keep_alive == keep_alive,
        alive@.idle_timeout == before@.idle_timeout,
        alive@.max_sockets == before@.max_sockets,
        alive@.listener == before@.listener,
        idle@.idle_timeout == idle_timeout,
        idle@.keep_alive == before@.keep_alive,
        idle@.max_sockets == before@.max_sockets,
        idle@.listener == before@.listener,
        sockets@.max_sockets == max_sockets,
        sockets@.keep_alive == before@.keep_alive,
        sockets@.idle_timeout == before@.idle_timeout,
        sockets@.listener == before@.listener,
{
}

/// The event loop of a server that was set up in full has room for exactly as
/// many machines, notifications and deadlines as it was told, listens with its
/// listener, and gives its connections the keep-alive, the idle timeout and the
/// factory that it was told.
pub proof fn law_the_loop_follows_the_settings<T: Accept, F, B>(
    listener: T,
    keep_alive: bool,
    idle_timeout: Duration,
    max_sockets: usize,
    factory: F,
    shutdown: B,
    fresh: Server<T>,
    alive: Server<T>,
    idle: Server<T>,
    server: Server<T>,
    launch: Launch<T, F, B>,
)
    requires
        call_ensures(Server::<T>::new, (listener,), fresh),
        call_ensures(Server::<T>::keep_alive, (fresh, keep_alive), alive),
        call_ensures(Server::<T>::idle_timeout, (alive, idle_timeout), idle),
        call_ensures(Server::<T>::max_sockets, (idle, max_sockets), server),
        call_ensures(Server::<T>::handle::<F, B>, (server, factory, shutdown), launch),
    ensures
        launch.slab_capacity == max_sockets,
        launch.notify_capacity == max_sockets,
        launch.timer_capacity == max_sockets,
        launch.interest == Interest::Readable,
        launch.listener == listener,
        launch.shutdown == shutdown,
        launch.context.keep_alive == keep_alive,
        launch.context.idle_timeout == idle_timeout,
        launch.context.factory == factory,
{
}

/// A server that nothing was set on, however it was made, keeps connections
/// alive, closes idle ones after ten seconds and has room for 4096 sockets.
pub proof fn law_new_servers_have_the_defaults<
    T: Accept,
    L: Accept,
    P: Ssl<L::Output, IoError = L::Error>,
    I,
    S,
    F,
    B,
>(
    listener: T,
    raw: L,
    ssl: P,
    refused: I,
    factory: F,
    shutdown: B,
    plain: Server<T>,
    http: Result<Server<T>, Error<I, S>>,
    https: Result<Server<HttpsListener<L, P>>, Error<I, S>>,
    no_http: Result<Server<T>, Error<I, S>>,
    no_https: Result<Server<HttpsListener<L, P>>, Error<I, S>>,
    launch: Launch<T, F, B>,
)
    requires
        call_ensures(Server::<T>::new, (listener,), plain),
        call_ensures(Server::<T>::http::<I, S>, (Ok(listener),), http),
        call_ensures(Server::<HttpsListener<L, P>>::https::<I, S>, (Ok(raw), ssl), https),
        call_ensures(Server::<T>::http::<I, S>, (Err(refused),), no_http),
        call_ensures(Server::<HttpsListener<L, P>>::https::<I, S>, (Err(refused), ssl), no_https),
        call_ensures(Server::<T>::handle::<F, B>, (plain, factory, shutdown), launch),
    ensures
        plain@.listener == listener,
        plain@.keep_alive,
        plain@.idle_timeout == seconds(10),
        plain@.max_sockets == 4096,
        launch.slab_capacity == 4096,
        launch.context.keep_alive,
        launch.context.idle_timeout == seconds(10),
        http matches Ok(server) && server@ == plain@,
        https matches Ok(server) && server@.keep_alive && server@.idle_timeout == seconds(10)
            && server@.max_sockets == 4096 && server@.listener.listener_spec() == raw
            && server@.listener.ssl_spec() == ssl,
        no_http matches Err(Error::Io(e)) && e == refused,
        no_https matches Err(Error::Io(e)) && e == refused,
{
}

/// The streams among the answers of a listener, in order.
pub open spec fn streams<T, E>(answers: Seq<Result<Option<T>, E>>) -> Seq<T>
    decreases answers.len(),
{
    if answers.len() == 0 {
        seq![]
    } else {
        let before = streams(answers.drop_last());
        match answers.last() {
            Ok(Some(stream)) => before.push(stream),
            _ => before,
        }
    }
}

/// Each event takes one answer from the listener, and the stream that is handed
/// on for it is the one that came: over any history the streams handed on are
/// those that the listener gave, none lost, repeated or overtaken.
pub proof fn law_no_stream_is_lost<A: Accept, B, C>(handed_on: Seq<A::Output>)
    ensures
        forall|log: &mut Log<A>, stream: Option<A::Output>| #[trigger]
            call_ensures(ServerFsm::<A, B, C>::attend, (log,), stream) && streams(log.given())
                == handed_on ==> {
                &&& final(log).given().len() == log.given().len() + 1
                &&& streams(final(log).given()) == (match stream {
                    Some(stream) => handed_on.push(stream),
                    None => handed_on,
                })
            },
{
}

/// Whenever the listening machine is ready, or has spawned one, it asks its
/// listener. It goes on as it was, and hands on what came, if anything did: a
/// stream that came is never kept back, and none is made up.
pub proof fn law_listening_hands_on_what_came<A: Accept, B, C>(
    listener: A,
    shutdown: B,
    ready: Response<ServerFsm<A, B, C>, A::Output>,
    spawned: Response<ServerFsm<A, B, C>, A::Output>,
    accepted: Result<Option<A::Output>, A::Error>,
    r: Response<ServerFsm<A, B, C>, A::Output>,
)
    requires
        call_ensures(
            ServerFsm::<A, B, Turn<C>>::ready,
            (ServerFsm::Listener(listener, shutdown),),
            ready,
        ),
        call_ensures(
            ServerFsm::<A, B, C>::spawned,
            (ServerFsm::Listener(listener, shutdown),),
            spawned,
        ),
        call_ensures(ServerFsm::<A, B, C>::accepted, (listener, shutdown, accepted), r),
    ensures
        exists|came: Result<Option<A::Output>, A::Error>| #[trigger]
            call_ensures(A::accept, (&listener,), came) && match came {
                Ok(Some(stream)) => ready matches Response::Spawn(m, s) && s == stream && m
                    == ServerFsm::<A, B, C>::Listener(listener, shutdown),
                _ => ready matches Response::Wait(m) && m == ServerFsm::<A, B, C>::Listener(
                    listener,
                    shutdown,
                ),
            },
        exists|came: Result<Option<A::Output>, A::Error>| #[trigger]
            call_ensures(A::accept, (&listener,), came) && match came {
                Ok(Some(stream)) => spawned matches Response::Spawn(m, s) && s == stream && m
                    == ServerFsm::<A, B, C>::Listener(listener, shutdown),
                _ => spawned matches Response::Wait(m) && m == ServerFsm::<A, B, C>::Listener(
                    listener,
                    shutdown,
                ),
            },
        match accepted {
            Ok(Some(stream)) => r matches Response::Spawn(m, s) && s == stream && m == ServerFsm::<
                A,
                B,
                C,
            >::Listener(listener, shutdown),
            _ => r matches Response::Wait(m) && m == ServerFsm::<A, B, C>::Listener(
                listener,
                shutdown,
            ),
        },
{
    let came = choose|came: Result<Option<A::Output>, A::Error>| #[trigger]
        call_ensures(A::accept, (&listener,), came) && ready == ServerFsm::<A, B, C>::after_accept(
            listener,
            shutdown,
            came,
        );
    let then = choose|came: Result<Option<A::Output>, A::Error>| #[trigger]
        call_ensures(A::accept, (&listener,), came) && spawned == ServerFsm::<A, B, C>::after_accept(
            listener,
            shutdown,
            came,
        );
}

/// Whatever the event, a connection that has had its turn goes on with what it
/// has become for as long as it asks, without a limit where it asks for none,
/// and is gone where it is finished. One that is only told of a machine it
/// spawned stays as it is.
pub proof fn law_connections_get_what_they_ask_for<A: Accept, B, C>(
    turn: Turn<C>,
    conn: C,
    closing: bool,
    ready: Response<ServerFsm<A, B, C>, A::Output>,
    late: Response<ServerFsm<A, B, C>, A::Output>,
    woken: Wakeup<A, ServerFsm<A, B, C>, A::Output>,
    turned: Response<ServerFsm<A, B, C>, A::Output>,
    spawned: Response<ServerFsm<A, B, C>, A::Output>,
)
    requires
        call_ensures(ServerFsm::<A, B, Turn<C>>::ready, (ServerFsm::Conn(turn),), ready),
        call_ensures(ServerFsm::<A, B, Turn<C>>::timeout, (ServerFsm::Conn(turn),), late),
        call_ensures(ServerFsm::<A, B, Turn<C>>::wakeup, (ServerFsm::Conn(turn), closing), woken),
        call_ensures(ServerFsm::<A, B, C>::turned, (turn,), turned),
        call_ensures(ServerFsm::<A, B, C>::spawned, (ServerFsm::Conn(conn),), spawned),
    ensures
        match turn {
            None => ready is Done,
            Some((c, None)) => ready matches Response::Wait(m) && m == ServerFsm::<A, B, C>::Conn(
                c,
            ),
            Some((c, Some(limit))) => ready matches Response::Deadline(m, l) && l == limit && m
                == ServerFsm::<A, B, C>::Conn(c),
        },
        late == ready,
        turned == ready,
        woken matches Wakeup::Respond(r) && r == ready,
        spawned matches Response::Wait(m) && m == ServerFsm::<A, B, C>::Conn(conn),
{
}

/// A listening machine that is woken stops exactly where it was told to, and
/// gives its listener back; otherwise nothing changes.
pub proof fn law_only_closing_stops_the_server<A: Accept, B, C>(
    listener: A,
    shutdown: B,
    closing: bool,
    r: Wakeup<A, ServerFsm<A, B, C>, A::Output>,
)
    requires
        call_ensures(
            ServerFsm::<A, B, Turn<C>>::wakeup,
            (ServerFsm::Listener(listener, shutdown), closing),
            r,
        ),
    ensures
        closing ==> (r matches Wakeup::Shutdown(l) && l == listener),
        !closing ==> (r matches Wakeup::Respond(Response::Wait(m)) && m == ServerFsm::<
            A,
            B,
            C,
        >::Listener(listener, shutdown)),
{
}

/// A new stream becomes a connection with the keep-alive and the idle timeout of
/// the context, watched for something to read and limited by the idle timeout.
/// Without its registration there is none, and the error is passed on.
pub proof fn law_streams_become_connections<A: Accept, B, C: Conn<A::Output>, F, E>(
    stream: A::Output,
    notifier: C::Notifier,
    context: &Context<F>,
    refused: E,
    interest: Interest,
    made: Result<Response<ServerFsm<A, B, C>, A::Output>, E>,
    failed: Result<Response<ServerFsm<A, B, C>, A::Output>, E>,
    conn: C,
    limit: Duration,
    begun: Response<ServerFsm<A, B, C>, A::Output>,
)
    requires
        call_ensures(
            ServerFsm::<A, B, C>::create::<F, E>,
            (stream, notifier, context, Ok(())),
            made,
        ),
        call_ensures(
            ServerFsm::<A, B, C>::create::<F, E>,
            (stream, notifier, context, Err(refused)),
            failed,
        ),
        call_ensures(ServerFsm::<A, B, C>::interest, (), interest),
        call_ensures(ServerFsm::<A, B, C>::begun, (conn, limit), begun),
    ensures
        made matches Ok(Response::Deadline(ServerFsm::Conn(c), l)) && l == context.idle_timeout
            && call_ensures(
            C::new,
            (stream, notifier, context.keep_alive, context.idle_timeout),
            c,
        ),
        failed matches Err(e) && e == refused,
        interest == Interest::Readable,
        begun matches Response::Deadline(ServerFsm::Conn(c), l) && c == conn && l == limit,
{
}

/// A handler is what the factory makes of the control, and the settings stay.
pub proof fn law_handlers_come_from_the_factory<F: HandlerFactory>(ctrl: F::Control)
    ensures
        forall|context: &mut Context<F>, handler: F::Output| #[trigger]
            call_ensures(Context::<F>::create, (context, ctrl), handler) ==> {
                &&& final(context).keep_alive == context.keep_alive
                &&& final(context).idle_timeout == context.idle_timeout
                &&& exists|factory: &mut F|
                    *factory == context.factory && *final(factory) == final(context).factory
                        && #[trigger] call_ensures(F::create, (factory, ctrl), handler)
            },
{
}

} // verus!
