//! The client.

use vstd::prelude::*;

use crate::error::Error;
use crate::header::Host;
use crate::http::{Next, RequestHead, RequestUri};
use crate::machine::{Interest, Response, Turn, Wakeup};
use crate::net::Connect;
use crate::uri::{
    law_path_begins_with_slash, lemma_url_is_written, names, parts_of, position, shows, spells,
    url_error, url_meaning, url_parsed, SchemeData, SchemeDataView, Url, UrlError, UrlView,
};

verus! {

/// Where a URL leads: the host and the port to connect to.
pub open spec fn destination(url: UrlView) -> Result<(Seq<char>, u16), UrlError> {
    match url.host() {
        None => Err(UrlError::EmptyHost),
        Some(host) => match url.port_or_default() {
            None => Err(UrlError::InvalidPort),
            Some(port) => Ok((host, port)),
        },
    }
}

/// The host and the port that a URL leads to.
pub fn get_host_and_port<I, S>(url: &Url) -> (r: Result<(String, u16), Error<I, S>>)
    ensures
        match destination(url@) {
            Ok((host, port)) => r matches Ok(v) && v.0@ == host && v.1 == port,
            Err(e) => r == Err::<(String, u16), Error<I, S>>(Error::Uri(e)),
        },
{
    let host = match url.serialize_host() {
        Some(host) => host,
        None => return Err(Error::Uri(UrlError::EmptyHost)),
    };
    let port = match url.port_or_default() {
        Some(port) => port,
        None => return Err(Error::Uri(UrlError::InvalidPort)),
    };
    Ok((host, port))
}

/// The parts of a URL that a request is written from.
#[derive(Debug, PartialEq, Eq)]
pub struct UrlParts {
    pub host: String,
    pub port: u16,
    pub path: RequestUri,
}

pub struct UrlPartsView {
    pub host: Seq<char>,
    pub port: u16,
    /// The path, where the request is for a path.
    pub path: Option<Seq<char>>,
}

/// The path, where the target is a path.
pub open spec fn path_of(uri: RequestUri) -> Option<Seq<char>> {
    match uri {
        RequestUri::AbsolutePath(path) => Some(path@),
        _ => None,
    }
}

impl View for UrlParts {
    type V = UrlPartsView;

    open spec fn view(&self) -> UrlPartsView {
        UrlPartsView { host: self.host@, port: self.port, path: path_of(self.path) }
    }
}

/// The parts of a URL that leads somewhere.
pub open spec fn url_parts(url: UrlView) -> UrlPartsView
    recommends
        destination(url) is Ok,
{
    UrlPartsView {
        host: destination(url)->Ok_0.0,
        port: destination(url)->Ok_0.1,
        path: url.path(),
    }
}

impl UrlParts {
    /// Addresses a request head: the `Host` header names the host and the port
    /// of the URL, and the target is its path. Nothing else changes.
    pub fn address<X>(self, head: &mut RequestHead<X>)
        ensures
            *final(head) == self.addressed(*old(head)),
    {
        head.host = Some(Host { hostname: self.host, port: Some(self.port) });
        head.uri = self.path;
    }

    /// The head that `address` makes of the given one.
    pub open spec fn addressed<X>(self, head: RequestHead<X>) -> RequestHead<X> {
        RequestHead {
            uri: self.path,
            host: Some(Host { hostname: self.host, port: Some(self.port) }),
            ..head
        }
    }
}

/// A trait to react to client events that happen for each message.
pub trait Handler: Send + 'static {
    type Next: Next;

    /// What the message layer keeps in a request head besides the target and
    /// the `Host` header.
    type Rest;

    type Response;

    type Encoder;

    type Decoder;

    type Error;

    fn on_request(&mut self, request: &mut RequestHead<Self::Rest>) -> Self::Next;

    fn on_request_writable(&mut self, request: &mut Self::Encoder) -> Self::Next;

    fn on_response(&mut self, response: Self::Response) -> Self::Next;

    fn on_response_readable(&mut self, response: &mut Self::Decoder) -> Self::Next;

    fn on_error(&mut self, err: Self::Error) -> (next: Self::Next) where Self: Sized
        default_ensures
            *final(self) == *old(self),
            call_ensures(<Self::Next as Next>::remove, (), next),
    {
        <Self::Next as Next>::remove()
    }
}

/// Used to create a `Handler` for each message that the client sends.
pub trait HandlerFactory: Send + 'static {
    /// The `Handler` to use for the message.
    type Output: Handler;

    /// The means by which a handler can be reached from elsewhere.
    type Control;

    /// Creates the associated `Handler`.
    fn create(&mut self, ctrl: Self::Control) -> Self::Output;
}

/// A message on its way: its handler, and the URL that it is for until the
/// request head has been written.
#[derive(Debug, PartialEq, Eq)]
pub struct Message<H> {
    pub handler: H,
    pub url: Option<UrlParts>,
}

impl<H: Handler> Message<H> {
    /// Addresses the request head and shows it to the handler.
    pub fn on_outgoing(&mut self, head: &mut RequestHead<H::Rest>) -> (next: H::Next)
        requires
            old(self).url is Some,
        ensures
            final(self).url is None,
            exists|handler: &mut H, request: &mut RequestHead<H::Rest>|
                *handler == old(self).handler && *final(handler) == final(self).handler && *request
                    == old(self).url->0.addressed(*old(head)) && *final(request) == *final(head)
                    && #[trigger] call_ensures(H::on_request, (handler, request), next),
    {
        match self.url.take() {
            Some(url) => url.address(head),
            None => vstd::pervasive::unreached(),
        }
        let handler = &mut self.handler;
        handler.on_request(head)
    }

    /// Passes on that the request can be written to.
    pub fn on_encode(&mut self, transport: &mut H::Encoder) -> (next: H::Next)
        ensures
            final(self).url == old(self).url,
            exists|handler: &mut H, encoder: &mut H::Encoder|
                *handler == old(self).handler && *final(handler) == final(self).handler && *encoder
                    == *old(transport) && *final(encoder) == *final(transport)
                    && #[trigger] call_ensures(H::on_request_writable, (handler, encoder), next),
    {
        let handler = &mut self.handler;
        handler.on_request_writable(transport)
    }

    /// Passes on the head of the response.
    pub fn on_incoming(&mut self, head: H::Response) -> (next: H::Next)
        ensures
            final(self).url == old(self).url,
            exists|handler: &mut H|
                *handler == old(self).handler && *final(handler) == final(self).handler
                    && #[trigger] call_ensures(H::on_response, (handler, head), next),
    {
        let handler = &mut self.handler;
        handler.on_response(head)
    }

    /// Passes on that the response can be read from.
    pub fn on_decode(&mut self, transport: &mut H::Decoder) -> (next: H::Next)
        ensures
            final(self).url == old(self).url,
            exists|handler: &mut H, decoder: &mut H::Decoder|
                *handler == old(self).handler && *final(handler) == final(self).handler && *decoder
                    == *old(transport) && *final(decoder) == *final(transport)
                    && #[trigger] call_ensures(H::on_response_readable, (handler, decoder), next),
    {
        let handler = &mut self.handler;
        handler.on_response_readable(transport)
    }

    /// Passes on an error.
    pub fn on_error(&mut self, error: H::Error) -> (next: H::Next)
        ensures
            final(self).url == old(self).url,
            exists|handler: &mut H|
                *handler == old(self).handler && *final(handler) == final(self).handler
                    && #[trigger] call_ensures(H::on_error, (handler, error), next),
    {
        let handler = &mut self.handler;
        handler.on_error(error)
    }
}

/// What the connections of a client share.
#[derive(Debug)]
pub struct Context<F> {
    /// The requests whose connections were opened but have no message yet.
    pub queue: Vec<UrlParts>,
    pub factory: F,
}

impl<F: HandlerFactory> Context<F> {
    /// Makes the message of the request that has waited longest.
    pub fn create(&mut self, ctrl: F::Control) -> (message: Message<F::Output>)
        requires
            old(self).queue@.len() > 0,
        ensures
            message.url == Some(old(self).queue@[0]),
            final(self).queue@ == old(self).queue@.skip(1),
            exists|factory: &mut F, handler: F::Output|
                *factory == old(self).factory && *final(factory) == final(self).factory
                    && message.handler == handler && #[trigger] call_ensures(
                    F::create,
                    (factory, ctrl),
                    handler,
                ),
    {
        let handler = {
            let factory = &mut self.factory;
            factory.create(ctrl)
        };
        let url = self.queue.remove(0);
        assert(self.queue@ =~= old(self).queue@.skip(1));
        Message { handler, url: Some(url) }
    }
}

/// What a client tells its event loop.
#[derive(Debug, PartialEq, Eq)]
pub enum Notify {
    /// A request to the given URL is to be made.
    Connect(Url),
    /// The loop is to stop.
    Shutdown,
}

/// Why no notification was received.
#[derive(Clone, Copy, Debug, PartialEq, Eq, Structural)]
pub enum TryRecvError {
    /// None is waiting.
    Empty,
    /// None can come any more.
    Disconnected,
}

/// A connection that the message layer runs over a stream `T`.
pub trait Conn<T>: Sized {
    /// The connection over a new stream.
    fn new(stream: T) -> Self;
}

/// A machine of the client: the one that opens connections, which receives its
/// notifications on `R`, or one of the connections.
#[derive(Debug, PartialEq, Eq)]
pub enum ClientFsm<C, R, S> {
    Connector(C, R),
    Socket(S),
}

/// What the event loop of a client starts from: the machine that opens
/// connections, and a context in which no request waits.
pub fn with_connector<C, R, S, F>(connector: C, rx: R, factory: F) -> (r: (
    ClientFsm<C, R, S>,
    Context<F>,
))
    ensures
        r.0 == ClientFsm::<C, R, S>::Connector(connector, rx),
        r.1.queue@ == Seq::<UrlParts>::empty(),
        r.1.factory == factory,
{
    (ClientFsm::Connector(connector, rx), Context { queue: Vec::new(), factory })
}

impl<C: Connect, R, S> ClientFsm<C, R, S> {
    /// The machine of a new connection.
    pub fn begun(conn: S) -> (r: Response<ClientFsm<C, R, S>, C::Output>)
        ensures
            r == Response::<ClientFsm<C, R, S>, C::Output>::Wait(ClientFsm::Socket(conn)),
    {
        Response::Wait(ClientFsm::Socket(conn))
    }

    /// What a new connection is watched for: a client speaks first.
    pub fn interest() -> (r: Interest)
        ensures
            r == Interest::Writable,
    {
        Interest::Writable
    }

    /// Called when the machine that this one spawned has been made.
    pub fn spawned(self) -> (r: Response<ClientFsm<C, R, S>, C::Output>)
        ensures
            r == Response::<ClientFsm<C, R, S>, C::Output>::Wait(self),
    {
        Response::Wait(self)
    }

    /// What becomes of a connection after its turn. No time limits it.
    pub open spec fn after_conn(turn: Turn<S>) -> Response<ClientFsm<C, R, S>, C::Output> {
        match turn {
            Some((conn, _)) => Response::Wait(ClientFsm::Socket(conn)),
            None => Response::Done,
        }
    }

    /// Whether the connecting machine goes from `before` to `after` waiting
    /// requests and becomes `r` when a connection for `url` was tried.
    pub open spec fn tried(
        connector: C,
        rx: R,
        url: UrlView,
        socket: Result<C::Output, Error<C::IoError, C::SslError>>,
        before: Seq<UrlParts>,
        after: Seq<UrlParts>,
        r: Wakeup<C, ClientFsm<C, R, S>, C::Output>,
    ) -> bool {
        match socket {
            Ok(socket) => {
                &&& after.len() == before.len() + 1
                &&& after.drop_last() == before
                &&& after.last()@ == url_parts(url)
                &&& r == Wakeup::<C, ClientFsm<C, R, S>, C::Output>::Respond(
                    Response::Spawn(ClientFsm::Connector(connector, rx), socket),
                )
            },
            Err(_) => {
                &&& after == before
                &&& r == Wakeup::<C, ClientFsm<C, R, S>, C::Output>::Respond(
                    Response::Wait(ClientFsm::Connector(connector, rx)),
                )
            },
        }
    }

    /// Whether the machine goes from `before` to `after` waiting requests and
    /// becomes `r` when it is woken and finds `received`.
    pub open spec fn woken(
        self,
        received: Result<Notify, TryRecvError>,
        before: Seq<UrlParts>,
        after: Seq<UrlParts>,
        r: Wakeup<C, ClientFsm<C, R, S>, C::Output>,
    ) -> bool {
        match self {
            ClientFsm::Connector(connector, rx) => match received {
                Ok(Notify::Shutdown) => {
                    &&& after == before
                    &&& r == Wakeup::<C, ClientFsm<C, R, S>, C::Output>::Shutdown(connector)
                },
                Ok(Notify::Connect(url)) => match destination(url@) {
                    Ok((host, port)) => exists|
                        h: &str,
                        s: &str,
                        socket: Result<C::Output, Error<C::IoError, C::SslError>>,
                    |
                        h@ == host && s@ == url@.scheme && #[trigger] call_ensures(
                            C::connect,
                            (&connector, h, port, s),
                            socket,
                        ) && Self::tried(connector, rx, url@, socket, before, after, r),
                    Err(_) => self.unmoved(before, after, r),
                },
                Err(_) => self.unmoved(before, after, r),
            },
            ClientFsm::Socket(_) => self.unmoved(before, after, r),
        }
    }

    /// Whether nothing changes.
    pub open spec fn unmoved(
        self,
        before: Seq<UrlParts>,
        after: Seq<UrlParts>,
        r: Wakeup<C, ClientFsm<C, R, S>, C::Output>,
    ) -> bool {
        &&& after == before
        &&& r == Wakeup::<C, ClientFsm<C, R, S>, C::Output>::Respond(Response::Wait(self))
    }

    /// Goes on after a connection for `url` was tried: where it was opened, the
    /// request joins the queue and the connection is handed on.
    pub fn connected(
        connector: C,
        rx: R,
        url: &Url,
        host: String,
        port: u16,
        socket: Result<C::Output, Error<C::IoError, C::SslError>>,
        queue: &mut Vec<UrlParts>,
    ) -> (r: Wakeup<C, ClientFsm<C, R, S>, C::Output>)
        requires
            destination(url@) == Ok::<(Seq<char>, u16), UrlError>((host@, port)),
        ensures
            Self::tried(
                connector,
                rx,
                url@,
                socket,
                old(queue)@,
                final(queue)@,
                r,
            ),
    {
        match socket {
            Ok(socket) => {
                let path = match url.serialize_path() {
                    Some(path) => path,
                    None => vstd::pervasive::unreached(),
                };
                let parts = UrlParts { host, port, path: RequestUri::AbsolutePath(path) };
                queue.push(parts);
                assert(queue@.drop_last() =~= old(queue)@);
                Wakeup::Respond(Response::Spawn(ClientFsm::Connector(connector, rx), socket))
            },
            Err(_) => Wakeup::Respond(Response::Wait(ClientFsm::Connector(connector, rx))),
        }
    }

    /// Called when the machine is woken from outside. `received` is what the
    /// connecting machine found when it looked for a notification.
    pub fn wakeup(
        self,
        received: Result<Notify, TryRecvError>,
        queue: &mut Vec<UrlParts>,
    ) -> (r: Wakeup<C, ClientFsm<C, R, S>, C::Output>)
        requires
            self is Connector ==> received != Err::<Notify, TryRecvError>(
                TryRecvError::Disconnected,
            ),
        ensures
            self.woken(received, old(queue)@, final(queue)@, r),
    {
        match self {
            ClientFsm::Connector(connector, rx) => match received {
                Ok(Notify::Connect(url)) => {
                    let (host, port) = match get_host_and_port::<C::IoError, C::SslError>(&url) {
                        Ok(v) => v,
                        Err(_) => {
                            return Wakeup::Respond(
                                Response::Wait(ClientFsm::Connector(connector, rx)),
                            );
                        },
                    };
                    let h = host.as_str();
                    let s = url.scheme.as_str();
                    let socket = connector.connect(h, port, s);
                    assert(call_ensures(C::connect, (&connector, h, port, s), socket));
                    Self::connected(connector, rx, &url, host, port, socket, queue)
                },
                Ok(Notify::Shutdown) => Wakeup::Shutdown(connector),
                // A spurious wakeup.
                Err(_) => Wakeup::Respond(Response::Wait(ClientFsm::Connector(connector, rx))),
            },
            other => Wakeup::Respond(Response::Wait(other)),
        }
    }
}

impl<C: Connect, R, S: Conn<C::Output>> ClientFsm<C, R, S> {
    /// Makes the machine of a new stream. `registered` is what came of
    /// registering the stream with the event loop; without that there is no
    /// machine.
    pub fn create<E>(stream: C::Output, registered: Result<(), E>) -> (r: Result<
        Response<ClientFsm<C, R, S>, C::Output>,
        E,
    >)
        ensures
            match registered {
                Ok(()) => exists|conn: S| #[trigger]
                    call_ensures(S::new, (stream,), conn) && r == Ok::<
                        Response<ClientFsm<C, R, S>, C::Output>,
                        E,
                    >(Response::Wait(ClientFsm::Socket(conn))),
                Err(e) => r == Err::<Response<ClientFsm<C, R, S>, C::Output>, E>(e),
            },
    {
        match registered {
            Ok(()) => {
                let conn = S::new(stream);
                assert(call_ensures(S::new, (stream,), conn));
                Ok(Self::begun(conn))
            },
            Err(e) => Err(e),
        }
    }
}

/// A machine whose connection, if it is one, has had its turn.
impl<C: Connect, R, S> ClientFsm<C, R, Turn<S>> {
    /// Called when the socket of a connection is ready. The connecting machine
    /// has none.
    pub fn ready(self) -> (r: Response<ClientFsm<C, R, S>, C::Output>)
        requires
            self is Socket,
        ensures
            r == ClientFsm::<C, R, S>::after_conn(self->Socket_0),
    {
        match self {
            ClientFsm::Connector(_, _) => vstd::pervasive::unreached(),
            ClientFsm::Socket(turn) => match turn {
                Some((conn, _)) => Response::Wait(ClientFsm::Socket(conn)),
                None => Response::Done,
            },
        }
    }
}

/// A helper trait to convert common objects into a URL.
pub trait IntoUrl {
    /// Consumes the object, trying to return a URL.
    fn into_url(self) -> Result<Url, UrlError>;
}

impl IntoUrl for Url {
    fn into_url(self) -> (r: Result<Url, UrlError>)
        ensures
            r == Ok::<Url, UrlError>(self),
    {
        Ok(self)
    }
}

impl<'a> IntoUrl for &'a str {
    fn into_url(self) -> (r: Result<Url, UrlError>)
        ensures
            parts_of(r) == url_meaning(self@),
            r matches Err(e) ==> (url_parsed(self@) matches Err(code) && url_error(code) == Some(
                e,
            )),
    {
        Url::parse(self)
    }
}

impl<'a> IntoUrl for &'a String {
    fn into_url(self) -> (r: Result<Url, UrlError>)
        ensures
            parts_of(r) == url_meaning(self@),
            r matches Err(e) ==> (url_parsed(self@) matches Err(code) && url_error(code) == Some(
                e,
            )),
    {
        Url::parse(self.as_str())
    }
}

/// What happens to the queue of requests whose connections were opened.
pub enum Step<P> {
    /// A connection was opened, and its request `P` joined the queue.
    Opened(P),
    /// The message of a connection was made, for the first request in the
    /// queue.
    Made,
}

/// The queue after a history that began with an empty one.
pub open spec fn queue_after<P>(history: Seq<Step<P>>) -> Seq<P>
    decreases history.len(),
{
    if history.len() == 0 {
        seq![]
    } else {
        let queue = queue_after(history.drop_last());
        match history.last() {
            Step::Opened(p) => queue.push(p),
            Step::Made => queue.skip(1),
        }
    }
}

/// The requests that connections were opened for, in order.
pub open spec fn opened<P>(history: Seq<Step<P>>) -> Seq<P>
    decreases history.len(),
{
    if history.len() == 0 {
        seq![]
    } else {
        match history.last() {
            Step::Opened(p) => opened(history.drop_last()).push(p),
            Step::Made => opened(history.drop_last()),
        }
    }
}

/// The requests that messages were made for, in order.
pub open spec fn made<P>(history: Seq<Step<P>>) -> Seq<P>
    decreases history.len(),
{
    if history.len() == 0 {
        seq![]
    } else {
        match history.last() {
            Step::Opened(_) => made(history.drop_last()),
            Step::Made => made(history.drop_last()).push(queue_after(history.drop_last())[0]),
        }
    }
}

/// How many messages were made.
pub open spec fn made_count<P>(history: Seq<Step<P>>) -> nat
    decreases history.len(),
{
    if history.len() == 0 {
        0
    } else {
        made_count(history.drop_last()) + (if history.last() is Made {
            1nat
        } else {
            0nat
        })
    }
}

/// Whether at no time more messages were made than connections were opened.
pub open spec fn one_connection_each<P>(history: Seq<Step<P>>) -> bool
    decreases history.len(),
{
    history.len() > 0 ==> {
        &&& one_connection_each(history.drop_last())
        &&& made_count(history) <= opened(history).len()
    }
}

/// As long as a message is only made for a connection that was opened, there
/// is a request for it, and requests are taken in the order in which their
/// connections were opened: none is lost, repeated or overtaken.
pub proof fn law_requests_keep_their_order<P>(history: Seq<Step<P>>)
    requires
        one_connection_each(history),
    ensures
        made(history) + queue_after(history) == opened(history),
        made(history).len() == made_count(history),
        made_count(history) < opened(history).len() ==> queue_after(history).len() > 0,
    decreases history.len(),
{
    if history.len() > 0 {
        let past = history.drop_last();
        law_requests_keep_their_order(past);
        match history.last() {
            Step::Opened(p) => {
                assert(made(past) + queue_after(past).push(p) =~= (made(past) + queue_after(
                    past,
                )).push(p));
            },
            Step::Made => {
                let queue = queue_after(past);
                assert(queue.len() > 0);
                assert(made(past).push(queue[0]) + queue.skip(1) =~= made(past) + queue);
            },
        }
    }
}

/// When a machine is woken, a request joins the queue exactly when a connection
/// is handed on, and the requests that wait stay as they are: this is the step
/// `Opened` of the queue's history, and where no connection is handed on there
/// is no step.
pub proof fn law_queue_grows_with_connections<C: Connect, R, S>(
    fsm: ClientFsm<C, R, S>,
    received: Result<Notify, TryRecvError>,
    history: Seq<Step<UrlParts>>,
    after: Seq<UrlParts>,
    r: Wakeup<C, ClientFsm<C, R, S>, C::Output>,
)
    requires
        fsm.woken(received, queue_after(history), after, r),
    ensures
        if r matches Wakeup::Respond(response) && response.seed() is Some {
            &&& after.len() == queue_after(history).len() + 1
            &&& after == queue_after(history.push(Step::Opened(after.last())))
        } else {
            after == queue_after(history)
        },
{
    if after.len() > 0 {
        assert(history.push(Step::Opened(after.last())).drop_last() =~= history);
        assert(after.drop_last().push(after.last()) =~= after);
    }
}

/// When the message of a connection is made, it is for the request that has
/// waited longest, which leaves the queue: this is the step `Made` of the
/// queue's history.
pub proof fn law_messages_take_the_first_request(
    history: Seq<Step<UrlParts>>,
    after: Seq<UrlParts>,
    url: Option<UrlParts>,
)
    requires
        queue_after(history).len() > 0,
        after == queue_after(history).skip(1),
        url == Some(queue_after(history)[0]),
    ensures
        after == queue_after(history.push(Step::Made)),
        made(history.push(Step::Made)) == made(history).push(url->0),
{
    assert(history.push(Step::Made).drop_last() =~= history);
}

/// The machine that opens connections goes on, whatever becomes of a request,
/// and a connection that is woken goes on too. Only being told to shut down
/// stops the loop.
pub proof fn law_only_shutdown_stops<C: Connect, R, S>(
    fsm: ClientFsm<C, R, S>,
    received: Result<Notify, TryRecvError>,
    before: Seq<UrlParts>,
    after: Seq<UrlParts>,
    r: Wakeup<C, ClientFsm<C, R, S>, C::Output>,
)
    requires
        fsm.woken(received, before, after, r),
    ensures
        r is Shutdown <==> fsm is Connector && received == Ok::<Notify, TryRecvError>(
            Notify::Shutdown,
        ),
        r matches Wakeup::Respond(response) ==> response.machine() == Some(fsm)
            && response.limit() is None,
{
}

/// A request that got its connection is addressed by its URL: the `Host` header
/// names the host and the port that were connected to, the target is the path of
/// the URL, which begins with a slash, and the rest of the head is untouched.
pub proof fn law_requests_are_addressed_by_their_url<C: Connect, R, S, X>(
    fsm: ClientFsm<C, R, S>,
    url: Url,
    before: Seq<UrlParts>,
    after: Seq<UrlParts>,
    r: Wakeup<C, ClientFsm<C, R, S>, C::Output>,
    head: RequestHead<X>,
)
    requires
        fsm.woken(Ok(Notify::Connect(url)), before, after, r),
        r matches Wakeup::Respond(response) && response.seed() is Some,
    ensures
        ({
            let sent = after.last().addressed(head);
            &&& sent.host matches Some(h) && destination(url@) == Ok::<(Seq<char>, u16), UrlError>(
                (h.hostname@, h.port->0),
            ) && h.port is Some
            &&& path_of(sent.uri) == url@.path()
            &&& url@.path() matches Some(path) && path.len() > 0 && path[0] == '/'
            &&& sent.rest == head.rest
        }),
{
    match url@.scheme_data {
        SchemeDataView::Relative(d) => {
            law_path_begins_with_slash(d.path);
        },
        SchemeDataView::NonRelative(_) => {},
    }
}

/// Where a URL leads is what its fields say: the host by its name, and the port
/// that is given, whatever the host, or else the one that the scheme implies. A
/// URL without a host, or else without a port, is refused with the error for it.
pub proof fn law_urls_lead_where_they_say<I, S>(
    url: &Url,
    r: Result<(String, u16), Error<I, S>>,
)
    requires
        call_ensures(get_host_and_port::<I, S>, (url,), r),
    ensures
        match url.scheme_data {
            SchemeData::NonRelative(_) => r matches Err(Error::Uri(e)) && e == UrlError::EmptyHost,
            SchemeData::Relative(d) => match (d.port, d.default_port) {
                (Some(port), _) => r matches Ok(v) && names(v.0@, d.host) && v.1 == port,
                (None, Some(port)) => r matches Ok(v) && names(v.0@, d.host) && v.1 == port,
                (None, None) => r matches Err(Error::Uri(e)) && e == UrlError::InvalidPort,
            },
        },
{
    lemma_url_is_written(url);
}

/// A request is opened as its URL says: the connector is asked for the host and
/// the port that the URL names, with the scheme of the URL. The stream that it
/// gives is handed on, and the request for it joins the queue, with that host and
/// port and the whole path of the URL. Where it gives none, or the URL leads
/// nowhere, nothing changes.
pub proof fn law_requests_are_opened_as_their_urls_say<C: Connect, R, S>(
    connector: C,
    rx: R,
    url: Url,
)
    ensures
        forall|queue: &mut Vec<UrlParts>, r: Wakeup<C, ClientFsm<C, R, S>, C::Output>|
            #[trigger] call_ensures(
                ClientFsm::<C, R, S>::wakeup,
                (ClientFsm::Connector(connector, rx), Ok(Notify::Connect(url)), queue),
                r,
            ) ==> match url.scheme_data {
                SchemeData::NonRelative(_) => {
                    &&& final(queue)@ == queue@
                    &&& r matches Wakeup::Respond(Response::Wait(m))
                    &&& m == ClientFsm::<C, R, S>::Connector(connector, rx)
                },
                SchemeData::Relative(d) => if d.port is None && d.default_port is None {
                    &&& final(queue)@ == queue@
                    &&& r matches Wakeup::Respond(Response::Wait(m))
                    &&& m == ClientFsm::<C, R, S>::Connector(connector, rx)
                } else {
                    exists|
                        host: &str,
                        port: u16,
                        scheme: &str,
                        socket: Result<C::Output, Error<C::IoError, C::SslError>>,
                    |
                        {
                            &&& #[trigger] call_ensures(
                                C::connect,
                                (&connector, host, port, scheme),
                                socket,
                            )
                            &&& names(host@, d.host)
                            &&& d.port is Some ==> d.port == Some(port)
                            &&& d.port is None ==> d.default_port == Some(port)
                            &&& scheme@ == url.scheme@
                            &&& match socket {
                                Ok(stream) => {
                                    &&& r matches Wakeup::Respond(Response::Spawn(m, s))
                                    &&& m == ClientFsm::<C, R, S>::Connector(connector, rx)
                                    &&& s == stream
                                    &&& final(queue)@.len() == queue@.len() + 1
                                    &&& final(queue)@.drop_last() == queue@
                                    &&& final(queue)@.last().host@ == host@
                                    &&& final(queue)@.last().port == port
                                    &&& final(queue)@.last().path matches RequestUri::AbsolutePath(
                                        path,
                                    ) && spells(path@, d.path@)
                                },
                                Err(_) => {
                                    &&& r matches Wakeup::Respond(Response::Wait(m))
                                    &&& m == ClientFsm::<C, R, S>::Connector(connector, rx)
                                    &&& final(queue)@ == queue@
                                },
                            }
                        }
                },
            },
{
    lemma_url_is_written(&url);
}

/// Only being told to shut down stops the connecting machine, which then gives
/// its connector back. Finding no notification changes nothing, and neither does
/// waking a connection, whatever is found.
pub proof fn law_other_wakeups_change_nothing<C: Connect, R, S>(
    connector: C,
    rx: R,
    conn: S,
    received: Result<Notify, TryRecvError>,
)
    ensures
        forall|queue: &mut Vec<UrlParts>, r: Wakeup<C, ClientFsm<C, R, S>, C::Output>|
            #[trigger] call_ensures(
                ClientFsm::<C, R, S>::wakeup,
                (ClientFsm::Connector(connector, rx), Ok(Notify::Shutdown), queue),
                r,
            ) ==> final(queue)@ == queue@ && (r matches Wakeup::Shutdown(c) && c == connector),
        forall|queue: &mut Vec<UrlParts>, r: Wakeup<C, ClientFsm<C, R, S>, C::Output>|
            #[trigger] call_ensures(
                ClientFsm::<C, R, S>::wakeup,
                (ClientFsm::Connector(connector, rx), Err(TryRecvError::Empty), queue),
                r,
            ) ==> final(queue)@ == queue@ && (r matches Wakeup::Respond(Response::Wait(m)) && m
                == ClientFsm::<C, R, S>::Connector(connector, rx)),
        forall|queue: &mut Vec<UrlParts>, r: Wakeup<C, ClientFsm<C, R, S>, C::Output>|
            #[trigger] call_ensures(
                ClientFsm::<C, R, S>::wakeup,
                (ClientFsm::Socket(conn), received, queue),
                r,
            ) ==> final(queue)@ == queue@ && (r matches Wakeup::Respond(Response::Wait(m)) && m
                == ClientFsm::<C, R, S>::Socket(conn)),
{
}

/// What becomes of a stream that was tried for goes by the result alone: the
/// stream is handed on with its request, and a failure changes nothing.
pub proof fn law_tried_connections_are_handed_on<C: Connect, R, S>(
    connector: C,
    rx: R,
    url: &Url,
    host: String,
    port: u16,
    socket: Result<C::Output, Error<C::IoError, C::SslError>>,
)
    requires
        destination(url@) == Ok::<(Seq<char>, u16), UrlError>((host@, port)),
    ensures
        forall|queue: &mut Vec<UrlParts>, r: Wakeup<C, ClientFsm<C, R, S>, C::Output>|
            #[trigger] call_ensures(
                ClientFsm::<C, R, S>::connected,
                (connector, rx, url, host, port, socket, queue),
                r,
            ) ==> match socket {
                Ok(stream) => {
                    &&& r matches Wakeup::Respond(Response::Spawn(m, s))
                    &&& m == ClientFsm::<C, R, S>::Connector(connector, rx)
                    &&& s == stream
                    &&& final(queue)@.len() == queue@.len() + 1
                    &&& final(queue)@.drop_last() == queue@
                    &&& final(queue)@.last().host@ == host@
                    &&& final(queue)@.last().port == port
                    &&& final(queue)@.last().path matches RequestUri::AbsolutePath(path) && spells(
                        path@,
                        url.scheme_data->Relative_0.path@,
                    )
                },
                Err(_) => {
                    &&& r matches Wakeup::Respond(Response::Wait(m))
                    &&& m == ClientFsm::<C, R, S>::Connector(connector, rx)
                    &&& final(queue)@ == queue@
                },
            },
{
    lemma_url_is_written(url);
}

/// A handler sees the request head with the `Host` header and the target of its
/// message, and with everything else as it was. The message forgets them.
pub proof fn law_handlers_see_addressed_requests<H: Handler>()
    ensures
        forall|message: &mut Message<H>, head: &mut RequestHead<H::Rest>, next: H::Next|
            #[trigger] call_ensures(Message::<H>::on_outgoing, (message, head), next)
                && message.url is Some ==> {
                &&& final(message).url is None
                &&& exists|handler: &mut H, request: &mut RequestHead<H::Rest>|
                    {
                        &&& #[trigger] call_ensures(H::on_request, (handler, request), next)
                        &&& *handler == message.handler
                        &&& *final(handler) == final(message).handler
                        &&& request.uri == message.url->0.path
                        &&& request.host matches Some(host)
                        &&& host.hostname == message.url->0.host
                        &&& host.port == Some(message.url->0.port)
                        &&& request.rest == head.rest
                        &&& *final(request) == *final(head)
                    }
            },
        forall|parts: UrlParts, head: &mut RequestHead<H::Rest>, nothing: ()|
            #[trigger] call_ensures(UrlParts::address::<H::Rest>, (parts, head), nothing) ==> {
                &&& final(head).uri == parts.path
                &&& final(head).host matches Some(host)
                &&& host.hostname == parts.host
                &&& host.port == Some(parts.port)
                &&& final(head).rest == head.rest
            },
{
}

/// The other events of a message reach the method of its handler that is for
/// them, with what they came with, and what the handler answers is the answer.
pub proof fn law_events_reach_their_handler<H: Handler>(response: H::Response, error: H::Error)
    ensures
        forall|message: &mut Message<H>, encoder: &mut H::Encoder, next: H::Next|
            #[trigger] call_ensures(Message::<H>::on_encode, (message, encoder), next) ==> {
                &&& final(message).url == message.url
                &&& exists|handler: &mut H, to: &mut H::Encoder|
                    #[trigger] call_ensures(H::on_request_writable, (handler, to), next) && *handler
                        == message.handler && *final(handler) == final(message).handler && *to
                        == *encoder && *final(to) == *final(encoder)
            },
        forall|message: &mut Message<H>, next: H::Next|
            #[trigger] call_ensures(Message::<H>::on_incoming, (message, response), next) ==> {
                &&& final(message).url == message.url
                &&& exists|handler: &mut H|
                    #[trigger] call_ensures(H::on_response, (handler, response), next) && *handler
                        == message.handler && *final(handler) == final(message).handler
            },
        forall|message: &mut Message<H>, decoder: &mut H::Decoder, next: H::Next|
            #[trigger] call_ensures(Message::<H>::on_decode, (message, decoder), next) ==> {
                &&& final(message).url == message.url
                &&& exists|handler: &mut H, from: &mut H::Decoder|
                    #[trigger] call_ensures(H::on_response_readable, (handler, from), next)
                        && *handler == message.handler && *final(handler) == final(message).handler
                        && *from == *decoder && *final(from) == *final(decoder)
            },
        forall|message: &mut Message<H>, next: H::Next|
            #[trigger] call_ensures(Message::<H>::on_error, (message, error), next) ==> {
                &&& final(message).url == message.url
                &&& exists|handler: &mut H|
                    #[trigger] call_ensures(H::on_error, (handler, error), next) && *handler
                        == message.handler && *final(handler) == final(message).handler
            },
{
}

/// A new message is for the request that has waited longest, which leaves the
/// queue, and its handler is what the factory makes of the control.
pub proof fn law_messages_are_made_in_turn<F: HandlerFactory>(ctrl: F::Control)
    ensures
        forall|context: &mut Context<F>, message: Message<F::Output>|
            #[trigger] call_ensures(Context::<F>::create, (context, ctrl), message)
                && context.queue@.len() > 0 ==> {
                &&& message.url matches Some(parts) && context.queue@ == seq![parts]
                    + final(context).queue@
                &&& exists|factory: &mut F, handler: F::Output|
                    #[trigger] call_ensures(F::create, (factory, ctrl), handler) && *factory
                        == context.factory && *final(factory) == final(context).factory
                        && message.handler == handler
            },
{
    assert forall|context: &mut Context<F>, message: Message<F::Output>|
        #[trigger] call_ensures(Context::<F>::create, (context, ctrl), message)
            && context.queue@.len() > 0 implies message.url matches Some(parts) && context.queue@
        == seq![parts] + final(context).queue@ by {
        assert(context.queue@ =~= seq![context.queue@[0]] + context.queue@.skip(1));
    }
}

/// A client starts with its connector and with no request waiting. A new stream
/// becomes a connection over it, watched for room to write, and without its
/// registration there is none. A connection goes on without a limit until it is
/// finished.
pub proof fn law_clients_begin_and_end<C: Connect, R, S: Conn<C::Output>, F, E>(
    connector: C,
    rx: R,
    factory: F,
    start: (ClientFsm<C, R, S>, Context<F>),
    stream: C::Output,
    refused: E,
    made: Result<Response<ClientFsm<C, R, S>, C::Output>, E>,
    failed: Result<Response<ClientFsm<C, R, S>, C::Output>, E>,
    interest: Interest,
    conn: S,
    begun: Response<ClientFsm<C, R, S>, C::Output>,
    turn: Turn<S>,
    ready: Response<ClientFsm<C, R, S>, C::Output>,
    fsm: ClientFsm<C, R, S>,
    spawned: Response<ClientFsm<C, R, S>, C::Output>,
)
    requires
        call_ensures(with_connector::<C, R, S, F>, (connector, rx, factory), start),
        call_ensures(ClientFsm::<C, R, S>::create::<E>, (stream, Ok(())), made),
        call_ensures(ClientFsm::<C, R, S>::create::<E>, (stream, Err(refused)), failed),
        call_ensures(ClientFsm::<C, R, S>::interest, (), interest),
        call_ensures(ClientFsm::<C, R, S>::begun, (conn,), begun),
        call_ensures(ClientFsm::<C, R, Turn<S>>::ready, (ClientFsm::Socket(turn),), ready),
        call_ensures(ClientFsm::<C, R, S>::spawned, (fsm,), spawned),
    ensures
        start.0 == ClientFsm::<C, R, S>::Connector(connector, rx),
        start.1.queue@.len() == 0,
        start.1.factory == factory,
        made matches Ok(Response::Wait(ClientFsm::Socket(c))) && call_ensures(S::new, (stream,), c),
        failed matches Err(e) && e == refused,
        interest == Interest::Writable,
        begun matches Response::Wait(ClientFsm::Socket(c)) && c == conn,
        match turn {
            Some((c, _)) => ready matches Response::Wait(m) && m == ClientFsm::<C, R, S>::Socket(c),
            None => ready is Done,
        },
        spawned matches Response::Wait(m) && m == fsm,
{
}

/// What turns into a URL is the URL itself, and otherwise the text as
/// `url::Url::parse` takes it apart, or the error that it gives.
pub proof fn law_texts_turn_into_their_urls(
    url: Url,
    input: &str,
    string: &String,
    same: Result<Url, UrlError>,
    of_str: Result<Url, UrlError>,
    of_string: Result<Url, UrlError>,
)
    requires
        call_ensures(<Url as IntoUrl>::into_url, (url,), same),
        call_ensures(<&str as IntoUrl>::into_url, (input,), of_str),
        call_ensures(<&String as IntoUrl>::into_url, (string,), of_string),
    ensures
        same matches Ok(u) && u == url,
        match (of_str, url_parsed(input@)) {
            (Ok(u), Ok(parsed)) => shows(parsed, u),
            (Err(e), Err(code)) => position(e) == code,
            _ => false,
        },
        match (of_string, url_parsed(string@)) {
            (Ok(u), Ok(parsed)) => shows(parsed, u),
            (Err(e), Err(code)) => position(e) == code,
            _ => false,
        },
{
}

} // verus!
