//! Listeners, connectors and the protection of streams.

use vstd::prelude::*;

use std::sync::Arc;

use crate::error::{Error, ErrorKind, IoError, Raised};

verus! {

/// A byte stream that HTTP can be spoken over.
pub trait Transport {

}

/// Makes streams to remote addresses.
pub trait Connect {
    /// The streams that are made.
    type Output: Transport;

    /// What goes wrong on a stream.
    type IoError;

    /// What goes wrong in the protection of a stream.
    type SslError;

    /// Connects to a remote address.
    fn connect(&self, host: &str, port: u16, scheme: &str) -> Result<
        Self::Output,
        Error<Self::IoError, Self::SslError>,
    >;
}

/// Takes in the streams that others open.
pub trait Accept {
    /// The streams that come in.
    type Output;

    /// What goes wrong.
    type Error;

    /// The next stream, or `None` where none is waiting.
    fn accept(&self) -> Result<Option<Self::Output>, Self::Error>;
}

/// A listener with the answers that it has given, in order.
pub struct Log<A: Accept> {
    listener: A,
    given: Ghost<Seq<Result<Option<A::Output>, A::Error>>>,
}

impl<A: Accept> Log<A> {
    /// The listener.
    pub closed spec fn listener(&self) -> A {
        self.listener
    }

    /// The answers that the listener has given.
    pub closed spec fn given(&self) -> Seq<Result<Option<A::Output>, A::Error>> {
        self.given@
    }

    /// A log that begins now.
    pub fn new(listener: A) -> (log: Log<A>)
        ensures
            log.listener() == listener,
            log.given() == Seq::<Result<Option<A::Output>, A::Error>>::empty(),
    {
        Log { listener, given: Ghost(Seq::empty()) }
    }

    /// Asks the listener for the next stream.
    pub fn accept(&mut self) -> (answer: Result<Option<A::Output>, A::Error>)
        ensures
            final(self).listener() == old(self).listener(),
            final(self).given() == old(self).given().push(answer),
            call_ensures(A::accept, (&old(self).listener(),), answer),
    {
        let answer = self.listener.accept();
        self.given = Ghost(self.given@.push(answer));
        answer
    }

    /// Ends a log of one answer.
    pub fn into_listener(self) -> (listener: A)
        requires
            self.given().len() == 1,
        ensures
            listener == self.listener(),
    {
        self.listener
    }
}

/// Protects raw streams `R`.
pub trait Ssl<R> {
    /// The protected stream.
    type Stream: Transport;

    /// What goes wrong on a stream.
    type IoError;

    /// What goes wrong in the protection itself.
    type SslError;

    /// Wraps the stream of a client.
    fn wrap_client(&self, stream: R, host: &str) -> Result<
        Self::Stream,
        Error<Self::IoError, Self::SslError>,
    >;

    /// Wraps the stream of a server.
    fn wrap_server(&self, stream: R) -> Result<Self::Stream, Error<Self::IoError, Self::SslError>>;
}

/// Connects without protection.
#[derive(Clone, Debug, Default)]
pub struct HttpConnector;

impl HttpConnector {
    /// Whether a connection may be opened for a URL of the given scheme: only
    /// `http` is served.
    pub fn check_scheme(&self, scheme: &str) -> (r: Result<(), Raised<&'static str>>)
        ensures
            scheme@ == "http"@ ==> r == Ok::<(), Raised<&'static str>>(()),
            scheme@ != "http"@ ==> (r matches Err(e) && e.kind == ErrorKind::InvalidInput
                && e.cause@ == "Invalid scheme for Http"@),
    {
        if scheme.to_owned() == "http".to_owned() {
            Ok(())
        } else {
            Err(Raised { kind: ErrorKind::InvalidInput, cause: "Invalid scheme for Http" })
        }
    }
}

/// Connects with protection by an SSL implementation.
#[derive(Clone, Debug, Default)]
pub struct HttpsConnector<S> {
    ssl: S,
}

impl<S> HttpsConnector<S> {
    /// The SSL implementation in use.
    pub closed spec fn ssl_spec(&self) -> S {
        self.ssl
    }

    /// A connector that uses the given SSL implementation.
    pub fn new(s: S) -> (connector: HttpsConnector<S>)
        ensures
            connector.ssl_spec() == s,
    {
        HttpsConnector { ssl: s }
    }
}

/// Listens on `L` and protects what comes in.
pub struct HttpsListener<L, S> {
    listener: L,
    ssl: S,
}

/// An error of the protection, as the I/O error that a listener reports: one
/// that came from the stream as it is, any other as the cause of a new one.
pub open spec fn as_io<I, S>(e: Error<I, S>) -> IoError<I, Error<I, S>> {
    match e {
        Error::Io(e) => IoError::Reported(e),
        _ => IoError::Raised(Raised { kind: ErrorKind::Other, cause: e }),
    }
}

/// What a listener reports of a stream that came in and was then protected.
pub open spec fn protected<T, I, S>(wrapped: Result<T, Error<I, S>>) -> Result<
    Option<T>,
    IoError<I, Error<I, S>>,
> {
    match wrapped {
        Ok(t) => Ok(Some(t)),
        Err(e) => Err(as_io(e)),
    }
}

/// Turns the result of protecting an incoming stream into what the listener
/// reports.
pub fn report<T, I, S>(wrapped: Result<T, Error<I, S>>) -> (r: Result<
    Option<T>,
    IoError<I, Error<I, S>>,
>)
    ensures
        r == protected(wrapped),
{
    match wrapped {
        Ok(t) => Ok(Some(t)),
        Err(Error::Io(e)) => Err(IoError::Reported(e)),
        Err(e) => Err(IoError::Raised(Raised { kind: ErrorKind::Other, cause: e })),
    }
}

impl<L, S> HttpsListener<L, S> {
    /// The listener underneath.
    pub closed spec fn listener_spec(&self) -> L {
        self.listener
    }

    /// The SSL implementation in use.
    pub closed spec fn ssl_spec(&self) -> S {
        self.ssl
    }

    /// A listener on top of the one that an attempt to bind gave, if it gave
    /// one.
    pub fn new<I>(bound: Result<L, I>, ssl: S) -> (r: Result<HttpsListener<L, S>, I>)
        ensures
            match bound {
                Ok(listener) => r matches Ok(l) && l.listener_spec() == listener && l.ssl_spec()
                    == ssl,
                Err(e) => r == Err::<HttpsListener<L, S>, I>(e),
            },
    {
        match bound {
            Ok(listener) => Ok(HttpsListener { listener, ssl }),
            Err(e) => Err(e),
        }
    }

    /// A listener on top of one that is already bound.
    pub fn with_listener(listener: L, ssl: S) -> (r: HttpsListener<L, S>)
        ensures
            r.listener_spec() == listener,
            r.ssl_spec() == ssl,
    {
        HttpsListener { listener, ssl }
    }

    /// The listener underneath.
    pub fn listener(&self) -> (l: &L)
        ensures
            *l == self.listener_spec(),
    {
        &self.listener
    }
}

impl<L: Accept, S: Ssl<L::Output, IoError = L::Error>> Accept for HttpsListener<L, S> {
    type Output = S::Stream;

    type Error = IoError<L::Error, Error<L::Error, S::SslError>>;

    /// The next stream, protected.
    fn accept(&self) -> (r: Result<Option<Self::Output>, Self::Error>)
        ensures
            exists|raw: Result<Option<L::Output>, L::Error>| #[trigger]
                call_ensures(L::accept, (&self.listener_spec(),), raw) && match raw {
                    Ok(Some(stream)) => exists|wrapped: Result<S::Stream, Error<L::Error, S::SslError>>|
                     #[trigger]
                        call_ensures(S::wrap_server, (&self.ssl_spec(), stream), wrapped) && r
                            == protected(wrapped),
                    Ok(None) => r == Ok::<Option<Self::Output>, Self::Error>(None),
                    Err(e) => r == Err::<Option<Self::Output>, Self::Error>(IoError::Reported(e)),
                },
    {
        let raw = self.listener.accept();
        assert(call_ensures(L::accept, (&self.listener_spec(),), raw));
        match raw {
            Ok(Some(stream)) => {
                let wrapped = self.ssl.wrap_server(stream);
                assert(call_ensures(S::wrap_server, (&self.ssl_spec(), stream), wrapped));
                report(wrapped)
            },
            Ok(None) => Ok(None),
            Err(e) => Err(IoError::Reported(e)),
        }
    }
}

/// Protection by OpenSSL, with a context `C` that its streams share.
#[derive(Debug)]
pub struct Openssl<C> {
    /// The context.
    pub context: Arc<C>,
}

/// What OpenSSL reports of a handshake that failed.
#[derive(Debug, PartialEq, Eq)]
pub enum SslFailure<I, S> {
    /// The stream failed.
    Stream(I),
    /// Anything else.
    Other(S),
}

/// The protocol versions that a context speaks.
#[derive(Clone, Copy, Debug, PartialEq, Eq, Structural)]
pub enum SslMethod {
    /// Every version that the library underneath supports.
    Sslv23,
    /// TLSv1 alone.
    Tlsv1,
}

/// How a certificate or a key is written in its file.
#[derive(Clone, Copy, Debug, PartialEq, Eq, Structural)]
pub enum FileType {
    Pem,
    Asn1,
}

/// Whether the certificate of a peer has to be trusted.
#[derive(Clone, Copy, Debug, PartialEq, Eq, Structural)]
pub enum VerifyMode {
    /// It has to be.
    Peer,
    /// It is not looked at.
    Unverified,
}

/// A context that is yet to be made, and the files that it is to be set up
/// with.
#[derive(Debug, PartialEq, Eq)]
pub struct OpensslPlan<P, K> {
    pub method: SslMethod,
    pub cert: P,
    pub key: K,
}

impl<P, K> OpensslPlan<P, K> {
    /// Starts the setup of the context that was made for the method of the
    /// plan, or gives up where none could be made.
    pub fn begin<C, E>(self, context: Result<C, E>) -> (r: Result<OpensslSetup<C, P, K>, E>)
        ensures
            match context {
                Ok(c) => r matches Ok(setup) && self.begun(c, setup),
                Err(e) => r == Err::<OpensslSetup<C, P, K>, E>(e),
            },
    {
        match context {
            Ok(context) => Ok(
                OpensslSetup::CipherList {
                    context,
                    ciphers: "DEFAULT",
                    cert: self.cert,
                    key: self.key,
                },
            ),
            Err(e) => Err(e),
        }
    }

    /// Whether `setup` is the start of the plan's setup with the given context.
    pub open spec fn begun<C>(self, c: C, setup: OpensslSetup<C, P, K>) -> bool {
        setup matches OpensslSetup::CipherList { context, ciphers, cert, key } && context == c
            && ciphers@ == "DEFAULT"@ && cert == self.cert && key == self.key
    }
}

/// A context on its way to an `Openssl`. Each state names the step that is due
/// and holds what the step and those after it need.
#[derive(Debug)]
pub enum OpensslSetup<C, P, K> {
    /// The ciphers that are allowed are to be set.
    CipherList { context: C, ciphers: &'static str, cert: P, key: K },
    /// The certificate is to be loaded from its file.
    Certificate { context: C, cert: P, file_type: FileType, key: K },
    /// The private key is to be loaded from its file.
    PrivateKey { context: C, key: K, file_type: FileType },
    /// The verification of peers is to be set.
    Verify { context: C, mode: VerifyMode },
    /// Nothing is left to do.
    Ready(Openssl<C>),
}

impl<C, P, K> OpensslSetup<C, P, K> {
    /// The state in which the next step is due.
    pub open spec fn next(self) -> OpensslSetup<C, P, K> {
        match self {
            OpensslSetup::CipherList { context, ciphers, cert, key } => OpensslSetup::Certificate {
                context,
                cert,
                file_type: FileType::Pem,
                key,
            },
            OpensslSetup::Certificate { context, cert, file_type, key } => {
                OpensslSetup::PrivateKey { context, key, file_type: FileType::Pem }
            },
            OpensslSetup::PrivateKey { context, key, file_type } => OpensslSetup::Verify {
                context,
                mode: VerifyMode::Unverified,
            },
            OpensslSetup::Verify { context, mode } => OpensslSetup::Ready(
                Openssl { context: Arc::new(context) },
            ),
            OpensslSetup::Ready(s) => OpensslSetup::Ready(s),
        }
    }

    /// Moves on after the step that is due was taken, and gives up where it
    /// failed.
    pub fn advance<E>(self, done: Result<(), E>) -> (r: Result<OpensslSetup<C, P, K>, E>)
        ensures
            match done {
                Ok(()) => r == Ok::<OpensslSetup<C, P, K>, E>(self.next()),
                Err(e) => r == Err::<OpensslSetup<C, P, K>, E>(e),
            },
    {
        match done {
            Ok(()) => Ok(
                match self {
                    OpensslSetup::CipherList { context, cert, key, .. } => {
                        OpensslSetup::Certificate { context, cert, file_type: FileType::Pem, key }
                    },
                    OpensslSetup::Certificate { context, key, .. } => {
                        OpensslSetup::PrivateKey { context, key, file_type: FileType::Pem }
                    },
                    OpensslSetup::PrivateKey { context, .. } => {
                        OpensslSetup::Verify { context, mode: VerifyMode::Unverified }
                    },
                    OpensslSetup::Verify { context, .. } => {
                        OpensslSetup::Ready(Openssl { context: Arc::new(context) })
                    },
                    OpensslSetup::Ready(s) => OpensslSetup::Ready(s),
                },
            ),
            Err(e) => Err(e),
        }
    }
}

impl<C> Openssl<C> {
    /// Plans an `Openssl` with the given certificate and key files.
    pub fn with_cert_and_key<P, K>(cert: P, key: K) -> (plan: OpensslPlan<P, K>)
        ensures
            plan == (OpensslPlan { method: SslMethod::Sslv23, cert, key }),
    {
        OpensslPlan { method: SslMethod::Sslv23, cert, key }
    }

    /// What becomes of a handshake with a client: a stream that failed under
    /// it counts as an aborted connection.
    pub fn wrap_server<T, I, S>(accepted: Result<T, SslFailure<I, S>>) -> (r: Result<
        T,
        Error<Raised<I>, S>,
    >)
        ensures
            match accepted {
                Ok(stream) => r == Ok::<T, Error<Raised<I>, S>>(stream),
                Err(SslFailure::Stream(e)) => r == Err::<T, Error<Raised<I>, S>>(
                    Error::Io(Raised { kind: ErrorKind::ConnectionAborted, cause: e }),
                ),
                Err(SslFailure::Other(e)) => r == Err::<T, Error<Raised<I>, S>>(Error::Ssl(e)),
            },
    {
        match accepted {
            Ok(stream) => Ok(stream),
            Err(SslFailure::Stream(e)) => Err(
                Error::Io(Raised { kind: ErrorKind::ConnectionAborted, cause: e }),
            ),
            Err(SslFailure::Other(e)) => Err(Error::Ssl(e)),
        }
    }
}

/// Only URLs with the scheme `http` are connected to. For any other scheme the
/// connector says that its input is invalid.
pub proof fn law_only_http_is_connected(
    connector: &HttpConnector,
    scheme: &str,
    r: Result<(), Raised<&'static str>>,
)
    requires
        call_ensures(HttpConnector::check_scheme, (connector, scheme), r),
    ensures
        r is Ok <==> scheme@ == seq!['h', 't', 't', 'p'],
        r matches Err(e) ==> e.kind == ErrorKind::InvalidInput && e.cause@
            == "Invalid scheme for Http"@,
{
    reveal_strlit("http");
    assert("http"@ =~= seq!['h', 't', 't', 'p']);
}

/// Whatever a protecting listener gives out comes from the listener underneath:
/// a stream is one that came in there and was then protected, nothing is given
/// where nothing came in, and an error is one of the two, unchanged where it was
/// an I/O error, and otherwise as the cause of a new one.
pub proof fn law_incoming_streams_are_protected<L: Accept, S: Ssl<L::Output, IoError = L::Error>>(
    listener: &HttpsListener<L, S>,
    r: Result<Option<S::Stream>, IoError<L::Error, Error<L::Error, S::SslError>>>,
)
    requires
        call_ensures(<HttpsListener<L, S> as Accept>::accept, (listener,), r),
    ensures
        r == Ok::<Option<S::Stream>, IoError<L::Error, Error<L::Error, S::SslError>>>(None)
            ==> call_ensures(
            L::accept,
            (&listener.listener_spec(),),
            Ok::<Option<L::Output>, L::Error>(None),
        ),
        r matches Ok(Some(stream)) ==> exists|raw: L::Output| #[trigger]
            call_ensures(
                S::wrap_server,
                (&listener.ssl_spec(), raw),
                Ok::<S::Stream, Error<L::Error, S::SslError>>(stream),
            ) && call_ensures(
                L::accept,
                (&listener.listener_spec(),),
                Ok::<Option<L::Output>, L::Error>(Some(raw)),
            ),
        r matches Err(IoError::Reported(e)) ==> call_ensures(
            L::accept,
            (&listener.listener_spec(),),
            Err::<Option<L::Output>, L::Error>(e),
        ) || exists|raw: L::Output| #[trigger]
            call_ensures(
                S::wrap_server,
                (&listener.ssl_spec(), raw),
                Err::<S::Stream, Error<L::Error, S::SslError>>(Error::Io(e)),
            ) && call_ensures(
                L::accept,
                (&listener.listener_spec(),),
                Ok::<Option<L::Output>, L::Error>(Some(raw)),
            ),
        r matches Err(IoError::Raised(e)) ==> e.kind == ErrorKind::Other && !(e.cause is Io),
        r matches Err(IoError::Raised(e)) ==> exists|raw: L::Output| #[trigger]
            call_ensures(
                S::wrap_server,
                (&listener.ssl_spec(), raw),
                Err::<S::Stream, Error<L::Error, S::SslError>>(e.cause),
            ) && call_ensures(
                L::accept,
                (&listener.listener_spec(),),
                Ok::<Option<L::Output>, L::Error>(Some(raw)),
            ),
{
    let raw = choose|raw: Result<Option<L::Output>, L::Error>| #[trigger]
        call_ensures(L::accept, (&listener.listener_spec(),), raw) && match raw {
            Ok(Some(stream)) => exists|wrapped: Result<S::Stream, Error<L::Error, S::SslError>>|
             #[trigger]
                call_ensures(S::wrap_server, (&listener.ssl_spec(), stream), wrapped) && r
                    == protected(wrapped),
            Ok(None) => r == Ok::<
                Option<S::Stream>,
                IoError<L::Error, Error<L::Error, S::SslError>>,
            >(None),
            Err(e) => r == Err::<
                Option<S::Stream>,
                IoError<L::Error, Error<L::Error, S::SslError>>,
            >(IoError::Reported(e)),
        };
    match raw {
        Ok(Some(stream)) => {
            let wrapped = choose|wrapped: Result<S::Stream, Error<L::Error, S::SslError>>|
             #[trigger]
                call_ensures(S::wrap_server, (&listener.ssl_spec(), stream), wrapped) && r
                    == protected(wrapped);
            match wrapped {
                Ok(t) => {
                    assert(wrapped == Ok::<S::Stream, Error<L::Error, S::SslError>>(t));
                    let given = r->Ok_0->0;
                    assert(call_ensures(
                        S::wrap_server,
                        (&listener.ssl_spec(), stream),
                        Ok::<S::Stream, Error<L::Error, S::SslError>>(given),
                    ));
                },
                Err(Error::Io(e)) => {
                    assert(wrapped == Err::<S::Stream, Error<L::Error, S::SslError>>(Error::Io(e)));
                },
                Err(cause) => {
                    assert(wrapped == Err::<S::Stream, Error<L::Error, S::SslError>>(cause));
                    assert(r matches Err(IoError::Raised(e)) && e.cause == cause && e.kind
                        == ErrorKind::Other);
                    let raised = r->Err_0->Raised_0;
                    assert(call_ensures(
                        S::wrap_server,
                        (&listener.ssl_spec(), stream),
                        Err::<S::Stream, Error<L::Error, S::SslError>>(raised.cause),
                    ));
                },
            }
            assert(raw == Ok::<Option<L::Output>, L::Error>(Some(stream)));
        },
        Ok(None) => {
            assert(raw == Ok::<Option<L::Output>, L::Error>(None));
        },
        Err(e) => {
            assert(raw == Err::<Option<L::Output>, L::Error>(e));
        },
    }
}

/// What came of protecting a stream is what the listener reports: the protected
/// stream, an I/O error as it is, and any other error as the cause of a new one.
pub proof fn law_failed_protection_is_reported<T, I, S>(
    wrapped: Result<T, Error<I, S>>,
    r: Result<Option<T>, IoError<I, Error<I, S>>>,
)
    requires
        call_ensures(report::<T, I, S>, (wrapped,), r),
    ensures
        wrapped matches Ok(stream) ==> r == Ok::<Option<T>, IoError<I, Error<I, S>>>(Some(stream)),
        wrapped matches Err(Error::Io(e)) ==> (r matches Err(IoError::Reported(x)) && x == e),
        wrapped matches Err(cause) ==> (!(cause is Io) ==> (r matches Err(IoError::Raised(x))
            && x.kind == ErrorKind::Other && x.cause == cause)),
{
}

/// A listener that was put on top of another one keeps it.
pub proof fn law_listeners_are_kept<L, S, I>(
    bound: L,
    refused: I,
    ssl: S,
    made: Result<HttpsListener<L, S>, I>,
    failed: Result<HttpsListener<L, S>, I>,
    put: HttpsListener<L, S>,
    connector: HttpsConnector<S>,
)
    requires
        call_ensures(HttpsListener::<L, S>::new::<I>, (Ok(bound), ssl), made),
        call_ensures(HttpsListener::<L, S>::new::<I>, (Err(refused), ssl), failed),
        call_ensures(HttpsListener::<L, S>::with_listener, (bound, ssl), put),
        call_ensures(HttpsConnector::<S>::new, (ssl,), connector),
    ensures
        made matches Ok(m) && m.listener_spec() == bound && m.ssl_spec() == ssl,
        failed matches Err(e) && e == refused,
        put.listener_spec() == bound && put.ssl_spec() == ssl,
        connector.ssl_spec() == ssl,
        forall|l: &L| #[trigger]
            call_ensures(HttpsListener::<L, S>::listener, (&put,), l) ==> *l == bound,
{
}

/// A handshake that succeeds gives its stream. One whose stream failed counts
/// as an aborted connection, over what the stream reported, and any other
/// failure stays one of the protection.
pub proof fn law_handshakes_are_reported<C, T, I, S>(
    accepted: Result<T, SslFailure<I, S>>,
    r: Result<T, Error<Raised<I>, S>>,
)
    requires
        call_ensures(Openssl::<C>::wrap_server::<T, I, S>, (accepted,), r),
    ensures
        accepted matches Ok(stream) ==> (r matches Ok(s) && s == stream),
        accepted matches Err(SslFailure::Stream(e)) ==> (r matches Err(Error::Io(x)) && x.kind
            == ErrorKind::ConnectionAborted && x.cause == e),
        accepted matches Err(SslFailure::Other(e)) ==> (r matches Err(Error::Ssl(x)) && x == e),
{
}

/// From the files to the finished context: it is made for every protocol
/// version, the default ciphers are set, the certificate and then the private
/// key are loaded from their own PEM files, and the verification of peers is
/// switched off. A step that fails ends the setup with its error.
pub proof fn law_contexts_are_set_up_as_planned<C, P, K, E>(
    cert: P,
    key: K,
    c: C,
    e: E,
    plan: OpensslPlan<P, K>,
    steps: Seq<OpensslSetup<C, P, K>>,
    failed: Seq<Result<OpensslSetup<C, P, K>, E>>,
)
    requires
        call_ensures(Openssl::<C>::with_cert_and_key::<P, K>, (cert, key), plan),
        steps.len() == 5,
        call_ensures(
            OpensslPlan::<P, K>::begin::<C, E>,
            (plan, Ok(c)),
            Ok::<OpensslSetup<C, P, K>, E>(steps[0]),
        ),
        forall|i: int|
            0 <= i < 4 ==> call_ensures(
                OpensslSetup::<C, P, K>::advance::<E>,
                (#[trigger] steps[i], Ok(())),
                Ok::<OpensslSetup<C, P, K>, E>(steps[i + 1]),
            ),
        failed.len() == 5,
        call_ensures(OpensslPlan::<P, K>::begin::<C, E>, (plan, Err(e)), failed[0]),
        forall|i: int|
            0 < i < 5 ==> call_ensures(
                OpensslSetup::<C, P, K>::advance::<E>,
                (steps[i - 1], Err(e)),
                #[trigger] failed[i],
            ),
    ensures
        plan.method == SslMethod::Sslv23,
        steps[0] matches OpensslSetup::CipherList { context, ciphers, .. } && context == c
            && ciphers@ == "DEFAULT"@,
        steps[1] matches OpensslSetup::Certificate { context, cert: file, file_type, .. } && context
            == c && file == cert && file_type == FileType::Pem,
        steps[2] matches OpensslSetup::PrivateKey { context, key: file, file_type } && context == c
            && file == key && file_type == FileType::Pem,
        steps[3] matches OpensslSetup::Verify { context, mode } && context == c && mode
            == VerifyMode::Unverified,
        steps[4] matches OpensslSetup::Ready(openssl) && *openssl.context == c,
        forall|i: int| 0 <= i < 5 ==> (#[trigger] failed[i] matches Err(x) && x == e),
{
    assert(call_ensures(
        OpensslSetup::<C, P, K>::advance::<E>,
        (steps[0], Ok(())),
        Ok::<OpensslSetup<C, P, K>, E>(steps[1]),
    ));
    assert(call_ensures(
        OpensslSetup::<C, P, K>::advance::<E>,
        (steps[1], Ok(())),
        Ok::<OpensslSetup<C, P, K>, E>(steps[2]),
    ));
    assert(call_ensures(
        OpensslSetup::<C, P, K>::advance::<E>,
        (steps[2], Ok(())),
        Ok::<OpensslSetup<C, P, K>, E>(steps[3]),
    ));
    assert(call_ensures(
        OpensslSetup::<C, P, K>::advance::<E>,
        (steps[3], Ok(())),
        Ok::<OpensslSetup<C, P, K>, E>(steps[4]),
    ));
}

/// A context that was planned with a certificate and a key file is ready after
/// exactly these steps, in this order: the default ciphers are set, the
/// certificate and then the private key are loaded, each from its own file, which
/// is in PEM, and the verification of peers is switched off. It is the context
/// that the setup began with.
pub proof fn law_setup_takes_every_step<C, P, K>(
    plan: OpensslPlan<P, K>,
    context: C,
    first: OpensslSetup<C, P, K>,
)
    requires
        plan.begun(context, first),
    ensures
        first matches OpensslSetup::CipherList { context: c, ciphers, .. } && c == context
            && ciphers@ == "DEFAULT"@,
        first.next() == (OpensslSetup::<C, P, K>::Certificate {
            context,
            cert: plan.cert,
            file_type: FileType::Pem,
            key: plan.key,
        }),
        first.next().next() == (OpensslSetup::<C, P, K>::PrivateKey {
            context,
            key: plan.key,
            file_type: FileType::Pem,
        }),
        first.next().next().next() == (OpensslSetup::<C, P, K>::Verify {
            context,
            mode: VerifyMode::Unverified,
        }),
        first.next().next().next().next() == OpensslSetup::<C, P, K>::Ready(
            Openssl { context: Arc::new(context) },
        ),
{
}

} // verus!
