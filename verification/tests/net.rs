use std::cell::RefCell;
use std::sync::Arc;

use hyper::error::{Error, ErrorKind, IoError, Raised};
use hyper::net::{
    report, Accept, FileType, HttpConnector, HttpsConnector, HttpsListener, Openssl,
    OpensslPlan, OpensslSetup, Ssl, SslFailure, SslMethod, Transport, VerifyMode,
};

#[test]
fn only_http_is_served() {
    let connector = HttpConnector::default();
    assert_eq!(connector.check_scheme("http"), Ok(()));
    for scheme in ["https", "HTTP", "", "http "] {
        assert_eq!(
            connector.check_scheme(scheme),
            Err(Raised { kind: ErrorKind::InvalidInput, cause: "Invalid scheme for Http" })
        );
    }
}

#[derive(Debug, PartialEq)]
struct Protected(u8);

impl Transport for Protected {}

/// Gives out what it holds, the last first.
struct Incoming(RefCell<Vec<Result<Option<u8>, &'static str>>>);

impl Accept for Incoming {
    type Output = u8;
    type Error = &'static str;

    fn accept(&self) -> Result<Option<u8>, &'static str> {
        self.0.borrow_mut().pop().unwrap()
    }
}

/// Fails on the streams 1 and 2.
struct Guard;

impl Ssl<u8> for Guard {
    type Stream = Protected;
    type IoError = &'static str;
    type SslError = u32;

    fn wrap_client(&self, stream: u8, _host: &str) -> Result<Protected, Error<&'static str, u32>> {
        Ok(Protected(stream))
    }

    fn wrap_server(&self, stream: u8) -> Result<Protected, Error<&'static str, u32>> {
        match stream {
            1 => Err(Error::Io("reset")),
            2 => Err(Error::Ssl(7)),
            n => Ok(Protected(n)),
        }
    }
}

#[test]
fn incoming_streams_are_protected() {
    let raw = vec![Err("gone"), Ok(None), Ok(Some(2)), Ok(Some(1)), Ok(Some(9))];
    let listener = HttpsListener::with_listener(Incoming(RefCell::new(raw)), Guard);
    assert_eq!(listener.accept(), Ok(Some(Protected(9))));
    assert_eq!(listener.accept(), Err(IoError::Reported("reset")));
    assert_eq!(
        listener.accept(),
        Err(IoError::Raised(Raised { kind: ErrorKind::Other, cause: Error::Ssl(7) }))
    );
    assert_eq!(listener.accept(), Ok(None));
    assert_eq!(listener.accept(), Err(IoError::Reported("gone")));
    assert_eq!(listener.listener().0.borrow().len(), 0);
}

#[test]
fn a_listener_needs_something_to_listen_on() {
    let bound: Result<Incoming, &str> = Ok(Incoming(RefCell::new(vec![Ok(Some(3))])));
    let listener = HttpsListener::new(bound, Guard).ok().unwrap();
    assert_eq!(listener.accept(), Ok(Some(Protected(3))));
    let taken: Result<Incoming, &str> = Err("address in use");
    assert_eq!(HttpsListener::new(taken, Guard).err(), Some("address in use"));
}

#[test]
fn errors_of_the_protection_are_reported() {
    let none: Result<u8, Error<u8, u8>> = Ok(4);
    assert_eq!(report(none), Ok(Some(4)));
    let stream: Result<u8, Error<u8, u8>> = Err(Error::Io(3));
    assert_eq!(report(stream), Err(IoError::Reported(3)));
    let url: Result<u8, Error<u8, u8>> = Err(Error::Uri(hyper::uri::UrlError::EmptyHost));
    assert_eq!(
        report(url),
        Err(IoError::Raised(Raised {
            kind: ErrorKind::Other,
            cause: Error::Uri(hyper::uri::UrlError::EmptyHost),
        }))
    );
}

#[test]
fn a_connector_keeps_its_protection() {
    let connector = HttpsConnector::new("mine");
    assert_eq!(format!("{:?}", connector), "HttpsConnector { ssl: \"mine\" }");
}

#[test]
fn a_context_is_set_up_step_by_step() {
    let plan = Openssl::<&str>::with_cert_and_key("/home/foo/cert", "/home/foo/key");
    assert_eq!(
        plan,
        OpensslPlan { method: SslMethod::Sslv23, cert: "/home/foo/cert", key: "/home/foo/key" }
    );
    let mut setup = plan.begin::<&str, u8>(Ok("context")).unwrap();
    let mut steps: Vec<String> = Vec::new();
    loop {
        match &setup {
            OpensslSetup::CipherList { context, ciphers, .. } => {
                steps.push(format!("{} ciphers {}", context, ciphers));
            }
            OpensslSetup::Certificate { context, cert, file_type, .. } => {
                assert_eq!(*file_type, FileType::Pem);
                steps.push(format!("{} cert {}", context, cert));
            }
            OpensslSetup::PrivateKey { context, key, file_type } => {
                assert_eq!(*file_type, FileType::Pem);
                steps.push(format!("{} key {}", context, key));
            }
            OpensslSetup::Verify { context, mode } => {
                assert_eq!(*mode, VerifyMode::Unverified);
                steps.push(format!("{} verify", context));
            }
            OpensslSetup::Ready(openssl) => {
                assert_eq!(openssl.context, Arc::new("context"));
                break;
            }
        }
        setup = setup.advance::<u8>(Ok(())).unwrap();
    }
    assert_eq!(
        steps,
        vec![
            "context ciphers DEFAULT",
            "context cert /home/foo/cert",
            "context key /home/foo/key",
            "context verify",
        ]
    );
}

#[test]
fn a_failed_step_ends_the_setup() {
    let plan = Openssl::<u8>::with_cert_and_key(1, 2);
    assert_eq!(plan.begin::<u8, &str>(Err("no context")).err(), Some("no context"));
    let plan = Openssl::<u8>::with_cert_and_key(1, 2);
    let setup = plan.begin::<u8, &str>(Ok(0)).unwrap();
    assert_eq!(setup.advance(Err("no ciphers")).err(), Some("no ciphers"));
}

#[test]
fn failed_handshakes() {
    let good: Result<u8, SslFailure<u8, u8>> = Ok(1);
    assert_eq!(Openssl::<()>::wrap_server(good), Ok(1));
    let stream: Result<u8, SslFailure<u8, u8>> = Err(SslFailure::Stream(2));
    assert_eq!(
        Openssl::<()>::wrap_server(stream),
        Err(Error::Io(Raised { kind: ErrorKind::ConnectionAborted, cause: 2 }))
    );
    let other: Result<u8, SslFailure<u8, u8>> = Err(SslFailure::Other(3));
    assert_eq!(Openssl::<()>::wrap_server(other), Err(Error::Ssl(3)));
}
