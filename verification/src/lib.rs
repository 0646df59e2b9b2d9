//! The client and server state machines of an HTTP library, with the URLs,
//! connectors and listeners that they work on.
//!
//! Everything here decides and computes. Sockets, threads and the event loop
//! belong to the program around it, which feeds what happened to the machines
//! and carries out what they answer.

pub mod client;
pub mod error;
pub mod header;
pub mod http;
pub mod machine;
pub mod net;
pub mod server;
pub mod uri;
