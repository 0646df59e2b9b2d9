# hyper

The state machines of an HTTP client and server, verified with Verus.

- `src/` decides and computes. `uri` takes URLs apart and writes hosts and paths.
  `client` opens connections for requests and addresses the requests by their
  URLs. `server` takes in connections and keeps them going. `net` holds the
  connectors, listeners and the set-up of SSL that both work with. `machine` is
  the vocabulary in which a state machine talks to the event loop.
- `app/` holds the sockets, the threads and the event loop. It feeds what
  happened to the machines and carries out what they answer. The message layer,
  which reads and writes HTTP on a connection, plugs in through the two `Conn`
  traits there.
- `tests/` runs the library on concrete values.

Parsing a URL and writing an IP address are left to the `url` crate. The contracts
of the functions that call it are believed, and marked so. So is that
`Duration::from_secs` of the standard library gives one length of time for one
number of seconds.
