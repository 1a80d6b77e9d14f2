# monoio-quiche

QUIC and HTTP/3 client connections for the `monoio` runtime, on top of `quiche`.

`src/` is a library without a socket. It decides what a connection does next and
is verified with Verus. Each operation is a sequence of steps: a step takes what
has happened since the last one, works on the `quiche` connection, and returns
what to do with the socket. `src/laws.rs` states what holds across steps: that a
waiting reader is woken, that a flush leaves nothing behind, that a handshake is
complete only on an open connection, that reading from a stream loses no byte,
that a connection closes once. `src/settings.rs` makes configurations whose
numbers fit in a packet. `src/quic.rs` and `src/http3.rs` hold what
is relied on of `quiche`, and `src/readiness.rs` what is relied on of wakers.

`app/` is the runtime side: it binds the socket, carries out the actions, sleeps,
and wakes tasks.

`quiche` is built here without a TLS library of its own. A program that uses this
crate picks one, for example by enabling the feature `boringssl-vendored` of
`quiche`.
