# tower-dtls

Request and response messages over [DTLS](https://en.wikipedia.org/wiki/Datagram_Transport_Layer_Security)
datagrams, for services with the interface of [tower](https://github.com/tower-rs/tower).

The library in `src/` is written in [Verus](https://github.com/verus-lang/verus): every function
states what it does, and the statements are proved. It holds the encoding of messages, the codec and
the streams that use it, the table of a server's clients, the decisions of the tasks that serve a
connection, and the two ends of a request. `src/laws.rs` states what holds of these parts together,
up to a request that is answered.

Sockets, tasks and timers are in `app/`, which runs a client or a server around the library:

```shell
tower-dtls server 0.0.0.0:9999
tower-dtls client 127.0.0.1:9999
```

What the proofs rest on besides is stated where it is used: the behaviour of `bytes::BytesMut` in
`src/buffer.rs`, and the encoding of numbers and texts by `bincode` in `src/wire.rs`.
