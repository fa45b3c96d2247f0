# hyper

The protocol core of an HTTP/1 server, verified with Verus.

The library decides; it performs no I/O of its own. Reading, writing and the codecs of message
bodies are handed to it as functions that take the transport and give it back, so that contracts
say what reaches the transport and what is taken from it. They hold whatever those functions
answer, with two exceptions: to end a response, what is left of it must be a buffer of which no
more has gone than there was (`finishes`), and a write must take no more than it is offered, and
some of it unless it fails (`takes_bytes`).

- `http` holds message heads, keep-alive, the receive buffer, and the transaction that a handler
  sees. `http::conn` is the connection, turn by turn; `http::h1::txn` is one request and its
  response.
- `http::laws`, `http::h1::laws` and `server::laws` state what holds of every connection, every
  transaction and every handler of a server.
- `server` is the configuration of a server and its handlers' side of a transaction;
  `server::limits` is how many connections it keeps open, and for how long idle ones.
- `app/` runs the library over sockets.
