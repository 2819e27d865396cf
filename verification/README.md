# speconn

Connect-style RPC over HTTP: envelope framing, error codes, header and
trailer handling, per-request contexts with typed values, and the routing
of requests to unary and server-streaming handlers.

`src/` is the library, verified with Verus:

- `envelope` – frames of a flags byte, a big-endian length and a payload;
  decoding a frame gives back what encoding put in.
- `error` – the status codes, their wire names and HTTP statuses.
- `str_map` – a string-keyed map that keeps insertion order and never holds
  a key twice.
- `client` – call options, header/trailer splitting, response checks and the
  reading of a stream body into messages.
- `context`, `context_key` – the state of one request on the server.
- `router` – `Handling`, the step-by-step machine that decides what runs for
  a request (interceptors, handler, error encoding) and builds the response;
  a stream body it writes reads back, through `client`, as the messages sent.
- `text` – string helpers stated over `Seq<char>`.

`app/` holds what does I/O or needs the codec crate: the `reqwest`
transport, the async client calls, error encoding through `specodec`, the
router that holds handlers and interceptors and runs the machine's actions,
and the Tokio deadline timer.
