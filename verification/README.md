# summer_boot

The HTTP/2 and listener core of the summer-boot web framework, verified with
Verus.

- `src/` is the verified library:
  - `time`: spans of time as plain values, and deadlines measured from a
    clock reading;
  - `http2::config`: keep-alive policy and client timeouts;
  - `http2::error`: payload and dispatch errors and their sources;
  - `http2`: the request payload and the handshake timeout;
  - `http2::dispatcher`: request dispatch and keep-alive pings, as a state
    machine driven by what the connection produced;
  - `tcp`, `tcp::tcp_listener`, `tcp::unix`: listener lifecycle, listen
    information, listener addresses as URLs, and what to do with each
    incoming connection.
- `app/` holds the I/O around it: the futures that poll `h2`, tokio timers
  and sockets and hand the outcomes to the library, error formatting, and
  the async listeners.
- `tests/` runs the library on concrete values.
