# fluxus

The verified core of a network tunnel server: clients connect, ask for a
TCP server to be opened for them, and the bytes of the people connecting to
that server are relayed to the client over the tunnel, compressed when that
pays off.

- `src/` is the library, proved with Verus: HTTP header and request-line
  parsing, number parsing, the responses the HTTP side sends by itself,
  the id-to-channel table of a server's clients, the bounded ring of
  reusable buffers, the compression bookkeeping of a relayed connection,
  and the decisions taken on each request of a client (rights, passwords,
  payload sizes, reported ports, routing).
- `app/` holds the tasks that move bytes between sockets and channels and
  call the library for every decision.
- `tests/` exercises the library on concrete values.
