# rtun

A TCP tunnel whose sessions survive a lost connection. A client tunnels an application to a server,
which connects to the application server that the client named. When the connection between client
and server breaks, the server suspends the session and the client resumes it.

- `src/` is the protocol, written in Verus: frames (`frame`, `little_endian`), messages
  (`protocol`), sessions and their numbers (`session`, `random`), the decisions of the two ends
  (`server`, `client`, `clock`), and what holds of both together (`tunnel`). It does no input or
  output.
- `app/` holds the sockets, the threads and the serialization of messages. `rtun server` and
  `rtun client` are its two programs.
- `tests/` exercises the library.

A frame is a machine word with the size of the payload, least significant byte first, and then the
payload, which is a message in MessagePack.
