# rs_connections

A client connection library, verified with Verus.

- `src/` holds the library: the configuration and builder (`builder.rs`), the
  connection statuses and their numeric codes (`base.rs`), the errors and their
  messages (`error.rs`), endpoint and URL text (`address.rs`), the connection
  handle (`conn.rs`) and the state machine of a websocket connection
  (`inner_websocket.rs`), which takes every decision of a running connection:
  status changes, heartbeat and silence checks (at the configured heartbeat
  time), the events to emit, what to do with each received
  frame, the retry budget of a reconnect, and what connect, disconnect, send and
  receive report.
- `app/` is the program around it: the socket, the background tasks, the event
  emitter and the async `ConnectionInterface`, all of which perform what the
  state machine decides and report back to it.
- `tests/` runs the library on concrete values.
