# wspc

A callback-driven JSON-RPC 2.0 service over WebSockets, with its rules
verified by Verus.

- `src/` is the verified library: the message types and the standard error
  answers (`types`), JSON values as plain data (`value`), the errors of
  argument extraction and their answers (`error`), handler arguments and
  answers (`callback`), how a request, a notification and a batch are
  answered (`dispatch`), the rooms a connection has joined (`rooms`), and
  the rules by which `#[response(..)]` attributes pick an error answer's
  code and text (`response_attrs`).
- `app/` runs the service on Axum and Tokio: the application with its
  handler, room and connection registries, the per-connection reader and
  writer tasks, and the serde forms of the message types. It calls the
  library for every decision about what to answer and which rooms to leave.
- `tests/` exercises the library on concrete values.
