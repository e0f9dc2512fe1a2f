# lcnc_web

A bridge between a browser client and a LinuxCNC controller.

- `src/` is the verified library: request routing (`router`), the HTTP
  endpoints reduced to the replies they compute (`endpoints`), the websocket
  handshake, the client configuration, the controller state with its
  start-up state machine (`cnc::state`), the session loop decisions
  (`cnc::handler`), and the framing of the controller's line protocol
  (`cnc::protocol`). Outside crates (base64, sha1, headers, regex) are
  called through small trusted wrappers whose contracts are stated in
  `encoding`, `endpoints::upgrade` and `router`.
- `app/` is the program around it: argument parsing, the HTTP server,
  websocket and TCP I/O, ssh, logging and JSON. It performs the actions the
  library decides and reports back what happened.
- `tests/` run the library on concrete values.
