# tango_bridge

The decision logic of the Tango desktop bridge, verified with Verus.

- `src/pump.rs`: the four byte pumps between a browser WebSocket and the ADB
  socket, as a state machine, with the proof that bytes are forwarded
  unchanged and in order.
- `src/tray.rs`: the tray application's event-loop callback as a state
  machine (exit, menu, tray-icon clicks), with its laws.
- `src/proxy.rs`: where unmatched requests are forwarded, and how failures
  are answered.
- `src/cloudflared.rs`: the connector-installation endpoint's command line
  and answers.
- `src/config.rs`: addresses, names, allowed origins, and the start-up
  browser rule.

`app/` holds the program around the library: the HTTP server, the sockets,
the windowing event loop and the tray icon.
