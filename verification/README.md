# plexus_core

The core of a Plexus RPC hub, with its decisions stated as contracts and
proved by Verus.

- `src/` is the verified library: error codes and their categories, the
  bidirectional request protocol (request and response types, timeouts,
  the pending-response registry, how a wait ends and how a response
  answers a confirmation, prompt or selection), the plugin registry and
  the routing of `namespace.method` calls, child-router capabilities, the
  sorted method listing, the subscription methods a hub registers, the
  test session validator, and the plans of the debug endpoints.
  `src/foreign.rs` holds the few trusted calls into std and outside
  crates (UUID v5, system clock, JSON member lookup).
- `app/` is the async runtime around it: serde wire formats, tokio
  streams and channels (including the send that hands a response to the
  request waiting on it), the async traits that transports and plugins
  implement, a dynamic hub over the library's routing, and the debug
  endpoints that pace the planned streams.
- `tests/` exercises the library from outside.
