# tarpc (verified core)

The logic of an RPC framework, written in Verus and proved against its contracts.

- `src/` is the verified library:
  - `trace` — trace and span identifiers; child spans of a call.
  - `context` — the request context (deadline, trace context, extensions), the current
    context, and access to the context inside messages (`HasContext`).
  - `extensions` — the type map of context extensions.
  - `message` — requests, responses and client messages.
  - `client` — the client configuration, the map of in-flight requests, and the decisions of
    request dispatch (capacity, staging, cancellation, completion, shutdown).
  - `service` — the rules of service definitions and the names generated from them.
  - `util` — small utility types.
- `app/` holds the asynchronous runtime around it: the dispatch future with its deadline timers,
  the client channel, the in-memory transport, and copies of `Never`, `Message` and
  `ArcService` that carry the trait impls (serde, `Error`, `Display`, `tokio_service::Service`)
  that the library's types cannot carry.
- `tests/` exercises the library through its public API.
