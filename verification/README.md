# signal-cli-api

A REST + WebSocket API for [signal-cli](https://github.com/AsamK/signal-cli), with its
logic proved against its contracts.

- `src/` is the proved library. `routes/` holds one function per REST endpoint that
  builds the JSON-RPC call to signal-cli (method, parameters, and how a success is
  answered), each with a contract that pins the parameters exactly, the steps that
  decide whether a request is refused before any call, `finish_call`, which counts a
  call and answers it, and the OpenAPI description. `json.rs` models JSON values as
  maps and sequences; `rpc.rs` builds requests and reads responses; `spill.rs` plans
  the writing of data-URI attachments and base64 avatars to files and puts the file
  paths in their place, with the law that nothing else in a request changes;
  `state.rs` holds the counters and their Prometheus text; `daemon.rs` and `cli.rs`
  hold what the service says and decides when it starts, while signal-cli starts up,
  and for the watchdog heartbeat.
- `app/` is the server around it: axum routes, the connection to signal-cli, files,
  processes and signals.
- `tests/` runs the library on concrete requests.

Not served: webhooks (`/v1/webhooks`), the server-sent event stream
(`/v1/events/{number}`), typing indicators, reactions, receipts and identities. The
OpenAPI description lists `/v1/webhooks` and `/v1/events/{number}`, but the router does
not mount them; `WebhookConfig::accepts_event` states the event filter a webhook would
apply.
