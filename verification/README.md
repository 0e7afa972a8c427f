# flowfabric

The client-side logic of the FlowFabric execution engine, verified with Verus.

- `src/` is the library. It never performs input or output: it says what to send to
  Valkey, to the admin server or to a storage backend, and what the answers mean. Every
  function states in its contract what it returns, over mathematical models of its
  arguments; proof functions whose names start with `law_` state what holds of several
  of them together.
- `app/` is the client around it: connections, timers, tasks, HTTP, and the impls of
  outside traits.
- `tests/` runs the library, with the outside crates linked.

## Where to start

| To see | read |
| --- | --- |
| what is sent in a call | `functions/`, `keys.rs`, `suspend.rs`, `cursor.rs` |
| that the keys of a call share a slot | `slots.rs` |
| how replies are read | `value.rs`, `shown.rs`, `result.rs`, `reply.rs`, `stream.rs`, `stream_tail.rs` |
| the errors, their classes and their words | `error.rs`, `engine_error.rs`, `sdk_error.rs` |
| how a worker connects and polls | `preamble.rs`, `worker.rs`, `claim.rs` |
| when a lease counts as healthy, and what ends a task | `task.rs` |
| how the function library is loaded | `loader.rs`, `library.rs` |
| the circuit breaker and the other layers | `layer/` |
| the handler loop | `runtime.rs` |

## What is trusted

The functions marked `external_body` call an outside crate or the standard library, and
their contracts are taken as true. Each says in its doc comment what is claimed of the
function it calls. They parse identities (`ids.rs`) and hash tags (`partition.rs`),
digest names (`hash.rs`), write JSON strings (`json.rs`), decode bytes and quote text
(`text.rs`), show binary data (`shown.rs`), encode handles (`task.rs`), decode stored
edges (`snapshot.rs`), build URLs and headers (`admin.rs`), compare tokens
(`signal_bridge.rs`) and types (`runtime/registry.rs`).
